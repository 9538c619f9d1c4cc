pub mod command;
pub mod processor;
pub mod schedule;
pub mod weather;
