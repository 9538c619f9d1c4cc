use vstd::prelude::*;

verus! {

/// One weather condition of a report.
#[derive(Debug, Clone, PartialEq, Eq)]
pub struct WeatherInfo {
    pub id: u32,
    pub main: String,
    pub description: String,
    pub icon: String,
}

/// Cloudiness, in percent.
#[derive(Debug, Clone, PartialEq, Eq)]
pub struct Clouds {
    pub all: u32,
}

/// Country, sunrise and sunset of a report.
#[derive(Debug, Clone, PartialEq, Eq)]
pub struct Sys {
    pub sys_type: u32,
    pub message: i64,
    pub country: String,
    pub sunrise: u32,
    pub sunset: u32,
}

/// The description that a report is shown with: that of its first condition, or
/// nothing where it lists none.
pub fn headline(weather: &Vec<WeatherInfo>) -> (r: String)
    ensures
        weather@.len() == 0 ==> r@ == Seq::<char>::empty(),
        weather@.len() > 0 ==> r@ == weather@[0].description@,
{
    if weather.len() == 0 {
        String::new()
    } else {
        weather[0].description.clone()
    }
}

} // verus!
