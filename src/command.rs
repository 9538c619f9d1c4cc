use vstd::prelude::*;

verus! {

/// The bot's own mention, which clients may append to a command.
pub const BOT_NAME: &'static str = "@RustWeather77Bot";

/// What a chat message asks for.
#[derive(Debug, Eq, PartialEq, Clone)]
pub enum Command {
    Default,
    FindCity,
    SetDefaultCity,
    Start,
    Cancel,
    Schedule,
    CurrentDefaultCity,
    CurrentOffset,
    UnSchedule,
    SetOffset,
    UnknownCommand(String),
}

/// What `str::replace(s, mention, "")` returns.
pub uninterp spec fn mention_removed(s: Seq<char>, mention: Seq<char>) -> Seq<char>;

/// What `str::trim` returns.
pub uninterp spec fn trimmed(s: Seq<char>) -> Seq<char>;

/// Relies on `str::replace`: every occurrence of `mention` in `s` is removed.
#[verifier::external_body]
fn remove_mention(s: &str, mention: &str) -> (r: String)
    ensures
        r@ == mention_removed(s@, mention@),
{
    s.replace(mention, "")
}

/// Relies on `str::trim`: leading and trailing whitespace is removed.
#[verifier::external_body]
pub(crate) fn trim_text(s: &str) -> (r: String)
    ensures
        r@ == trimmed(s@),
{
    s.trim().to_string()
}

/// The command that a whole (mention-free, trimmed) message names, if it is one of
/// the fixed tokens.
pub open spec fn token_command(s: Seq<char>) -> Option<Command> {
    if s == "/start"@ {
        Some(Command::Start)
    } else if s == "/find_city"@ {
        Some(Command::FindCity)
    } else if s == "/default"@ {
        Some(Command::Default)
    } else if s == "/set_default_city"@ {
        Some(Command::SetDefaultCity)
    } else if s == "/cancel"@ {
        Some(Command::Cancel)
    } else if s == "/schedule"@ {
        Some(Command::Schedule)
    } else if s == "/unschedule"@ {
        Some(Command::UnSchedule)
    } else if s == "/set_offset"@ {
        Some(Command::SetOffset)
    } else if s == "/current_default_city"@ {
        Some(Command::CurrentDefaultCity)
    } else if s == "/current_offset"@ {
        Some(Command::CurrentOffset)
    } else {
        None
    }
}

/// The command that message text `s` gives once `mention` is removed and it is trimmed.
pub open spec fn parsed_command(r: Command, s: Seq<char>, mention: Seq<char>) -> bool {
    let t = trimmed(mention_removed(s, mention));
    match token_command(t) {
        Some(c) => r == c,
        None => r matches Command::UnknownCommand(u) && u@ == t,
    }
}

fn is_token(s: &String, token: &str) -> (r: bool)
    ensures
        r == (s@ == token@),
{
    let t = String::from_str(token);
    *s == t
}

impl Command {
    /// Reads a message as a command; this never fails: text that is no command
    /// token becomes `UnknownCommand` holding the mention-free, trimmed text.
    pub fn parse(text: &str, mention: &str) -> (r: Command)
        ensures
            parsed_command(r, text@, mention@),
    {
        let without = remove_mention(text, mention);
        let t = trim_text(without.as_str());
        if is_token(&t, "/start") {
            Command::Start
        } else if is_token(&t, "/find_city") {
            Command::FindCity
        } else if is_token(&t, "/default") {
            Command::Default
        } else if is_token(&t, "/set_default_city") {
            Command::SetDefaultCity
        } else if is_token(&t, "/cancel") {
            Command::Cancel
        } else if is_token(&t, "/schedule") {
            Command::Schedule
        } else if is_token(&t, "/unschedule") {
            Command::UnSchedule
        } else if is_token(&t, "/set_offset") {
            Command::SetOffset
        } else if is_token(&t, "/current_default_city") {
            Command::CurrentDefaultCity
        } else if is_token(&t, "/current_offset") {
            Command::CurrentOffset
        } else {
            Command::UnknownCommand(t)
        }
    }
}

impl std::str::FromStr for Command {
    type Err = ();

    fn from_str(s: &str) -> Result<Command, ()> {
        Ok(Command::parse(s, BOT_NAME))
    }
}

} // verus!
