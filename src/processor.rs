use vstd::prelude::*;
use crate::command::{BOT_NAME, Command, parsed_command, trim_text, trimmed};
use crate::schedule::{
    lemma_unchanged_offset_keeps_trigger, bounded_value, build_trigger, decimal, push_decimal, push_signed_decimal, read_integer,
    reschedule_trigger, signed_decimal, to_utc_hour, trigger_text, wrap_hour,
};

verus! {

pub const CANCELED: &'static str = "Your operation was canceled";
pub const FIND_CITY_PROMPT: &'static str = "Write a city, let me see if I can find it";
pub const NO_DEFAULT_CITY: &'static str = "You do not have default city";
pub const SETTING_DEFAULT_CITY: &'static str = "Setting default city...";
pub const NEEDS_OFFSET: &'static str = "Your can not schedule without offset set. Please execute /set_offset";
pub const WHICH_CITY: &'static str = "What city would you like to schedule ?";
pub const UNSCHEDULED: &'static str = "Your forecasts were unscheduled";
pub const NOT_A_NUMBER: &'static str = "That's not a positive number in the range. The command was cancelled";
pub const TIME_PROMPT: &'static str = "What time would you like to schedule ? (format hour:minutes in range 0-23:0-59)";
pub const CITY_UPDATED: &'static str = "Your default city was updated";
pub const FOUND_CITIES: &'static str = "I found these cities. Put a number to select one\n\n";
pub const OFFSET_PROMPT: &'static str = "Do you have any offset respect UTC ?\n 
                (0 if your timezone is the same as UTC, 2 if UTC + 2 , -2 if UTC - 2, [-11,12])";
pub const NOT_AN_OFFSET: &'static str = "That's not a valid offset, it has to be a number in range [-11, 12].\n
            If your timezone is UTC + 2 put 2, if you have UTC - 10 put -10, 0 if you have UTC timezone.\n
            The command was cancelled";
pub const NOT_A_TIME: &'static str = "That's not a well formatted time, it has to be formatted with this format `hour:minutes` being hour a number in range [0,23] 
            and minutes a number in range [0,59]. The command was cancelled";
pub const START_TEXT: &'static str = "This bot provides weather info around the globe.\nIn order to use it put the command:\n
        /find_city Ask weather info from any city worldwide.\n
        /set_default_city Set your default city.\n
        /default Provides weather info from default city.\n
        It would be really greatful if you take a look at my GitHub, look how much work I invested into this bot.\n
        If you like this bot, consider giving me a star on GitHub or if you would like to self run it, fork the project please.\n
        <a href=\"https://github.com/pxp9/weather_bot_rust\">RustWeatherBot GitHub repo</a>";

/// Where a chat stands in its dialogue.
#[derive(Clone, Copy, Debug, PartialEq, Eq, Structural)]
pub enum ClientState {
    Initial,
    FindCity,
    SetCity,
    Time,
    FindCityNumber,
    SetCityNumber,
    Offset,
    ScheduleCity,
    ScheduleCityNumber,
}

/// The stored record of one chat with one user.
pub struct Chat {
    pub id: i64,
    pub user_id: u64,
    pub state: ClientState,
    pub default_city_id: Option<i32>,
    /// A pending search text, or a pending city id in decimal, depending on `state`.
    pub selected: Option<String>,
    pub offset: Option<i8>,
}

/// A city, with its coordinates as the decimal text they are shown with.
pub struct City {
    pub id: i32,
    pub name: String,
    pub state: String,
    pub country: String,
    pub lat: String,
    pub lon: String,
}

/// One row of a city search.
pub struct CityRow {
    pub name: String,
    pub country: String,
    pub state: String,
}

/// A stored daily delivery.
pub struct StoredForecast {
    pub id: i32,
    pub chat_id: i64,
    pub user_id: u64,
    pub city_id: i32,
    pub cron_expression: String,
}

/// The key by which a queued delivery job is found again.
pub struct JobKey {
    pub cron_expression: String,
    pub chat_id: i64,
    pub user_id: u64,
    pub city_id: i32,
}

/// One side effect to perform, in order.
pub enum Action {
    SendTyping,
    /// Reply in the chat with this (already greeted) text.
    SendMessage(String),
    ModifyState(ClientState),
    ModifySelected(String),
    ModifyOffset(i8),
    ModifyDefaultCity(i32),
    /// Store a new trigger for the forecast with this id, with its next firing time.
    UpdateForecast(i32, String),
    /// Store the daily forecast of this city with this trigger, with its next firing time.
    UpsertForecast(i32, String),
}

/// The mathematical value of an `Action`.
pub enum Effect {
    Typing,
    Message(Seq<char>),
    State(ClientState),
    Selected(Seq<char>),
    Offset(i8),
    DefaultCity(i32),
    Update(i32, Seq<char>),
    Upsert(i32, Seq<char>),
}

impl View for Action {
    type V = Effect;

    open spec fn view(&self) -> Effect {
        match self {
            Action::SendTyping => Effect::Typing,
            Action::SendMessage(t) => Effect::Message(t@),
            Action::ModifyState(s) => Effect::State(*s),
            Action::ModifySelected(t) => Effect::Selected(t@),
            Action::ModifyOffset(o) => Effect::Offset(*o),
            Action::ModifyDefaultCity(c) => Effect::DefaultCity(*c),
            Action::UpdateForecast(id, t) => Effect::Update(*id, t@),
            Action::UpsertForecast(c, t) => Effect::Upsert(*c, t@),
        }
    }
}

pub open spec fn effects(a: Seq<Action>) -> Seq<Effect> {
    a.map_values(|x: Action| x@)
}

/// What has to be fetched before the dialogue can go on, once the actions are done.
pub enum Next {
    Finish,
    /// Look up the city with this id; go on with `on_city_lookup`.
    LookupCity(i32),
    /// Search cities by this text; go on with `on_city_search`.
    SearchCities(String),
    /// Take row `ordinal` (1-based) of the search by this text; go on with `on_city_picked`.
    PickCity(String, usize),
    /// List the chat's forecasts; go on with `on_forecasts`.
    ListForecasts,
    /// Delete the chat's forecasts; go on with `on_deleted`.
    DeleteForecasts,
    /// Fetch the weather at this city; go on with `on_weather`.
    FetchWeather(City),
}

/// Actions to perform in order, and what comes after them.
pub struct Plan {
    pub actions: Vec<Action>,
    pub next: Next,
}

pub open spec fn greeting(username: Seq<char>, text: Seq<char>) -> Seq<char> {
    "Hi, "@ + username + "!\n"@ + text
}

pub open spec fn two_digits(m: int) -> Seq<char> {
    if m < 10 {
        "0"@ + decimal(m as nat)
    } else {
        decimal(m as nat)
    }
}

pub open spec fn scheduled_text(hour: int, minutes: int, offset: int) -> Seq<char> {
    "Weather info scheduled every day at "@ + decimal(hour as nat) + ":"@ + two_digits(minutes)
        + " UTC "@ + signed_decimal(offset)
}

pub open spec fn offset_set_text(offset: int) -> Seq<char> {
    "Your offset was set to "@ + signed_decimal(offset)
}

pub open spec fn not_found_text(text: Seq<char>) -> Seq<char> {
    "Your city "@ + text + " was not found. Command cancelled."@
}

pub open spec fn place_text(name: Seq<char>, country: Seq<char>, state: Seq<char>) -> Seq<char> {
    if state.len() == 0 {
        name + ","@ + country
    } else {
        name + ","@ + country + ","@ + state
    }
}

pub open spec fn city_text(c: City) -> Seq<char> {
    place_text(c.name@, c.country@, c.state@) + " Coords: ( lon:"@ + c.lon@ + ", lat:"@ + c.lat@
        + " )"@
}

pub open spec fn weather_text(c: City, weather: Seq<char>) -> Seq<char> {
    c.name@ + ","@ + c.country@ + "\nLat "@ + c.lat@ + " , Lon "@ + c.lon@ + "\n"@ + weather
}

/// The numbered list of search rows, one line each, from 1.
pub open spec fn listing(rows: Seq<CityRow>) -> Seq<char>
    decreases rows.len(),
{
    if rows.len() == 0 {
        Seq::empty()
    } else {
        let r = rows.last();
        listing(rows.drop_last()) + decimal(rows.len()) + ". "@ + place_text(
            r.name@,
            r.country@,
            r.state@,
        ) + "\n"@
    }
}

/// The position of the one `:` in `s`.
pub open spec fn single_colon(s: Seq<char>, k: int) -> bool {
    0 <= k < s.len() && s[k] == ':' && forall|j: int|
        0 <= j < s.len() && j != k ==> #[trigger] s[j] != ':'
}

/// The hour and minutes that a text `H:MM` gives, each read as an integer in range.
pub open spec fn time_of(s: Seq<char>) -> Option<(int, int)> {
    if exists|k: int| single_colon(s, k) {
        let k = choose|k: int| single_colon(s, k);
        match (
            bounded_value(s.subrange(0, k), true, 0, 23),
            bounded_value(s.subrange(k + 1, s.len() as int), true, 0, 59),
        ) {
            (Some(h), Some(m)) => Some((h, m)),
            _ => None,
        }
    } else {
        None
    }
}

fn greet(username: &String, text: &str) -> (r: Action)
    ensures
        r@ == Effect::Message(greeting(username@, text@)),
{
    let mut out = String::from_str("Hi, ");
    out.append(username.as_str());
    out.append("!\n");
    out.append(text);
    assert(out@ =~= greeting(username@, text@));
    Action::SendMessage(out)
}

fn append_place(out: &mut String, name: &String, country: &String, state: &String)
    ensures
        final(out)@ == old(out)@ + place_text(name@, country@, state@),
{
    out.append(name.as_str());
    out.append(",");
    out.append(country.as_str());
    if state.as_str().unicode_len() != 0 {
        out.append(",");
        out.append(state.as_str());
    }
    assert(final(out)@ =~= old(out)@ + place_text(name@, country@, state@));
}

/// The reply that lists the rows of a city search, numbered from 1.
pub fn city_listing(rows: &Vec<CityRow>) -> (r: String)
    requires
        rows@.len() <= u32::MAX,
    ensures
        r@ == FOUND_CITIES@ + listing(rows@),
{
    let mut out = String::from_str(FOUND_CITIES);
    let mut i: usize = 0;
    while i < rows.len()
        invariant
            i <= rows@.len() <= u32::MAX,
            out@ == FOUND_CITIES@ + listing(rows@.subrange(0, i as int)),
        decreases rows@.len() - i,
    {
        let row = &rows[i];
        push_decimal(&mut out, (i + 1) as u32);
        out.append(". ");
        append_place(&mut out, &row.name, &row.country, &row.state);
        out.append("\n");
        proof {
            let pre = rows@.subrange(0, i + 1);
            assert(pre.drop_last() =~= rows@.subrange(0, i as int));
            assert(pre.last() == rows@[i as int]);
        }
        i += 1;
        assert(out@ =~= FOUND_CITIES@ + listing(rows@.subrange(0, i as int)));
    }
    assert(rows@.subrange(0, rows@.len() as int) =~= rows@);
    out
}

/// The position of the one `:` in `s`, if it has exactly one.
fn find_single_colon(s: &str) -> (r: Option<usize>)
    ensures
        r matches Some(k) ==> single_colon(s@, k as int),
        r is None ==> !exists|k: int| single_colon(s@, k),
{
    let n = s.unicode_len();
    let mut found: Option<usize> = None;
    let mut i: usize = 0;
    while i < n
        invariant
            i <= n,
            n == s@.len(),
            found matches Some(k) ==> k < i && s@[k as int] == ':' && forall|j: int|
                0 <= j < i && j != k ==> #[trigger] s@[j] != ':',
            found is None ==> forall|j: int| 0 <= j < i ==> #[trigger] s@[j] != ':',
        decreases n - i,
    {
        if s.get_char(i) == ':' {
            if found.is_some() {
                proof {
                    let k = found->0;
                    assert forall|k2: int| !single_colon(s@, k2) by {
                        if single_colon(s@, k2) {
                            assert(s@[k as int] == ':');
                            assert(s@[i as int] == ':');
                        }
                    }
                }
                return None;
            }
            found = Some(i);
        }
        i += 1;
    }
    proof {
        if found is None {
            assert forall|k2: int| !single_colon(s@, k2) by {
                if single_colon(s@, k2) {
                    assert(s@[k2] == ':');
                }
            }
        }
    }
    found
}

/// Reads a text `H:MM` (after trimming) as hour in `[0, 23]` and minutes in `[0, 59]`.
pub fn read_time(text: &str) -> (r: Option<(i8, i8)>)
    ensures
        r matches Some((h, m)) ==> time_of(trimmed(text@)) == Some((h as int, m as int)),
        r is None ==> time_of(trimmed(text@)) is None,
{
    let t = trim_text(text);
    let s = t.as_str();
    match find_single_colon(s) {
        None => None,
        Some(k) => {
            proof {
                let k2 = choose|k2: int| single_colon(s@, k2);
                assert(k2 == k as int) by {
                    if k2 != k as int {
                        assert(s@[k2] == ':');
                    }
                }
            }
            let n = s.unicode_len();
            let hour = UpdateProcessor::parse_time(s.substring_char(0, k), 23, 0);
            let minutes = UpdateProcessor::parse_time(s.substring_char(k + 1, n), 59, 0);
            match (hour, minutes) {
                (Ok(h), Ok(m)) => Some((h, m)),
                _ => None,
            }
        },
    }
}

/// Handles one incoming message for one chat.
pub struct UpdateProcessor {
    pub text: String,
    pub message_id: i32,
    pub username: String,
    pub command: Command,
    pub chat: Chat,
}

impl UpdateProcessor {
    /// Reads `hour_or_minutes` as an integer in `[min_range, max_range]`.
    pub fn parse_time(hour_or_minutes: &str, max_range: i8, min_range: i8) -> (r: Result<i8, ()>)
        ensures
            r matches Ok(v) ==> bounded_value(hour_or_minutes@, true, min_range as int, max_range as int) == Some(v as int),
            r is Err ==> bounded_value(hour_or_minutes@, true, min_range as int, max_range as int) is None,
    {
        if min_range > max_range {
            return Err(());
        }
        match read_integer(hour_or_minutes, true, min_range as i128, max_range as i128) {
            Some(v) => Ok(v as i8),
            None => Err(()),
        }
    }
}

pub open spec fn ends_with(p: Plan, e: Seq<Effect>) -> bool {
    effects(p.actions@) == e && p.next is Finish
}

pub open spec fn is_number_state(s: ClientState) -> bool {
    s == ClientState::FindCityNumber || s == ClientState::SetCityNumber || s
        == ClientState::ScheduleCityNumber
}

pub open spec fn is_search_state(s: ClientState) -> bool {
    s == ClientState::FindCity || s == ClientState::SetCity || s == ClientState::ScheduleCity
}

pub open spec fn in_offset_range(o: int) -> bool {
    -11 <= o <= 12
}

fn seq_of(a: Action) -> (r: Vec<Action>)
    ensures
        effects(r@) == seq![a@],
{
    let mut v: Vec<Action> = Vec::new();
    v.push(a);
    assert(effects(v@) =~= seq![a@]);
    v
}

fn push_action(v: &mut Vec<Action>, a: Action)
    ensures
        effects(final(v)@) == effects(old(v)@).push(a@),
{
    v.push(a);
    assert(effects(final(v)@) =~= effects(old(v)@).push(a@));
}

fn finish(actions: Vec<Action>) -> (r: Plan)
    ensures
        r.actions@ == actions@,
        r.next is Finish,
{
    Plan { actions, next: Next::Finish }
}

impl UpdateProcessor {
    pub open spec fn ignores(&self) -> bool {
        self.chat.state == ClientState::Initial && self.command is UnknownCommand
    }

    pub open spec fn msg(&self, text: Seq<char>) -> Effect {
        Effect::Message(greeting(self.username@, text))
    }

    /// What a collaborator failure, or a state left without the data it needs, ends in:
    /// back to `Initial`, with the cancellation notice.
    pub open spec fn reverted(&self) -> Seq<Effect> {
        seq![Effect::State(ClientState::Initial), self.msg(CANCELED@)]
    }

    /// The actions that undo a dialogue after a failure: back to `Initial`, and the
    /// cancellation notice.
    pub fn revert(&self) -> (r: Plan)
        ensures
            ends_with(r, self.reverted()),
    {
        let mut v = seq_of(Action::ModifyState(ClientState::Initial));
        push_action(&mut v, greet(&self.username, CANCELED));
        assert(effects(v@) =~= self.reverted());
        finish(v)
    }

    fn cancel_with(&self, text: &str) -> (r: Plan)
        ensures
            ends_with(r, seq![Effect::Typing, Effect::State(ClientState::Initial), self.msg(text@)]),
    {
        let mut v = seq_of(Action::SendTyping);
        push_action(&mut v, Action::ModifyState(ClientState::Initial));
        push_action(&mut v, greet(&self.username, text));
        assert(effects(v@) =~= seq![Effect::Typing, Effect::State(ClientState::Initial), self.msg(text@)]);
        finish(v)
    }

    fn move_and_say(&self, state: ClientState, text: &str) -> (r: Plan)
        ensures
            ends_with(r, seq![Effect::Typing, Effect::State(state), self.msg(text@)]),
    {
        let mut v = seq_of(Action::SendTyping);
        push_action(&mut v, Action::ModifyState(state));
        push_action(&mut v, greet(&self.username, text));
        assert(effects(v@) =~= seq![Effect::Typing, Effect::State(state), self.msg(text@)]);
        finish(v)
    }

    fn say(&self, text: &str) -> (r: Plan)
        ensures
            ends_with(r, seq![Effect::Typing, self.msg(text@)]),
    {
        let mut v = seq_of(Action::SendTyping);
        push_action(&mut v, greet(&self.username, text));
        assert(effects(v@) =~= seq![Effect::Typing, self.msg(text@)]);
        finish(v)
    }

    fn typing_then(next: Next) -> (r: Plan)
        ensures
            effects(r.actions@) == seq![Effect::Typing],
            r.next == next,
    {
        Plan { actions: seq_of(Action::SendTyping), next }
    }

    /// Decides what an incoming message does, from the chat's state and the command.
    pub fn process(&self) -> (r: Plan)
        ensures
            self.ignores() ==> ends_with(r, seq![]),
            !self.ignores() && self.command is Cancel ==> ends_with(
                r,
                seq![Effect::Typing] + self.reverted(),
            ),
            !self.ignores() && !(self.command is Cancel) ==> self.first_plan(r),
    {
        if self.chat.state == ClientState::Initial && matches!(self.command, Command::UnknownCommand(_)) {
            let v: Vec<Action> = Vec::new();
            assert(effects(v@) =~= seq![]);
            return finish(v);
        }
        if matches!(self.command, Command::Cancel) {
            let r = self.cancel_with(CANCELED);
            assert(seq![Effect::Typing, Effect::State(ClientState::Initial), self.msg(CANCELED@)] =~= seq![Effect::Typing] + self.reverted());
            return r;
        }
        match self.chat.state {
            ClientState::Initial => self.process_initial(),
            ClientState::FindCity | ClientState::SetCity | ClientState::ScheduleCity => {
                Self::typing_then(Next::SearchCities(self.text.clone()))
            },
            ClientState::FindCityNumber | ClientState::SetCityNumber
            | ClientState::ScheduleCityNumber => {
                match read_integer(self.text.as_str(), false, 0, usize::MAX as i128) {
                    Some(n) => match &self.chat.selected {
                        Some(pattern) => Self::typing_then(Next::PickCity(pattern.clone(), n as usize)),
                        None => {
                            assert(seq![Effect::Typing, Effect::State(ClientState::Initial), self.msg(CANCELED@)] =~= seq![Effect::Typing] + self.reverted());
                            self.cancel_with(CANCELED)
                        },
                    },
                    None => self.cancel_with(NOT_A_NUMBER),
                }
            },
            ClientState::Offset => {
                match read_integer(self.text.as_str(), true, -11, 12) {
                    Some(o) => {
                        let mut v = seq_of(Action::SendTyping);
                        push_action(&mut v, Action::ModifyOffset(o as i8));
                        assert(effects(v@) =~= seq![Effect::Typing, Effect::Offset(o as i8)]);
                        Plan { actions: v, next: Next::ListForecasts }
                    },
                    None => self.cancel_with(NOT_AN_OFFSET),
                }
            },
            ClientState::Time => self.process_time(),
        }
    }

    /// What `process` plans for a message that is neither ignored nor a cancellation.
    pub open spec fn first_plan(&self, r: Plan) -> bool {
        let st = self.chat.state;
        let typing = seq![Effect::Typing];
        &&& st == ClientState::Initial ==> self.initial_plan(r)
        &&& is_search_state(st) ==> effects(r.actions@) == typing && (r.next matches Next::SearchCities(t) && t@ == self.text@)
        &&& is_number_state(st) ==> match bounded_value(self.text@, false, 0, usize::MAX as int) {
            Some(n) => match self.chat.selected {
                Some(p) => effects(r.actions@) == typing && (r.next matches Next::PickCity(q, k) && q@ == p@ && k == n),
                None => ends_with(r, typing + self.reverted()),
            },
            None => ends_with(r, seq![Effect::Typing, Effect::State(ClientState::Initial), self.msg(NOT_A_NUMBER@)]),
        }
        &&& st == ClientState::Offset ==> match bounded_value(self.text@, true, -11, 12) {
            Some(o) => effects(r.actions@) == seq![Effect::Typing, Effect::Offset(o as i8)] && r.next is ListForecasts,
            None => ends_with(r, seq![Effect::Typing, Effect::State(ClientState::Initial), self.msg(NOT_AN_OFFSET@)]),
        }
        &&& st == ClientState::Time ==> self.time_plan(r)
    }

    pub open spec fn initial_plan(&self, r: Plan) -> bool {
        let typing = seq![Effect::Typing];
        match self.command {
            Command::FindCity => ends_with(r, seq![Effect::Typing, Effect::State(ClientState::FindCity), self.msg(FIND_CITY_PROMPT@)]),
            Command::Start => ends_with(r, seq![Effect::Typing, self.msg(START_TEXT@)]),
            Command::CurrentDefaultCity => match self.chat.default_city_id {
                Some(id) => effects(r.actions@) == typing && r.next == Next::LookupCity(id),
                None => ends_with(r, seq![Effect::Typing, self.msg(NO_DEFAULT_CITY@)]),
            },
            Command::SetDefaultCity => ends_with(r, seq![Effect::Typing, Effect::State(ClientState::SetCity), self.msg(FIND_CITY_PROMPT@)]),
            Command::Default => match self.chat.default_city_id {
                Some(id) => effects(r.actions@) == typing && r.next == Next::LookupCity(id),
                None => ends_with(r, seq![Effect::Typing, Effect::State(ClientState::SetCity), self.msg(FIND_CITY_PROMPT@), self.msg(SETTING_DEFAULT_CITY@)]),
            },
            Command::Schedule => match self.chat.offset {
                None => ends_with(r, seq![Effect::Typing, self.msg(NEEDS_OFFSET@)]),
                Some(_) => ends_with(r, seq![Effect::Typing, Effect::State(ClientState::ScheduleCity), self.msg(WHICH_CITY@)]),
            },
            Command::SetOffset => ends_with(r, seq![Effect::Typing, Effect::State(ClientState::Offset), self.msg(OFFSET_PROMPT@)]),
            Command::UnSchedule => effects(r.actions@) == typing && r.next is DeleteForecasts,
            _ => ends_with(r, typing),
        }
    }

    fn process_initial(&self) -> (r: Plan)
        requires
            self.chat.state == ClientState::Initial,
        ensures
            self.initial_plan(r),
    {
        match &self.command {
            Command::FindCity => self.move_and_say(ClientState::FindCity, FIND_CITY_PROMPT),
            Command::Start => self.say(START_TEXT),
            Command::CurrentDefaultCity => match self.chat.default_city_id {
                Some(id) => Self::typing_then(Next::LookupCity(id)),
                None => self.say(NO_DEFAULT_CITY),
            },
            Command::SetDefaultCity => self.move_and_say(ClientState::SetCity, FIND_CITY_PROMPT),
            Command::Default => match self.chat.default_city_id {
                Some(id) => Self::typing_then(Next::LookupCity(id)),
                None => {
                    let mut r = self.move_and_say(ClientState::SetCity, FIND_CITY_PROMPT);
                    push_action(&mut r.actions, greet(&self.username, SETTING_DEFAULT_CITY));
                    assert(effects(r.actions@) =~= seq![Effect::Typing, Effect::State(ClientState::SetCity), self.msg(FIND_CITY_PROMPT@), self.msg(SETTING_DEFAULT_CITY@)]);
                    r
                },
            },
            Command::Schedule => match self.chat.offset {
                None => self.say(NEEDS_OFFSET),
                Some(_) => self.move_and_say(ClientState::ScheduleCity, WHICH_CITY),
            },
            Command::SetOffset => self.move_and_say(ClientState::Offset, OFFSET_PROMPT),
            Command::UnSchedule => Self::typing_then(Next::DeleteForecasts),
            _ => finish(seq_of(Action::SendTyping)),
        }
    }

    /// What `process` plans for a time of day given in state `Time`.
    pub open spec fn time_plan(&self, r: Plan) -> bool {
        match time_of(trimmed(self.text@)) {
            None => ends_with(r, seq![Effect::Typing, Effect::State(ClientState::Initial), self.msg(NOT_A_TIME@)]),
            Some((h, m)) => match (self.chat.offset, self.chat.selected) {
                (Some(o), Some(sel)) => match bounded_value(sel@, true, i32::MIN as int, i32::MAX as int) {
                    Some(city) => if in_offset_range(o as int) {
                        ends_with(r, seq![
                            Effect::Typing,
                            Effect::Upsert(city as i32, trigger_text(m, wrap_hour(h - o))),
                            Effect::State(ClientState::Initial),
                            self.msg(scheduled_text(h, m, o as int)),
                        ])
                    } else {
                        ends_with(r, seq![Effect::Typing] + self.reverted())
                    },
                    None => ends_with(r, seq![Effect::Typing] + self.reverted()),
                },
                _ => ends_with(r, seq![Effect::Typing] + self.reverted()),
            },
        }
    }

    fn process_time(&self) -> (r: Plan)
        requires
            self.chat.state == ClientState::Time,
        ensures
            self.time_plan(r),
    {
        let (hour, minutes) = match read_time(self.text.as_str()) {
            None => return self.cancel_with(NOT_A_TIME),
            Some(t) => t,
        };
        assert(seq![Effect::Typing, Effect::State(ClientState::Initial), self.msg(CANCELED@)] =~= seq![Effect::Typing] + self.reverted());
        let offset = match self.chat.offset {
            Some(o) => o,
            None => return self.cancel_with(CANCELED),
        };
        let city_id = match &self.chat.selected {
            Some(sel) => match read_integer(sel.as_str(), true, i32::MIN as i128, i32::MAX as i128) {
                Some(c) => c as i32,
                None => return self.cancel_with(CANCELED),
            },
            None => return self.cancel_with(CANCELED),
        };
        if offset < -11 || offset > 12 {
            return self.cancel_with(CANCELED);
        }
        let trigger = build_trigger(minutes, to_utc_hour(hour, offset));
        let mut text = String::from_str("Weather info scheduled every day at ");
        push_decimal(&mut text, hour as u32);
        text.append(":");
        if minutes < 10 {
            text.append("0");
        }
        push_decimal(&mut text, minutes as u32);
        text.append(" UTC ");
        push_signed_decimal(&mut text, offset as i32);
        assert(text@ =~= scheduled_text(hour as int, minutes as int, offset as int));
        let mut v = seq_of(Action::SendTyping);
        push_action(&mut v, Action::UpsertForecast(city_id, trigger));
        push_action(&mut v, Action::ModifyState(ClientState::Initial));
        push_action(&mut v, greet(&self.username, text.as_str()));
        assert(effects(v@) =~= seq![
            Effect::Typing,
            Effect::Upsert(city_id, trigger_text(minutes as int, wrap_hour(hour - offset))),
            Effect::State(ClientState::Initial),
            self.msg(scheduled_text(hour as int, minutes as int, offset as int)),
        ]);
        finish(v)
    }
}

/// `t` is a trigger that `build_trigger` writes, with minutes in `[0, 59]` and hour in `[0, 24]`.
pub open spec fn decodable(t: Seq<char>) -> bool {
    exists|m: int, h: int| 0 <= m <= 59 && 0 <= h <= 24 && t == #[trigger] trigger_text(m, h)
}

/// `t` is `old` moved from UTC offset `previous` to UTC offset `offset`: same minutes,
/// and the hour shifted by `previous - offset`, wrapped into a day.
pub open spec fn rescheduled(t: Seq<char>, old: Seq<char>, previous: int, offset: int) -> bool {
    exists|m: int, h: int|
        0 <= m <= 59 && 0 <= h <= 24 && old == #[trigger] trigger_text(m, h) && t == trigger_text(
            m,
            wrap_hour(wrap_hour(h + previous) - offset),
        )
}

/// Re-deriving a stored trigger for an unchanged offset gives it back byte for byte,
/// unless it names hour 24, which no trigger written by this library does.
pub proof fn lemma_unchanged_offset_reproduces_trigger(t: Seq<char>, stored: Seq<char>, offset: int)
    requires
        -11 <= offset <= 12,
        rescheduled(t, stored, offset, offset),
        forall|m: int| 0 <= m <= 59 ==> stored != #[trigger] trigger_text(m, 24),
    ensures
        t == stored,
{
    let (m, h) = choose|m: int, h: int|
        0 <= m <= 59 && 0 <= h <= 24 && stored == #[trigger] trigger_text(m, h) && t == trigger_text(
            m,
            wrap_hour(wrap_hour(h + offset) - offset),
        );
    assert(h != 24);
    lemma_unchanged_offset_keeps_trigger(m, h, offset);
}

pub open spec fn job_key_of(f: StoredForecast, k: JobKey) -> bool {
    k.cron_expression@ == f.cron_expression@ && k.chat_id == f.chat_id && k.user_id == f.user_id
        && k.city_id == f.city_id
}

/// The keys of the queued jobs that deliver these forecasts, one per forecast, in order.
pub fn removal_keys(forecasts: &Vec<StoredForecast>) -> (r: Vec<JobKey>)
    ensures
        r@.len() == forecasts@.len(),
        forall|i: int| 0 <= i < r@.len() ==> job_key_of(forecasts@[i], #[trigger] r@[i]),
{
    let mut keys: Vec<JobKey> = Vec::new();
    let mut i: usize = 0;
    while i < forecasts.len()
        invariant
            i <= forecasts@.len(),
            keys@.len() == i,
            forall|j: int| 0 <= j < i ==> job_key_of(forecasts@[j], #[trigger] keys@[j]),
        decreases forecasts@.len() - i,
    {
        let f = &forecasts[i];
        keys.push(
            JobKey {
                cron_expression: f.cron_expression.clone(),
                chat_id: f.chat_id,
                user_id: f.user_id,
                city_id: f.city_id,
            },
        );
        i += 1;
    }
    keys
}

impl UpdateProcessor {
    pub open spec fn previous_offset(&self) -> int {
        match self.chat.offset {
            Some(p) => p as int,
            None => 0,
        }
    }

    /// Goes on after the lookup of the chat's default city (`None`: it was not found).
    pub fn on_city_lookup(&self, city: Option<City>) -> (r: Plan)
        ensures
            self.command is CurrentDefaultCity ==> match city {
                Some(c) => ends_with(r, seq![self.msg("Your default city is "@ + city_text(c))]),
                None => ends_with(r, seq![self.msg(NO_DEFAULT_CITY@)]),
            },
            self.command is Default ==> match city {
                Some(c) => effects(r.actions@) == Seq::<Effect>::empty() && r.next == Next::FetchWeather(c),
                None => ends_with(r, self.reverted()),
            },
            !(self.command is CurrentDefaultCity) && !(self.command is Default) ==> ends_with(r, seq![]),
    {
        let empty: Vec<Action> = Vec::new();
        assert(effects(empty@) =~= Seq::<Effect>::empty());
        match (&self.command, city) {
            (Command::CurrentDefaultCity, Some(c)) => {
                let mut text = String::from_str("Your default city is ");
                append_place(&mut text, &c.name, &c.country, &c.state);
                text.append(" Coords: ( lon:");
                text.append(c.lon.as_str());
                text.append(", lat:");
                text.append(c.lat.as_str());
                text.append(" )");
                assert(text@ =~= "Your default city is "@ + city_text(c));
                finish(seq_of(greet(&self.username, text.as_str())))
            },
            (Command::CurrentDefaultCity, None) => finish(seq_of(greet(&self.username, NO_DEFAULT_CITY))),
            (Command::Default, Some(c)) => Plan { actions: empty, next: Next::FetchWeather(c) },
            (Command::Default, None) => self.revert(),
            _ => finish(empty),
        }
    }

    /// Goes on after a city search by the message text, which found `rows`. None, or
    /// more than 30, is "not found": the dialogue is cancelled. Otherwise the rows are
    /// listed, the text is kept as `selected` and the state moves on to choosing a number.
    pub fn on_city_search(&self, rows: &Vec<CityRow>) -> (r: Plan)
        ensures
            rows@.len() == 0 || rows@.len() > 30 ==> ends_with(
                r,
                seq![self.msg(not_found_text(self.text@))] + self.reverted(),
            ),
            1 <= rows@.len() <= 30 ==> ends_with(
                r,
                seq![
                    self.msg(FOUND_CITIES@ + listing(rows@)),
                    Effect::Selected(self.text@),
                    Effect::State(self.number_state()),
                ],
            ),
    {
        if rows.len() == 0 || rows.len() > 30 {
            let mut text = String::from_str("Your city ");
            text.append(self.text.as_str());
            text.append(" was not found. Command cancelled.");
            assert(text@ =~= not_found_text(self.text@));
            let mut v = seq_of(greet(&self.username, text.as_str()));
            push_action(&mut v, Action::ModifyState(ClientState::Initial));
            push_action(&mut v, greet(&self.username, CANCELED));
            assert(effects(v@) =~= seq![self.msg(not_found_text(self.text@))] + self.reverted());
            return finish(v);
        }
        let listing_text = city_listing(rows);
        let mut v = seq_of(greet(&self.username, listing_text.as_str()));
        push_action(&mut v, Action::ModifySelected(self.text.clone()));
        push_action(&mut v, Action::ModifyState(self.next_number_state()));
        assert(effects(v@) =~= seq![
            self.msg(FOUND_CITIES@ + listing(rows@)),
            Effect::Selected(self.text@),
            Effect::State(self.number_state()),
        ]);
        finish(v)
    }

    /// The state that waits for a number after a search made in the current state.
    pub open spec fn number_state(&self) -> ClientState {
        match self.chat.state {
            ClientState::SetCity => ClientState::SetCityNumber,
            ClientState::ScheduleCity => ClientState::ScheduleCityNumber,
            _ => ClientState::FindCityNumber,
        }
    }

    fn next_number_state(&self) -> (r: ClientState)
        ensures
            r == self.number_state(),
    {
        match self.chat.state {
            ClientState::SetCity => ClientState::SetCityNumber,
            ClientState::ScheduleCity => ClientState::ScheduleCityNumber,
            _ => ClientState::FindCityNumber,
        }
    }

    /// Goes on once the city that the user chose by number has been fetched.
    pub fn on_city_picked(&self, city: City) -> (r: Plan)
        ensures
            self.chat.state == ClientState::FindCityNumber ==> effects(r.actions@) == seq![
                Effect::State(ClientState::Initial),
            ] && r.next == Next::FetchWeather(city),
            self.chat.state == ClientState::SetCityNumber ==> ends_with(
                r,
                seq![
                    Effect::State(ClientState::Initial),
                    Effect::DefaultCity(city.id),
                    self.msg(CITY_UPDATED@),
                ],
            ),
            self.chat.state == ClientState::ScheduleCityNumber ==> ends_with(
                r,
                seq![
                    Effect::Selected(signed_decimal(city.id as int)),
                    Effect::State(ClientState::Time),
                    self.msg(TIME_PROMPT@),
                ],
            ),
            !is_number_state(self.chat.state) ==> ends_with(r, seq![]),
    {
        match self.chat.state {
            ClientState::FindCityNumber => Plan {
                actions: seq_of(Action::ModifyState(ClientState::Initial)),
                next: Next::FetchWeather(city),
            },
            ClientState::SetCityNumber => {
                let mut v = seq_of(Action::ModifyState(ClientState::Initial));
                push_action(&mut v, Action::ModifyDefaultCity(city.id));
                push_action(&mut v, greet(&self.username, CITY_UPDATED));
                assert(effects(v@) =~= seq![
                    Effect::State(ClientState::Initial),
                    Effect::DefaultCity(city.id),
                    self.msg(CITY_UPDATED@),
                ]);
                finish(v)
            },
            ClientState::ScheduleCityNumber => {
                let mut id_text = String::new();
                push_signed_decimal(&mut id_text, city.id);
                let mut v = seq_of(Action::ModifySelected(id_text));
                push_action(&mut v, Action::ModifyState(ClientState::Time));
                push_action(&mut v, greet(&self.username, TIME_PROMPT));
                assert(effects(v@) =~= seq![
                    Effect::Selected(signed_decimal(city.id as int)),
                    Effect::State(ClientState::Time),
                    self.msg(TIME_PROMPT@),
                ]);
                finish(v)
            },
            _ => {
                let v: Vec<Action> = Vec::new();
                assert(effects(v@) =~= seq![]);
                finish(v)
            },
        }
    }

    /// Shows the weather fetched for `city`.
    pub fn on_weather(&self, city: &City, weather: &str) -> (r: Plan)
        ensures
            ends_with(r, seq![self.msg(weather_text(*city, weather@))]),
    {
        let mut text = String::from_str("");
        text.append(city.name.as_str());
        text.append(",");
        text.append(city.country.as_str());
        text.append("\nLat ");
        text.append(city.lat.as_str());
        text.append(" , Lon ");
        text.append(city.lon.as_str());
        text.append("\n");
        text.append(weather);
        proof {
            reveal_strlit("");
        }
        assert(text@ =~= weather_text(*city, weather@));
        finish(seq_of(greet(&self.username, text.as_str())))
    }

    /// Goes on after the chat's forecasts were listed, once its new offset is stored:
    /// every forecast gets its trigger moved from the previous offset to the new one,
    /// then the user is told and the dialogue ends. A trigger that cannot be read, or an
    /// offset out of range, ends in the revert.
    pub fn on_forecasts(&self, forecasts: &Vec<StoredForecast>) -> (r: Plan)
        ensures
            match bounded_value(self.text@, true, -11, 12) {
                Some(o) => if in_offset_range(self.previous_offset()) && forall|i: int|
                    0 <= i < forecasts@.len() ==> decodable(#[trigger] forecasts@[i].cron_expression@) {
                    let e = effects(r.actions@);
                    let n = forecasts@.len() as int;
                    &&& r.next is Finish
                    &&& e.len() == n + 2
                    &&& forall|i: int| 0 <= i < n ==> (#[trigger] e[i] matches Effect::Update(id, t)
                        && id == forecasts@[i].id && rescheduled(
                        t,
                        forecasts@[i].cron_expression@,
                        self.previous_offset(),
                        o,
                    ))
                    &&& e[n] == self.msg(offset_set_text(o))
                    &&& e[n + 1] == Effect::State(ClientState::Initial)
                } else {
                    ends_with(r, self.reverted())
                },
                None => ends_with(r, self.reverted()),
            },
    {
        let offset = match read_integer(self.text.as_str(), true, -11, 12) {
            Some(o) => o as i8,
            None => return self.revert(),
        };
        let previous: i8 = match self.chat.offset {
            Some(p) => p,
            None => 0,
        };
        if previous < -11 || previous > 12 {
            return self.revert();
        }
        let mut v: Vec<Action> = Vec::new();
        let mut i: usize = 0;
        while i < forecasts.len()
            invariant
                i <= forecasts@.len(),
                -11 <= previous <= 12,
                -11 <= offset <= 12,
                previous as int == self.previous_offset(),
                bounded_value(self.text@, true, -11, 12) == Some(offset as int),
                v@.len() == i,
                forall|j: int| 0 <= j < i ==> decodable(#[trigger] forecasts@[j].cron_expression@),
                forall|j: int| 0 <= j < i ==> (#[trigger] effects(v@)[j] matches Effect::Update(id, t)
                    && id == forecasts@[j].id && rescheduled(
                    t,
                    forecasts@[j].cron_expression@,
                    previous as int,
                    offset as int,
                )),
            decreases forecasts@.len() - i,
        {
            let f = &forecasts[i];
            match reschedule_trigger(f.cron_expression.as_str(), previous, offset) {
                Some(t) => {
                    let ghost before = v@;
                    v.push(Action::UpdateForecast(f.id, t));
                    assert(effects(v@) =~= effects(before).push(Effect::Update(f.id, t@)));
                    assert(decodable(f.cron_expression@));
                },
                None => {
                    assert(!decodable(f.cron_expression@));
                    return self.revert();
                },
            }
            i += 1;
        }
        let mut text = String::from_str("Your offset was set to ");
        push_signed_decimal(&mut text, offset as i32);
        let ghost listed = effects(v@);
        push_action(&mut v, greet(&self.username, text.as_str()));
        push_action(&mut v, Action::ModifyState(ClientState::Initial));
        proof {
            let e = effects(v@);
            let n = forecasts@.len() as int;
            assert(e =~= listed.push(self.msg(offset_set_text(offset as int))).push(Effect::State(ClientState::Initial)));
            assert forall|j: int| 0 <= j < n implies (#[trigger] e[j] matches Effect::Update(id, t)
                && id == forecasts@[j].id && rescheduled(
                t,
                forecasts@[j].cron_expression@,
                self.previous_offset(),
                offset as int,
            )) by {
                assert(e[j] == listed[j]);
            }
        }
        finish(v)
    }

    /// Goes on after the chat's forecasts were deleted: the user is told, and exactly
    /// the deleted rows are handed back, so that their queued jobs can be removed.
    pub fn on_deleted(&self, deleted: Vec<StoredForecast>) -> (r: (Plan, Vec<StoredForecast>))
        ensures
            ends_with(r.0, seq![self.msg(UNSCHEDULED@)]),
            r.1@ == deleted@,
    {
        (finish(seq_of(greet(&self.username, UNSCHEDULED))), deleted)
    }
}

/// Why an incoming update cannot be handled.
pub enum BotError {
    UpdateNotMessage(String),
}

/// The parts of a chat message that the dialogue reads.
pub struct IncomingMessage {
    pub message_id: i32,
    pub chat_id: i64,
    pub text: Option<String>,
    pub user_id: u64,
    pub username: Option<String>,
    pub first_name: String,
}

/// An update from the chat platform: a message, or anything else.
pub enum IncomingUpdate {
    Message(IncomingMessage),
    Other,
}

/// How the user is addressed: `@username` where there is one, else the first name.
pub open spec fn display_name(m: IncomingMessage) -> Seq<char> {
    match m.username {
        Some(n) => "@"@ + n@,
        None => m.first_name@,
    }
}

/// The chat and user that an update comes from, where it is a message with text: the
/// key under which its chat record is found or created.
pub fn chat_key(update: &IncomingUpdate) -> (r: Option<(i64, u64)>)
    ensures
        r matches Some((c, u)) ==> update matches IncomingUpdate::Message(m) && m.text is Some
            && c == m.chat_id && u == m.user_id,
        r is None ==> !(update matches IncomingUpdate::Message(m) && m.text is Some),
{
    match update {
        IncomingUpdate::Message(m) => if m.text.is_some() {
            Some((m.chat_id, m.user_id))
        } else {
            None
        },
        IncomingUpdate::Other => None,
    }
}

impl UpdateProcessor {
    /// Builds the processor of an update for its chat record. An update that is not a
    /// message, or a message without text, is refused.
    pub fn create(update: IncomingUpdate, chat: Chat) -> (r: Result<UpdateProcessor, BotError>)
        ensures
            update is Other ==> (r matches Err(BotError::UpdateNotMessage(e)) && e@ == "no message"@),
            update matches IncomingUpdate::Message(m) ==> match m.text {
                None => r matches Err(BotError::UpdateNotMessage(e)) && e@ == "no text"@,
                Some(t) => r matches Ok(p) && p.text@ == t@ && p.message_id == m.message_id
                    && p.username@ == display_name(m) && parsed_command(p.command, t@, BOT_NAME@)
                    && p.chat == chat,
            },
    {
        match update {
            IncomingUpdate::Other => Err(BotError::UpdateNotMessage(String::from_str("no message"))),
            IncomingUpdate::Message(m) => {
                let ghost whole = m;
                match m.text {
                    None => Err(BotError::UpdateNotMessage(String::from_str("no text"))),
                    Some(text) => {
                        let username = match m.username {
                            Some(name) => {
                                let mut u = String::from_str("@");
                                u.append(name.as_str());
                                u
                            },
                            None => m.first_name,
                        };
                        assert(username@ =~= display_name(whole));
                        let command = Command::parse(text.as_str(), BOT_NAME);
                        Ok(UpdateProcessor { text, message_id: m.message_id, username, command, chat })
                    },
                }
            },
        }
    }
}

} // verus!
