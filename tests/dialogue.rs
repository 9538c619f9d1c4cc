use std::str::FromStr;
use weather_bot::command::{Command, BOT_NAME};
use weather_bot::processor::{
    chat_key, city_listing, removal_keys, read_time, Action, BotError, Chat, City, CityRow,
    ClientState, IncomingMessage, IncomingUpdate, Next, Plan, StoredForecast, UpdateProcessor,
};
use weather_bot::schedule::{
    build_trigger, decode_trigger, read_integer, reschedule_trigger, to_local_hour, to_utc_hour,
};
use weather_bot::weather::{headline, WeatherInfo};

fn chat(state: ClientState, offset: Option<i8>, selected: Option<&str>) -> Chat {
    Chat {
        id: 10,
        user_id: 20,
        state,
        default_city_id: None,
        selected: selected.map(|s| s.to_string()),
        offset,
    }
}

fn processor(state: ClientState, offset: Option<i8>, selected: Option<&str>, text: &str) -> UpdateProcessor {
    UpdateProcessor {
        text: text.to_string(),
        message_id: 1,
        username: "@ana".to_string(),
        command: Command::parse(text, BOT_NAME),
        chat: chat(state, offset, selected),
    }
}

fn messages(p: &Plan) -> Vec<String> {
    let mut out = Vec::new();
    for a in &p.actions {
        if let Action::SendMessage(t) = a {
            out.push(t.clone());
        }
    }
    out
}

fn states(p: &Plan) -> Vec<ClientState> {
    let mut out = Vec::new();
    for a in &p.actions {
        if let Action::ModifyState(s) = a {
            out.push(*s);
        }
    }
    out
}

fn city(id: i32, name: &str) -> City {
    City {
        id,
        name: name.to_string(),
        state: String::new(),
        country: "JP".to_string(),
        lat: "35.6895".to_string(),
        lon: "139.6917".to_string(),
    }
}

fn row(name: &str, country: &str, state: &str) -> CityRow {
    CityRow { name: name.to_string(), country: country.to_string(), state: state.to_string() }
}

fn forecast(id: i32, cron: &str) -> StoredForecast {
    StoredForecast { id, chat_id: 10, user_id: 20, city_id: 7, cron_expression: cron.to_string() }
}

#[test]
fn parse_known_tokens() {
    assert_eq!(Command::parse("/start", BOT_NAME), Command::Start);
    assert_eq!(Command::parse("/find_city", BOT_NAME), Command::FindCity);
    assert_eq!(Command::parse("/default", BOT_NAME), Command::Default);
    assert_eq!(Command::parse("/set_default_city", BOT_NAME), Command::SetDefaultCity);
    assert_eq!(Command::parse("/cancel", BOT_NAME), Command::Cancel);
    assert_eq!(Command::parse("/schedule", BOT_NAME), Command::Schedule);
    assert_eq!(Command::parse("/unschedule", BOT_NAME), Command::UnSchedule);
    assert_eq!(Command::parse("/set_offset", BOT_NAME), Command::SetOffset);
    assert_eq!(Command::parse("/current_default_city", BOT_NAME), Command::CurrentDefaultCity);
    assert_eq!(Command::parse("/current_offset", BOT_NAME), Command::CurrentOffset);
}

#[test]
fn parse_strips_mention_and_whitespace() {
    assert_eq!(Command::parse("  /start@RustWeather77Bot \n", BOT_NAME), Command::Start);
    assert_eq!(Command::from_str("/cancel@RustWeather77Bot"), Ok(Command::Cancel));
    assert_eq!(Command::parse("/start@Other", "@Other"), Command::Start);
}

#[test]
fn parse_unknown_keeps_trimmed_text() {
    assert_eq!(
        Command::parse("  Tokyo@RustWeather77Bot  ", BOT_NAME),
        Command::UnknownCommand("Tokyo".to_string())
    );
    assert_eq!(Command::parse("", BOT_NAME), Command::UnknownCommand(String::new()));
    assert_eq!(Command::parse("/starts", BOT_NAME), Command::UnknownCommand("/starts".to_string()));
}

#[test]
fn utc_hour_is_difference_mod_24() {
    assert_eq!(to_utc_hour(10, 2), 8);
    assert_eq!(to_utc_hour(1, 5), 20);
    assert_eq!(to_utc_hour(22, -5), 3);
    assert_eq!(to_utc_hour(23, -1), 0);
    assert_eq!(to_utc_hour(0, -11), 11);
    for o in -11i8..=12 {
        for h in 0i8..=23 {
            assert_eq!(to_utc_hour(h, o) as i32, ((h as i32 - o as i32) % 24 + 24) % 24);
        }
    }
}

#[test]
fn local_hour_inverts_utc_hour() {
    assert_eq!(to_local_hour(8, 2), 10);
    assert_eq!(to_local_hour(24, 0), 0);
    assert_eq!(to_local_hour(23, 12), 11);
    assert_eq!(to_local_hour(3, -5), 22);
}

#[test]
fn trigger_round_trip() {
    assert_eq!(build_trigger(5, 13), "0 5 13 * * * *");
    assert_eq!(build_trigger(0, 0), "0 0 0 * * * *");
    assert_eq!(decode_trigger("0 45 23 * * * *"), Some((45, 23)));
    assert_eq!(decode_trigger("0 45 24 * * * *"), Some((45, 24)));
    assert_eq!(decode_trigger("0 60 1 * * * *"), None);
    assert_eq!(decode_trigger("0 05 1 * * * *"), None);
    assert_eq!(decode_trigger("garbage"), None);
}

#[test]
fn reschedule_unchanged_offset_is_identity() {
    for o in -11i8..=12 {
        for h in 0i8..=23 {
            let t = build_trigger(30, h);
            assert_eq!(reschedule_trigger(&t, o, o), Some(t.clone()));
        }
    }
}

#[test]
fn reschedule_shifts_by_offset_difference() {
    assert_eq!(reschedule_trigger("0 15 10 * * * *", 0, 5), Some("0 15 5 * * * *".to_string()));
    assert_eq!(reschedule_trigger("0 15 2 * * * *", 0, 5), Some("0 15 21 * * * *".to_string()));
    assert_eq!(reschedule_trigger("0 15 10 * * * *", 2, 5), Some("0 15 7 * * * *".to_string()));
    assert_eq!(reschedule_trigger("0 15 x * * * *", 2, 5), None);
}

#[test]
fn read_integer_follows_rust_parsing() {
    assert_eq!(read_integer("42", false, 0, 100), Some(42));
    assert_eq!(read_integer("+7", true, -11, 12), Some(7));
    assert_eq!(read_integer("-11", true, -11, 12), Some(-11));
    assert_eq!(read_integer("-3", false, 0, 100), None);
    assert_eq!(read_integer("13", true, -11, 12), None);
    assert_eq!(read_integer("", true, -11, 12), None);
    assert_eq!(read_integer("+", true, -11, 12), None);
    assert_eq!(read_integer(" 5", true, -11, 12), None);
    assert_eq!(read_integer("99999999999999999999999", false, 0, 100), None);
}

#[test]
fn parse_time_ranges() {
    assert_eq!(UpdateProcessor::parse_time("23", 23, 0), Ok(23));
    assert_eq!(UpdateProcessor::parse_time("24", 23, 0), Err(()));
    assert_eq!(UpdateProcessor::parse_time("05", 59, 0), Ok(5));
    assert_eq!(UpdateProcessor::parse_time("-1", 59, 0), Err(()));
    assert_eq!(UpdateProcessor::parse_time("x", 59, 0), Err(()));
    assert_eq!(read_time(" 7:05 "), Some((7, 5)));
    assert_eq!(read_time("7:5:1"), None);
    assert_eq!(read_time("24:00"), None);
    assert_eq!(read_time("12:60"), None);
    assert_eq!(read_time("1230"), None);
}

#[test]
fn initial_unknown_is_ignored() {
    let p = processor(ClientState::Initial, None, None, "hello").process();
    assert!(p.actions.is_empty());
    assert!(matches!(p.next, Next::Finish));
}

#[test]
fn schedule_without_offset_asks_for_it() {
    let p = processor(ClientState::Initial, None, None, "/schedule").process();
    assert!(matches!(p.actions[0], Action::SendTyping));
    let m = messages(&p);
    assert_eq!(m.len(), 1);
    assert!(m[0].contains("set_offset"));
    assert_eq!(m[0], "Hi, @ana!\nYour can not schedule without offset set. Please execute /set_offset");
    assert!(states(&p).is_empty());
}

#[test]
fn schedule_with_offset_asks_for_city() {
    let p = processor(ClientState::Initial, Some(2), None, "/schedule").process();
    assert_eq!(states(&p), vec![ClientState::ScheduleCity]);
    assert_eq!(messages(&p), vec!["Hi, @ana!\nWhat city would you like to schedule ?".to_string()]);
}

#[test]
fn cancel_from_any_state_returns_to_initial() {
    let all = [
        ClientState::FindCity,
        ClientState::SetCity,
        ClientState::Time,
        ClientState::FindCityNumber,
        ClientState::SetCityNumber,
        ClientState::Offset,
        ClientState::ScheduleCity,
        ClientState::ScheduleCityNumber,
    ];
    for s in all {
        let p = processor(s, Some(1), Some("Tok"), "/cancel").process();
        assert_eq!(states(&p), vec![ClientState::Initial]);
        assert_eq!(messages(&p), vec!["Hi, @ana!\nYour operation was canceled".to_string()]);
    }
}

#[test]
fn find_city_then_search_lists_matches() {
    let p = processor(ClientState::Initial, None, None, "/find_city").process();
    assert_eq!(states(&p), vec![ClientState::FindCity]);
    let q = processor(ClientState::FindCity, None, None, "Tokyo");
    let p = q.process();
    match &p.next {
        Next::SearchCities(t) => assert_eq!(t, "Tokyo"),
        _ => panic!("expected a city search"),
    }
    let rows = vec![row("Tokyo", "JP", ""), row("Tokyo", "US", "TX")];
    let p = q.on_city_search(&rows);
    assert_eq!(
        messages(&p),
        vec!["Hi, @ana!\nI found these cities. Put a number to select one\n\n1. Tokyo,JP\n2. Tokyo,US,TX\n".to_string()]
    );
    assert!(matches!(&p.actions[1], Action::ModifySelected(t) if t == "Tokyo"));
    assert_eq!(states(&p), vec![ClientState::FindCityNumber]);
}

#[test]
fn city_search_without_matches_cancels() {
    let q = processor(ClientState::SetCity, None, None, "Atlantis");
    let p = q.on_city_search(&Vec::new());
    assert_eq!(
        messages(&p),
        vec![
            "Hi, @ana!\nYour city Atlantis was not found. Command cancelled.".to_string(),
            "Hi, @ana!\nYour operation was canceled".to_string(),
        ]
    );
    assert_eq!(states(&p), vec![ClientState::Initial]);
    let many: Vec<CityRow> = (0..31).map(|_| row("San", "ES", "")).collect();
    let p = q.on_city_search(&many);
    assert_eq!(states(&p), vec![ClientState::Initial]);
    let thirty: Vec<CityRow> = (0..30).map(|_| row("San", "ES", "")).collect();
    let p = q.on_city_search(&thirty);
    assert_eq!(states(&p), vec![ClientState::SetCityNumber]);
}

#[test]
fn number_selection_fetches_weather() {
    let q = processor(ClientState::FindCityNumber, None, Some("Tokyo"), "2");
    let p = q.process();
    match &p.next {
        Next::PickCity(pattern, n) => {
            assert_eq!(pattern, "Tokyo");
            assert_eq!(*n, 2);
        }
        _ => panic!("expected a city pick"),
    }
    let p = q.on_city_picked(city(2, "Tokyo"));
    assert_eq!(states(&p), vec![ClientState::Initial]);
    let c = match p.next {
        Next::FetchWeather(c) => c,
        _ => panic!("expected a weather fetch"),
    };
    let p = q.on_weather(&c, "sunny");
    assert_eq!(messages(&p), vec!["Hi, @ana!\nTokyo,JP\nLat 35.6895 , Lon 139.6917\nsunny".to_string()]);
}

#[test]
fn non_number_selection_cancels() {
    let p = processor(ClientState::FindCityNumber, None, Some("Tokyo"), "abc").process();
    assert_eq!(states(&p), vec![ClientState::Initial]);
    assert_eq!(
        messages(&p),
        vec!["Hi, @ana!\nThat's not a positive number in the range. The command was cancelled".to_string()]
    );
}

#[test]
fn set_city_number_updates_default() {
    let q = processor(ClientState::SetCityNumber, None, Some("Tokyo"), "1");
    let p = q.on_city_picked(city(99, "Tokyo"));
    assert!(matches!(p.actions[1], Action::ModifyDefaultCity(99)));
    assert_eq!(messages(&p), vec!["Hi, @ana!\nYour default city was updated".to_string()]);
}

#[test]
fn schedule_city_number_then_time() {
    let q = processor(ClientState::ScheduleCityNumber, Some(2), Some("Tokyo"), "1");
    let p = q.on_city_picked(city(-42, "Tokyo"));
    assert!(matches!(&p.actions[0], Action::ModifySelected(t) if t == "-42"));
    assert_eq!(states(&p), vec![ClientState::Time]);
    let p = processor(ClientState::Time, Some(2), Some("1850147"), " 7:05 ").process();
    assert!(matches!(&p.actions[1], Action::UpsertForecast(1850147, t) if t == "0 5 5 * * * *"));
    assert_eq!(states(&p), vec![ClientState::Initial]);
    assert_eq!(messages(&p), vec!["Hi, @ana!\nWeather info scheduled every day at 7:05 UTC 2".to_string()]);
    let p = processor(ClientState::Time, Some(-1), Some("3"), "23:59").process();
    assert!(matches!(&p.actions[1], Action::UpsertForecast(3, t) if t == "0 59 0 * * * *"));
    assert_eq!(messages(&p), vec!["Hi, @ana!\nWeather info scheduled every day at 23:59 UTC -1".to_string()]);
}

#[test]
fn bad_time_cancels() {
    let p = processor(ClientState::Time, Some(2), Some("3"), "25:00").process();
    assert_eq!(states(&p), vec![ClientState::Initial]);
    assert!(messages(&p)[0].contains("That's not a well formatted time"));
}

#[test]
fn set_offset_reschedules_forecasts() {
    let p = processor(ClientState::Initial, None, None, "/set_offset").process();
    assert_eq!(states(&p), vec![ClientState::Offset]);
    let q = processor(ClientState::Offset, None, None, "5");
    let p = q.process();
    assert!(matches!(p.actions[1], Action::ModifyOffset(5)));
    assert!(matches!(p.next, Next::ListForecasts));
    let stored = vec![forecast(1, "0 30 10 * * * *"), forecast(2, "0 0 3 * * * *")];
    let p = q.on_forecasts(&stored);
    assert!(matches!(&p.actions[0], Action::UpdateForecast(1, t) if t == "0 30 5 * * * *"));
    assert!(matches!(&p.actions[1], Action::UpdateForecast(2, t) if t == "0 0 22 * * * *"));
    assert_eq!(messages(&p), vec!["Hi, @ana!\nYour offset was set to 5".to_string()]);
    assert_eq!(states(&p), vec![ClientState::Initial]);
}

#[test]
fn offset_change_relative_to_previous() {
    let q = processor(ClientState::Offset, Some(-3), None, "2");
    let p = q.on_forecasts(&vec![forecast(4, "0 10 12 * * * *")]);
    assert!(matches!(&p.actions[0], Action::UpdateForecast(4, t) if t == "0 10 7 * * * *"));
}

#[test]
fn out_of_range_offset_is_refused() {
    let p = processor(ClientState::Offset, None, None, "13").process();
    assert_eq!(states(&p), vec![ClientState::Initial]);
    assert!(!p.actions.iter().any(|a| matches!(a, Action::ModifyOffset(_))));
    assert!(messages(&p)[0].contains("not a valid offset"));
}

#[test]
fn unschedule_returns_deleted_rows() {
    let q = processor(ClientState::Initial, Some(1), None, "/unschedule");
    let p = q.process();
    assert!(matches!(p.next, Next::DeleteForecasts));
    let deleted = vec![forecast(1, "0 30 10 * * * *"), forecast(2, "0 0 3 * * * *")];
    let (p, back) = q.on_deleted(deleted);
    assert_eq!(messages(&p), vec!["Hi, @ana!\nYour forecasts were unscheduled".to_string()]);
    assert_eq!(back.len(), 2);
    let keys = removal_keys(&back);
    assert_eq!(keys.len(), 2);
    assert_eq!(keys[1].cron_expression, "0 0 3 * * * *");
    assert_eq!(keys[0].city_id, 7);
    assert_eq!(keys[0].chat_id, 10);
}

#[test]
fn default_city_lookup() {
    let q = processor(ClientState::Initial, None, None, "/current_default_city");
    let p = q.on_city_lookup(Some(city(5, "Tokyo")));
    assert_eq!(
        messages(&p),
        vec!["Hi, @ana!\nYour default city is Tokyo,JP Coords: ( lon:139.6917, lat:35.6895 )".to_string()]
    );
    let p = q.on_city_lookup(None);
    assert_eq!(messages(&p), vec!["Hi, @ana!\nYou do not have default city".to_string()]);
    let p = processor(ClientState::Initial, None, None, "/default").process();
    assert_eq!(states(&p), vec![ClientState::SetCity]);
    assert_eq!(messages(&p).len(), 2);
}

#[test]
fn create_reads_updates() {
    let message = |text: Option<&str>, username: Option<&str>| IncomingMessage {
        message_id: 3,
        chat_id: 10,
        text: text.map(|t| t.to_string()),
        user_id: 20,
        username: username.map(|u| u.to_string()),
        first_name: "Ana".to_string(),
    };
    let c = || chat(ClientState::Initial, None, None);
    assert!(matches!(
        UpdateProcessor::create(IncomingUpdate::Other, c()),
        Err(BotError::UpdateNotMessage(e)) if e == "no message"
    ));
    assert!(matches!(
        UpdateProcessor::create(IncomingUpdate::Message(message(None, None)), c()),
        Err(BotError::UpdateNotMessage(e)) if e == "no text"
    ));
    let u = IncomingUpdate::Message(message(Some("/start"), Some("ana")));
    assert_eq!(chat_key(&u), Some((10, 20)));
    let p = match UpdateProcessor::create(u, c()) {
        Ok(p) => p,
        Err(_) => panic!("expected a processor"),
    };
    assert_eq!(p.username, "@ana");
    assert_eq!(p.command, Command::Start);
    let p = match UpdateProcessor::create(IncomingUpdate::Message(message(Some("hi"), None)), c()) {
        Ok(p) => p,
        Err(_) => panic!("expected a processor"),
    };
    assert_eq!(p.username, "Ana");
}

#[test]
fn listing_and_headline() {
    assert_eq!(
        city_listing(&vec![row("Paris", "FR", "")]),
        "I found these cities. Put a number to select one\n\n1. Paris,FR\n"
    );
    assert_eq!(headline(&Vec::new()), "");
    let info = WeatherInfo { id: 800, main: "Clear".to_string(), description: "clear sky".to_string(), icon: "01d".to_string() };
    assert_eq!(headline(&vec![info]), "clear sky");
}
