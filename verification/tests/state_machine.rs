use weather_widget::{Action, Event, InputKey, Stage, State, WidgetError};

const GEOCODE_BERLIN: &str =
    "https://geocoding-api.open-meteo.com/v1/search?name=Berlin&count=1&language=en&format=json";

fn weather_payload() -> Vec<u8> {
    let mut arrays = Vec::new();
    for kind in 0..5 {
        let mut s = String::from("[");
        for i in 0..167 {
            if i > 0 {
                s.push(',');
            }
            match kind {
                0 => s.push_str(&format!("{}.5", i)),
                1 => s.push_str(&format!("{}", i % 101)),
                2 => s.push_str(&format!("{}.0", i)),
                3 => s.push_str(&format!("{}", 3 * i % 361)),
                _ => s.push_str("61"),
            }
        }
        s.push(']');
        arrays.push(s);
    }
    format!(
        "{{\"hourly\":{{\"temperature_2m\":{},\"precipitation_probability\":{},\"wind_speed_10m\":{},\"wind_direction_10m\":{},\"weather_code\":{}}}}}",
        arrays[0], arrays[1], arrays[2], arrays[3], arrays[4]
    )
    .into_bytes()
}

fn displaying_state() -> State {
    let mut state = State::new(Some("Europe/Berlin".to_string()));
    let (action, render) = state.update(Event::WebDone {
        tag: Some(Stage::Weather),
        status: 200,
        body: weather_payload(),
    });
    assert!(action.is_none());
    assert!(render);
    assert_eq!(state.forecast.len(), 167);
    state
}

#[test]
fn weather_failure_status_preserves_forecast() {
    let mut state = displaying_state();
    let before = state.forecast.clone();
    let (action, render) = state.update(Event::WebDone {
        tag: Some(Stage::Weather),
        status: 503,
        body: Vec::new(),
    });
    assert!(action.is_none());
    assert!(render);
    assert_eq!(state.last_error, Some(WidgetError::RequestFailed(Stage::Weather)));
    assert!(!state.is_fetching);
    assert_eq!(state.forecast, before);
}

#[test]
fn confirm_in_error_state_retries_with_known_hint() {
    let mut state = State::new(Some("Europe/Berlin".to_string()));
    state.update(Event::WebDone { tag: Some(Stage::Weather), status: 503, body: Vec::new() });
    assert!(state.last_error.is_some());
    let (action, render) = state.update(Event::Key(InputKey::Confirm));
    assert!(render);
    assert_eq!(state.last_error, None);
    assert!(state.is_fetching);
    match action {
        Some(Action::FetchGeocode(url)) => assert_eq!(url, GEOCODE_BERLIN),
        other => panic!("expected a geocode fetch, got {:?}", action_name(&other)),
    }
}

#[test]
fn confirm_in_error_state_without_hint_runs_the_command() {
    let mut state = State::new(None);
    state.update(Event::WebDone { tag: Some(Stage::Geocode), status: 500, body: Vec::new() });
    assert_eq!(state.last_error, Some(WidgetError::RequestFailed(Stage::Geocode)));
    let (action, _) = state.update(Event::Key(InputKey::Confirm));
    assert!(matches!(action, Some(Action::RunTimezoneCommand)));
    assert_eq!(state.last_error, None);
    assert!(state.is_fetching);
}

#[test]
fn editing_keys_outside_text_entry_change_nothing() {
    let mut state = State::new(None);
    let (action, render) = state.update(Event::Key(InputKey::DeleteChar));
    assert!(action.is_none());
    assert!(render);
    let (action, _) = state.update(Event::Key(InputKey::Append('x')));
    assert!(action.is_none());
    assert!(state.forecast.is_empty());
    assert_eq!(state.draft_input, None);
    assert_eq!(state.hint, None);
}

#[test]
fn text_entry_appends_and_deletes_clamped_at_empty() {
    let mut state = State::new(None);
    state.update(Event::Key(InputKey::StartLocationEntry));
    assert_eq!(state.draft_input.as_deref(), Some(""));
    state.update(Event::Key(InputKey::Append('a')));
    state.update(Event::Key(InputKey::Append('b')));
    assert_eq!(state.draft_input.as_deref(), Some("ab"));
    state.update(Event::Key(InputKey::DeleteChar));
    assert_eq!(state.draft_input.as_deref(), Some("a"));
    state.update(Event::Key(InputKey::DeleteChar));
    assert_eq!(state.draft_input.as_deref(), Some(""));
    state.update(Event::Key(InputKey::DeleteChar));
    assert_eq!(state.draft_input.as_deref(), Some(""));
}

#[test]
fn confirming_a_typed_location_makes_it_the_hint() {
    let mut state = State::new(None);
    state.update(Event::Key(InputKey::StartLocationEntry));
    for c in "New York".chars() {
        state.update(Event::Key(InputKey::Append(c)));
    }
    let (action, _) = state.update(Event::Key(InputKey::Confirm));
    assert_eq!(state.hint.as_deref(), Some("New York"));
    assert_eq!(state.draft_input, None);
    assert!(state.is_fetching);
    match action {
        Some(Action::FetchGeocode(url)) => assert_eq!(
            url,
            "https://geocoding-api.open-meteo.com/v1/search?name=New+York&count=1&language=en&format=json"
        ),
        other => panic!("expected a geocode fetch, got {:?}", action_name(&other)),
    }
}

#[test]
fn permission_grant_resolves_with_hint() {
    let mut state = State::new(Some("Europe/Berlin".to_string()));
    let (action, render) = state.update(Event::PermissionGranted);
    assert!(!render);
    match action {
        Some(Action::FetchGeocode(url)) => assert_eq!(url, GEOCODE_BERLIN),
        other => panic!("expected a geocode fetch, got {:?}", action_name(&other)),
    }
}

#[test]
fn permission_grant_without_hint_runs_the_command() {
    let mut state = State::new(None);
    let (action, _) = state.update(Event::PermissionGranted);
    assert!(matches!(action, Some(Action::RunTimezoneCommand)));
}

#[test]
fn discovered_timezone_becomes_the_hint() {
    let mut state = State::new(None);
    let (action, render) = state.update(Event::CommandDone {
        tag: Some(Stage::TimezoneCommand),
        exit_code: Some(0),
        stdout: b"Europe/Berlin\n".to_vec(),
        stderr: Vec::new(),
    });
    assert!(!render);
    assert_eq!(state.hint.as_deref(), Some("Europe/Berlin"));
    match action {
        Some(Action::FetchGeocode(url)) => assert_eq!(url, GEOCODE_BERLIN),
        other => panic!("expected a geocode fetch, got {:?}", action_name(&other)),
    }
}

#[test]
fn command_stderr_is_a_failure() {
    let mut state = State::new(None);
    let (action, _) = state.update(Event::CommandDone {
        tag: Some(Stage::TimezoneCommand),
        exit_code: Some(0),
        stdout: Vec::new(),
        stderr: b"no timedatectl".to_vec(),
    });
    assert!(action.is_none());
    assert_eq!(state.last_error, Some(WidgetError::RequestFailed(Stage::TimezoneCommand)));
    assert!(!state.is_fetching);
}

#[test]
fn command_nonzero_exit_is_a_failure() {
    let mut state = State::new(None);
    state.update(Event::CommandDone {
        tag: Some(Stage::TimezoneCommand),
        exit_code: Some(1),
        stdout: b"Europe/Berlin\n".to_vec(),
        stderr: Vec::new(),
    });
    assert_eq!(state.last_error, Some(WidgetError::RequestFailed(Stage::TimezoneCommand)));
    assert_eq!(state.hint, None);
}

#[test]
fn command_with_unknown_tag_is_ignored() {
    let mut state = State::new(None);
    let (action, render) = state.update(Event::CommandDone {
        tag: None,
        exit_code: Some(0),
        stdout: b"Europe/Berlin\n".to_vec(),
        stderr: Vec::new(),
    });
    assert!(action.is_none());
    assert!(!render);
    assert_eq!(state.hint, None);
    assert_eq!(state.last_error, None);
}

#[test]
fn web_result_with_unknown_tag_is_ignored() {
    let mut state = State::new(None);
    let (action, render) =
        state.update(Event::WebDone { tag: None, status: 200, body: b"{}".to_vec() });
    assert!(action.is_none());
    assert!(!render);
    assert_eq!(state.last_error, None);
}

#[test]
fn geocode_success_records_location_and_fetches_weather() {
    let mut state = State::new(Some("Europe/Berlin".to_string()));
    let body = b"{\"results\":[{\"latitude\":52.52,\"longitude\":13.405,\"name\":\"Berlin\",\"country\":\"Germany\"}]}".to_vec();
    let (action, render) =
        state.update(Event::WebDone { tag: Some(Stage::Geocode), status: 200, body });
    assert!(render);
    assert_eq!(state.resolved_label.as_deref(), Some("Berlin, Germany"));
    let (lat, lon) = state.geolocation.expect("geolocation should be set");
    assert_eq!((lat.mantissa, lat.exponent), (5252, -2));
    assert_eq!((lon.mantissa, lon.exponent), (13405, -3));
    match action {
        Some(Action::FetchWeather(url)) => assert_eq!(
            url,
            "https://api.open-meteo.com/v1/forecast?latitude=52.52&longitude=13.405&hourly=temperature_2m,precipitation_probability,wind_speed_10m,wind_direction_10m,weather_code"
        ),
        other => panic!("expected a weather fetch, got {:?}", action_name(&other)),
    }
}

#[test]
fn geocode_decode_failure_sets_the_error() {
    let mut state = State::new(Some("Nowhere".to_string()));
    let (action, _) = state.update(Event::WebDone {
        tag: Some(Stage::Geocode),
        status: 200,
        body: b"{\"results\":[]}".to_vec(),
    });
    assert!(action.is_none());
    assert_eq!(state.last_error, Some(WidgetError::NoResultsFound));
    assert!(!state.is_fetching);
}

#[test]
fn weather_success_replaces_forecast_wholesale() {
    let mut state = displaying_state();
    let old_first = state.forecast[0];
    // A second successful fetch replaces every record.
    let mut body = String::from("{\"hourly\":{");
    for (k, name) in [
        "temperature_2m",
        "precipitation_probability",
        "wind_speed_10m",
        "wind_direction_10m",
        "weather_code",
    ]
    .iter()
    .enumerate()
    {
        if k > 0 {
            body.push(',');
        }
        let mut arr = String::from("[");
        for i in 0..167 {
            if i > 0 {
                arr.push(',');
            }
            arr.push_str("7");
        }
        arr.push(']');
        body.push_str(&format!("\"{}\":{}", name, arr));
    }
    body.push_str("}}");
    state.update(Event::WebDone {
        tag: Some(Stage::Weather),
        status: 200,
        body: body.into_bytes(),
    });
    assert_eq!(state.forecast.len(), 167);
    assert_ne!(state.forecast[0], old_first);
    assert_eq!(state.forecast[0].precipitation_probability, 7);
    assert_eq!(state.forecast[0].temperature.mantissa, 7);
    assert_eq!(state.forecast[0].temperature.exponent, 0);
}

#[test]
fn new_location_entry_clears_the_error() {
    let mut state = State::new(None);
    state.update(Event::WebDone { tag: Some(Stage::Weather), status: 503, body: Vec::new() });
    assert!(state.last_error.is_some());
    state.update(Event::Key(InputKey::StartLocationEntry));
    assert_eq!(state.last_error, None);
    assert_eq!(state.draft_input.as_deref(), Some(""));
}

fn action_name(a: &Option<Action>) -> &'static str {
    match a {
        None => "none",
        Some(Action::RunTimezoneCommand) => "run timezone command",
        Some(Action::FetchGeocode(_)) => "fetch geocode",
        Some(Action::FetchWeather(_)) => "fetch weather",
    }
}
