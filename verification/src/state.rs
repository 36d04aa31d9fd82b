use vstd::prelude::*;

use crate::errors::Stage;
use crate::errors::WidgetError;
use crate::geocode::parse_lat_lon_and_location;
use crate::geocode::spec_parse_geocode;
use crate::numbers::Decimal;
use crate::payload::utf8_chars;
use crate::payload::utf8_decode;
use crate::resolve::derive_geocode_query;
use crate::resolve::geocode_url;
use crate::resolve::push_char;
use crate::resolve::spec_geocode_url;
use crate::resolve::spec_query;
use crate::resolve::spec_trim;
use crate::resolve::spec_weather_url;
use crate::resolve::trim_text;
use crate::resolve::weather_url;
use crate::weather::parse_weather_data;
use crate::weather::spec_parse_weather;
use crate::weather::HourlyRecord;
use crate::weather::FORECAST_HOURS;

verus! {

/// A discrete key the user can press.
#[derive(Clone, Copy, PartialEq, Eq, Structural, Debug)]
pub enum InputKey {
    /// Submit: start or retry a fetch, or confirm a typed location.
    Confirm,
    /// Begin typing a new location.
    StartLocationEntry,
    /// Remove the last typed character.
    DeleteChar,
    /// Add one typed character.
    Append(char),
}

/// An external completion or keystroke the orchestrator reacts to. Requests
/// carry a correlation tag; a completion whose tag the orchestrator did not
/// issue is ignored.
pub enum Event {
    /// The host granted the widget's permissions; resolution may start.
    PermissionGranted,
    /// A local command finished.
    CommandDone { tag: Option<Stage>, exit_code: Option<i32>, stdout: Vec<u8>, stderr: Vec<u8> },
    /// An HTTP request finished.
    WebDone { tag: Option<Stage>, status: u16, body: Vec<u8> },
    /// The user pressed a key.
    Key(InputKey),
}

/// An outbound request the host must perform for the orchestrator.
pub enum Action {
    /// Run the local command that prints the system timezone, tagged
    /// `Stage::TimezoneCommand`.
    RunTimezoneCommand,
    /// Fetch this URL, tagged `Stage::Geocode`.
    FetchGeocode(String),
    /// Fetch this URL, tagged `Stage::Weather`.
    FetchWeather(String),
}

/// The orchestrator's state: the widget's only mutable data.
pub struct State {
    /// The hourly forecast: empty until the first successful fetch, then
    /// exactly `FORECAST_HOURS` records, replaced wholesale on each success.
    pub forecast: Vec<HourlyRecord>,
    /// The location hint resolution starts from: a timezone path or a typed
    /// place name.
    pub hint: Option<String>,
    /// The resolved location's display label, `"{city}, {country}"`.
    pub resolved_label: Option<String>,
    /// The resolved coordinates, set only by a successful geocode decode.
    pub geolocation: Option<(Decimal, Decimal)>,
    /// The last failure, shown until the user retries.
    pub last_error: Option<WidgetError>,
    /// Whether a fetch is underway.
    pub is_fetching: bool,
    /// The location being typed, present only in text-entry mode.
    pub draft_input: Option<String>,
}

/// The mathematical value of a `State`.
#[verifier::ext_equal]
pub struct StateModel {
    pub forecast: Seq<HourlyRecord>,
    pub hint: Option<Seq<char>>,
    pub resolved_label: Option<Seq<char>>,
    pub geolocation: Option<(Decimal, Decimal)>,
    pub last_error: Option<WidgetError>,
    pub is_fetching: bool,
    pub draft_input: Option<Seq<char>>,
}

/// The mathematical value of an `Event`.
pub enum EventModel {
    PermissionGranted,
    CommandDone { tag: Option<Stage>, exit_code: Option<i32>, stdout: Seq<u8>, stderr: Seq<u8> },
    WebDone { tag: Option<Stage>, status: u16, body: Seq<u8> },
    Key(InputKey),
}

/// The mathematical value of an `Action`.
pub enum ActionModel {
    RunTimezoneCommand,
    FetchGeocode(Seq<char>),
    FetchWeather(Seq<char>),
}

impl View for State {
    type V = StateModel;

    open spec fn view(&self) -> StateModel {
        StateModel {
            forecast: self.forecast@,
            hint: self.hint.deep_view(),
            resolved_label: self.resolved_label.deep_view(),
            geolocation: self.geolocation,
            last_error: self.last_error,
            is_fetching: self.is_fetching,
            draft_input: self.draft_input.deep_view(),
        }
    }
}

impl View for Event {
    type V = EventModel;

    open spec fn view(&self) -> EventModel {
        match self {
            Event::PermissionGranted => EventModel::PermissionGranted,
            Event::CommandDone { tag, exit_code, stdout, stderr } => EventModel::CommandDone {
                tag: *tag,
                exit_code: *exit_code,
                stdout: stdout@,
                stderr: stderr@,
            },
            Event::WebDone { tag, status, body } => EventModel::WebDone {
                tag: *tag,
                status: *status,
                body: body@,
            },
            Event::Key(k) => EventModel::Key(*k),
        }
    }
}

impl View for Action {
    type V = ActionModel;

    open spec fn view(&self) -> ActionModel {
        match self {
            Action::RunTimezoneCommand => ActionModel::RunTimezoneCommand,
            Action::FetchGeocode(url) => ActionModel::FetchGeocode(url@),
            Action::FetchWeather(url) => ActionModel::FetchWeather(url@),
        }
    }
}

/// The state the widget starts in: everything empty but for the configured
/// hint, if any.
pub open spec fn spec_init(hint: Option<Seq<char>>) -> StateModel {
    StateModel {
        forecast: Seq::<HourlyRecord>::empty(),
        hint,
        resolved_label: None,
        geolocation: None,
        last_error: None,
        is_fetching: false,
        draft_input: None,
    }
}

/// The request that starts (or restarts) resolution: a geocode lookup for a
/// known hint, else the local timezone command.
pub open spec fn spec_resolve(s: StateModel) -> ActionModel {
    match s.hint {
        Some(h) => ActionModel::FetchGeocode(spec_geocode_url(spec_query(h))),
        None => ActionModel::RunTimezoneCommand,
    }
}

/// A failure's effect on the state: the error is recorded, fetching ends,
/// text entry ends; everything else — the displayed forecast above all —
/// stays as it was.
pub open spec fn with_error(s: StateModel, e: WidgetError) -> StateModel {
    StateModel { last_error: Some(e), is_fetching: false, draft_input: None, ..s }
}

/// Whether an HTTP status reports success.
pub open spec fn status_ok(status: u16) -> bool {
    200 <= status < 300
}

/// The transition relation: the state after an event, the request to issue,
/// and whether the display changed.
pub open spec fn spec_step(s: StateModel, e: EventModel) -> (StateModel, Option<ActionModel>, bool) {
    match e {
        EventModel::PermissionGranted => (s, Some(spec_resolve(s)), false),
        EventModel::CommandDone { tag, exit_code, stdout, stderr } => {
            if tag != Some(Stage::TimezoneCommand) {
                (s, None, false)
            } else if stderr.len() > 0 || exit_code != Some(0i32) {
                (with_error(s, WidgetError::RequestFailed(Stage::TimezoneCommand)), None, false)
            } else {
                match utf8_chars(stdout) {
                    None => (with_error(s, WidgetError::EncodingError), None, false),
                    Some(out) => {
                        let s2 = StateModel { hint: Some(spec_trim(out)), ..s };
                        (s2, Some(spec_resolve(s2)), false)
                    },
                }
            }
        },
        EventModel::WebDone { tag, status, body } => {
            if tag == Some(Stage::Weather) {
                if !status_ok(status) {
                    (with_error(s, WidgetError::RequestFailed(Stage::Weather)), None, true)
                } else {
                    match spec_parse_weather(body) {
                        Ok(rows) => (
                            StateModel { forecast: rows, is_fetching: false, ..s },
                            None,
                            true,
                        ),
                        Err(err) => (with_error(s, err), None, true),
                    }
                }
            } else if tag == Some(Stage::Geocode) {
                if !status_ok(status) {
                    (with_error(s, WidgetError::RequestFailed(Stage::Geocode)), None, true)
                } else {
                    match spec_parse_geocode(body) {
                        Ok(res) => (
                            StateModel {
                                geolocation: Some((res.0, res.1)),
                                resolved_label: Some(res.2),
                                ..s
                            },
                            Some(ActionModel::FetchWeather(spec_weather_url(res.0, res.1))),
                            true,
                        ),
                        Err(err) => (with_error(s, err), None, true),
                    }
                }
            } else {
                (s, None, false)
            }
        },
        EventModel::Key(k) => match k {
            InputKey::Confirm => {
                if s.last_error is Some {
                    let s2 = StateModel { last_error: None, is_fetching: true, ..s };
                    (s2, Some(spec_resolve(s2)), true)
                } else {
                    let s2 = match s.draft_input {
                        Some(d) => StateModel { hint: Some(d), draft_input: None, ..s },
                        None => s,
                    };
                    let s3 = StateModel { is_fetching: true, ..s2 };
                    (s3, Some(spec_resolve(s3)), true)
                }
            },
            InputKey::StartLocationEntry => (
                StateModel { last_error: None, draft_input: Some(Seq::<char>::empty()), ..s },
                None,
                true,
            ),
            InputKey::DeleteChar => match s.draft_input {
                Some(d) => (
                    StateModel {
                        draft_input: Some(if d.len() > 0 { d.drop_last() } else { d }),
                        ..s
                    },
                    None,
                    true,
                ),
                None => (s, None, true),
            },
            InputKey::Append(c) => match s.draft_input {
                Some(d) => (StateModel { draft_input: Some(d.push(c)), ..s }, None, true),
                None => (s, None, true),
            },
        },
    }
}

/// The state invariant: error display and text entry exclude each other, and
/// the forecast is empty or complete.
pub open spec fn wf(s: StateModel) -> bool {
    &&& s.last_error is Some ==> s.draft_input is None
    &&& s.forecast.len() == 0 || s.forecast.len() == FORECAST_HOURS
}

/// Every transition preserves the state invariant.
pub proof fn lemma_step_preserves_wf(s: StateModel, e: EventModel)
    requires
        wf(s),
    ensures
        wf(spec_step(s, e).0),
{
    if let EventModel::WebDone { tag, status, body } = e {
        if tag == Some(Stage::Weather) && status_ok(status) {
            if let Ok(rows) = spec_parse_weather(body) {
                if let Some(text) = utf8_chars(body) {
                    crate::weather::lemma_records_complete(text, FORECAST_HOURS as int, rows);
                }
            }
        }
    }
}

/// The forecast changes only when a weather completion's payload decodes
/// whole: every other event — failures above all — leaves the displayed
/// forecast exactly as it was, and no partial decode ever reaches it.
pub proof fn lemma_forecast_changes_only_on_success(s: StateModel, e: EventModel)
    ensures
        spec_step(s, e).0.forecast == s.forecast || (e matches EventModel::WebDone {
            tag: Some(Stage::Weather),
            status,
            body,
        } && (status_ok(status) && (spec_parse_weather(body) matches Ok(rows) && spec_step(
            s,
            e,
        ).0.forecast == rows))),
{
}

impl State {
    /// The startup state, with the configured location hint if one was
    /// supplied.
    pub fn new(initial_hint: Option<String>) -> (s: State)
        ensures
            s@ == spec_init(initial_hint.deep_view()),
    {
        let s = State {
            forecast: Vec::new(),
            hint: initial_hint,
            resolved_label: None,
            geolocation: None,
            last_error: None,
            is_fetching: false,
            draft_input: None,
        };
        proof {
            assert(s@ =~= spec_init(initial_hint.deep_view()));
        }
        s
    }

    /// The request that starts resolution from the current state: a geocode
    /// lookup when a hint is known, else the timezone discovery command.
    pub fn resolve_action(&self) -> (a: Action)
        ensures
            a@ == spec_resolve(self@),
    {
        match &self.hint {
            Some(h) => {
                let q = derive_geocode_query(h.as_str());
                Action::FetchGeocode(geocode_url(q.as_str()))
            },
            None => Action::RunTimezoneCommand,
        }
    }

    /// Records a failure: the error is kept, fetching and text entry end,
    /// and the displayed forecast stays.
    fn set_error(&mut self, e: WidgetError)
        ensures
            final(self)@ == with_error(old(self)@, e),
    {
        self.last_error = Some(e);
        self.is_fetching = false;
        self.draft_input = None;
        proof {
            assert(self@ =~= with_error(old(self)@, e));
        }
    }

    /// Reacts to one event: mutates the state as `spec_step` says, returns
    /// the request to issue, if any, and whether the display changed.
    pub fn update(&mut self, event: Event) -> (r: (Option<Action>, bool))
        ensures
            final(self)@ == spec_step(old(self)@, event@).0,
            (r.0 is Some) == (spec_step(old(self)@, event@).1 is Some),
            r.0 matches Some(a) ==> Some(a@) == spec_step(old(self)@, event@).1,
            r.1 == spec_step(old(self)@, event@).2,
    {
        let ghost s0 = self@;
        let ghost e0 = event@;
        match event {
            Event::PermissionGranted => {
                let a = self.resolve_action();
                (Some(a), false)
            },
            Event::CommandDone { tag, exit_code, stdout, stderr } => {
                let is_timezone = match tag {
                    Some(Stage::TimezoneCommand) => true,
                    _ => false,
                };
                if !is_timezone {
                    return (None, false);
                }
                let exited_zero = match exit_code {
                    Some(c) => c == 0,
                    None => false,
                };
                if stderr.len() > 0 || !exited_zero {
                    self.set_error(WidgetError::RequestFailed(Stage::TimezoneCommand));
                    return (None, false);
                }
                match utf8_decode(stdout.as_slice()) {
                    None => {
                        self.set_error(WidgetError::EncodingError);
                        (None, false)
                    },
                    Some(out) => {
                        let hint = trim_text(out.as_str());
                        self.hint = Some(hint);
                        proof {
                            assert(self@ =~= spec_step(s0, e0).0);
                        }
                        let a = self.resolve_action();
                        (Some(a), false)
                    },
                }
            },
            Event::WebDone { tag, status, body } => {
                let ok = 200 <= status && status < 300;
                match tag {
                    Some(Stage::Weather) => {
                        if !ok {
                            self.set_error(WidgetError::RequestFailed(Stage::Weather));
                            return (None, true);
                        }
                        match parse_weather_data(body) {
                            Ok(rows) => {
                                self.forecast = rows;
                                self.is_fetching = false;
                                proof {
                                    assert(self@ =~= spec_step(s0, e0).0);
                                }
                                (None, true)
                            },
                            Err(err) => {
                                self.set_error(err);
                                (None, true)
                            },
                        }
                    },
                    Some(Stage::Geocode) => {
                        if !ok {
                            self.set_error(WidgetError::RequestFailed(Stage::Geocode));
                            return (None, true);
                        }
                        match parse_lat_lon_and_location(body) {
                            Ok((lat, lon, label)) => {
                                self.geolocation = Some((lat, lon));
                                self.resolved_label = Some(label);
                                proof {
                                    assert(self@ =~= spec_step(s0, e0).0);
                                }
                                let url = weather_url(&lat, &lon);
                                (Some(Action::FetchWeather(url)), true)
                            },
                            Err(err) => {
                                self.set_error(err);
                                (None, true)
                            },
                        }
                    },
                    _ => (None, false),
                }
            },
            Event::Key(key) => match key {
                InputKey::Confirm => {
                    if self.last_error.is_some() {
                        self.last_error = None;
                        self.is_fetching = true;
                        proof {
                            assert(self@ =~= spec_step(s0, e0).0);
                        }
                        let a = self.resolve_action();
                        (Some(a), true)
                    } else {
                        let draft = self.draft_input.take();
                        match draft {
                            Some(d) => {
                                self.hint = Some(d);
                            },
                            None => {},
                        }
                        self.is_fetching = true;
                        proof {
                            assert(self@ =~= spec_step(s0, e0).0);
                        }
                        let a = self.resolve_action();
                        (Some(a), true)
                    }
                },
                InputKey::StartLocationEntry => {
                    self.last_error = None;
                    self.draft_input = Some(String::new());
                    proof {
                        assert(self@ =~= spec_step(s0, e0).0);
                    }
                    (None, true)
                },
                InputKey::DeleteChar => {
                    match &self.draft_input {
                        Some(d) => {
                            let len = d.as_str().unicode_len();
                            if len > 0 {
                                let shorter = String::from_str(
                                    d.as_str().substring_char(0, len - 1),
                                );
                                proof {
                                    assert(shorter@ =~= d@.drop_last());
                                }
                                self.draft_input = Some(shorter);
                            }
                        },
                        None => {},
                    }
                    proof {
                        assert(self@ =~= spec_step(s0, e0).0);
                    }
                    (None, true)
                },
                InputKey::Append(c) => {
                    match self.draft_input.as_mut() {
                        Some(d) => {
                            push_char(d, c);
                            proof {
                                assert(d@ =~= s0.draft_input.unwrap().push(c));
                            }
                        },
                        None => {},
                    }
                    proof {
                        assert(self@ =~= spec_step(s0, e0).0);
                    }
                    (None, true)
                },
            },
        }
    }
}

} // verus!
