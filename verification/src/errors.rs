use vstd::prelude::*;

verus! {

/// A required field of a payload, named for error reports.
#[derive(Clone, Copy, PartialEq, Eq, Structural, Debug)]
pub enum Field {
    Temperature,
    Precipitation,
    WindSpeed,
    WindDirection,
    WeatherCode,
    Latitude,
    Longitude,
    City,
    Country,
}

/// The stage of the resolution pipeline an outbound request belongs to.
#[derive(Clone, Copy, PartialEq, Eq, Structural, Debug)]
pub enum Stage {
    TimezoneCommand,
    Geocode,
    Weather,
}

/// Everything that can go wrong while resolving a location and fetching
/// weather data. Decode failures come from the parsers; `RequestFailed`
/// comes from the state machine when a completion reports a bad status.
#[derive(Clone, Copy, PartialEq, Eq, Structural, Debug)]
pub enum WidgetError {
    /// The payload bytes are not valid UTF-8 text.
    EncodingError,
    /// The text is not a well-formed JSON document.
    MalformedPayload,
    /// The document is well-formed but a required field is absent or of the
    /// wrong type.
    MissingField(Field),
    /// The geocode lookup found no match for the query.
    NoResultsFound,
    /// A command exited abnormally or an HTTP request returned a non-success
    /// status.
    RequestFailed(Stage),
}

/// The text of a field name as it appears in an error message.
pub open spec fn spec_field_name(f: Field) -> Seq<char> {
    match f {
        Field::Temperature => "temperature"@,
        Field::Precipitation => "precipitation probability"@,
        Field::WindSpeed => "wind speed"@,
        Field::WindDirection => "wind direction"@,
        Field::WeatherCode => "weather code"@,
        Field::Latitude => "latitude"@,
        Field::Longitude => "longitude"@,
        Field::City => "city"@,
        Field::Country => "country"@,
    }
}

/// The descriptive message shown for an error.
pub open spec fn spec_message(e: WidgetError) -> Seq<char> {
    match e {
        WidgetError::EncodingError => "Payload is not valid UTF-8"@,
        WidgetError::MalformedPayload => "Payload is not valid JSON"@,
        WidgetError::MissingField(f) => "Failed to parse "@ + spec_field_name(f),
        WidgetError::NoResultsFound => "No results found for location"@,
        WidgetError::RequestFailed(Stage::TimezoneCommand) => "Error fetching timezone"@,
        WidgetError::RequestFailed(Stage::Geocode) => "Failed geocode web request"@,
        WidgetError::RequestFailed(Stage::Weather) => "Failed weather web request"@,
    }
}

impl Field {
    /// The field's name for error reports.
    pub fn name_text(&self) -> (r: String)
        ensures
            r@ == spec_field_name(*self),
    {
        match self {
            Field::Temperature => String::from_str("temperature"),
            Field::Precipitation => String::from_str("precipitation probability"),
            Field::WindSpeed => String::from_str("wind speed"),
            Field::WindDirection => String::from_str("wind direction"),
            Field::WeatherCode => String::from_str("weather code"),
            Field::Latitude => String::from_str("latitude"),
            Field::Longitude => String::from_str("longitude"),
            Field::City => String::from_str("city"),
            Field::Country => String::from_str("country"),
        }
    }
}

impl WidgetError {
    /// The descriptive message for this error, as the display shows it.
    pub fn message(&self) -> (r: String)
        ensures
            r@ == spec_message(*self),
    {
        match self {
            WidgetError::EncodingError => String::from_str("Payload is not valid UTF-8"),
            WidgetError::MalformedPayload => String::from_str("Payload is not valid JSON"),
            WidgetError::MissingField(f) => {
                let mut m = String::from_str("Failed to parse ");
                let name = f.name_text();
                m.append(name.as_str());
                m
            },
            WidgetError::NoResultsFound => String::from_str("No results found for location"),
            WidgetError::RequestFailed(Stage::TimezoneCommand) => String::from_str(
                "Error fetching timezone",
            ),
            WidgetError::RequestFailed(Stage::Geocode) => String::from_str(
                "Failed geocode web request",
            ),
            WidgetError::RequestFailed(Stage::Weather) => String::from_str(
                "Failed weather web request",
            ),
        }
    }
}

} // verus!
