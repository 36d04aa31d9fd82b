use weather_widget::{
    wind_direction_arrow, wmo_code_to_text, Emphasis, Field, Stage, WidgetError,
};

#[test]
fn wind_arrows_cover_the_compass() {
    assert_eq!(wind_direction_arrow(0), '↓');
    assert_eq!(wind_direction_arrow(44), '↓');
    assert_eq!(wind_direction_arrow(45), '↙');
    assert_eq!(wind_direction_arrow(90), '←');
    assert_eq!(wind_direction_arrow(135), '↖');
    assert_eq!(wind_direction_arrow(180), '↑');
    assert_eq!(wind_direction_arrow(225), '↗');
    assert_eq!(wind_direction_arrow(270), '→');
    assert_eq!(wind_direction_arrow(315), '↘');
    assert_eq!(wind_direction_arrow(359), '↘');
    assert_eq!(wind_direction_arrow(360), '↓');
    assert_eq!(wind_direction_arrow(361), '?');
}

#[test]
fn wmo_labels_and_emphasis() {
    assert_eq!(wmo_code_to_text(0), ("CLEAR SKY".to_string(), Emphasis::Plain));
    assert_eq!(wmo_code_to_text(3), ("OVERCAST".to_string(), Emphasis::Plain));
    assert_eq!(wmo_code_to_text(45), ("FOG".to_string(), Emphasis::Notice));
    assert_eq!(wmo_code_to_text(48), ("FOG".to_string(), Emphasis::Notice));
    assert_eq!(wmo_code_to_text(53), ("MODERATE DRIZZLE".to_string(), Emphasis::Notice));
    assert_eq!(wmo_code_to_text(65), ("HEAVY RAIN".to_string(), Emphasis::Alert));
    assert_eq!(wmo_code_to_text(95), ("THUNDERSTORM".to_string(), Emphasis::Alert));
    assert_eq!(
        wmo_code_to_text(99),
        ("THUNDERSTORM (HEAVY HAIL)".to_string(), Emphasis::Alert)
    );
    // A code the table does not know shows nothing.
    assert_eq!(wmo_code_to_text(7), (String::new(), Emphasis::Plain));
    assert_eq!(wmo_code_to_text(55), (String::new(), Emphasis::Plain));
}

#[test]
fn error_messages_name_what_failed() {
    assert_eq!(WidgetError::EncodingError.message(), "Payload is not valid UTF-8");
    assert_eq!(WidgetError::MalformedPayload.message(), "Payload is not valid JSON");
    assert_eq!(
        WidgetError::MissingField(Field::Temperature).message(),
        "Failed to parse temperature"
    );
    assert_eq!(
        WidgetError::MissingField(Field::Latitude).message(),
        "Failed to parse latitude"
    );
    assert_eq!(WidgetError::NoResultsFound.message(), "No results found for location");
    assert_eq!(
        WidgetError::RequestFailed(Stage::TimezoneCommand).message(),
        "Error fetching timezone"
    );
    assert_eq!(
        WidgetError::RequestFailed(Stage::Geocode).message(),
        "Failed geocode web request"
    );
    assert_eq!(
        WidgetError::RequestFailed(Stage::Weather).message(),
        "Failed weather web request"
    );
}
