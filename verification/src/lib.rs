pub mod display;
pub mod errors;
pub mod geocode;
pub mod numbers;
pub mod payload;
pub mod resolve;
pub mod state;
pub mod weather;

pub use display::wind_direction_arrow;
pub use display::wmo_code_to_text;
pub use display::Emphasis;
pub use errors::Field;
pub use errors::Stage;
pub use errors::WidgetError;
pub use geocode::parse_lat_lon_and_location;
pub use numbers::format_decimal;
pub use numbers::Decimal;
pub use resolve::derive_geocode_query;
pub use resolve::geocode_url;
pub use resolve::trim_text;
pub use resolve::weather_url;
pub use state::Action;
pub use state::Event;
pub use state::InputKey;
pub use state::State;
pub use weather::parse_weather_data;
pub use weather::HourlyRecord;
pub use weather::FORECAST_HOURS;
