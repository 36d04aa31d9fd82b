use vstd::prelude::*;

use crate::errors::Field;
use crate::errors::WidgetError;
use crate::numbers::Decimal;
use crate::payload::geo_number;
use crate::payload::geo_number_at;
use crate::payload::geo_results_count;
use crate::payload::geo_results_len;
use crate::payload::geo_string;
use crate::payload::geo_string_at;
use crate::payload::json_text_valid;
use crate::payload::json_valid;
use crate::payload::utf8_chars;
use crate::payload::utf8_decode;
use crate::weather::decimal_of;

verus! {

/// What the geocode parser returns on `bytes`: the first result's latitude
/// and longitude and its label `"{city}, {country}"`, or the first failure.
/// UTF-8 decode first, then the structural JSON check, then the emptiness of
/// `results`, then the four fields in a fixed order.
pub open spec fn spec_parse_geocode(bytes: Seq<u8>) -> Result<
    (Decimal, Decimal, Seq<char>),
    WidgetError,
> {
    match utf8_chars(bytes) {
        None => Err(WidgetError::EncodingError),
        Some(text) => if !json_valid(text) {
            Err(WidgetError::MalformedPayload)
        } else if geo_results_len(text) == 0 {
            Err(WidgetError::NoResultsFound)
        } else {
            match geo_number_at(text, "latitude"@) {
                None => Err(WidgetError::MissingField(Field::Latitude)),
                Some(lat) => match geo_number_at(text, "longitude"@) {
                    None => Err(WidgetError::MissingField(Field::Longitude)),
                    Some(lon) => match geo_string_at(text, "name"@) {
                        None => Err(WidgetError::MissingField(Field::City)),
                        Some(city) => match geo_string_at(text, "country"@) {
                            None => Err(WidgetError::MissingField(Field::Country)),
                            Some(country) => Ok(
                                (decimal_of(lat), decimal_of(lon), city + ", "@ + country),
                            ),
                        },
                    },
                },
            }
        },
    }
}

/// Decodes a geocode payload into the first result's coordinates and its
/// display label `"{city}, {country}"`.
pub fn parse_lat_lon_and_location(body: Vec<u8>) -> (r: Result<(Decimal, Decimal, String), WidgetError>)
    ensures
        match r {
            Ok(v) => spec_parse_geocode(body@) == Ok::<(Decimal, Decimal, Seq<char>), WidgetError>(
                (v.0, v.1, v.2@),
            ),
            Err(e) => spec_parse_geocode(body@) == Err::<
                (Decimal, Decimal, Seq<char>),
                WidgetError,
            >(e),
        },
{
    let text = match utf8_decode(body.as_slice()) {
        None => {
            return Err(WidgetError::EncodingError);
        },
        Some(t) => t,
    };
    if !json_text_valid(text.as_str()) {
        return Err(WidgetError::MalformedPayload);
    }
    if geo_results_count(text.as_str()) == 0 {
        return Err(WidgetError::NoResultsFound);
    }
    let latitude = match geo_number(text.as_str(), "latitude") {
        None => {
            return Err(WidgetError::MissingField(Field::Latitude));
        },
        Some(p) => p,
    };
    let longitude = match geo_number(text.as_str(), "longitude") {
        None => {
            return Err(WidgetError::MissingField(Field::Longitude));
        },
        Some(p) => p,
    };
    let city = match geo_string(text.as_str(), "name") {
        None => {
            return Err(WidgetError::MissingField(Field::City));
        },
        Some(s) => s,
    };
    let country = match geo_string(text.as_str(), "country") {
        None => {
            return Err(WidgetError::MissingField(Field::Country));
        },
        Some(s) => s,
    };
    let mut label = city;
    label.append(", ");
    label.append(country.as_str());
    Ok(
        (
            Decimal { positive: latitude.0, mantissa: latitude.1, exponent: latitude.2 },
            Decimal { positive: longitude.0, mantissa: longitude.1, exponent: longitude.2 },
            label,
        ),
    )
}

} // verus!
