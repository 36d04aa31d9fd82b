use vstd::prelude::*;

use crate::errors::Field;
use crate::errors::WidgetError;
use crate::numbers::Decimal;
use crate::payload::hourly_integer;
use crate::payload::hourly_integer_at;
use crate::payload::hourly_number;
use crate::payload::hourly_number_at;
use crate::payload::json_text_valid;
use crate::payload::json_valid;
use crate::payload::utf8_chars;
use crate::payload::utf8_decode;

verus! {

/// How many hourly samples a forecast holds: one for each hour of up to
/// seven days.
pub const FORECAST_HOURS: usize = 167;

/// One forecast sample: the five values the weather endpoint reports for a
/// given hour.
#[derive(Clone, Copy, PartialEq, Eq, Structural, Debug)]
pub struct HourlyRecord {
    /// Air temperature, degrees Celsius.
    pub temperature: Decimal,
    /// Precipitation probability, an integer percentage.
    pub precipitation_probability: u64,
    /// Wind speed, km/h.
    pub wind_speed: Decimal,
    /// Wind direction, integer degrees.
    pub wind_direction: u64,
    /// WMO weather condition code.
    pub weather_code: u64,
}

/// A `Decimal` from the sign, mantissa and exponent a payload number carries.
pub open spec fn decimal_of(parts: (bool, u64, i16)) -> Decimal {
    Decimal { positive: parts.0, mantissa: parts.1, exponent: parts.2 }
}

/// The record at hour `i` of the weather document `text`: its five fields
/// read by position, or the first field (in reading order) that is absent or
/// of the wrong type.
pub open spec fn spec_record_at(text: Seq<char>, i: int) -> Result<HourlyRecord, WidgetError> {
    match hourly_number_at(text, "temperature_2m"@, i) {
        None => Err(WidgetError::MissingField(Field::Temperature)),
        Some(t) => match hourly_integer_at(text, "precipitation_probability"@, i) {
            None => Err(WidgetError::MissingField(Field::Precipitation)),
            Some(p) => match hourly_number_at(text, "wind_speed_10m"@, i) {
                None => Err(WidgetError::MissingField(Field::WindSpeed)),
                Some(w) => match hourly_integer_at(text, "wind_direction_10m"@, i) {
                    None => Err(WidgetError::MissingField(Field::WindDirection)),
                    Some(d) => match hourly_integer_at(text, "weather_code"@, i) {
                        None => Err(WidgetError::MissingField(Field::WeatherCode)),
                        Some(c) => Ok(
                            HourlyRecord {
                                temperature: decimal_of(t),
                                precipitation_probability: p,
                                wind_speed: decimal_of(w),
                                wind_direction: d,
                                weather_code: c,
                            },
                        ),
                    },
                },
            },
        },
    }
}

/// The first `n` records of the weather document `text`, in hour order, or
/// the error of the earliest hour whose record does not decode.
pub open spec fn spec_records(text: Seq<char>, n: int) -> Result<Seq<HourlyRecord>, WidgetError>
    decreases n,
{
    if n <= 0 {
        Ok(Seq::<HourlyRecord>::empty())
    } else {
        match spec_records(text, n - 1) {
            Err(e) => Err(e),
            Ok(s) => match spec_record_at(text, n - 1) {
                Err(e) => Err(e),
                Ok(r) => Ok(s.push(r)),
            },
        }
    }
}

/// What the weather parser returns on `bytes`: UTF-8 decode first, then the
/// structural JSON check, then all `FORECAST_HOURS` records together.
pub open spec fn spec_parse_weather(bytes: Seq<u8>) -> Result<Seq<HourlyRecord>, WidgetError> {
    match utf8_chars(bytes) {
        None => Err(WidgetError::EncodingError),
        Some(text) => if !json_valid(text) {
            Err(WidgetError::MalformedPayload)
        } else {
            spec_records(text, FORECAST_HOURS as int)
        },
    }
}

/// A decoded sequence holds one record per hour: exactly `n` of them, each
/// equal to what the document says at its own hour. No hour can fail alone:
/// success of the whole decode means every hour decoded.
pub proof fn lemma_records_complete(text: Seq<char>, n: int, s: Seq<HourlyRecord>)
    requires
        0 <= n,
        spec_records(text, n) == Ok::<Seq<HourlyRecord>, WidgetError>(s),
    ensures
        s.len() == n,
        forall|i: int|
            0 <= i < n ==> spec_record_at(text, i) == Ok::<HourlyRecord, WidgetError>(#[trigger] s[i]),
    decreases n,
{
    if n > 0 {
        let prev = spec_records(text, n - 1);
        match prev {
            Err(_) => {
                assert(false);
            },
            Ok(p) => {
                lemma_records_complete(text, n - 1, p);
                assert(s == p.push(spec_record_at(text, n - 1).unwrap()));
            },
        }
    }
}

/// If any hour's record fails to decode, the whole decode fails: no partial
/// forecast is ever returned.
pub proof fn lemma_missing_field_rejects(text: Seq<char>, i: int, n: int)
    requires
        0 <= i < n,
        spec_record_at(text, i) is Err,
    ensures
        spec_records(text, n) is Err,
    decreases n,
{
    if i < n - 1 {
        lemma_missing_field_rejects(text, i, n - 1);
    }
}

/// Decoding is a function of the payload bytes alone: the same bytes always
/// yield the same forecast, bit for bit.
pub proof fn lemma_parse_weather_idempotent(b1: Seq<u8>, b2: Seq<u8>)
    requires
        b1 == b2,
    ensures
        spec_parse_weather(b1) == spec_parse_weather(b2),
{
}

/// Decodes a weather payload: UTF-8 decode, then the JSON parse, then for
/// each hour the five series read by position. Returns every record, in hour
/// order, or the first error; never a partial forecast.
pub fn parse_weather_data(body: Vec<u8>) -> (r: Result<Vec<HourlyRecord>, WidgetError>)
    ensures
        match r {
            Ok(v) => spec_parse_weather(body@) == Ok::<Seq<HourlyRecord>, WidgetError>(v@)
                && v@.len() == FORECAST_HOURS,
            Err(e) => spec_parse_weather(body@) == Err::<Seq<HourlyRecord>, WidgetError>(e),
        },
{
    let text = match utf8_decode(body.as_slice()) {
        None => {
            return Err(WidgetError::EncodingError);
        },
        Some(t) => t,
    };
    if !json_text_valid(text.as_str()) {
        return Err(WidgetError::MalformedPayload);
    }
    let mut records: Vec<HourlyRecord> = Vec::new();
    let mut i: usize = 0;
    while i < FORECAST_HOURS
        invariant
            0 <= i <= FORECAST_HOURS,
            records@.len() == i,
            Some(text@) == utf8_chars(body@),
            json_valid(text@),
            spec_records(text@, i as int) == Ok::<Seq<HourlyRecord>, WidgetError>(records@),
        decreases FORECAST_HOURS - i,
    {
        let record = match read_record(&text, i) {
            Ok(rec) => rec,
            Err(e) => {
                proof {
                    lemma_missing_field_rejects(text@, i as int, FORECAST_HOURS as int);
                    lemma_records_err_value(text@, i as int, FORECAST_HOURS as int, e);
                }
                return Err(e);
            },
        };
        records.push(record);
        proof {
            assert(spec_records(text@, i + 1) == Ok::<Seq<HourlyRecord>, WidgetError>(records@));
        }
        i = i + 1;
    }
    Ok(records)
}

/// If the records up to `i` decode and the record at `i` fails with `e`, the
/// whole decode fails with that same `e`.
proof fn lemma_records_err_value(text: Seq<char>, i: int, n: int, e: WidgetError)
    requires
        0 <= i < n,
        spec_records(text, i) is Ok,
        spec_record_at(text, i) == Err::<HourlyRecord, WidgetError>(e),
    ensures
        spec_records(text, n) == Err::<Seq<HourlyRecord>, WidgetError>(e),
    decreases n,
{
    if i < n - 1 {
        lemma_records_err_value(text, i, n - 1, e);
    }
}

/// Reads the five series of hour `i`, in the order the contract fixes.
fn read_record(text: &String, i: usize) -> (r: Result<HourlyRecord, WidgetError>)
    ensures
        match r {
            Ok(rec) => spec_record_at(text@, i as int) == Ok::<HourlyRecord, WidgetError>(rec),
            Err(e) => spec_record_at(text@, i as int) == Err::<HourlyRecord, WidgetError>(e),
        },
{
    let temperature = match hourly_number(text.as_str(), "temperature_2m", i) {
        None => {
            return Err(WidgetError::MissingField(Field::Temperature));
        },
        Some(p) => p,
    };
    let precipitation = match hourly_integer(text.as_str(), "precipitation_probability", i) {
        None => {
            return Err(WidgetError::MissingField(Field::Precipitation));
        },
        Some(p) => p,
    };
    let wind_speed = match hourly_number(text.as_str(), "wind_speed_10m", i) {
        None => {
            return Err(WidgetError::MissingField(Field::WindSpeed));
        },
        Some(p) => p,
    };
    let wind_direction = match hourly_integer(text.as_str(), "wind_direction_10m", i) {
        None => {
            return Err(WidgetError::MissingField(Field::WindDirection));
        },
        Some(p) => p,
    };
    let weather_code = match hourly_integer(text.as_str(), "weather_code", i) {
        None => {
            return Err(WidgetError::MissingField(Field::WeatherCode));
        },
        Some(p) => p,
    };
    Ok(
        HourlyRecord {
            temperature: Decimal {
                positive: temperature.0,
                mantissa: temperature.1,
                exponent: temperature.2,
            },
            precipitation_probability: precipitation,
            wind_speed: Decimal {
                positive: wind_speed.0,
                mantissa: wind_speed.1,
                exponent: wind_speed.2,
            },
            wind_direction,
            weather_code,
        },
    )
}

} // verus!
