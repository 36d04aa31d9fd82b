use vstd::prelude::*;

verus! {

// The widget's payloads are JSON documents fetched from the open-meteo
// endpoints. Decoding them runs through the `json` crate; each reading
// below is deterministic in the payload's text, so its result is given a
// name that the parsers' contracts are stated over.
/// What UTF-8 decoding yields on `bytes`: the decoded characters, or `None`
/// when the bytes are not valid UTF-8.
pub uninterp spec fn utf8_chars(bytes: Seq<u8>) -> Option<Seq<char>>;

/// Whether `text` is a well-formed JSON document, as `json::parse` accepts it.
pub uninterp spec fn json_valid(text: Seq<char>) -> bool;

/// The number at `hourly.<series>[i]` of the weather document `text`, as
/// sign, mantissa and decimal exponent; `None` when the document does not
/// parse, the path is absent, or the value there is not a number.
pub uninterp spec fn hourly_number_at(text: Seq<char>, series: Seq<char>, i: int) -> Option<
    (bool, u64, i16),
>;

/// The non-negative integer at `hourly.<series>[i]` of the weather document
/// `text`; `None` when the document does not parse, the path is absent, or
/// the value there is not an unsigned integer.
pub uninterp spec fn hourly_integer_at(text: Seq<char>, series: Seq<char>, i: int) -> Option<u64>;

/// The number at `results[0].<key>` of the geocode document `text`, as sign,
/// mantissa and decimal exponent; `None` when absent or not a number.
pub uninterp spec fn geo_number_at(text: Seq<char>, key: Seq<char>) -> Option<(bool, u64, i16)>;

/// The string at `results[0].<key>` of the geocode document `text`; `None`
/// when absent or not a string.
pub uninterp spec fn geo_string_at(text: Seq<char>, key: Seq<char>) -> Option<Seq<char>>;

/// The length of the `results` array of the geocode document `text`; zero
/// when the document does not parse or `results` is not an array.
pub uninterp spec fn geo_results_len(text: Seq<char>) -> nat;

/// Relies on `core::str::from_utf8`: it succeeds exactly on valid UTF-8 and
/// returns the decoded characters, a function of the bytes alone.
#[verifier::external_body]
pub fn utf8_decode(bytes: &[u8]) -> (r: Option<String>)
    ensures
        r is Some <==> utf8_chars(bytes@) is Some,
        r matches Some(s) ==> Some(s@) == utf8_chars(bytes@),
{
    core::str::from_utf8(bytes).ok().map(|s| s.to_owned())
}

/// Relies on `json::parse`: whether it accepts `text` depends on the text
/// alone.
#[verifier::external_body]
pub fn json_text_valid(text: &str) -> (r: bool)
    ensures
        r == json_valid(text@),
{
    json::parse(text).is_ok()
}

/// Relies on `json::parse`, `json::JsonValue`'s `Index` impls (which yield
/// null for a missing path), `JsonValue::as_number` and
/// `json::number::Number::as_parts`: all deterministic in the text.
#[verifier::external_body]
pub fn hourly_number(text: &str, series: &str, i: usize) -> (r: Option<(bool, u64, i16)>)
    ensures
        r == hourly_number_at(text@, series@, i as int),
{
    match json::parse(text) {
        Ok(doc) => doc["hourly"][series][i].as_number().map(|n| n.as_parts()),
        Err(_) => None,
    }
}

/// Relies on `json::parse`, `json::JsonValue`'s `Index` impls and
/// `JsonValue::as_u64` (which refuses negative and fractional numbers): all
/// deterministic in the text.
#[verifier::external_body]
pub fn hourly_integer(text: &str, series: &str, i: usize) -> (r: Option<u64>)
    ensures
        r == hourly_integer_at(text@, series@, i as int),
{
    match json::parse(text) {
        Ok(doc) => doc["hourly"][series][i].as_u64(),
        Err(_) => None,
    }
}

/// Relies on `json::parse`, `json::JsonValue`'s `Index` impls,
/// `JsonValue::as_number` and `json::number::Number::as_parts`: all
/// deterministic in the text.
#[verifier::external_body]
pub fn geo_number(text: &str, key: &str) -> (r: Option<(bool, u64, i16)>)
    ensures
        r == geo_number_at(text@, key@),
{
    match json::parse(text) {
        Ok(doc) => doc["results"][0][key].as_number().map(|n| n.as_parts()),
        Err(_) => None,
    }
}

/// Relies on `json::parse`, `json::JsonValue`'s `Index` impls and
/// `JsonValue::as_str`: all deterministic in the text.
#[verifier::external_body]
pub fn geo_string(text: &str, key: &str) -> (r: Option<String>)
    ensures
        r is Some <==> geo_string_at(text@, key@) is Some,
        r matches Some(s) ==> Some(s@) == geo_string_at(text@, key@),
{
    match json::parse(text) {
        Ok(doc) => doc["results"][0][key].as_str().map(|s| s.to_owned()),
        Err(_) => None,
    }
}

/// Relies on `json::parse` and `JsonValue::len`, which reports an array's
/// length and zero for any other value: deterministic in the text.
#[verifier::external_body]
pub fn geo_results_count(text: &str) -> (r: usize)
    ensures
        r as nat == geo_results_len(text@),
{
    match json::parse(text) {
        Ok(doc) => doc["results"].len(),
        Err(_) => 0,
    }
}

} // verus!
