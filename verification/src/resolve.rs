use vstd::prelude::*;

use crate::numbers::format_decimal;
use crate::numbers::spec_decimal_chars;
use crate::numbers::Decimal;

verus! {

/// ASCII whitespace, as it occurs around a command's output.
pub open spec fn is_space(c: char) -> bool {
    c == ' ' || c == '\t' || c == '\n' || c == '\r'
}

/// `s` without its leading whitespace.
pub open spec fn spec_trim_start(s: Seq<char>) -> Seq<char>
    decreases s.len(),
{
    if s.len() > 0 && is_space(s[0]) {
        spec_trim_start(s.subrange(1, s.len() as int))
    } else {
        s
    }
}

/// `s` without its trailing whitespace.
pub open spec fn spec_trim_end(s: Seq<char>) -> Seq<char>
    decreases s.len(),
{
    if s.len() > 0 && is_space(s[s.len() - 1]) {
        spec_trim_end(s.drop_last())
    } else {
        s
    }
}

/// `s` without leading and trailing whitespace.
pub open spec fn spec_trim(s: Seq<char>) -> Seq<char> {
    spec_trim_end(spec_trim_start(s))
}

fn is_space_char(c: char) -> (r: bool)
    ensures
        r == is_space(c),
{
    c == ' ' || c == '\t' || c == '\n' || c == '\r'
}

/// Strips leading and trailing whitespace, as a discovered timezone line
/// carries a trailing newline.
pub fn trim_text(s: &str) -> (r: String)
    ensures
        r@ == spec_trim(s@),
{
    let len: usize = s.unicode_len();
    proof {
        assert(s@.subrange(0, len as int) =~= s@);
    }
    let mut start: usize = 0;
    while start < len && is_space_char(s.get_char(start))
        invariant
            start <= len,
            len == s@.len(),
            spec_trim_start(s@) == spec_trim_start(s@.subrange(start as int, len as int)),
        decreases len - start,
    {
        proof {
            let cur = s@.subrange(start as int, len as int);
            assert(cur.subrange(1, cur.len() as int) =~= s@.subrange(start + 1, len as int));
        }
        start = start + 1;
    }
    proof {
        let cur = s@.subrange(start as int, len as int);
        if start < len {
            assert(spec_trim_start(cur) == cur);
        } else {
            assert(cur =~= Seq::<char>::empty());
        }
        assert(s@.subrange(0, len as int) =~= s@);
    }
    let mut end: usize = len;
    while end > start && is_space_char(s.get_char(end - 1))
        invariant
            start <= end <= len,
            len == s@.len(),
            spec_trim_start(s@) == s@.subrange(start as int, len as int),
            spec_trim_end(s@.subrange(start as int, len as int)) == spec_trim_end(
                s@.subrange(start as int, end as int),
            ),
        decreases end,
    {
        proof {
            let cur = s@.subrange(start as int, end as int);
            assert(cur[cur.len() - 1] == s@[end - 1]);
            assert(cur.drop_last() =~= s@.subrange(start as int, end - 1));
        }
        end = end - 1;
    }
    proof {
        let cur = s@.subrange(start as int, end as int);
        if end > start {
            assert(spec_trim_end(cur) == cur);
        } else {
            assert(cur =~= Seq::<char>::empty());
        }
    }
    String::from_str(s.substring_char(start, end))
}

/// The part of `s` after its last `/`: the whole of `s` when it has none.
pub open spec fn spec_last_segment(s: Seq<char>) -> Seq<char>
    decreases s.len(),
{
    if s.len() == 0 {
        s
    } else if s[s.len() - 1] == '/' {
        Seq::<char>::empty()
    } else {
        spec_last_segment(s.drop_last()).push(s[s.len() - 1])
    }
}

/// A hint without a separator is used whole: its last segment is the hint
/// itself.
pub proof fn lemma_segment_no_slash(s: Seq<char>)
    requires
        forall|j: int| 0 <= j < s.len() ==> s[j] != '/',
    ensures
        spec_last_segment(s) == s,
    decreases s.len(),
{
    if s.len() > 0 {
        lemma_segment_no_slash(s.drop_last());
        assert(s.drop_last().push(s[s.len() - 1]) =~= s);
    }
}

/// A hint with separators keeps only what follows the last one: when `k` is
/// the last `/`, the last segment is exactly the rest.
pub proof fn lemma_segment_after_slash(s: Seq<char>, k: int)
    requires
        0 <= k < s.len(),
        s[k] == '/',
        forall|j: int| k < j < s.len() ==> s[j] != '/',
    ensures
        spec_last_segment(s) == s.subrange(k + 1, s.len() as int),
    decreases s.len(),
{
    if k == s.len() - 1 {
        assert(s.subrange(k + 1, s.len() as int) =~= Seq::<char>::empty());
    } else {
        let head = s.drop_last();
        assert(head[k] == s[k]);
        lemma_segment_after_slash(head, k);
        assert(head.subrange(k + 1, head.len() as int).push(s[s.len() - 1]) =~= s.subrange(
            k + 1,
            s.len() as int,
        ));
    }
}

/// The part of `s` after its last `/`.
pub fn last_segment(s: &str) -> (r: &str)
    ensures
        r@ == spec_last_segment(s@),
{
    let len: usize = s.unicode_len();
    let mut cut: usize = 0;
    let mut i: usize = 0;
    while i < len
        invariant
            i <= len,
            cut <= i,
            len == s@.len(),
            cut == 0 ==> forall|j: int| 0 <= j < i ==> s@[j] != '/',
            cut >= 1 ==> cut - 1 < i && s@[cut - 1] == '/' && forall|j: int|
                cut <= j < i ==> s@[j] != '/',
        decreases len - i,
    {
        if s.get_char(i) == '/' {
            cut = i + 1;
        }
        i = i + 1;
    }
    proof {
        if cut == 0 {
            lemma_segment_no_slash(s@);
            assert(s@.subrange(0, len as int) =~= s@);
        } else {
            lemma_segment_after_slash(s@, cut - 1);
        }
    }
    s.substring_char(cut, len)
}

/// How one character of a place name is written in a geocode query: spaces
/// and hyphens become the query separator `+`.
pub open spec fn norm_char(c: char) -> char {
    if c == ' ' || c == '-' {
        '+'
    } else {
        c
    }
}

/// A place name written in the geocode API's query syntax.
pub open spec fn spec_normalize(s: Seq<char>) -> Seq<char> {
    s.map_values(|c: char| norm_char(c))
}

/// Replaces spaces and hyphens with `+`, leaving every other character.
pub fn normalize_query(s: &str) -> (r: String)
    ensures
        r@ == spec_normalize(s@),
{
    let len: usize = s.unicode_len();
    let mut out = String::new();
    let mut i: usize = 0;
    while i < len
        invariant
            i <= len,
            len == s@.len(),
            out@ == spec_normalize(s@.take(i as int)),
        decreases len - i,
    {
        let c = s.get_char(i);
        if c == ' ' || c == '-' {
            out.append("+");
            proof {
                reveal_strlit("+");
            }
        } else {
            out.append(s.substring_char(i, i + 1));
        }
        proof {
            assert(out@ =~= spec_normalize(s@.take(i + 1)));
        }
        i = i + 1;
    }
    proof {
        assert(s@.take(len as int) =~= s@);
    }
    out
}

/// Relies on `String::push`: it appends the given character to the end of
/// the string.
#[verifier::external_body]
pub fn push_char(s: &mut String, c: char)
    ensures
        final(s)@ == old(s)@ + seq![c],
{
    s.push(c);
}

/// The geocode query a location hint yields: only what follows the hint's
/// last `/` (a timezone path's city part), spaces and hyphens replaced by
/// `+`.
pub open spec fn spec_query(hint: Seq<char>) -> Seq<char> {
    spec_normalize(spec_last_segment(hint))
}

/// Derives the geocode query from a location hint.
pub fn derive_geocode_query(hint: &str) -> (r: String)
    ensures
        r@ == spec_query(hint@),
{
    normalize_query(last_segment(hint))
}

/// The geocode endpoint's URL for one query.
pub open spec fn spec_geocode_url(q: Seq<char>) -> Seq<char> {
    "https://geocoding-api.open-meteo.com/v1/search?name="@ + q
        + "&count=1&language=en&format=json"@
}

/// Builds the geocode lookup URL for a query.
pub fn geocode_url(query: &str) -> (r: String)
    ensures
        r@ == spec_geocode_url(query@),
{
    let mut u = String::from_str("https://geocoding-api.open-meteo.com/v1/search?name=");
    u.append(query);
    u.append("&count=1&language=en&format=json");
    proof {
        assert(u@ =~= spec_geocode_url(query@));
    }
    u
}

/// The weather endpoint's URL for one pair of coordinates.
pub open spec fn spec_weather_url(lat: Decimal, lon: Decimal) -> Seq<char> {
    "https://api.open-meteo.com/v1/forecast?latitude="@ + spec_decimal_chars(lat) + "&longitude="@
        + spec_decimal_chars(lon)
        + "&hourly=temperature_2m,precipitation_probability,wind_speed_10m,wind_direction_10m,weather_code"@
}

/// Builds the weather forecast URL for a pair of coordinates.
pub fn weather_url(lat: &Decimal, lon: &Decimal) -> (r: String)
    ensures
        r@ == spec_weather_url(*lat, *lon),
{
    let mut u = String::from_str("https://api.open-meteo.com/v1/forecast?latitude=");
    let lat_text = format_decimal(lat);
    u.append(lat_text.as_str());
    u.append("&longitude=");
    let lon_text = format_decimal(lon);
    u.append(lon_text.as_str());
    u.append(
        "&hourly=temperature_2m,precipitation_probability,wind_speed_10m,wind_direction_10m,weather_code",
    );
    proof {
        assert(u@ =~= spec_weather_url(*lat, *lon));
    }
    u
}

} // verus!
