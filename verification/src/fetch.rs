//! The computed side of the fetch collaborators: request URLs for the
//! geocoding service and the not-found message, built from plain values.
//! Only the percent-encoding itself is an outside call.

use vstd::prelude::*;

verus! {

/// What `urlencoding::encode` returns for a given character sequence.
pub uninterp spec fn url_encoded(s: Seq<char>) -> Seq<char>;

/// Relies on std's `String::push`: appends exactly the one character.
#[verifier::external_body]
fn push_char(s: &mut String, c: char)
    ensures
        final(s)@ == old(s)@.push(c),
{
    s.push(c);
}

/// Relies on `urlencoding::encode`: the percent-encoding of a query is a
/// pure function of its characters, and an empty query stays empty.
#[verifier::external_body]
fn encode_component(s: &str) -> (r: String)
    ensures
        r@ == url_encoded(s@),
        s@.len() == 0 ==> r@.len() == 0,
{
    urlencoding::encode(s).into_owned()
}

/// Builds the String that shows the same characters as `v`.
pub fn chars_to_string(v: &Vec<char>) -> (r: String)
    ensures
        r@ == v@,
{
    let mut r = String::new();
    let mut i: usize = 0;
    proof {
        assert(r@ =~= v@.take(0));
    }
    while i < v.len()
        invariant
            i <= v.len(),
            r@ == v@.take(i as int),
        decreases v.len() - i,
    {
        push_char(&mut r, v[i]);
        i = i + 1;
        proof {
            assert(r@ =~= v@.take(i as int));
        }
    }
    proof {
        assert(v@.take(v.len() as int) =~= v@);
    }
    r
}

/// The geocoding request that asks for the one best match of `q`.
pub open spec fn spec_search_url(q: Seq<char>) -> Seq<char> {
    "https://geocoding-api.open-meteo.com/v1/search?name="@ + url_encoded(q)
        + "&count=1&language=en&format=json"@
}

/// The geocoding request that asks for up to ten suggestions for `q`.
pub open spec fn spec_suggest_url(q: Seq<char>) -> Seq<char> {
    "https://geocoding-api.open-meteo.com/v1/search?name="@ + url_encoded(q)
        + "&count=10&language=en&format=json"@
}

fn build_geocoding_url(query: &Vec<char>, tail: &'static str) -> (r: String)
    ensures
        r@ == "https://geocoding-api.open-meteo.com/v1/search?name="@ + url_encoded(query@)
            + tail@,
{
    let q = chars_to_string(query);
    let enc = encode_component(q.as_str());
    let mut r = String::from_str("https://geocoding-api.open-meteo.com/v1/search?name=");
    r.append(enc.as_str());
    r.append(tail);
    r
}

/// The request URL a submission resolves through.
pub fn weather_search_url(query: &Vec<char>) -> (r: String)
    ensures
        r@ == spec_search_url(query@),
{
    build_geocoding_url(query, "&count=1&language=en&format=json")
}

/// The request URL an autocomplete lookup resolves through.
pub fn autocomplete_url(query: &Vec<char>) -> (r: String)
    ensures
        r@ == spec_suggest_url(query@),
{
    build_geocoding_url(query, "&count=10&language=en&format=json")
}

/// The message shown when no location matches the submitted city: it quotes
/// the city name verbatim.
pub open spec fn spec_not_found_message(city: Seq<char>) -> Seq<char> {
    "'"@ + city + "' not found. Try a different city name."@
}

/// Builds the not-found message for a submitted city.
pub fn not_found_message(city: &Vec<char>) -> (r: String)
    ensures
        r@ == spec_not_found_message(city@),
{
    let mut r = String::from_str("'");
    let c = chars_to_string(city);
    r.append(c.as_str());
    r.append("' not found. Try a different city name.");
    r
}

} // verus!
