//! The generic record-retrieval pipeline, short of the transport itself:
//! request-URL construction, response-envelope decoding, and the tolerant
//! per-element wire decode.
//!
//! A response is expected to be a JSON object with a `values` array; any
//! other shape is a protocol violation. Each array element is decoded
//! independently, and an element that fails to decode is silently dropped
//! rather than failing the whole call — a deliberate tolerance policy, so
//! a systematically malformed response can yield an empty or truncated
//! result with no error signaled.

use vstd::prelude::*;

use crate::error::N3rgyClientError;
use crate::json::Json;
use crate::json::json_of;
use crate::json::lookup;
use crate::json::obj_get;
use crate::json::parse_json;
use crate::records::WireRecord;
use crate::timestamp::Date;
use crate::timestamp::compact_date_text;
use crate::timestamp::format_compact_date;

verus! {

/// Which energy feed a request targets; selects a URL path segment.
#[derive(Clone, Copy, Debug, PartialEq, Eq, Structural)]
pub enum EnergyType {
    Electricity,
    Gas,
}

/// Whether a request targets consumption samples or tariff data; selects
/// a URL path segment.
#[derive(Clone, Copy, Debug, PartialEq, Eq, Structural)]
pub enum ReadingType {
    Consumption,
    Tariff,
}

pub open spec fn energy_segment(e: EnergyType) -> Seq<char> {
    match e {
        EnergyType::Electricity => "electricity"@,
        EnergyType::Gas => "gas"@,
    }
}

pub open spec fn reading_segment(r: ReadingType) -> Seq<char> {
    match r {
        ReadingType::Consumption => "consumption"@,
        ReadingType::Tariff => "tariff"@,
    }
}

fn energy_segment_str(e: &EnergyType) -> (r: &'static str)
    ensures
        r@ == energy_segment(*e),
{
    match e {
        EnergyType::Electricity => "electricity",
        EnergyType::Gas => "gas",
    }
}

fn reading_segment_str(r: &ReadingType) -> (s: &'static str)
    ensures
        s@ == reading_segment(*r),
{
    match r {
        ReadingType::Consumption => "consumption",
        ReadingType::Tariff => "tariff",
    }
}

/// The query string of a request: `start` and `end` as `YYYYMMDD`, and
/// `output=json`.
pub open spec fn query_text(start: Date, end: Date) -> Seq<char> {
    "start="@ + compact_date_text(start) + "&end="@ + compact_date_text(end) + "&output=json"@
}

/// The whole request URL before validation:
/// `{base}/{energy}/{reading}/1` with the query attached.
pub open spec fn request_url_text(
    base: Seq<char>,
    e: EnergyType,
    r: ReadingType,
    start: Date,
    end: Date,
) -> Seq<char> {
    base + "/"@ + energy_segment(e) + "/"@ + reading_segment(r) + "/1?"@ + query_text(start, end)
}

/// Builds the query string for a date range.
pub fn build_query(start: &Date, end: &Date) -> (r: String)
    requires
        start.wf(),
        end.wf(),
    ensures
        r@ == query_text(*start, *end),
{
    let mut out = String::from_str("start=");
    out.append(format_compact_date(start).as_str());
    out.append("&end=");
    out.append(format_compact_date(end).as_str());
    out.append("&output=json");
    proof {
        assert(out@ =~= query_text(*start, *end));
    }
    out
}

/// The serialization of the given text read as a URL, or `None` when the
/// text is not a well-formed URL. This is the result of the `url` crate's
/// parse, which depends on the text alone.
pub uninterp spec fn parsed_url(s: Seq<char>) -> Option<Seq<char>>;

/// Relies on `url::Url::parse`: checks the text against the URL standard,
/// succeeding exactly on a well-formed absolute URL, and on success
/// serializes the parsed URL back to text; both outcomes depend on the
/// text alone, so they are named by [`parsed_url`]. On failure the
/// error's message is returned.
#[verifier::external_body]
fn normalize_url(s: &str) -> (r: Result<String, String>)
    ensures
        r is Ok <==> parsed_url(s@) is Some,
        r matches Ok(t) ==> Some(t@) == parsed_url(s@),
{
    match url::Url::parse(s) {
        Ok(u) => Ok(u.to_string()),
        Err(e) => Err(format!("{e}")),
    }
}

/// Builds and validates the request URL for one call.
///
/// The composed text is pinned exactly by [`request_url_text`]; the call
/// fails, with the URL parser's error, exactly when that text is not a
/// well-formed URL (a malformed base URL).
pub fn build_request_url(
    base: &str,
    energy: &EnergyType,
    reading: &ReadingType,
    start: &Date,
    end: &Date,
) -> (r: Result<String, N3rgyClientError>)
    requires
        start.wf(),
        end.wf(),
    ensures
        r is Ok <==> parsed_url(request_url_text(base@, *energy, *reading, *start, *end)) is Some,
        r matches Ok(u) ==> Some(u@) == parsed_url(
            request_url_text(base@, *energy, *reading, *start, *end),
        ),
        r matches Err(e) ==> e matches N3rgyClientError::Parse(_),
{
    let mut composed = String::from_str(base);
    composed.append("/");
    composed.append(energy_segment_str(energy));
    composed.append("/");
    composed.append(reading_segment_str(reading));
    composed.append("/1?");
    let query = build_query(start, end);
    composed.append(query.as_str());
    proof {
        assert(composed@ =~= request_url_text(base@, *energy, *reading, *start, *end));
    }
    match normalize_url(composed.as_str()) {
        Ok(u) => Ok(u),
        Err(m) => Err(N3rgyClientError::Parse(m)),
    }
}

/// The `values` array of a response document: the document must be an
/// object with an array under `values`; any other shape has none.
pub open spec fn envelope_values(j: Json) -> Option<Seq<Json>> {
    match j {
        Json::Obj(entries) => match lookup(entries@, "values"@) {
            Some(Json::Arr(els)) => Some(els@),
            _ => None,
        },
        _ => None,
    }
}

/// What survives the tolerant decode of a `values` array: each element
/// decoded independently, the ones that fail dropped, original order
/// kept.
pub open spec fn decoded_seq<T: WireRecord>(els: Seq<Json>) -> Seq<T::V>
    decreases els.len(),
{
    if els.len() == 0 {
        Seq::empty()
    } else {
        let rest = decoded_seq::<T>(els.drop_last());
        match T::decode_spec(els.last()) {
            Some(v) => rest.push(v),
            None => rest,
        }
    }
}

/// Decodes each element of a `values` array independently, dropping the
/// elements that fail.
fn decode_values<T: WireRecord>(els: &Vec<Json>) -> (r: Vec<T>)
    ensures
        r@.map_values(|t: T| t@) == decoded_seq::<T>(els@),
{
    let mut out: Vec<T> = Vec::new();
    let n = els.len();
    let mut i: usize = 0;
    proof {
        assert(els@.take(0) =~= Seq::<Json>::empty());
        assert(out@.map_values(|t: T| t@) =~= Seq::<T::V>::empty());
    }
    while i < n
        invariant
            i <= n,
            n == els@.len(),
            out@.map_values(|t: T| t@) == decoded_seq::<T>(els@.take(i as int)),
        decreases n - i,
    {
        proof {
            assert(els@.take(i + 1).drop_last() =~= els@.take(i as int));
            assert(els@.take(i + 1).last() == els@[i as int]);
        }
        match T::decode(&els[i]) {
            Some(d) => {
                out.push(d);
                proof {
                    assert(out@.map_values(|t: T| t@) =~= out@.drop_last().map_values(
                        |t: T| t@,
                    ).push(out@.last()@));
                }
            },
            None => {},
        }
        i += 1;
    }
    proof {
        assert(els@.take(n as int) =~= els@);
    }
    out
}

/// Decodes a response body into the surviving wire records of its
/// `values` array.
///
/// A body that is not valid JSON fails with the decoder's message; a
/// valid document without a `values` array fails as a missing property;
/// otherwise every element that decodes as `T` is returned in its
/// original position, and the elements that do not are dropped.
pub fn decode_records<T: WireRecord>(body: &str) -> (r: Result<Vec<T>, N3rgyClientError>)
    ensures
        match json_of(body@) {
            None => r matches Err(e) && e matches N3rgyClientError::Serde(_),
            Some(doc) => match envelope_values(doc) {
                None => r matches Err(e) && e matches N3rgyClientError::MissingProperty(_),
                Some(els) => r matches Ok(v) && v@.map_values(|t: T| t@) == decoded_seq::<T>(els),
            },
        },
{
    let doc = match parse_json(body) {
        Ok(j) => j,
        Err(m) => return Err(N3rgyClientError::Serde(m)),
    };
    match &doc {
        Json::Obj(entries) => match obj_get(entries, "values") {
            Some(Json::Arr(els)) => Ok(decode_values::<T>(els)),
            _ => Err(
                N3rgyClientError::MissingProperty(
                    String::from_str("Could not retrieve 'values' property from response"),
                ),
            ),
        },
        _ => Err(
            N3rgyClientError::MissingProperty(
                String::from_str("Could not retrieve 'values' property from response"),
            ),
        ),
    }
}

} // verus!
