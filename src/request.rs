//! Reading the client's signals from a request.
//!
//! A GET request carries them in the query string, as the JSON text of the
//! parameter `datastar`; any other request carries them as a JSON body.

use vstd::prelude::*;
use vstd::string::StringExecFns;

use crate::event::Pairs;

verus! {

/// The status code of every rejection: Bad Request.
pub const BAD_REQUEST: u16 = 400;

/// The query string is not valid `application/x-www-form-urlencoded` text.
pub struct FailedToDeserializeDatastarQueryString;

/// The JSON text of the `datastar` parameter does not fit the expected shape.
pub struct FailedToDeserializeInnerJson;

/// An error that can occur while extracting the datastar query string from a
/// GET request sent by datastar.
#[derive(Debug, Clone, Copy, PartialEq, Eq, Structural)]
#[non_exhaustive]
pub enum DatastarQueryRejection {
    FailedToDeserializeDatastarQueryString,
    DatastarQueryNotFound,
    FailedToDeserializeDatastarInnerJson,
}

impl DatastarQueryRejection {
    /// The body of the response that reports this rejection.
    pub open spec fn spec_message(self) -> Seq<char> {
        match self {
            DatastarQueryRejection::FailedToDeserializeDatastarQueryString => "Failed to deserialize datastar query string"@,
            DatastarQueryRejection::FailedToDeserializeDatastarInnerJson => "Failed to deserialize inner json of datastar query string"@,
            DatastarQueryRejection::DatastarQueryNotFound => "Query string with the format `?datastar=<json> was not found`"@,
        }
    }

    /// The body of the response that reports this rejection.
    pub fn message(&self) -> (r: &'static str)
        ensures
            r@ == self.spec_message(),
    {
        match self {
            DatastarQueryRejection::FailedToDeserializeDatastarQueryString => "Failed to deserialize datastar query string",
            DatastarQueryRejection::FailedToDeserializeDatastarInnerJson => "Failed to deserialize inner json of datastar query string",
            DatastarQueryRejection::DatastarQueryNotFound => "Query string with the format `?datastar=<json> was not found`",
        }
    }

    /// The status code of the response that reports this rejection.
    pub fn status_code(&self) -> (r: u16)
        ensures
            r == BAD_REQUEST,
    {
        BAD_REQUEST
    }
}

/// The parsed query of the datastar GET Request.
pub struct DatastarQuery<T>(pub T);

/// An error that can occur while extracting the JSON body of a request sent
/// by datastar.
#[derive(Debug, Clone, Copy, PartialEq, Eq, Structural)]
#[non_exhaustive]
pub enum DatastarJsonRejection {
    FailedToDecodeBytes,
    FailedToDeserializeJson,
}

impl DatastarJsonRejection {
    /// The body of the response that reports this rejection.
    pub fn message(&self) -> (r: &'static str)
        ensures
            r@ == "Failed to deserialize json body"@,
    {
        "Failed to deserialize json body"
    }

    /// The status code of the response that reports this rejection.
    pub fn status_code(&self) -> (r: u16)
        ensures
            r == BAD_REQUEST,
    {
        BAD_REQUEST
    }
}

/// The parsed JSON body of the datastar POST, PUT, PATCH and DELETE requests.
pub struct DatastarJson<T>(pub T);

/// The name/value pairs that `application/x-www-form-urlencoded` decoding
/// finds in `query`, in order, or `None` where the decoding fails.
pub uninterp spec fn form_pairs(query: Seq<char>) -> Option<Pairs>;

/// The views of a sequence of pairs of strings.
pub open spec fn string_pairs_view(v: Seq<(String, String)>) -> Pairs {
    v.map_values(|p: (String, String)| (p.0@, p.1@))
}

/// Relies on `serde_urlencoded::from_str` into `Vec<(String, String)>`: the
/// decoded pairs of the query string, in order, which depend on the text alone.
#[verifier::external_body]
fn decode_query_pairs(query: &str) -> (r: Option<Vec<(String, String)>>)
    ensures
        r is None <==> form_pairs(query@) is None,
        r matches Some(v) ==> form_pairs(query@) == Some(string_pairs_view(v@)),
{
    serde_urlencoded::from_str::<Vec<(String, String)>>(query).ok()
}

/// The value of the first pair of `pairs` whose key is `key`.
pub open spec fn first_value(pairs: Pairs, key: Seq<char>) -> Option<Seq<char>>
    decreases pairs.len(),
{
    if pairs.len() == 0 {
        None
    } else if pairs[0].0 == key {
        Some(pairs[0].1)
    } else {
        first_value(pairs.drop_first(), key)
    }
}

/// What the query's pairs give: the JSON text of the first `datastar` pair,
/// or the rejection for a query without one.
pub open spec fn datastar_param_result(pairs: Pairs) -> Result<Seq<char>, DatastarQueryRejection> {
    match first_value(pairs, "datastar"@) {
        Some(v) => Ok(v),
        None => Err(DatastarQueryRejection::DatastarQueryNotFound),
    }
}

/// The view of a result that holds a string.
pub open spec fn result_view<E>(r: Result<String, E>) -> Result<Seq<char>, E> {
    match r {
        Ok(s) => Ok(s@),
        Err(e) => Err(e),
    }
}

/// Finds the JSON text of the `datastar` parameter among the decoded pairs of
/// a query string.
pub fn datastar_param(pairs: &Vec<(String, String)>) -> (r: Result<String, DatastarQueryRejection>)
    ensures
        result_view(r) == datastar_param_result(string_pairs_view(pairs@)),
{
    let key = String::from_str("datastar");
    let ghost all = string_pairs_view(pairs@);
    let mut i: usize = 0;
    assert(all.skip(0) =~= all);
    while i < pairs.len()
        invariant
            i <= pairs@.len(),
            key@ == "datastar"@,
            all == string_pairs_view(pairs@),
            first_value(all, "datastar"@) == first_value(all.skip(i as int), "datastar"@),
        decreases pairs@.len() - i,
    {
        assert(all.skip(i as int)[0] == all[i as int]);
        if pairs[i].0 == key {
            return Ok(pairs[i].1.clone());
        }
        assert(all.skip(i as int).drop_first() =~= all.skip(i + 1));
        i = i + 1;
    }
    assert(all.skip(i as int).len() == 0);
    Err(DatastarQueryRejection::DatastarQueryNotFound)
}

/// Extracts the JSON text of the `datastar` parameter from the query string
/// of a GET request (the part after `?`, empty where there is none).
pub fn datastar_json_from_query(query: &str) -> (r: Result<String, DatastarQueryRejection>)
    ensures
        result_view(r) == match form_pairs(query@) {
            Some(pairs) => datastar_param_result(pairs),
            None => Err(DatastarQueryRejection::FailedToDeserializeDatastarQueryString),
        },
{
    match decode_query_pairs(query) {
        Some(pairs) => datastar_param(&pairs),
        None => Err(DatastarQueryRejection::FailedToDeserializeDatastarQueryString),
    }
}

} // verus!
