//! The fixed headers of an event-stream response.

use vstd::prelude::*;

verus! {

/// The headers that every event-stream response carries, as (name, value)
/// pairs, names in lower case: `cache-control: no-cache`,
/// `connection: keep-alive` and `content-type: text/event-stream`.
pub fn response_headers() -> (r: [(&'static str, &'static str); 3])
    ensures
        r@[0].0@ == "cache-control"@,
        r@[0].1@ == "no-cache"@,
        r@[1].0@ == "connection"@,
        r@[1].1@ == "keep-alive"@,
        r@[2].0@ == "content-type"@,
        r@[2].1@ == "text/event-stream"@,
{
    [("cache-control", "no-cache"), ("connection", "keep-alive"), ("content-type", "text/event-stream")]
}

} // verus!
