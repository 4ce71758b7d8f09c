//! Options of the event that runs a script on the client.

use vstd::prelude::*;
use vstd::string::StringExecFns;

use crate::event::{opt_view, strings_view, DEFAULT_RETRY_DURATION};

verus! {

/// Configuration for how to run a script.
#[derive(Debug, Clone)]
pub struct ExecuteScriptConfig {
    /// Whether the client removes the script element once it has run.
    pub auto_remove: bool,
    /// Attributes of the script element, one `name value` text each.
    pub attributes: Vec<String>,
    pub event_id: Option<String>,
    /// Milliseconds.
    pub retry_duration: u32,
}

impl ExecuteScriptConfig {
    /// Every option at the protocol's default.
    pub open spec fn is_default(self) -> bool {
        &&& self.auto_remove
        &&& self.attributes@.len() == 0
        &&& self.event_id is None
        &&& self.retry_duration == DEFAULT_RETRY_DURATION
    }
}

impl Default for ExecuteScriptConfig {
    fn default() -> (r: Self)
        ensures
            r.is_default(),
    {
        ExecuteScriptConfig {
            auto_remove: true,
            attributes: Vec::new(),
            event_id: None,
            retry_duration: DEFAULT_RETRY_DURATION,
        }
    }
}

impl ExecuteScriptConfig {
    /// Create a new [`ExecuteScriptConfig`] with default options.
    pub fn new() -> (r: Self)
        ensures
            r.is_default(),
    {
        Self::default()
    }

    pub fn auto_remove(self, auto_remove: bool) -> (r: Self)
        ensures
            r == (ExecuteScriptConfig { auto_remove, ..self }),
    {
        ExecuteScriptConfig { auto_remove, ..self }
    }

    /// Adds one attribute after those already set.
    pub fn attribute(self, attribute: &str) -> (r: Self)
        ensures
            r == (ExecuteScriptConfig { attributes: r.attributes, ..self }),
            strings_view(r.attributes@) == strings_view(self.attributes@).push(attribute@),
    {
        let mut this = self;
        this.attributes.push(String::from_str(attribute));
        assert(strings_view(this.attributes@) =~= strings_view(self.attributes@).push(attribute@));
        this
    }

    pub fn event_id(self, event_id: &str) -> (r: Self)
        ensures
            r == (ExecuteScriptConfig { event_id: r.event_id, ..self }),
            opt_view(r.event_id) == Some(event_id@),
    {
        ExecuteScriptConfig { event_id: Some(String::from_str(event_id)), ..self }
    }

    /// Sets the retry duration, given in milliseconds.
    pub fn retry_duration(self, retry_duration: u128) -> (r: Self)
        requires
            retry_duration <= u32::MAX,
        ensures
            r == (ExecuteScriptConfig { retry_duration: retry_duration as u32, ..self }),
    {
        ExecuteScriptConfig { retry_duration: retry_duration as u32, ..self }
    }
}

} // verus!
