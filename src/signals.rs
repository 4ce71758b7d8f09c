//! Options of the events that merge signals into the client's store and
//! remove them.

use vstd::prelude::*;
use vstd::string::StringExecFns;

use crate::event::{opt_view, DEFAULT_RETRY_DURATION};

verus! {

/// Configuration for how to merge signals.
#[derive(Debug, Clone)]
pub struct MergeSignalsConfig {
    pub only_if_missing: bool,
    pub event_id: Option<String>,
    /// Milliseconds.
    pub retry_duration: u32,
}

impl MergeSignalsConfig {
    /// Every option at the protocol's default.
    pub open spec fn is_default(self) -> bool {
        &&& !self.only_if_missing
        &&& self.event_id is None
        &&& self.retry_duration == DEFAULT_RETRY_DURATION
    }
}

impl Default for MergeSignalsConfig {
    fn default() -> (r: Self)
        ensures
            r.is_default(),
    {
        MergeSignalsConfig { only_if_missing: false, event_id: None, retry_duration: DEFAULT_RETRY_DURATION }
    }
}

impl MergeSignalsConfig {
    /// Create a new [`MergeSignalsConfig`] with default options.
    pub fn new() -> (r: Self)
        ensures
            r.is_default(),
    {
        Self::default()
    }

    pub fn only_if_missing(self, only_if_missing: bool) -> (r: Self)
        ensures
            r == (MergeSignalsConfig { only_if_missing, ..self }),
    {
        MergeSignalsConfig { only_if_missing, ..self }
    }

    pub fn event_id(self, event_id: &str) -> (r: Self)
        ensures
            r == (MergeSignalsConfig { event_id: r.event_id, ..self }),
            opt_view(r.event_id) == Some(event_id@),
    {
        MergeSignalsConfig { event_id: Some(String::from_str(event_id)), ..self }
    }

    /// Sets the retry duration, given in milliseconds.
    pub fn retry_duration(self, retry_duration: u128) -> (r: Self)
        requires
            retry_duration <= u32::MAX,
        ensures
            r == (MergeSignalsConfig { retry_duration: retry_duration as u32, ..self }),
    {
        MergeSignalsConfig { retry_duration: retry_duration as u32, ..self }
    }
}

/// Configuration for how to remove signals.
#[derive(Debug, Clone)]
pub struct RemoveSignalsConfig {
    pub event_id: Option<String>,
    /// Milliseconds.
    pub retry_duration: u32,
}

impl RemoveSignalsConfig {
    /// Every option at the protocol's default.
    pub open spec fn is_default(self) -> bool {
        &&& self.event_id is None
        &&& self.retry_duration == DEFAULT_RETRY_DURATION
    }
}

impl Default for RemoveSignalsConfig {
    fn default() -> (r: Self)
        ensures
            r.is_default(),
    {
        RemoveSignalsConfig { event_id: None, retry_duration: DEFAULT_RETRY_DURATION }
    }
}

impl RemoveSignalsConfig {
    /// Create a new [`RemoveSignalsConfig`] with default options.
    pub fn new() -> (r: Self)
        ensures
            r.is_default(),
    {
        Self::default()
    }

    pub fn event_id(self, event_id: &str) -> (r: Self)
        ensures
            r == (RemoveSignalsConfig { event_id: r.event_id, ..self }),
            opt_view(r.event_id) == Some(event_id@),
    {
        RemoveSignalsConfig { event_id: Some(String::from_str(event_id)), ..self }
    }

    /// Sets the retry duration, given in milliseconds.
    pub fn retry_duration(self, retry_duration: u128) -> (r: Self)
        requires
            retry_duration <= u32::MAX,
        ensures
            r == (RemoveSignalsConfig { retry_duration: retry_duration as u32, ..self }),
    {
        RemoveSignalsConfig { retry_duration: retry_duration as u32, ..self }
    }
}

} // verus!
