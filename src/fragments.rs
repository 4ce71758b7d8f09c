//! Options of the events that merge fragments into the page and remove them.

use vstd::prelude::*;
use vstd::string::StringExecFns;

use crate::event::{opt_view, DEFAULT_RETRY_DURATION, DEFAULT_SETTLE_DURATION};

verus! {

/// Defines various strategies for merging fragments.
#[derive(Debug, Clone, Copy, PartialEq, Eq, Structural)]
pub enum FragmentMergeMode {
    /// Merge the fragment using Idiomorph (default).
    Morph,
    /// Replace target's innerHTML with the fragment.
    Inner,
    /// Replace target's outerHTML with the fragment.
    Outer,
    /// Prepend the fragment to the target's children.
    Prepend,
    /// Append the fragment to the target's children.
    Append,
    /// Insert the fragment before the target.
    Before,
    /// Insert the fragment after the target.
    After,
    /// Update attributes on the target to match the fragment.
    UpsertAttributes,
}

impl Default for FragmentMergeMode {
    fn default() -> (r: Self)
        ensures
            r == FragmentMergeMode::Morph,
    {
        FragmentMergeMode::Morph
    }
}

impl FragmentMergeMode {
    /// The name of the mode on the wire.
    pub open spec fn wire_name(self) -> Seq<char> {
        match self {
            FragmentMergeMode::Morph => "morph"@,
            FragmentMergeMode::Inner => "inner"@,
            FragmentMergeMode::Outer => "outer"@,
            FragmentMergeMode::Prepend => "prepend"@,
            FragmentMergeMode::Append => "append"@,
            FragmentMergeMode::Before => "before"@,
            FragmentMergeMode::After => "after"@,
            FragmentMergeMode::UpsertAttributes => "upsertAttributes"@,
        }
    }

    /// The name of the mode on the wire.
    pub fn as_datastar_name(self) -> (r: &'static str)
        ensures
            r@ == self.wire_name(),
    {
        match self {
            FragmentMergeMode::Morph => "morph",
            FragmentMergeMode::Inner => "inner",
            FragmentMergeMode::Outer => "outer",
            FragmentMergeMode::Prepend => "prepend",
            FragmentMergeMode::Append => "append",
            FragmentMergeMode::Before => "before",
            FragmentMergeMode::After => "after",
            FragmentMergeMode::UpsertAttributes => "upsertAttributes",
        }
    }
}

/// Configuration for how to place a fragment on the page.
#[derive(Debug, Clone)]
pub struct MergeFragmentsConfig {
    pub merge_mode: FragmentMergeMode,
    pub selector: Option<String>,
    /// Milliseconds.
    pub settle_duration: u32,
    pub use_view_transition: bool,
    pub event_id: Option<String>,
    /// Milliseconds.
    pub retry_duration: u32,
}

impl MergeFragmentsConfig {
    /// Every option at the protocol's default.
    pub open spec fn is_default(self) -> bool {
        &&& self.merge_mode == FragmentMergeMode::Morph
        &&& self.selector is None
        &&& self.settle_duration == DEFAULT_SETTLE_DURATION
        &&& !self.use_view_transition
        &&& self.event_id is None
        &&& self.retry_duration == DEFAULT_RETRY_DURATION
    }
}

impl Default for MergeFragmentsConfig {
    fn default() -> (r: Self)
        ensures
            r.is_default(),
    {
        MergeFragmentsConfig {
            merge_mode: FragmentMergeMode::Morph,
            selector: None,
            settle_duration: DEFAULT_SETTLE_DURATION,
            use_view_transition: false,
            event_id: None,
            retry_duration: DEFAULT_RETRY_DURATION,
        }
    }
}

impl MergeFragmentsConfig {
    /// Create a new [`MergeFragmentsConfig`] with default options.
    pub fn new() -> (r: Self)
        ensures
            r.is_default(),
    {
        Self::default()
    }

    pub fn merge_mode(self, merge_mode: FragmentMergeMode) -> (r: Self)
        ensures
            r == (MergeFragmentsConfig { merge_mode, ..self }),
    {
        MergeFragmentsConfig { merge_mode, ..self }
    }

    pub fn selector(self, selector: &str) -> (r: Self)
        ensures
            r == (MergeFragmentsConfig { selector: r.selector, ..self }),
            opt_view(r.selector) == Some(selector@),
    {
        MergeFragmentsConfig { selector: Some(String::from_str(selector)), ..self }
    }

    /// Sets the settle duration, given in milliseconds.
    pub fn settle_duration(self, settle_duration: u128) -> (r: Self)
        requires
            settle_duration <= u32::MAX,
        ensures
            r == (MergeFragmentsConfig { settle_duration: settle_duration as u32, ..self }),
    {
        MergeFragmentsConfig { settle_duration: settle_duration as u32, ..self }
    }

    pub fn use_view_transition(self, use_view_transition: bool) -> (r: Self)
        ensures
            r == (MergeFragmentsConfig { use_view_transition, ..self }),
    {
        MergeFragmentsConfig { use_view_transition, ..self }
    }

    pub fn event_id(self, event_id: &str) -> (r: Self)
        ensures
            r == (MergeFragmentsConfig { event_id: r.event_id, ..self }),
            opt_view(r.event_id) == Some(event_id@),
    {
        MergeFragmentsConfig { event_id: Some(String::from_str(event_id)), ..self }
    }

    /// Sets the retry duration, given in milliseconds.
    pub fn retry_duration(self, retry_duration: u128) -> (r: Self)
        requires
            retry_duration <= u32::MAX,
        ensures
            r == (MergeFragmentsConfig { retry_duration: retry_duration as u32, ..self }),
    {
        MergeFragmentsConfig { retry_duration: retry_duration as u32, ..self }
    }
}

/// Configuration for how to remove fragments from the page.
#[derive(Debug, Clone)]
pub struct RemoveFragmentsConfig {
    /// Milliseconds.
    pub settle_duration: u32,
    pub use_view_transition: bool,
    pub event_id: Option<String>,
    /// Milliseconds.
    pub retry_duration: u32,
}

impl RemoveFragmentsConfig {
    /// Every option at the protocol's default.
    pub open spec fn is_default(self) -> bool {
        &&& self.settle_duration == DEFAULT_SETTLE_DURATION
        &&& !self.use_view_transition
        &&& self.event_id is None
        &&& self.retry_duration == DEFAULT_RETRY_DURATION
    }
}

impl Default for RemoveFragmentsConfig {
    fn default() -> (r: Self)
        ensures
            r.is_default(),
    {
        RemoveFragmentsConfig {
            settle_duration: DEFAULT_SETTLE_DURATION,
            use_view_transition: false,
            event_id: None,
            retry_duration: DEFAULT_RETRY_DURATION,
        }
    }
}

impl RemoveFragmentsConfig {
    /// Create a new [`RemoveFragmentsConfig`] with default options.
    pub fn new() -> (r: Self)
        ensures
            r.is_default(),
    {
        Self::default()
    }

    /// Sets the settle duration, given in milliseconds.
    pub fn settle_duration(self, settle_duration: u128) -> (r: Self)
        requires
            settle_duration <= u32::MAX,
        ensures
            r == (RemoveFragmentsConfig { settle_duration: settle_duration as u32, ..self }),
    {
        RemoveFragmentsConfig { settle_duration: settle_duration as u32, ..self }
    }

    pub fn use_view_transition(self, use_view_transition: bool) -> (r: Self)
        ensures
            r == (RemoveFragmentsConfig { use_view_transition, ..self }),
    {
        RemoveFragmentsConfig { use_view_transition, ..self }
    }

    pub fn event_id(self, event_id: &str) -> (r: Self)
        ensures
            r == (RemoveFragmentsConfig { event_id: r.event_id, ..self }),
            opt_view(r.event_id) == Some(event_id@),
    {
        RemoveFragmentsConfig { event_id: Some(String::from_str(event_id)), ..self }
    }

    /// Sets the retry duration, given in milliseconds.
    pub fn retry_duration(self, retry_duration: u128) -> (r: Self)
        requires
            retry_duration <= u32::MAX,
        ensures
            r == (RemoveFragmentsConfig { retry_duration: retry_duration as u32, ..self }),
    {
        RemoveFragmentsConfig { retry_duration: retry_duration as u32, ..self }
    }
}

} // verus!
