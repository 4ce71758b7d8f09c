//! The encoders of the five kinds of event, and a generator that collects
//! the blocks they produce.

use vstd::prelude::*;

use crate::event::{
    decimal, encode_event, event_block, opt_view, pairs_view, strings_view, to_decimal, EventKind,
    Pairs, DEFAULT_SETTLE_DURATION,
};
use crate::fragments::{FragmentMergeMode, MergeFragmentsConfig, RemoveFragmentsConfig};
use crate::lines::{lines_of, split_lines, views_of};
use crate::scripts::ExecuteScriptConfig;
use crate::signals::{MergeSignalsConfig, RemoveSignalsConfig};

verus! {

/// One pair of `key` with each of `values`, in order.
pub open spec fn keyed(key: Seq<char>, values: Seq<Seq<char>>) -> Pairs {
    values.map_values(|v: Seq<char>| (key, v))
}

/// The single pair `(key, value)` when `present`, else none.
pub open spec fn optional(present: bool, key: Seq<char>, value: Seq<char>) -> Pairs {
    if present {
        seq![(key, value)]
    } else {
        seq![]
    }
}

/// The `settleDuration` pair, present when the duration is not the default.
pub open spec fn settle_pair(settle_duration: u32) -> Pairs {
    optional(
        settle_duration != DEFAULT_SETTLE_DURATION,
        "settleDuration"@,
        decimal(settle_duration as nat),
    )
}

/// The data pairs of a merge-fragments event: `mergeMode`, `selector`,
/// `settleDuration` and `useViewTransition` where they differ from the
/// defaults, then one `fragments` pair for each line of `fragments`.
pub open spec fn merge_fragments_pairs(fragments: Seq<char>, config: MergeFragmentsConfig) -> Pairs {
    optional(config.merge_mode != FragmentMergeMode::Morph, "mergeMode"@, config.merge_mode.wire_name())
        + optional(config.selector is Some, "selector"@, opt_view(config.selector)->0)
        + settle_pair(config.settle_duration)
        + optional(config.use_view_transition, "useViewTransition"@, "true"@)
        + keyed("fragments"@, lines_of(fragments))
}

/// The data pairs of a remove-fragments event: `selector`, then
/// `settleDuration` and `useViewTransition` where they differ from the
/// defaults.
pub open spec fn remove_fragments_pairs(selector: Seq<char>, config: RemoveFragmentsConfig) -> Pairs {
    seq![("selector"@, selector)] + settle_pair(config.settle_duration) + optional(
        config.use_view_transition,
        "useViewTransition"@,
        "true"@,
    )
}

/// The data pairs of a merge-signals event: `onlyIfMissing` when set, then
/// one `signals` pair for each line of `signals`.
pub open spec fn merge_signals_pairs(signals: Seq<char>, config: MergeSignalsConfig) -> Pairs {
    optional(config.only_if_missing, "onlyIfMissing"@, "true"@) + keyed("signals"@, lines_of(signals))
}

/// The data pairs of a remove-signals event: one `paths` pair for each path.
pub open spec fn remove_signals_pairs(paths: Seq<Seq<char>>) -> Pairs {
    keyed("paths"@, paths)
}

/// The data pairs of an execute-script event: `autoRemove` when it is off,
/// one `attributes` pair for each attribute, then one `script` pair for each
/// line of `script`.
pub open spec fn execute_script_pairs(script: Seq<char>, config: ExecuteScriptConfig) -> Pairs {
    optional(!config.auto_remove, "autoRemove"@, "false"@) + keyed(
        "attributes"@,
        strings_view(config.attributes@),
    ) + keyed("script"@, lines_of(script))
}

/// The whole text of a merge-fragments event, with the config's id and retry duration.
pub open spec fn merge_fragments_block(fragments: Seq<char>, config: MergeFragmentsConfig) -> Seq<char> {
    event_block(
        EventKind::MergeFragments,
        opt_view(config.event_id),
        config.retry_duration,
        merge_fragments_pairs(fragments, config),
    )
}

/// The whole text of a remove-fragments event, with the config's id and retry duration.
pub open spec fn remove_fragments_block(selector: Seq<char>, config: RemoveFragmentsConfig) -> Seq<char> {
    event_block(
        EventKind::RemoveFragments,
        opt_view(config.event_id),
        config.retry_duration,
        remove_fragments_pairs(selector, config),
    )
}

/// The whole text of a merge-signals event, with the config's id and retry duration.
pub open spec fn merge_signals_block(signals: Seq<char>, config: MergeSignalsConfig) -> Seq<char> {
    event_block(
        EventKind::MergeSignals,
        opt_view(config.event_id),
        config.retry_duration,
        merge_signals_pairs(signals, config),
    )
}

/// The whole text of a remove-signals event, with the config's id and retry duration.
pub open spec fn remove_signals_block(paths: Seq<Seq<char>>, config: RemoveSignalsConfig) -> Seq<char> {
    event_block(
        EventKind::RemoveSignals,
        opt_view(config.event_id),
        config.retry_duration,
        remove_signals_pairs(paths),
    )
}

/// The whole text of a execute-script event, with the config's id and retry duration.
pub open spec fn execute_script_block(script: Seq<char>, config: ExecuteScriptConfig) -> Seq<char> {
    event_block(
        EventKind::ExecuteScript,
        opt_view(config.event_id),
        config.retry_duration,
        execute_script_pairs(script, config),
    )
}

/// Appends one pair of `key` with each of `values`.
fn push_keyed<'a>(pairs: &mut Vec<(&'a str, &'a str)>, key: &'a str, values: &[&'a str])
    ensures
        pairs_view(final(pairs)@) == pairs_view(old(pairs)@) + keyed(key@, views_of(values@)),
{
    let mut i: usize = 0;
    while i < values.len()
        invariant
            i <= values@.len(),
            pairs_view(pairs@) == pairs_view(old(pairs)@) + keyed(key@, views_of(values@.take(i as int))),
        decreases values@.len() - i,
    {
        let ghost prev = pairs@;
        pairs.push((key, values[i]));
        assert(pairs_view(pairs@) =~= pairs_view(prev).push((key@, values@[i as int]@)));
        assert(views_of(values@.take(i + 1)) =~= views_of(values@.take(i as int)).push(values@[i as int]@));
        assert(keyed(key@, views_of(values@.take(i + 1))) =~= keyed(key@, views_of(values@.take(i as int))).push((key@, values@[i as int]@)));
        assert(pairs_view(pairs@) =~= pairs_view(old(pairs)@) + keyed(key@, views_of(values@.take(i + 1))));
        i = i + 1;
    }
    assert(values@.take(i as int) =~= values@);
}

/// Appends one pair of `key` with each of `values`.
fn push_keyed_strings<'a>(pairs: &mut Vec<(&'a str, &'a str)>, key: &'a str, values: &'a Vec<String>)
    ensures
        pairs_view(final(pairs)@) == pairs_view(old(pairs)@) + keyed(key@, strings_view(values@)),
{
    let mut i: usize = 0;
    while i < values.len()
        invariant
            i <= values@.len(),
            pairs_view(pairs@) == pairs_view(old(pairs)@) + keyed(key@, strings_view(values@.take(i as int))),
        decreases values@.len() - i,
    {
        let ghost prev = pairs@;
        pairs.push((key, values[i].as_str()));
        assert(pairs_view(pairs@) =~= pairs_view(prev).push((key@, values@[i as int]@)));
        assert(strings_view(values@.take(i + 1)) =~= strings_view(values@.take(i as int)).push(values@[i as int]@));
        assert(keyed(key@, strings_view(values@.take(i + 1))) =~= keyed(key@, strings_view(values@.take(i as int))).push((key@, values@[i as int]@)));
        assert(pairs_view(pairs@) =~= pairs_view(old(pairs)@) + keyed(key@, strings_view(values@.take(i + 1))));
        i = i + 1;
    }
    assert(values@.take(i as int) =~= values@);
}

/// Encodes a merge-fragments event that places `fragments` on the page.
pub fn encode_merge_fragments(fragments: &str, config: MergeFragmentsConfig) -> (r: String)
    ensures
        r@ == merge_fragments_block(fragments@, config),
{
    let settle_text = to_decimal(config.settle_duration);
    let lines = split_lines(fragments);
    let mut data_pairs: Vec<(&str, &str)> = Vec::new();
    if config.merge_mode != FragmentMergeMode::Morph {
        data_pairs.push(("mergeMode", config.merge_mode.as_datastar_name()));
    }
    if let Some(selector) = &config.selector {
        data_pairs.push(("selector", selector.as_str()));
    }
    if config.settle_duration != DEFAULT_SETTLE_DURATION {
        data_pairs.push(("settleDuration", settle_text.as_str()));
    }
    if config.use_view_transition {
        data_pairs.push(("useViewTransition", "true"));
    }
    let ghost head = pairs_view(data_pairs@);
    assert(head =~= merge_fragments_pairs(fragments@, config).take(head.len() as int));
    push_keyed(&mut data_pairs, "fragments", lines.as_slice());
    assert(pairs_view(data_pairs@) =~= merge_fragments_pairs(fragments@, config));
    encode_event(EventKind::MergeFragments, &data_pairs, config.event_id.clone(), config.retry_duration)
}

/// Encodes a remove-fragments event that removes the elements that
/// `selector` matches.
pub fn encode_remove_fragments(selector: &str, config: RemoveFragmentsConfig) -> (r: String)
    ensures
        r@ == remove_fragments_block(selector@, config),
{
    let settle_text = to_decimal(config.settle_duration);
    let mut data_pairs: Vec<(&str, &str)> = Vec::new();
    data_pairs.push(("selector", selector));
    if config.settle_duration != DEFAULT_SETTLE_DURATION {
        data_pairs.push(("settleDuration", settle_text.as_str()));
    }
    if config.use_view_transition {
        data_pairs.push(("useViewTransition", "true"));
    }
    assert(pairs_view(data_pairs@) =~= remove_fragments_pairs(selector@, config));
    encode_event(EventKind::RemoveFragments, &data_pairs, config.event_id.clone(), config.retry_duration)
}

/// Encodes a merge-signals event that merges the JSON text `signals` into
/// the client's store.
pub fn encode_merge_signals(signals: &str, config: MergeSignalsConfig) -> (r: String)
    ensures
        r@ == merge_signals_block(signals@, config),
{
    let lines = split_lines(signals);
    let mut data_pairs: Vec<(&str, &str)> = Vec::new();
    if config.only_if_missing {
        data_pairs.push(("onlyIfMissing", "true"));
    }
    push_keyed(&mut data_pairs, "signals", lines.as_slice());
    assert(pairs_view(data_pairs@) =~= merge_signals_pairs(signals@, config));
    encode_event(EventKind::MergeSignals, &data_pairs, config.event_id.clone(), config.retry_duration)
}

/// Encodes a remove-signals event that removes the signals at `paths`.
pub fn encode_remove_signals(paths: &[&str], config: RemoveSignalsConfig) -> (r: String)
    ensures
        r@ == remove_signals_block(views_of(paths@), config),
{
    let mut data_pairs: Vec<(&str, &str)> = Vec::new();
    push_keyed(&mut data_pairs, "paths", paths);
    assert(pairs_view(data_pairs@) =~= remove_signals_pairs(views_of(paths@)));
    encode_event(EventKind::RemoveSignals, &data_pairs, config.event_id.clone(), config.retry_duration)
}

/// Encodes an execute-script event that runs `script` on the client.
pub fn encode_execute_script(script: &str, config: ExecuteScriptConfig) -> (r: String)
    ensures
        r@ == execute_script_block(script@, config),
{
    let lines = split_lines(script);
    let mut data_pairs: Vec<(&str, &str)> = Vec::new();
    if !config.auto_remove {
        data_pairs.push(("autoRemove", "false"));
    }
    push_keyed_strings(&mut data_pairs, "attributes", &config.attributes);
    push_keyed(&mut data_pairs, "script", lines.as_slice());
    assert(pairs_view(data_pairs@) =~= execute_script_pairs(script@, config));
    encode_event(EventKind::ExecuteScript, &data_pairs, config.event_id.clone(), config.retry_duration)
}

/// Collects the event blocks of a response, in the order they are produced.
pub struct ServerSentEventGenerator {
    /// The blocks produced so far, oldest first.
    pub events: Vec<String>,
}

impl ServerSentEventGenerator {
    /// `self` is `before` with `block` added after the blocks it held.
    pub open spec fn appended(self, before: Self, block: Seq<char>) -> bool {
        strings_view(self.events@) == strings_view(before.events@).push(block)
    }

    /// Appends a merge-fragments event.
    pub fn merge_fragments(&mut self, fragments: &str, config: MergeFragmentsConfig)
        ensures
            final(self).appended(*old(self), merge_fragments_block(fragments@, config)),
    {
        let block = encode_merge_fragments(fragments, config);
        self.events.push(block);
        assert(strings_view(self.events@) =~= strings_view(old(self).events@).push(block@));
    }

    /// Appends a remove-fragments event.
    pub fn remove_fragments(&mut self, selector: &str, config: RemoveFragmentsConfig)
        ensures
            final(self).appended(*old(self), remove_fragments_block(selector@, config)),
    {
        let block = encode_remove_fragments(selector, config);
        self.events.push(block);
        assert(strings_view(self.events@) =~= strings_view(old(self).events@).push(block@));
    }

    /// Appends a merge-signals event.
    pub fn merge_signals(&mut self, signals: &str, config: MergeSignalsConfig)
        ensures
            final(self).appended(*old(self), merge_signals_block(signals@, config)),
    {
        let block = encode_merge_signals(signals, config);
        self.events.push(block);
        assert(strings_view(self.events@) =~= strings_view(old(self).events@).push(block@));
    }

    /// Appends a remove-signals event.
    pub fn remove_signals(&mut self, paths: &[&str], config: RemoveSignalsConfig)
        ensures
            final(self).appended(*old(self), remove_signals_block(views_of(paths@), config)),
    {
        let block = encode_remove_signals(paths, config);
        self.events.push(block);
        assert(strings_view(self.events@) =~= strings_view(old(self).events@).push(block@));
    }

    /// Appends an execute-script event.
    pub fn execute_script(&mut self, script: &str, config: ExecuteScriptConfig)
        ensures
            final(self).appended(*old(self), execute_script_block(script@, config)),
    {
        let block = encode_execute_script(script, config);
        self.events.push(block);
        assert(strings_view(self.events@) =~= strings_view(old(self).events@).push(block@));
    }
}

} // verus!
