//! Properties that hold of every block the encoders produce.

use vstd::prelude::*;

use crate::event::{
    data_line, data_lines, decimal, digit_char, id_line, event_block, event_line, opt_view, retry_line, strings_view, EventKind,
    Pairs, DEFAULT_RETRY_DURATION, DEFAULT_SETTLE_DURATION,
};
use crate::fragments::{FragmentMergeMode, MergeFragmentsConfig, RemoveFragmentsConfig};
use crate::generator::{
    execute_script_block, execute_script_pairs, keyed, merge_fragments_block, merge_fragments_pairs,
    merge_signals_block, merge_signals_pairs, remove_fragments_block, remove_fragments_pairs,
    optional, remove_signals_block, remove_signals_pairs, settle_pair,
};
use crate::lines::{lemma_lines_single_line, lines_of, single_line};
use crate::scripts::ExecuteScriptConfig;
use crate::signals::{MergeSignalsConfig, RemoveSignalsConfig};

verus! {

/// A block with no `id:` and no `retryDuration:` line.
pub open spec fn bare_block(kind: EventKind, pairs: Pairs) -> Seq<char> {
    event_line(kind) + data_lines(pairs) + "\n"@
}

/// With every option at its default, no optional line appears in a block of
/// any kind: there is no `id:` line, no `retryDuration:` line, and only the
/// data lines that the event cannot do without (the payload's lines, the
/// selector of a removal, the paths).
pub proof fn defaults_omit_optional_lines(
    fragments: Seq<char>,
    merge_fragments: MergeFragmentsConfig,
    selector: Seq<char>,
    remove_fragments: RemoveFragmentsConfig,
    signals: Seq<char>,
    merge_signals: MergeSignalsConfig,
    paths: Seq<Seq<char>>,
    remove_signals: RemoveSignalsConfig,
    script: Seq<char>,
    execute_script: ExecuteScriptConfig,
)
    requires
        merge_fragments.is_default(),
        remove_fragments.is_default(),
        merge_signals.is_default(),
        remove_signals.is_default(),
        execute_script.is_default(),
    ensures
        merge_fragments_block(fragments, merge_fragments) == bare_block(
            EventKind::MergeFragments,
            keyed("fragments"@, lines_of(fragments)),
        ),
        remove_fragments_block(selector, remove_fragments) == bare_block(
            EventKind::RemoveFragments,
            seq![("selector"@, selector)],
        ),
        merge_signals_block(signals, merge_signals) == bare_block(
            EventKind::MergeSignals,
            keyed("signals"@, lines_of(signals)),
        ),
        remove_signals_block(paths, remove_signals) == bare_block(
            EventKind::RemoveSignals,
            keyed("paths"@, paths),
        ),
        execute_script_block(script, execute_script) == bare_block(
            EventKind::ExecuteScript,
            keyed("script"@, lines_of(script)),
        ),
{
    assert(merge_fragments_block(fragments, merge_fragments) =~= bare_block(
        EventKind::MergeFragments,
        keyed("fragments"@, lines_of(fragments)),
    ));
    assert(remove_fragments_block(selector, remove_fragments) =~= bare_block(
        EventKind::RemoveFragments,
        seq![("selector"@, selector)],
    ));
    assert(merge_signals_block(signals, merge_signals) =~= bare_block(
        EventKind::MergeSignals,
        keyed("signals"@, lines_of(signals)),
    ));
    assert(remove_signals_block(paths, remove_signals) =~= bare_block(
        EventKind::RemoveSignals,
        keyed("paths"@, paths),
    ));
    assert(execute_script_block(script, execute_script) =~= bare_block(
        EventKind::ExecuteScript,
        keyed("script"@, lines_of(script)),
    ));
}

/// `block` starts with the `event:` line of `kind` and, right after it, the
/// line `id: <id>`.
pub open spec fn id_follows_event_line(block: Seq<char>, kind: EventKind, id: Seq<char>) -> bool {
    (event_line(kind) + "id: "@ + id + "\n"@).is_prefix_of(block)
}

proof fn lemma_id_prefix(kind: EventKind, id: Seq<char>, retry_duration: u32, pairs: Pairs)
    ensures
        id_follows_event_line(event_block(kind, Some(id), retry_duration, pairs), kind, id),
{
    let head = event_line(kind) + "id: "@ + id + "\n"@;
    let block = event_block(kind, Some(id), retry_duration, pairs);
    assert(block =~= head + (retry_line(retry_duration) + data_lines(pairs) + "\n"@));
    assert(block.subrange(0, head.len() as int) =~= head);
}

/// When an event has an id, for every kind of event, the line `id: <id>`
/// comes right after the `event:` line.
pub proof fn event_id_follows_event_line(
    fragments: Seq<char>,
    merge_fragments: MergeFragmentsConfig,
    selector: Seq<char>,
    remove_fragments: RemoveFragmentsConfig,
    signals: Seq<char>,
    merge_signals: MergeSignalsConfig,
    paths: Seq<Seq<char>>,
    remove_signals: RemoveSignalsConfig,
    script: Seq<char>,
    execute_script: ExecuteScriptConfig,
)
    requires
        merge_fragments.event_id is Some,
        remove_fragments.event_id is Some,
        merge_signals.event_id is Some,
        remove_signals.event_id is Some,
        execute_script.event_id is Some,
    ensures
        id_follows_event_line(
            merge_fragments_block(fragments, merge_fragments),
            EventKind::MergeFragments,
            merge_fragments.event_id->0@,
        ),
        id_follows_event_line(
            remove_fragments_block(selector, remove_fragments),
            EventKind::RemoveFragments,
            remove_fragments.event_id->0@,
        ),
        id_follows_event_line(
            merge_signals_block(signals, merge_signals),
            EventKind::MergeSignals,
            merge_signals.event_id->0@,
        ),
        id_follows_event_line(
            remove_signals_block(paths, remove_signals),
            EventKind::RemoveSignals,
            remove_signals.event_id->0@,
        ),
        id_follows_event_line(
            execute_script_block(script, execute_script),
            EventKind::ExecuteScript,
            execute_script.event_id->0@,
        ),
{
    lemma_id_prefix(
        EventKind::MergeFragments,
        merge_fragments.event_id->0@,
        merge_fragments.retry_duration,
        merge_fragments_pairs(fragments, merge_fragments),
    );
    lemma_id_prefix(
        EventKind::RemoveFragments,
        remove_fragments.event_id->0@,
        remove_fragments.retry_duration,
        remove_fragments_pairs(selector, remove_fragments),
    );
    lemma_id_prefix(
        EventKind::MergeSignals,
        merge_signals.event_id->0@,
        merge_signals.retry_duration,
        merge_signals_pairs(signals, merge_signals),
    );
    lemma_id_prefix(
        EventKind::RemoveSignals,
        remove_signals.event_id->0@,
        remove_signals.retry_duration,
        remove_signals_pairs(paths),
    );
    lemma_id_prefix(
        EventKind::ExecuteScript,
        execute_script.event_id->0@,
        execute_script.retry_duration,
        execute_script_pairs(script, execute_script),
    );
}

/// The values of the pairs of `pairs` whose key is `key`, in order.
pub open spec fn values_under(pairs: Pairs, key: Seq<char>) -> Seq<Seq<char>>
    decreases pairs.len(),
{
    if pairs.len() == 0 {
        seq![]
    } else if pairs.last().0 == key {
        values_under(pairs.drop_last(), key).push(pairs.last().1)
    } else {
        values_under(pairs.drop_last(), key)
    }
}

proof fn lemma_values_under_add(a: Pairs, b: Pairs, key: Seq<char>)
    ensures
        values_under(a + b, key) == values_under(a, key) + values_under(b, key),
    decreases b.len(),
{
    if b.len() == 0 {
        assert(a + b =~= a);
        assert(values_under(a, key) + values_under(b, key) =~= values_under(a, key));
    } else {
        assert((a + b).drop_last() =~= a + b.drop_last());
        lemma_values_under_add(a, b.drop_last(), key);
        assert(values_under(a + b, key) =~= values_under(a, key) + values_under(b, key));
    }
}

proof fn lemma_values_under_keyed(k: Seq<char>, values: Seq<Seq<char>>, key: Seq<char>)
    ensures
        values_under(keyed(k, values), key) == (if k == key {
            values
        } else {
            seq![]
        }),
    decreases values.len(),
{
    if values.len() > 0 {
        assert(keyed(k, values).drop_last() =~= keyed(k, values.drop_last()));
        lemma_values_under_keyed(k, values.drop_last(), key);
        assert(values.drop_last().push(values.last()) =~= values);
    }
}

proof fn lemma_values_under_optional(present: bool, k: Seq<char>, v: Seq<char>, key: Seq<char>)
    requires
        k != key,
    ensures
        values_under(optional(present, k, v), key) == Seq::<Seq<char>>::empty(),
{
    let empty = Seq::<(Seq<char>, Seq<char>)>::empty();
    assert(values_under(empty, key) == Seq::<Seq<char>>::empty());
    if present {
        assert(optional(present, k, v).drop_last() =~= empty);
    }
}

/// The data lines that carry a multi-line payload (the fragments, the
/// signals, the script) are the payload's lines, one for each line, in the
/// same order.
pub proof fn payload_lines_kept_in_order(
    fragments: Seq<char>,
    merge_fragments: MergeFragmentsConfig,
    signals: Seq<char>,
    merge_signals: MergeSignalsConfig,
    script: Seq<char>,
    execute_script: ExecuteScriptConfig,
)
    ensures
        values_under(merge_fragments_pairs(fragments, merge_fragments), "fragments"@) == lines_of(
            fragments,
        ),
        values_under(merge_signals_pairs(signals, merge_signals), "signals"@) == lines_of(signals),
        values_under(execute_script_pairs(script, execute_script), "script"@) == lines_of(script),
{
    reveal_strlit("fragments");
    reveal_strlit("mergeMode");
    reveal_strlit("selector");
    reveal_strlit("settleDuration");
    reveal_strlit("useViewTransition");
    reveal_strlit("signals");
    reveal_strlit("onlyIfMissing");
    reveal_strlit("script");
    reveal_strlit("autoRemove");
    reveal_strlit("attributes");
    assert("mergeMode"@[0] != "fragments"@[0]);
    assert("onlyIfMissing"@[0] != "signals"@[0]);
    assert("autoRemove"@[0] != "script"@[0]);
    let mf = merge_fragments;
    let key = "fragments"@;
    let a = optional(mf.merge_mode != FragmentMergeMode::Morph, "mergeMode"@, mf.merge_mode.wire_name());
    let b = optional(mf.selector is Some, "selector"@, opt_view(mf.selector)->0);
    let c = settle_pair(mf.settle_duration);
    let d = optional(mf.use_view_transition, "useViewTransition"@, "true"@);
    let f = keyed(key, lines_of(fragments));
    lemma_values_under_optional(mf.merge_mode != FragmentMergeMode::Morph, "mergeMode"@, mf.merge_mode.wire_name(), key);
    lemma_values_under_optional(mf.selector is Some, "selector"@, opt_view(mf.selector)->0, key);
    lemma_values_under_optional(
        mf.settle_duration != DEFAULT_SETTLE_DURATION,
        "settleDuration"@,
        decimal(mf.settle_duration as nat),
        key,
    );
    lemma_values_under_optional(mf.use_view_transition, "useViewTransition"@, "true"@, key);
    lemma_values_under_keyed(key, lines_of(fragments), key);
    lemma_values_under_add(a, b, key);
    lemma_values_under_add(a + b, c, key);
    lemma_values_under_add(a + b + c, d, key);
    lemma_values_under_add(a + b + c + d, f, key);

    let key = "signals"@;
    let g = optional(merge_signals.only_if_missing, "onlyIfMissing"@, "true"@);
    lemma_values_under_optional(merge_signals.only_if_missing, "onlyIfMissing"@, "true"@, key);
    lemma_values_under_keyed(key, lines_of(signals), key);
    lemma_values_under_add(g, keyed(key, lines_of(signals)), key);

    let key = "script"@;
    let h = optional(!execute_script.auto_remove, "autoRemove"@, "false"@);
    let i = keyed("attributes"@, strings_view(execute_script.attributes@));
    lemma_values_under_optional(!execute_script.auto_remove, "autoRemove"@, "false"@, key);
    lemma_values_under_keyed("attributes"@, strings_view(execute_script.attributes@), key);
    lemma_values_under_keyed(key, lines_of(script), key);
    lemma_values_under_add(h, i, key);
    lemma_values_under_add(h + i, keyed(key, lines_of(script)), key);
}

/// An absent text, or one that holds no line ending.
pub open spec fn single_line_if_some(o: Option<String>) -> bool {
    match o {
        Some(s) => single_line(s@),
        None => true,
    }
}

/// No two line endings of `t` stand side by side.
pub open spec fn no_blank_line(t: Seq<char>) -> bool {
    forall|i: int| 0 <= i < t.len() - 1 ==> !(#[trigger] t[i] == '\n' && t[i + 1] == '\n')
}

/// `block` ends with a blank line, and holds no other blank line.
pub open spec fn ends_with_one_blank_line(block: Seq<char>) -> bool {
    &&& block.len() >= 2
    &&& block[0] != '\n'
    &&& block[block.len() - 2] == '\n'
    &&& block.last() == '\n'
    &&& no_blank_line(block.drop_last())
}

/// `t` is made of whole non-blank lines, each with its line ending.
spec fn lined(t: Seq<char>) -> bool {
    t.len() == 0 || (t[0] != '\n' && t.last() == '\n' && no_blank_line(t))
}

/// Every key and every value of `pairs` holds no line ending.
spec fn pairs_single_line(pairs: Pairs) -> bool {
    forall|i: int| 0 <= i < pairs.len() ==> single_line(#[trigger] pairs[i].0) && single_line(pairs[i].1)
}

proof fn lemma_lined_add(a: Seq<char>, b: Seq<char>)
    requires
        lined(a),
        lined(b),
    ensures
        lined(a + b),
{
    let t = a + b;
    if a.len() > 0 && b.len() > 0 {
        assert forall|i: int| 0 <= i < t.len() - 1 implies !(#[trigger] t[i] == '\n' && t[i + 1] == '\n') by {
            if i < a.len() - 1 {
                assert(t[i] == a[i] && t[i + 1] == a[i + 1]);
            } else if i == a.len() - 1 {
                assert(t[i + 1] == b[0]);
            } else {
                assert(t[i] == b[i - a.len()] && t[i + 1] == b[i + 1 - a.len()]);
            }
        }
    } else if a.len() == 0 {
        assert(t =~= b);
    } else {
        assert(t =~= a);
    }
}

proof fn lemma_line(x: Seq<char>)
    requires
        x.len() > 0,
        single_line(x),
    ensures
        lined(x + "\n"@),
{
    reveal_strlit("\n");
    let t = x + "\n"@;
    assert(t[0] == x[0]);
    assert forall|i: int| 0 <= i < t.len() - 1 implies !(#[trigger] t[i] == '\n' && t[i + 1] == '\n') by {
        assert(t[i] == x[i]);
    }
}

proof fn lemma_single_line_add(a: Seq<char>, b: Seq<char>)
    requires
        single_line(a),
        single_line(b),
    ensures
        single_line(a + b),
{
    assert forall|i: int| 0 <= i < (a + b).len() implies (a + b)[i] != '\n' by {
        if i >= a.len() {
            assert((a + b)[i] == b[i - a.len()]);
        }
    }
}

proof fn lemma_decimal_single_line(n: nat)
    ensures
        single_line(decimal(n)),
    decreases n,
{
    if n >= 10 {
        lemma_decimal_single_line(n / 10);
        lemma_single_line_add(decimal(n / 10), seq![digit_char(n % 10)]);
        assert(decimal(n / 10).push(digit_char(n % 10)) =~= decimal(n / 10) + seq![digit_char(n % 10)]);
    }
}

proof fn lemma_data_lines_lined(pairs: Pairs)
    requires
        pairs_single_line(pairs),
    ensures
        lined(data_lines(pairs)),
    decreases pairs.len(),
{
    if pairs.len() > 0 {
        reveal_strlit("data: ");
        reveal_strlit(" ");
        let (k, v) = pairs.last();
        assert(single_line(pairs[pairs.len() - 1].0));
        lemma_data_lines_lined(pairs.drop_last());
        lemma_single_line_add("data: "@, k);
        lemma_single_line_add("data: "@ + k, " "@);
        lemma_single_line_add("data: "@ + k + " "@, v);
        lemma_line("data: "@ + k + " "@ + v);
        lemma_lined_add(data_lines(pairs.drop_last()), data_line(k, v));
    }
}

proof fn lemma_event_block_shape(kind: EventKind, id: Option<Seq<char>>, retry_duration: u32, pairs: Pairs)
    requires
        id matches Some(s) ==> single_line(s),
        pairs_single_line(pairs),
    ensures
        ends_with_one_blank_line(event_block(kind, id, retry_duration, pairs)),
{
    reveal_strlit("event: ");
    reveal_strlit("id: ");
    reveal_strlit("retryDuration: ");
    reveal_strlit("\n");
    reveal_strlit("datastar-merge-fragments");
    reveal_strlit("datastar-remove-fragments");
    reveal_strlit("datastar-merge-signals");
    reveal_strlit("datastar-remove-signals");
    reveal_strlit("datastar-execute-script");
    lemma_single_line_add("event: "@, kind.wire_name());
    lemma_line("event: "@ + kind.wire_name());
    let head = event_line(kind);
    if let Some(s) = id {
        lemma_single_line_add("id: "@, s);
        lemma_line("id: "@ + s);
    }
    lemma_lined_add(head, id_line(id));
    if retry_duration != DEFAULT_RETRY_DURATION {
        lemma_decimal_single_line(retry_duration as nat);
        lemma_single_line_add("retryDuration: "@, decimal(retry_duration as nat));
        lemma_line("retryDuration: "@ + decimal(retry_duration as nat));
    }
    lemma_lined_add(head + id_line(id), retry_line(retry_duration));
    lemma_data_lines_lined(pairs);
    let body = head + id_line(id) + retry_line(retry_duration) + data_lines(pairs);
    lemma_lined_add(head + id_line(id) + retry_line(retry_duration), data_lines(pairs));
    let block = event_block(kind, id, retry_duration, pairs);
    assert(block =~= body.push('\n'));
    assert(block.drop_last() =~= body);
    assert(body[0] == head[0]);
}

proof fn lemma_keyed_single_line(k: Seq<char>, values: Seq<Seq<char>>)
    requires
        single_line(k),
        forall|i: int| 0 <= i < values.len() ==> single_line(#[trigger] values[i]),
    ensures
        pairs_single_line(keyed(k, values)),
{
    assert forall|i: int| 0 <= i < keyed(k, values).len() implies single_line(
        #[trigger] keyed(k, values)[i].0,
    ) && single_line(keyed(k, values)[i].1) by {
        assert(keyed(k, values)[i] == (k, values[i]));
    }
}

proof fn lemma_pairs_add(a: Pairs, b: Pairs)
    requires
        pairs_single_line(a),
        pairs_single_line(b),
    ensures
        pairs_single_line(a + b),
{
    assert forall|i: int| 0 <= i < (a + b).len() implies single_line(#[trigger] (a + b)[i].0) && single_line(
        (a + b)[i].1,
    ) by {
        if i < a.len() {
            assert((a + b)[i] == a[i]);
            assert(single_line(a[i].0));
        } else {
            assert((a + b)[i] == b[i - a.len()]);
            assert(single_line(b[i - a.len()].0));
        }
    }
}

proof fn lemma_literals_single_line()
    ensures
        single_line("mergeMode"@),
        single_line("selector"@),
        single_line("settleDuration"@),
        single_line("useViewTransition"@),
        single_line("fragments"@),
        single_line("onlyIfMissing"@),
        single_line("signals"@),
        single_line("paths"@),
        single_line("autoRemove"@),
        single_line("attributes"@),
        single_line("script"@),
        single_line("true"@),
        single_line("false"@),
        forall|m: FragmentMergeMode| single_line(#[trigger] m.wire_name()),
{
    reveal_strlit("mergeMode");
    reveal_strlit("selector");
    reveal_strlit("settleDuration");
    reveal_strlit("useViewTransition");
    reveal_strlit("fragments");
    reveal_strlit("onlyIfMissing");
    reveal_strlit("signals");
    reveal_strlit("paths");
    reveal_strlit("autoRemove");
    reveal_strlit("attributes");
    reveal_strlit("script");
    reveal_strlit("true");
    reveal_strlit("false");
    reveal_strlit("morph");
    reveal_strlit("inner");
    reveal_strlit("outer");
    reveal_strlit("prepend");
    reveal_strlit("append");
    reveal_strlit("before");
    reveal_strlit("after");
    reveal_strlit("upsertAttributes");
}

/// Every block, of every kind, ends with exactly one blank line and holds no
/// blank line before it, as long as the texts that each stand on a single
/// line (the event ids, the selectors, the attributes, the paths) hold no
/// line ending. Payloads may hold any number of lines.
pub proof fn blocks_end_with_one_blank_line(
    fragments: Seq<char>,
    merge_fragments: MergeFragmentsConfig,
    selector: Seq<char>,
    remove_fragments: RemoveFragmentsConfig,
    signals: Seq<char>,
    merge_signals: MergeSignalsConfig,
    paths: Seq<Seq<char>>,
    remove_signals: RemoveSignalsConfig,
    script: Seq<char>,
    execute_script: ExecuteScriptConfig,
)
    requires
        single_line_if_some(merge_fragments.event_id),
        single_line_if_some(merge_fragments.selector),
        single_line_if_some(remove_fragments.event_id),
        single_line(selector),
        single_line_if_some(merge_signals.event_id),
        single_line_if_some(remove_signals.event_id),
        forall|i: int| 0 <= i < paths.len() ==> single_line(#[trigger] paths[i]),
        single_line_if_some(execute_script.event_id),
        forall|i: int|
            0 <= i < execute_script.attributes@.len() ==> single_line(
                #[trigger] execute_script.attributes@[i]@,
            ),
    ensures
        ends_with_one_blank_line(merge_fragments_block(fragments, merge_fragments)),
        ends_with_one_blank_line(remove_fragments_block(selector, remove_fragments)),
        ends_with_one_blank_line(merge_signals_block(signals, merge_signals)),
        ends_with_one_blank_line(remove_signals_block(paths, remove_signals)),
        ends_with_one_blank_line(execute_script_block(script, execute_script)),
{
    lemma_literals_single_line();
    lemma_lines_single_line(fragments);
    lemma_lines_single_line(signals);
    lemma_lines_single_line(script);

    let mf = merge_fragments;
    lemma_decimal_single_line(mf.settle_duration as nat);
    let a = optional(mf.merge_mode != FragmentMergeMode::Morph, "mergeMode"@, mf.merge_mode.wire_name());
    let b = optional(mf.selector is Some, "selector"@, opt_view(mf.selector)->0);
    let c = settle_pair(mf.settle_duration);
    let d = optional(mf.use_view_transition, "useViewTransition"@, "true"@);
    let f = keyed("fragments"@, lines_of(fragments));
    lemma_keyed_single_line("fragments"@, lines_of(fragments));
    lemma_pairs_add(a, b);
    lemma_pairs_add(a + b, c);
    lemma_pairs_add(a + b + c, d);
    lemma_pairs_add(a + b + c + d, f);
    lemma_event_block_shape(
        EventKind::MergeFragments,
        opt_view(mf.event_id),
        mf.retry_duration,
        merge_fragments_pairs(fragments, mf),
    );

    let rf = remove_fragments;
    lemma_decimal_single_line(rf.settle_duration as nat);
    let g = seq![("selector"@, selector)];
    assert(pairs_single_line(g));
    let h = settle_pair(rf.settle_duration);
    let i = optional(rf.use_view_transition, "useViewTransition"@, "true"@);
    lemma_pairs_add(g, h);
    lemma_pairs_add(g + h, i);
    lemma_event_block_shape(
        EventKind::RemoveFragments,
        opt_view(rf.event_id),
        rf.retry_duration,
        remove_fragments_pairs(selector, rf),
    );

    let j = optional(merge_signals.only_if_missing, "onlyIfMissing"@, "true"@);
    lemma_keyed_single_line("signals"@, lines_of(signals));
    lemma_pairs_add(j, keyed("signals"@, lines_of(signals)));
    lemma_event_block_shape(
        EventKind::MergeSignals,
        opt_view(merge_signals.event_id),
        merge_signals.retry_duration,
        merge_signals_pairs(signals, merge_signals),
    );

    lemma_keyed_single_line("paths"@, paths);
    lemma_event_block_shape(
        EventKind::RemoveSignals,
        opt_view(remove_signals.event_id),
        remove_signals.retry_duration,
        remove_signals_pairs(paths),
    );

    let es = execute_script;
    let k = optional(!es.auto_remove, "autoRemove"@, "false"@);
    let attributes = strings_view(es.attributes@);
    assert forall|n: int| 0 <= n < attributes.len() implies single_line(#[trigger] attributes[n]) by {
        assert(attributes[n] == es.attributes@[n]@);
    }
    lemma_keyed_single_line("attributes"@, attributes);
    lemma_keyed_single_line("script"@, lines_of(script));
    lemma_pairs_add(k, keyed("attributes"@, attributes));
    lemma_pairs_add(k + keyed("attributes"@, attributes), keyed("script"@, lines_of(script)));
    lemma_event_block_shape(
        EventKind::ExecuteScript,
        opt_view(es.event_id),
        es.retry_duration,
        execute_script_pairs(script, es),
    );
}

} // verus!
