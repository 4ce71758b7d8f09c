//! The wire format of one server-sent event block.

use vstd::prelude::*;
use vstd::string::StringExecFns;

verus! {

/// The retry duration, in milliseconds, that a client assumes when an event
/// names none.
pub const DEFAULT_RETRY_DURATION: u32 = 1000;

/// The settle duration, in milliseconds, that a client assumes when an event
/// names none.
pub const DEFAULT_SETTLE_DURATION: u32 = 300;

/// The five kinds of event of the protocol.
#[derive(Debug, Clone, Copy, PartialEq, Eq, Structural)]
pub enum EventKind {
    MergeFragments,
    RemoveFragments,
    MergeSignals,
    RemoveSignals,
    ExecuteScript,
}

impl EventKind {
    /// The name that the `event:` line of a block of this kind carries.
    pub open spec fn wire_name(self) -> Seq<char> {
        match self {
            EventKind::MergeFragments => "datastar-merge-fragments"@,
            EventKind::RemoveFragments => "datastar-remove-fragments"@,
            EventKind::MergeSignals => "datastar-merge-signals"@,
            EventKind::RemoveSignals => "datastar-remove-signals"@,
            EventKind::ExecuteScript => "datastar-execute-script"@,
        }
    }

    /// The name that the `event:` line of a block of this kind carries.
    pub fn as_str(self) -> (r: &'static str)
        ensures
            r@ == self.wire_name(),
    {
        match self {
            EventKind::MergeFragments => "datastar-merge-fragments",
            EventKind::RemoveFragments => "datastar-remove-fragments",
            EventKind::MergeSignals => "datastar-merge-signals",
            EventKind::RemoveSignals => "datastar-remove-signals",
            EventKind::ExecuteScript => "datastar-execute-script",
        }
    }
}

/// The decimal digit of value `d`.
pub open spec fn digit_char(d: nat) -> char {
    seq!['0', '1', '2', '3', '4', '5', '6', '7', '8', '9'][d as int]
}

/// The decimal notation of `n`, without leading zeros.
pub open spec fn decimal(n: nat) -> Seq<char>
    decreases n,
{
    if n < 10 {
        seq![digit_char(n)]
    } else {
        decimal(n / 10).push(digit_char(n % 10))
    }
}

/// A sequence of data pairs: keys and values, in order.
pub type Pairs = Seq<(Seq<char>, Seq<char>)>;

/// `data: <key> <value>` and its line ending.
pub open spec fn data_line(key: Seq<char>, value: Seq<char>) -> Seq<char> {
    "data: "@ + key + " "@ + value + "\n"@
}

/// One data line for each pair, in order.
pub open spec fn data_lines(pairs: Pairs) -> Seq<char>
    decreases pairs.len(),
{
    if pairs.len() == 0 {
        seq![]
    } else {
        data_lines(pairs.drop_last()) + data_line(pairs.last().0, pairs.last().1)
    }
}

/// The `event:` line of a block of kind `kind`.
pub open spec fn event_line(kind: EventKind) -> Seq<char> {
    "event: "@ + kind.wire_name() + "\n"@
}

/// The `id:` line, present when the event has an id.
pub open spec fn id_line(event_id: Option<Seq<char>>) -> Seq<char> {
    match event_id {
        Some(id) => "id: "@ + id + "\n"@,
        None => seq![],
    }
}

/// The `retryDuration:` line, present when the duration is not the default.
pub open spec fn retry_line(retry_duration: u32) -> Seq<char> {
    if retry_duration != DEFAULT_RETRY_DURATION {
        "retryDuration: "@ + decimal(retry_duration as nat) + "\n"@
    } else {
        seq![]
    }
}

/// The whole text of an event block: the `event:` line, the optional `id:`
/// and `retryDuration:` lines, one data line for each pair, and the blank
/// line that ends the block.
pub open spec fn event_block(
    kind: EventKind,
    event_id: Option<Seq<char>>,
    retry_duration: u32,
    pairs: Pairs,
) -> Seq<char> {
    event_line(kind) + id_line(event_id) + retry_line(retry_duration) + data_lines(pairs) + "\n"@
}

/// The view of an optional string.
pub open spec fn opt_view(o: Option<String>) -> Option<Seq<char>> {
    match o {
        Some(s) => Some(s@),
        None => None,
    }
}

/// The views of a sequence of strings.
pub open spec fn strings_view(v: Seq<String>) -> Seq<Seq<char>> {
    v.map_values(|s: String| s@)
}

/// The views of a sequence of key/value pairs of string slices.
pub open spec fn pairs_view(v: Seq<(&str, &str)>) -> Pairs {
    v.map_values(|p: (&str, &str)| (p.0@, p.1@))
}

fn digit_str(d: u32) -> (r: &'static str)
    requires
        d < 10,
    ensures
        r@ == seq![digit_char(d as nat)],
{
    proof {
        reveal_strlit("0");
        reveal_strlit("1");
        reveal_strlit("2");
        reveal_strlit("3");
        reveal_strlit("4");
        reveal_strlit("5");
        reveal_strlit("6");
        reveal_strlit("7");
        reveal_strlit("8");
        reveal_strlit("9");
    }
    let r = match d {
        0 => "0",
        1 => "1",
        2 => "2",
        3 => "3",
        4 => "4",
        5 => "5",
        6 => "6",
        7 => "7",
        8 => "8",
        _ => "9",
    };
    assert(r@ =~= seq![digit_char(d as nat)]);
    r
}

/// Appends the decimal notation of `n` to `out`.
pub fn push_decimal(out: &mut String, n: u32)
    ensures
        final(out)@ == old(out)@ + decimal(n as nat),
    decreases n,
{
    if n >= 10 {
        push_decimal(out, n / 10);
    }
    out.append(digit_str(n % 10));
    assert(final(out)@ =~= old(out)@ + decimal(n as nat));
}

/// The decimal notation of `n`.
pub fn to_decimal(n: u32) -> (r: String)
    ensures
        r@ == decimal(n as nat),
{
    let mut r = String::new();
    push_decimal(&mut r, n);
    assert(r@ =~= decimal(n as nat));
    r
}

/// Appends the data line of `key` and `val` to `msg`.
pub fn push_data(msg: &mut String, key: &str, val: &str)
    ensures
        final(msg)@ == old(msg)@ + data_line(key@, val@),
{
    msg.append("data: ");
    msg.append(key);
    msg.append(" ");
    msg.append(val);
    msg.append("\n");
    assert(final(msg)@ =~= old(msg)@ + data_line(key@, val@));
}

/// Encodes one event block of kind `kind` with the given data pairs.
pub fn encode_event(
    kind: EventKind,
    data_pairs: &Vec<(&str, &str)>,
    event_id: Option<String>,
    retry_duration: u32,
) -> (r: String)
    ensures
        r@ == event_block(kind, opt_view(event_id), retry_duration, pairs_view(data_pairs@)),
{
    let mut event = String::from_str("event: ");
    event.append(kind.as_str());
    event.append("\n");
    if let Some(id) = &event_id {
        event.append("id: ");
        event.append(id.as_str());
        event.append("\n");
    }
    if retry_duration != DEFAULT_RETRY_DURATION {
        event.append("retryDuration: ");
        push_decimal(&mut event, retry_duration);
        event.append("\n");
    }
    let ghost head = event_line(kind) + id_line(opt_view(event_id)) + retry_line(retry_duration);
    assert(event@ =~= head);
    let mut i: usize = 0;
    while i < data_pairs.len()
        invariant
            i <= data_pairs@.len(),
            event@ == head + data_lines(pairs_view(data_pairs@.take(i as int))),
        decreases data_pairs@.len() - i,
    {
        let (key, val) = data_pairs[i];
        push_data(&mut event, key, val);
        let ghost next = pairs_view(data_pairs@.take(i + 1));
        assert(next.drop_last() =~= pairs_view(data_pairs@.take(i as int)));
        assert(event@ =~= head + data_lines(next));
        i = i + 1;
    }
    assert(data_pairs@.take(i as int) =~= data_pairs@);
    event.append("\n");
    assert(event@ =~= event_block(kind, opt_view(event_id), retry_duration, pairs_view(data_pairs@)));
    event
}

} // verus!
