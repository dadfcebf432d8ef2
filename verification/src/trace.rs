//! The session-table rules, stated over event traces.
//!
//! A trace is the sequence of events one registry drains, each reduced to its
//! [`Label`]: which identifier it names and whether it opens or closes that
//! identifier's session. The engine delivers each connection's events in
//! order, `Open` first, so every trace a registry sees is well-formed in the
//! sense of [`wf_trace`]; the lemmas here draw the consequences the rest of
//! the crate is built on: a live identifier was opened, every later event for
//! an identifier stands after its `Open`, identifiers assigned by the shared
//! counter never collide, and closing one session leaves every other alone.

use vstd::prelude::*;

verus! {

/// One drained event, reduced to what the session table reads of it.
#[derive(PartialEq, Eq, Structural)]
pub enum Label {
    /// A session with this identifier opens.
    Open(u32),
    /// The session with this identifier closes.
    Close(u32),
    /// A text message for this identifier's session.
    Text(u32),
    /// A binary message for this identifier's session.
    Binary(u32),
    /// A quiet wait window; names no session.
    Timeout,
    /// A failure the transport reported on some connection; names no session.
    Error,
    /// The event queue's producer is gone: a synthesized disconnection, after
    /// which no further event can arrive; names no session.
    Lost,
}

/// The label names this identifier.
pub open spec fn mentions(l: Label, id: u32) -> bool {
    match l {
        Label::Open(i) => i == id,
        Label::Close(i) => i == id,
        Label::Text(i) => i == id,
        Label::Binary(i) => i == id,
        Label::Timeout => false,
        Label::Error => false,
        Label::Lost => false,
    }
}

/// The labels on which the dispatch loop hands control back to its caller: a
/// quiet window, a transport failure, or the queue itself gone.
pub open spec fn quiet(l: Label) -> bool {
    match l {
        Label::Timeout => true,
        Label::Error => true,
        Label::Lost => true,
        _ => false,
    }
}

/// How one event moves the set of live identifiers: an `Open` enters its
/// identifier, a `Close` retires it, everything else leaves the set alone.
pub open spec fn step_live(live: Set<u32>, l: Label) -> Set<u32> {
    match l {
        Label::Open(id) => live.insert(id),
        Label::Close(id) => live.remove(id),
        _ => live,
    }
}

/// The identifiers live after draining a trace on top of an already-built
/// table: one [`step_live`] per event, oldest first.
pub open spec fn run_from(live: Set<u32>, t: Seq<Label>) -> Set<u32>
    decreases t.len(),
{
    if t.len() == 0 {
        live
    } else {
        step_live(run_from(live, t.drop_last()), t.last())
    }
}

/// The identifiers live after a whole trace, starting from none.
pub open spec fn live_after(t: Seq<Label>) -> Set<u32> {
    run_from(Set::empty(), t)
}

/// The client's one-session mirror of [`step_live`]: how one event moves the
/// current-connection slot. An `Open` fills it, observing a `Close` or a
/// disconnection clears it, everything else leaves it alone.
pub open spec fn step_connected(connected: bool, l: Label) -> bool {
    match l {
        Label::Open(_) => true,
        Label::Close(_) => false,
        Label::Lost => false,
        _ => connected,
    }
}

/// The current-connection slot after draining a trace: one
/// [`step_connected`] per event, oldest first.
pub open spec fn run_connected(connected: bool, t: Seq<Label>) -> bool
    decreases t.len(),
{
    if t.len() == 0 {
        connected
    } else {
        step_connected(run_connected(connected, t.drop_last()), t.last())
    }
}

/// The event finds the table as it expects it: a `Close`, `Text` or `Binary`
/// names a live identifier, everything else is always in order. (An `Open`
/// for a live identifier merely replaces the entry.)
pub open spec fn admissible(live: Set<u32>, l: Label) -> bool {
    match l {
        Label::Close(id) => live.contains(id),
        Label::Text(id) => live.contains(id),
        Label::Binary(id) => live.contains(id),
        _ => true,
    }
}

/// The trace's event at `i` is in order, given everything drained before it.
pub open spec fn wf_at(t: Seq<Label>, i: int) -> bool {
    &&& admissible(live_after(t.take(i)), t[i])
    &&& (t[i] matches Label::Open(id) ==> !live_after(t.take(i)).contains(id))
}

/// What the engine promises of every trace a registry drains: every `Close`,
/// `Text` or `Binary` finds its identifier live, and an `Open` only enters an
/// identifier that is not.
pub open spec fn wf_trace(t: Seq<Label>) -> bool {
    forall|i: int| 0 <= i < t.len() ==> #[trigger] wf_at(t, i)
}

/// An identifier live after a drained trace was live before it or opened by
/// it: draining never conjures a session from nothing.
pub proof fn lemma_run_from_origin(live: Set<u32>, t: Seq<Label>, id: u32)
    requires
        run_from(live, t).contains(id),
    ensures
        live.contains(id) || exists|j: int| 0 <= j < t.len() && t[j] == Label::Open(id),
    decreases t.len(),
{
    if t.len() == 0 {
    } else {
        let prefix = t.drop_last();
        if t.last() == Label::Open(id) {
            assert(t[t.len() - 1] == Label::Open(id));
        } else {
            assert(run_from(live, prefix).contains(id));
            lemma_run_from_origin(live, prefix, id);
            if !live.contains(id) {
                let j = choose|j: int| 0 <= j < prefix.len() && prefix[j] == Label::Open(id);
                assert(t[j] == Label::Open(id));
            }
        }
    }
}

/// A live identifier was opened: whenever the set of live identifiers after a
/// trace contains `id`, some event of the trace is `Open(id)`.
pub proof fn lemma_live_was_opened(t: Seq<Label>, id: u32)
    requires
        live_after(t).contains(id),
    ensures
        exists|j: int| 0 <= j < t.len() && t[j] == Label::Open(id),
{
    lemma_run_from_origin(Set::empty(), t, id);
}

/// No event for a connection stands before its `Open`: in a well-formed
/// trace, a `Close`, `Text` or `Binary` for `id` has an `Open(id)` strictly
/// before it.
pub proof fn lemma_open_precedes(t: Seq<Label>, i: int, id: u32)
    requires
        wf_trace(t),
        0 <= i < t.len(),
        t[i] == Label::Close(id) || t[i] == Label::Text(id) || t[i] == Label::Binary(id),
    ensures
        exists|j: int| 0 <= j < i && t[j] == Label::Open(id),
{
    assert(wf_at(t, i));
    assert(live_after(t.take(i)).contains(id));
    lemma_live_was_opened(t.take(i), id);
    let j = choose|j: int| 0 <= j < t.take(i).len() && t.take(i)[j] == Label::Open(id);
    assert(t[j] == Label::Open(id));
}

/// The first event ever observed for an identifier is its `Open`: in a
/// well-formed trace, an event for `id` with no earlier event naming `id`
/// can only be `Open(id)`.
pub proof fn lemma_first_event_is_open(t: Seq<Label>, i: int, id: u32)
    requires
        wf_trace(t),
        0 <= i < t.len(),
        mentions(t[i], id),
        forall|j: int| 0 <= j < i ==> !mentions(#[trigger] t[j], id),
    ensures
        t[i] == Label::Open(id),
{
    if t[i] != Label::Open(id) {
        lemma_open_precedes(t, i, id);
        let j = choose|j: int| 0 <= j < i && t[j] == Label::Open(id);
        assert(mentions(t[j], id));
    }
}

/// In a well-formed trace no event is a violation: each event is admissible
/// in the table its prefix has built, so a registry that drains such a trace
/// from an empty table never reports an unknown identifier.
pub proof fn lemma_wf_trace_admissible(t: Seq<Label>, i: int)
    requires
        wf_trace(t),
        0 <= i < t.len(),
    ensures
        admissible(live_after(t.take(i)), t[i]),
{
    assert(wf_at(t, i));
}

/// The identifiers a registry assigns: with the counter at `start`, the k-th
/// accepted connection gets `start + k`.
pub open spec fn assigned_ids(start: u32, n: nat) -> Seq<u32> {
    Seq::new(n, |k: int| (start + k) as u32)
}

/// Identifiers are pairwise distinct and strictly increasing: among any `n`
/// consecutive assignments that stay within the counter's range, an earlier
/// connection's identifier is strictly below a later one's.
pub proof fn lemma_assigned_ids_strictly_increasing(start: u32, n: nat, i: int, j: int)
    requires
        start + n <= u32::MAX + 1,
        0 <= i < j < n,
    ensures
        assigned_ids(start, n)[i] < assigned_ids(start, n)[j],
        assigned_ids(start, n)[i] != assigned_ids(start, n)[j],
{
    assert(assigned_ids(start, n)[i] == (start + i) as u32);
    assert(assigned_ids(start, n)[j] == (start + j) as u32);
}

/// Closing one session leaves every other alone: retiring `a` from the table
/// neither removes nor changes any other identifier's session.
pub proof fn lemma_close_isolates<V>(table: Map<u32, V>, a: u32, b: u32)
    requires
        a != b,
    ensures
        table.remove(a).contains_key(b) == table.contains_key(b),
        table.contains_key(b) ==> table.remove(a)[b] == table[b],
{
}

} // verus!
