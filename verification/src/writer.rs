//! Decisions of the database writer: events are queued in memory and written in
//! batches, at most `BATCH_LIMIT` at a time, or whatever has arrived once the queue
//! has been quiet; on stop everything still queued is written before the writer ends.

use vstd::prelude::*;

verus! {

/// Most events written in one batch while running.
pub const BATCH_LIMIT: usize = 500;
/// How long the writer waits for the first event of a batch, in milliseconds.
pub const WAIT_MS: u64 = 400;

/// What a receive from the event queue gave.
#[derive(PartialEq, Eq, Structural, Clone, Copy, Debug)]
pub enum Received {
    /// An event.
    Event,
    /// Nothing: the wait ran out, or the queue is empty right now.
    Nothing,
    /// The queue is closed: no event will come any more.
    Closed,
}

/// What the writer does next.
#[derive(PartialEq, Eq, Structural, Clone, Copy, Debug)]
pub enum WriterAction {
    /// Add the event to the batch and receive again.
    Add,
    /// Add the event to the batch, write the batch, start a new one.
    AddAndFlush,
    /// Write the batch, start a new one.
    Flush,
    /// Nothing is pending: wait for the next event.
    Wait,
    /// Write what is pending, if anything, and end.
    Finish,
}

/// The next receive waits up to `WAIT_MS` for an event when the batch is empty and
/// the writer is not stopping; otherwise it takes only what is already queued.
pub open spec fn waits_spec(batch_len: int, stopping: bool) -> bool {
    batch_len == 0 && !stopping
}

/// The writer's decision for what a receive gave, with `batch_len` events pending.
pub open spec fn writer_step_spec(batch_len: int, got: Received, stopping: bool) -> WriterAction {
    match got {
        Received::Event => if !stopping && batch_len + 1 >= BATCH_LIMIT {
            WriterAction::AddAndFlush
        } else {
            WriterAction::Add
        },
        Received::Nothing => if stopping {
            WriterAction::Finish
        } else if batch_len > 0 {
            WriterAction::Flush
        } else {
            WriterAction::Wait
        },
        Received::Closed => WriterAction::Finish,
    }
}

/// Whether the next receive waits for an event.
pub fn waits_for_event(batch_len: usize, stopping: bool) -> (r: bool)
    ensures
        r == waits_spec(batch_len as int, stopping),
{
    batch_len == 0 && !stopping
}

/// The writer's decision for what a receive gave.
pub fn writer_step(batch_len: usize, got: Received, stopping: bool) -> (r: WriterAction)
    ensures
        r == writer_step_spec(batch_len as int, got, stopping),
{
    match got {
        Received::Event => if !stopping && batch_len >= BATCH_LIMIT - 1 {
            WriterAction::AddAndFlush
        } else {
            WriterAction::Add
        },
        Received::Nothing => if stopping {
            WriterAction::Finish
        } else if batch_len > 0 {
            WriterAction::Flush
        } else {
            WriterAction::Wait
        },
        Received::Closed => WriterAction::Finish,
    }
}

/// Events still pending after an action.
pub open spec fn pending_after(batch_len: int, a: WriterAction) -> int {
    match a {
        WriterAction::Add => batch_len + 1,
        WriterAction::Wait => batch_len,
        _ => 0,
    }
}

/// Events written by an action.
pub open spec fn written_by(batch_len: int, a: WriterAction) -> int {
    match a {
        WriterAction::AddAndFlush => batch_len + 1,
        WriterAction::Flush => batch_len,
        WriterAction::Finish => batch_len,
        _ => 0,
    }
}

/// No event is lost: every received event is kept, and every step leaves each event
/// either pending or written.
pub proof fn no_event_lost(batch_len: int, got: Received, stopping: bool)
    requires
        0 <= batch_len,
    ensures
        got == Received::Event ==> writer_step_spec(batch_len, got, stopping) == WriterAction::Add
            || writer_step_spec(batch_len, got, stopping) == WriterAction::AddAndFlush,
        pending_after(batch_len, writer_step_spec(batch_len, got, stopping))
            + written_by(batch_len, writer_step_spec(batch_len, got, stopping))
            == batch_len + (if got == Received::Event { 1int } else { 0int }),
{
}

/// While running, a batch never reaches `BATCH_LIMIT` events without being written.
pub proof fn batches_stay_bounded(batch_len: int, got: Received)
    requires
        0 <= batch_len < BATCH_LIMIT,
    ensures
        pending_after(batch_len, writer_step_spec(batch_len, got, false)) < BATCH_LIMIT,
        written_by(batch_len, writer_step_spec(batch_len, got, false)) <= BATCH_LIMIT,
{
}

/// A batch is written only when it holds events; while running, the writer ends only
/// when the queue is closed, and when stopping it ends once the queue is empty.
pub proof fn flushes_and_ends(batch_len: int, got: Received, stopping: bool)
    requires
        0 <= batch_len,
    ensures
        writer_step_spec(batch_len, got, stopping) == WriterAction::Flush ==> batch_len > 0,
        writer_step_spec(batch_len, got, stopping) == WriterAction::Finish ==> (got == Received::Closed
            || (stopping && got == Received::Nothing)),
        stopping && got == Received::Event ==> writer_step_spec(batch_len, got, stopping) == WriterAction::Add,
{
}

// ---------------------------------------------------------------- a whole run

/// The writer over a run of its loop: the events received so far, the batches written
/// (in order), the events of the batch being filled, whether it has taken up a stop
/// request, and whether it has ended.
pub struct WriterRun<E> {
    pub received: Seq<E>,
    pub batches: Seq<Seq<E>>,
    pub pending: Seq<E>,
    pub stopping: bool,
    pub finished: bool,
}

/// Before the first turn: nothing received, nothing written.
pub open spec fn initial_run<E>() -> WriterRun<E> {
    WriterRun { received: Seq::empty(), batches: Seq::empty(), pending: Seq::empty(), stopping: false, finished: false }
}

/// One turn of the writer loop. A stop request is taken up when no batch is being
/// filled; then the receive gave `got` (with the event `ev` when it is an event), and
/// the writer does what `writer_step_spec` decides. An ended writer takes no turn.
pub open spec fn run_step<E>(s: WriterRun<E>, got: Received, ev: E, stop_requested: bool) -> WriterRun<E> {
    if s.finished {
        s
    } else {
        let stopping = s.stopping || (s.pending.len() == 0 && stop_requested);
        match writer_step_spec(s.pending.len() as int, got, stopping) {
            WriterAction::Add => WriterRun {
                received: s.received.push(ev),
                pending: s.pending.push(ev),
                stopping,
                ..s
            },
            WriterAction::AddAndFlush => WriterRun {
                received: s.received.push(ev),
                batches: s.batches.push(s.pending.push(ev)),
                pending: Seq::empty(),
                stopping,
                ..s
            },
            WriterAction::Flush => WriterRun {
                batches: s.batches.push(s.pending),
                pending: Seq::empty(),
                stopping,
                ..s
            },
            WriterAction::Wait => WriterRun { stopping, ..s },
            WriterAction::Finish => WriterRun {
                batches: if s.pending.len() > 0 { s.batches.push(s.pending) } else { s.batches },
                pending: Seq::empty(),
                stopping,
                finished: true,
                ..s
            },
        }
    }
}

/// The writer after the given turns: what each receive gave, the event it gave, and
/// whether a stop had been requested by then.
pub open spec fn run_of<E>(turns: Seq<(Received, E, bool)>) -> WriterRun<E>
    decreases turns.len(),
{
    if turns.len() == 0 {
        initial_run()
    } else {
        let t = turns.last();
        run_step(run_of(turns.drop_last()), t.0, t.1, t.2)
    }
}

/// The batches one after the other.
pub open spec fn flatten<E>(batches: Seq<Seq<E>>) -> Seq<E>
    decreases batches.len(),
{
    if batches.len() == 0 {
        Seq::empty()
    } else {
        flatten(batches.drop_last()) + batches.last()
    }
}

/// What holds after every run of the writer: the batches written and the batch being
/// filled hold every received event exactly once, in the order received; no batch is
/// empty; while running, every batch holds at most `BATCH_LIMIT` events (only the
/// last batch, written on stop, may hold more); and an ended writer has nothing pending.
pub open spec fn run_ok<E>(s: WriterRun<E>) -> bool {
    &&& flatten(s.batches) + s.pending == s.received
    &&& forall|i: int| 0 <= i < s.batches.len() ==> #[trigger] s.batches[i].len() > 0
    &&& forall|i: int| 0 <= i < s.batches.len() ==> #[trigger] s.batches[i].len() <= BATCH_LIMIT
        || (i == s.batches.len() - 1 && s.finished && s.stopping)
    &&& !s.stopping ==> s.pending.len() < BATCH_LIMIT
    &&& s.finished ==> s.pending.len() == 0
}

/// Over a whole run, every received event is written exactly once and in order, in
/// batches of 1 to `BATCH_LIMIT` events while running; when the writer ends, nothing
/// is left unwritten.
pub proof fn run_writes_every_event_once<E>(turns: Seq<(Received, E, bool)>)
    ensures
        run_ok(run_of(turns)),
        run_of(turns).finished ==> flatten(run_of(turns).batches) == run_of(turns).received,
    decreases turns.len(),
{
    if turns.len() > 0 {
        let prev = turns.drop_last();
        run_writes_every_event_once(prev);
        let s = run_of(prev);
        let t = turns.last();
        let n = run_of(turns);
        if !s.finished {
            let stopping = s.stopping || (s.pending.len() == 0 && t.2);
            let a = writer_step_spec(s.pending.len() as int, t.0, stopping);
            if a == WriterAction::AddAndFlush || a == WriterAction::Flush
                || (a == WriterAction::Finish && s.pending.len() > 0) {
                let last = n.batches.last();
                assert(n.batches.drop_last() =~= s.batches);
                assert(flatten(n.batches) =~= flatten(s.batches) + last);
                assert forall|i: int| 0 <= i < n.batches.len() implies #[trigger] n.batches[i].len() <= BATCH_LIMIT
                    || (i == n.batches.len() - 1 && n.finished && n.stopping) by {
                    if i < s.batches.len() {
                        assert(n.batches[i] == s.batches[i]);
                    }
                }
                assert forall|i: int| 0 <= i < n.batches.len() implies #[trigger] n.batches[i].len() > 0 by {
                    if i < s.batches.len() {
                        assert(n.batches[i] == s.batches[i]);
                    }
                }
            }
            assert(flatten(n.batches) + n.pending =~= n.received);
        }
    }
}

/// Every event a receive gives before the writer ends is received, after those before it.
pub proof fn run_receives_every_event<E>(turns: Seq<(Received, E, bool)>, ev: E, stop_requested: bool)
    requires
        !run_of(turns).finished,
    ensures
        run_of(turns.push((Received::Event, ev, stop_requested))).received == run_of(turns).received.push(ev),
        !run_of(turns.push((Received::Event, ev, stop_requested))).finished,
{
    assert(turns.push((Received::Event, ev, stop_requested)).drop_last() =~= turns);
}

/// A stop request is taken up as soon as no batch is being filled; once it is, the
/// first receive that finds the queue empty or closed ends the writer, with every
/// received event written. A batch being filled never waits for further events.
pub proof fn stop_writes_everything<E>(turns: Seq<(Received, E, bool)>, got: Received, ev: E)
    requires
        !run_of(turns).finished,
    ensures
        run_of(turns).pending.len() == 0 ==> run_of(turns.push((got, ev, true))).stopping,
        run_of(turns).stopping && got != Received::Event ==> {
            let n = run_of(turns.push((got, ev, true)));
            n.finished && flatten(n.batches) == n.received
        },
        run_of(turns).pending.len() > 0 ==> !waits_spec(run_of(turns).pending.len() as int, run_of(turns).stopping),
{
    assert(turns.push((got, ev, true)).drop_last() =~= turns);
    run_writes_every_event_once(turns.push((got, ev, true)));
}

} // verus!
