//! The server side of a connection: read what the peer sends and send it
//! straight back, until the peer goes away or an operation fails.

use vstd::prelude::*;
use crate::event::{IoEvent, CloseReason, BUFFER_SIZE};

verus! {

/// Where an echo session stands: which operation it is waiting on.
#[derive(Clone, Copy, Debug, PartialEq, Eq, Structural)]
pub enum EchoPhase {
    /// Waiting for a read into the buffer.
    Receiving,
    /// Waiting for the write of the first `len` bytes of the buffer.
    Sending(usize),
    /// Waiting for the flush after a write.
    Flushing,
    /// Finished; no further I/O.
    Closed,
}

/// The next I/O operation an echo session asks for.
#[derive(Clone, Copy, Debug, PartialEq, Eq, Structural)]
pub enum EchoAction {
    /// Read into the buffer.
    Read,
    /// Write the first `len` bytes of the buffer.
    Write { len: usize },
    /// Flush the stream.
    Flush,
    /// Stop serving this connection.
    Close(CloseReason),
}

/// A line the server prints for its connection (each prefixed with the
/// connection's index).
#[derive(Clone, Copy, Debug, PartialEq, Eq, Structural)]
pub enum EchoNote {
    /// `Connection open`.
    ConnectionOpen,
    /// `Receiving`.
    Receiving,
    /// `EOF`.
    Eof,
    /// `Received: ` and the text of the first `n` bytes of the buffer.
    Received(usize),
    /// `Sending`.
    Sending,
    /// `Sent: ` and the text of the first `n` bytes of the buffer.
    Sent(usize),
    /// The error the failed operation reported.
    Failed,
    /// `Connection closed`.
    ConnectionClosed,
}

/// The abstract state of an echo session.
pub struct EchoState {
    pub index: u32,
    pub phase: EchoPhase,
}

/// What one step of a session produces: the lines to print, in order, then
/// the operation to perform.
#[derive(Debug, PartialEq, Eq)]
pub struct EchoStep {
    pub notes: Vec<EchoNote>,
    pub action: EchoAction,
}

/// The abstract value of an [`EchoStep`].
pub struct EchoStepView {
    pub notes: Seq<EchoNote>,
    pub action: EchoAction,
}

impl View for EchoStep {
    type V = EchoStepView;

    open spec fn view(&self) -> EchoStepView {
        EchoStepView { notes: self.notes@, action: self.action }
    }
}

/// One served connection. It is driven by alternating calls: the session
/// names an operation, the caller performs it and reports the outcome.
pub struct EchoSession {
    index: u32,
    phase: EchoPhase,
}

impl View for EchoSession {
    type V = EchoState;

    closed spec fn view(&self) -> EchoState {
        EchoState { index: self.index, phase: self.phase }
    }
}

/// The state of a freshly opened session and what it does first: announce
/// the connection, then read.
pub open spec fn echo_open(index: u32) -> (EchoState, EchoStepView) {
    (
        EchoState { index, phase: EchoPhase::Receiving },
        EchoStepView {
            notes: seq![EchoNote::ConnectionOpen, EchoNote::Receiving],
            action: EchoAction::Read,
        },
    )
}

/// The outcomes a session in state `s` can be handed: the result of the
/// operation it asked for. A read reports at most the buffer's size, a write
/// at most the bytes it was given; a closed session takes nothing.
pub open spec fn echo_expects(s: EchoState, e: IoEvent) -> bool {
    match s.phase {
        EchoPhase::Receiving => {
            ||| (e matches IoEvent::Read(n) && n <= BUFFER_SIZE)
            ||| e == IoEvent::ReadFailed
        },
        EchoPhase::Sending(len) => {
            ||| (e matches IoEvent::Wrote(n) && n <= len)
            ||| e == IoEvent::WriteFailed
        },
        EchoPhase::Flushing => e == IoEvent::Flushed || e == IoEvent::FlushFailed,
        EchoPhase::Closed => false,
    }
}

/// A step that ends the session, printing `notes` and closing for `reason`.
pub open spec fn closed_with(s: EchoState, notes: Seq<EchoNote>, reason: CloseReason) -> (
    EchoState,
    EchoStepView,
) {
    (
        EchoState { index: s.index, phase: EchoPhase::Closed },
        EchoStepView { notes, action: EchoAction::Close(reason) },
    )
}

/// One step of an echo session: given the outcome of the operation it asked
/// for, its next state, the lines to print and the next operation.
///
/// - A read of `n > 0` bytes is answered by writing exactly those `n` bytes.
/// - A read of zero bytes is the end of the stream: print `EOF`, close.
/// - A write of `n > 0` bytes is followed by a flush, a flush by a read.
/// - A write of zero bytes closes the session.
/// - A failed operation prints its error and closes, without the closing line.
///
/// Outcomes the session did not ask for (see `echo_expects`) are outside the
/// step's domain; the last arm gives them a value only to keep the function total.
pub open spec fn echo_step(s: EchoState, e: IoEvent) -> (EchoState, EchoStepView) {
    match (s.phase, e) {
        (EchoPhase::Receiving, IoEvent::Read(n)) => {
            if n == 0 {
                closed_with(s, seq![EchoNote::Eof, EchoNote::ConnectionClosed], CloseReason::PeerClosed)
            } else {
                (
                    EchoState { index: s.index, phase: EchoPhase::Sending(n) },
                    EchoStepView {
                        notes: seq![EchoNote::Received(n), EchoNote::Sending],
                        action: EchoAction::Write { len: n },
                    },
                )
            }
        },
        (EchoPhase::Receiving, IoEvent::ReadFailed) => closed_with(
            s,
            seq![EchoNote::Failed],
            CloseReason::ReadError,
        ),
        (EchoPhase::Sending(_), IoEvent::Wrote(n)) => {
            if n == 0 {
                closed_with(s, seq![EchoNote::ConnectionClosed], CloseReason::WriteZero)
            } else {
                (
                    EchoState { index: s.index, phase: EchoPhase::Flushing },
                    EchoStepView { notes: seq![EchoNote::Sent(n)], action: EchoAction::Flush },
                )
            }
        },
        (EchoPhase::Sending(_), IoEvent::WriteFailed) => closed_with(
            s,
            seq![EchoNote::Failed],
            CloseReason::WriteError,
        ),
        (EchoPhase::Flushing, IoEvent::Flushed) => (
            EchoState { index: s.index, phase: EchoPhase::Receiving },
            EchoStepView { notes: seq![EchoNote::Receiving], action: EchoAction::Read },
        ),
        (EchoPhase::Flushing, IoEvent::FlushFailed) => closed_with(
            s,
            seq![EchoNote::Failed],
            CloseReason::FlushError,
        ),
        _ => (s, EchoStepView { notes: seq![], action: EchoAction::Close(CloseReason::ReadError) }),
    }
}

impl EchoSession {
    /// Opens the session for the connection numbered `index`.
    pub fn open(index: u32) -> (r: (EchoSession, EchoStep))
        ensures
            (r.0@, r.1@) == echo_open(index),
    {
        let notes = vec![EchoNote::ConnectionOpen, EchoNote::Receiving];
        let step = EchoStep { notes, action: EchoAction::Read };
        assert(step@.notes =~= echo_open(index).1.notes);
        (EchoSession { index, phase: EchoPhase::Receiving }, step)
    }

    /// The number of the connection this session serves.
    pub fn index(&self) -> (r: u32)
        ensures
            r == self@.index,
    {
        self.index
    }

    /// Whether the session has ended.
    pub fn is_closed(&self) -> (r: bool)
        ensures
            r == (self@.phase == EchoPhase::Closed),
    {
        match self.phase {
            EchoPhase::Closed => true,
            _ => false,
        }
    }

    /// Hands the session the outcome of the operation it asked for.
    pub fn step(&mut self, event: IoEvent) -> (out: EchoStep)
        requires
            echo_expects(old(self)@, event),
        ensures
            (final(self)@, out@) == echo_step(old(self)@, event),
    {
        let index = self.index;
        let (phase, notes, action) = match (self.phase, event) {
            (EchoPhase::Receiving, IoEvent::Read(n)) => {
                if n == 0 {
                    (
                        EchoPhase::Closed,
                        vec![EchoNote::Eof, EchoNote::ConnectionClosed],
                        EchoAction::Close(CloseReason::PeerClosed),
                    )
                } else {
                    (
                        EchoPhase::Sending(n),
                        vec![EchoNote::Received(n), EchoNote::Sending],
                        EchoAction::Write { len: n },
                    )
                }
            },
            (EchoPhase::Receiving, _) => (
                EchoPhase::Closed,
                vec![EchoNote::Failed],
                EchoAction::Close(CloseReason::ReadError),
            ),
            (EchoPhase::Sending(_), IoEvent::Wrote(n)) => {
                if n == 0 {
                    (
                        EchoPhase::Closed,
                        vec![EchoNote::ConnectionClosed],
                        EchoAction::Close(CloseReason::WriteZero),
                    )
                } else {
                    (EchoPhase::Flushing, vec![EchoNote::Sent(n)], EchoAction::Flush)
                }
            },
            (EchoPhase::Sending(_), _) => (
                EchoPhase::Closed,
                vec![EchoNote::Failed],
                EchoAction::Close(CloseReason::WriteError),
            ),
            (EchoPhase::Flushing, IoEvent::Flushed) => (
                EchoPhase::Receiving,
                vec![EchoNote::Receiving],
                EchoAction::Read,
            ),
            (_, _) => (
                EchoPhase::Closed,
                vec![EchoNote::Failed],
                EchoAction::Close(CloseReason::FlushError),
            ),
        };
        self.phase = phase;
        let out = EchoStep { notes, action };
        assert(out@.notes =~= echo_step(old(self)@, event).1.notes);
        out
    }
}

/// Runs a session from `s` through a sequence of outcomes, collecting the
/// operations it asks for along the way.
pub open spec fn echo_run(s: EchoState, events: Seq<IoEvent>) -> (EchoState, Seq<EchoAction>)
    decreases events.len(),
{
    if events.len() == 0 {
        (s, seq![])
    } else {
        let (s1, out) = echo_step(s, events[0]);
        let (s2, actions) = echo_run(s1, events.drop_first());
        (s2, seq![out.action] + actions)
    }
}

/// A run asks for one operation per outcome it is handed.
pub proof fn lemma_echo_run_len(s: EchoState, events: Seq<IoEvent>)
    ensures
        echo_run(s, events).1.len() == events.len(),
    decreases events.len(),
{
    if events.len() > 0 {
        lemma_echo_run_len(echo_step(s, events[0]).0, events.drop_first());
    }
}

/// Every outcome in `events` is one the session asked for when it came.
pub open spec fn echo_valid_run(s: EchoState, events: Seq<IoEvent>) -> bool
    decreases events.len(),
{
    events.len() == 0 || (echo_expects(s, events[0]) && echo_valid_run(
        echo_step(s, events[0]).0,
        events.drop_first(),
    ))
}

/// The lengths of the writes among `actions`, in order.
pub open spec fn written_lengths(actions: Seq<EchoAction>) -> Seq<usize>
    decreases actions.len(),
{
    if actions.len() == 0 {
        seq![]
    } else {
        let rest = written_lengths(actions.drop_first());
        match actions[0] {
            EchoAction::Write { len } => seq![len] + rest,
            _ => rest,
        }
    }
}

/// The sizes of the non-empty reads among `events`, in order.
pub open spec fn received_lengths(events: Seq<IoEvent>) -> Seq<usize>
    decreases events.len(),
{
    if events.len() == 0 {
        seq![]
    } else {
        let rest = received_lengths(events.drop_first());
        match events[0] {
            IoEvent::Read(n) => if n > 0 { seq![n] + rest } else { rest },
            _ => rest,
        }
    }
}

/// Echo: over any run of a session, the writes it asks for are exactly the
/// non-empty reads it was handed, in the same order and of the same sizes.
/// Everything received is sent back, and nothing else is sent.
pub proof fn law_echo_writes_back_what_it_reads(s: EchoState, events: Seq<IoEvent>)
    requires
        echo_valid_run(s, events),
    ensures
        written_lengths(echo_run(s, events).1) == received_lengths(events),
    decreases events.len(),
{
    if events.len() > 0 {
        let (s1, out) = echo_step(s, events[0]);
        law_echo_writes_back_what_it_reads(s1, events.drop_first());
        let actions = echo_run(s, events).1;
        assert(actions.drop_first() =~= echo_run(s1, events.drop_first()).1);
    }
}

/// A closed session asks for nothing more and accepts no further outcome;
/// and a session closes exactly when it answers with `Close`.
pub proof fn law_echo_close_is_final(s: EchoState, e: IoEvent)
    requires
        echo_expects(s, e),
    ensures
        echo_step(s, e).1.action is Close <==> echo_step(s, e).0.phase == EchoPhase::Closed,
        echo_step(s, e).0.index == s.index,
        forall|f: IoEvent| !echo_expects(EchoState { index: s.index, phase: EchoPhase::Closed }, f),
{
}

/// Within a run, `Close` can only be the last operation asked for.
pub proof fn law_echo_nothing_after_close(s: EchoState, events: Seq<IoEvent>, i: int)
    requires
        echo_valid_run(s, events),
        0 <= i < events.len() - 1,
    ensures
        !(echo_run(s, events).1[i] is Close),
    decreases events.len(),
{
    let (s1, out) = echo_step(s, events[0]);
    let actions = echo_run(s, events).1;
    lemma_echo_run_len(s1, events.drop_first());
    assert(actions.drop_first() =~= echo_run(s1, events.drop_first()).1);
    assert(echo_valid_run(s1, events.drop_first()));
    if i == 0 {
        assert(events.drop_first().len() > 0);
        assert(echo_expects(s1, events.drop_first()[0]));
    } else {
        law_echo_nothing_after_close(s1, events.drop_first(), i - 1);
        assert(actions[i] == echo_run(s1, events.drop_first()).1[i - 1]);
    }
}

/// Orderly ends (end of stream, a write of zero bytes) print `Connection
/// closed` as their last line; failures print the error instead and no
/// closing line.
pub proof fn law_echo_closing_line(s: EchoState, e: IoEvent)
    requires
        echo_expects(s, e),
        echo_step(s, e).1.action is Close,
    ensures
        ({
            let out = echo_step(s, e).1;
            let reason = out.action->Close_0;
            &&& out.notes.len() > 0
            &&& reason.is_failure() ==> out.notes == seq![EchoNote::Failed]
            &&& !reason.is_failure() ==> out.notes.last() == EchoNote::ConnectionClosed
        }),
{
}

/// The steps a session produces from state `s` when handed `events` in turn.
pub open spec fn echo_trace(s: EchoState, events: Seq<IoEvent>) -> Seq<EchoStepView>
    decreases events.len(),
{
    if events.len() == 0 {
        seq![]
    } else {
        let (s1, out) = echo_step(s, events[0]);
        seq![out] + echo_trace(s1, events.drop_first())
    }
}

/// A record of driving the session of connection `index` through the script
/// `events`: the states it passed through and the steps it produced,
/// starting from `open` and then one `step` per outcome. Every caller of
/// [`EchoSession::open`] and [`EchoSession::step`] obtains such a record,
/// whatever stream (plain or TLS, blocking or asynchronous) carries the bytes.
pub open spec fn echo_follows(
    index: u32,
    events: Seq<IoEvent>,
    states: Seq<EchoState>,
    steps: Seq<EchoStepView>,
) -> bool {
    &&& states.len() == events.len() + 1
    &&& steps.len() == events.len() + 1
    &&& (states[0], steps[0]) == echo_open(index)
    &&& forall|i: int|
        0 <= i < events.len() ==> (states[i + 1], steps[i + 1]) == #[trigger] echo_step(
            states[i],
            events[i],
        )
}

proof fn lemma_echo_suffix(
    index: u32,
    events: Seq<IoEvent>,
    states: Seq<EchoState>,
    steps: Seq<EchoStepView>,
    k: int,
)
    requires
        echo_follows(index, events, states, steps),
        0 <= k <= events.len(),
    ensures
        steps.subrange(k + 1, steps.len() as int) == echo_trace(
            states[k],
            events.subrange(k, events.len() as int),
        ),
    decreases events.len() - k,
{
    let n = events.len() as int;
    if k < n {
        lemma_echo_suffix(index, events, states, steps, k + 1);
        let ev = events.subrange(k, n);
        assert(ev[0] == events[k]);
        assert(ev.drop_first() =~= events.subrange(k + 1, n));
        let (s1, out) = echo_step(states[k], events[k]);
        assert(s1 == states[k + 1] && out == steps[k + 1]);
        assert(steps.subrange(k + 1, n + 1) =~= seq![steps[k + 1]] + steps.subrange(k + 2, n + 1));
    } else {
        assert(steps.subrange(k + 1, n + 1) =~= Seq::<EchoStepView>::empty());
        assert(events.subrange(k, n) =~= Seq::<IoEvent>::empty());
    }
}

proof fn lemma_echo_same_state(
    index: u32,
    events: Seq<IoEvent>,
    states1: Seq<EchoState>,
    steps1: Seq<EchoStepView>,
    states2: Seq<EchoState>,
    steps2: Seq<EchoStepView>,
    i: int,
)
    requires
        echo_follows(index, events, states1, steps1),
        echo_follows(index, events, states2, steps2),
        0 <= i <= events.len(),
    ensures
        states1[i] == states2[i],
    decreases i,
{
    if i > 0 {
        lemma_echo_same_state(index, events, states1, steps1, states2, steps2, i - 1);
        let _ = echo_step(states1[i - 1], events[i - 1]);
        let _ = echo_step(states2[i - 1], events[i - 1]);
    }
}

/// What a server session does depends on its connection's number and the
/// script of outcomes alone: however it is driven, the steps it produces
/// (the writes, flushes and reads it asks for and the lines it prints) are
/// the opening step followed by `echo_trace` of the script.
pub proof fn law_echo_steps_determined_by_script(
    index: u32,
    events: Seq<IoEvent>,
    states: Seq<EchoState>,
    steps: Seq<EchoStepView>,
)
    requires
        echo_follows(index, events, states, steps),
    ensures
        steps == seq![echo_open(index).1] + echo_trace(echo_open(index).0, events),
{
    lemma_echo_suffix(index, events, states, steps, 0);
    assert(events.subrange(0, events.len() as int) =~= events);
    assert(steps =~= seq![steps[0]] + steps.subrange(1, steps.len() as int));
}

/// Two sessions for the same connection number handed the same script of
/// outcomes (say, one in a thread over a blocking stream, one in a task
/// over an asynchronous one, or one over TLS) ask for the same writes,
/// flushes and reads and print the same lines, in the same order, and pass
/// through the same states.
pub proof fn law_echo_same_script_same_run(
    index: u32,
    events: Seq<IoEvent>,
    states1: Seq<EchoState>,
    steps1: Seq<EchoStepView>,
    states2: Seq<EchoState>,
    steps2: Seq<EchoStepView>,
)
    requires
        echo_follows(index, events, states1, steps1),
        echo_follows(index, events, states2, steps2),
    ensures
        steps1 == steps2,
        states1 == states2,
{
    law_echo_steps_determined_by_script(index, events, states1, steps1);
    law_echo_steps_determined_by_script(index, events, states2, steps2);
    assert forall|i: int| 0 <= i < states1.len() implies states1[i] == states2[i] by {
        lemma_echo_same_state(index, events, states1, steps1, states2, steps2, i);
    }
    assert(states1 =~= states2);
}

/// A non-empty read is answered by writing back exactly that many bytes,
/// whatever the connection's number: the session moves to sending `n`
/// bytes, prints the received text and `Sending`, and asks for the write.
pub proof fn law_echo_read_is_written_back(s: EchoState, n: usize)
    requires
        s.phase == EchoPhase::Receiving,
        0 < n <= BUFFER_SIZE,
    ensures
        echo_step(s, IoEvent::Read(n)).0 == (EchoState { index: s.index, phase: EchoPhase::Sending(n) }),
        echo_step(s, IoEvent::Read(n)).1.notes == seq![EchoNote::Received(n), EchoNote::Sending],
        echo_step(s, IoEvent::Read(n)).1.action == (EchoAction::Write { len: n }),
{
}

/// A write that accepted `n > 0` bytes is followed by a flush, printing
/// what was sent; a completed flush is followed by the next read. The
/// session keeps serving for every connection number.
pub proof fn law_echo_keeps_serving(s: EchoState, n: usize)
    ensures
        (s.phase matches EchoPhase::Sending(len) && 0 < n <= len) ==> {
            &&& echo_step(s, IoEvent::Wrote(n)).0 == (EchoState { index: s.index, phase: EchoPhase::Flushing })
            &&& echo_step(s, IoEvent::Wrote(n)).1.notes == seq![EchoNote::Sent(n)]
            &&& echo_step(s, IoEvent::Wrote(n)).1.action == EchoAction::Flush
        },
        s.phase == EchoPhase::Flushing ==> {
            &&& echo_step(s, IoEvent::Flushed).0 == (EchoState { index: s.index, phase: EchoPhase::Receiving })
            &&& echo_step(s, IoEvent::Flushed).1.notes == seq![EchoNote::Receiving]
            &&& echo_step(s, IoEvent::Flushed).1.action == EchoAction::Read
        },
{
}

/// A session closes only at the end of the stream (a read of zero bytes), on
/// a write of zero bytes, or when an operation fails, and then for that
/// reason; every other outcome it asked for keeps it open.
pub proof fn law_echo_closes_only_when_it_must(s: EchoState, e: IoEvent)
    requires
        echo_expects(s, e),
    ensures
        (echo_step(s, e).1.action == EchoAction::Close(CloseReason::PeerClosed)) <==> e == IoEvent::Read(0),
        (echo_step(s, e).1.action == EchoAction::Close(CloseReason::WriteZero)) <==> e == IoEvent::Wrote(0),
        (echo_step(s, e).1.action == EchoAction::Close(CloseReason::ReadError)) <==> e == IoEvent::ReadFailed,
        (echo_step(s, e).1.action == EchoAction::Close(CloseReason::WriteError)) <==> e == IoEvent::WriteFailed,
        (echo_step(s, e).1.action == EchoAction::Close(CloseReason::FlushError)) <==> e == IoEvent::FlushFailed,
        !(echo_step(s, e).1.action == EchoAction::Close(CloseReason::Finished)),
        e == IoEvent::Read(0) ==> echo_step(s, e).1.notes == seq![EchoNote::Eof, EchoNote::ConnectionClosed],
        e == IoEvent::Wrote(0) ==> echo_step(s, e).1.notes == seq![EchoNote::ConnectionClosed],
        (e == IoEvent::ReadFailed || e == IoEvent::WriteFailed || e == IoEvent::FlushFailed) ==> echo_step(s, e).1.notes == seq![EchoNote::Failed],
        echo_step(s, e).1.action is Close ==> echo_step(s, e).0 == (EchoState { index: s.index, phase: EchoPhase::Closed }),
        echo_step(s, e).1.action is Close <==> (e == IoEvent::Read(0) || e == IoEvent::Wrote(0)
            || e == IoEvent::ReadFailed || e == IoEvent::WriteFailed || e == IoEvent::FlushFailed),
{
}

/// The connection's number only labels the session: two sessions in the
/// same phase, whatever their numbers, take the same step (same lines, same
/// operation, same next phase), and each keeps its own number.
pub proof fn law_echo_number_is_only_a_label(s: EchoState, t: EchoState, e: IoEvent)
    requires
        s.phase == t.phase,
    ensures
        echo_step(s, e).1 == echo_step(t, e).1 || !echo_expects(s, e),
        echo_step(s, e).0.phase == echo_step(t, e).0.phase || !echo_expects(s, e),
        echo_step(s, e).0.index == s.index,
{
}

/// A new session for connection `index` keeps that number, announces the
/// connection, prints `Receiving` and asks for a read.
pub proof fn law_echo_opens_by_reading(index: u32)
    ensures
        echo_open(index).0 == (EchoState { index, phase: EchoPhase::Receiving }),
        echo_open(index).1.notes == seq![EchoNote::ConnectionOpen, EchoNote::Receiving],
        echo_open(index).1.action == EchoAction::Read,
{
}

} // verus!
