//! The client side of a connection: greet the server a fixed number of
//! times, each time sending a greeting, flushing it and reading the reply.

use vstd::prelude::*;
use crate::digits::{greeting, hello_message};
use crate::event::{IoEvent, CloseReason, BUFFER_SIZE};

verus! {

/// The number of greeting rounds in a client session.
pub const NUM_ITER: u32 = 5;

/// Which operation a client session is waiting on.
#[derive(Clone, Copy, Debug, PartialEq, Eq, Structural)]
pub enum ClientPhase {
    /// Waiting for the write of this round's greeting.
    Sending,
    /// Waiting for the flush after the write.
    Flushing,
    /// Waiting for the server's reply.
    Receiving,
    /// Finished; no further I/O.
    Closed,
}

/// The next I/O operation a client session asks for.
#[derive(Debug, PartialEq, Eq)]
pub enum ClientAction {
    /// Write these bytes.
    Write(Vec<u8>),
    /// Flush the stream.
    Flush,
    /// Read into the buffer.
    Read,
    /// Stop; the connection is done.
    Close(CloseReason),
}

/// The abstract value of a [`ClientAction`].
pub enum ClientActionView {
    Write(Seq<u8>),
    Flush,
    Read,
    Close(CloseReason),
}

impl View for ClientAction {
    type V = ClientActionView;

    open spec fn view(&self) -> ClientActionView {
        match self {
            ClientAction::Write(bytes) => ClientActionView::Write(bytes@),
            ClientAction::Flush => ClientActionView::Flush,
            ClientAction::Read => ClientActionView::Read,
            ClientAction::Close(reason) => ClientActionView::Close(*reason),
        }
    }
}

/// A line the client prints.
#[derive(Clone, Copy, Debug, PartialEq, Eq, Structural)]
pub enum ClientNote {
    /// `Sending`.
    Sending,
    /// `Sent: ` and the greeting just written.
    Sent,
    /// `Receiving`.
    Receiving,
    /// `Received: ` and the text of the first `n` bytes of the buffer.
    Received(usize),
    /// The error the failed operation reported.
    Failed,
    /// `Connection closed`.
    ConnectionClosed,
}

/// What one step of a client session produces: the lines to print, in order,
/// then the operation to perform.
#[derive(Debug, PartialEq, Eq)]
pub struct ClientStep {
    pub notes: Vec<ClientNote>,
    pub action: ClientAction,
}

/// The abstract value of a [`ClientStep`].
pub struct ClientStepView {
    pub notes: Seq<ClientNote>,
    pub action: ClientActionView,
}

impl View for ClientStep {
    type V = ClientStepView;

    open spec fn view(&self) -> ClientStepView {
        ClientStepView { notes: self.notes@, action: self.action@ }
    }
}

/// The abstract state of a client session: its phase and the round it is in
/// (counting from zero).
pub struct ClientState {
    pub phase: ClientPhase,
    pub iteration: nat,
}

/// A state a session can be in: its round is one of the `NUM_ITER` rounds.
pub open spec fn client_wf(s: ClientState) -> bool {
    s.iteration < NUM_ITER
}

/// One client connection, driven by alternating calls: the session names an
/// operation, the caller performs it and reports the outcome.
pub struct ClientSession {
    phase: ClientPhase,
    iteration: u32,
}

impl View for ClientSession {
    type V = ClientState;

    closed spec fn view(&self) -> ClientState {
        ClientState { phase: self.phase, iteration: self.iteration as nat }
    }
}

/// A fresh session and its first step: announce and send the first greeting.
pub open spec fn client_open() -> (ClientState, ClientStepView) {
    (
        ClientState { phase: ClientPhase::Sending, iteration: 0 },
        ClientStepView {
            notes: seq![ClientNote::Sending],
            action: ClientActionView::Write(greeting(0)),
        },
    )
}

/// The outcomes a session in state `s` can be handed: the result of the
/// operation it asked for. A write reports at most the bytes it was given,
/// a read at most the buffer's size; a closed session takes nothing.
pub open spec fn client_expects(s: ClientState, e: IoEvent) -> bool {
    match s.phase {
        ClientPhase::Sending => {
            ||| (e matches IoEvent::Wrote(n) && n <= greeting(s.iteration).len())
            ||| e == IoEvent::WriteFailed
        },
        ClientPhase::Flushing => e == IoEvent::Flushed || e == IoEvent::FlushFailed,
        ClientPhase::Receiving => {
            ||| (e matches IoEvent::Read(n) && n <= BUFFER_SIZE)
            ||| e == IoEvent::ReadFailed
        },
        ClientPhase::Closed => false,
    }
}

/// A step that ends the session, printing `notes` and closing for `reason`.
pub open spec fn client_closed_with(s: ClientState, notes: Seq<ClientNote>, reason: CloseReason) -> (
    ClientState,
    ClientStepView,
) {
    (
        ClientState { phase: ClientPhase::Closed, iteration: s.iteration },
        ClientStepView { notes, action: ClientActionView::Close(reason) },
    )
}

/// One step of a client session: given the outcome of the operation it
/// asked for, its next state, the lines to print and the next operation.
///
/// - A write of `n > 0` bytes is followed by a flush, a flush by a read.
/// - A non-empty reply ends the round: the next round's greeting is sent,
///   or, after the last round, the session closes.
/// - A write or read of zero bytes closes the session.
/// - A failed operation prints its error and closes, without the closing line.
///
/// Outcomes the session did not ask for (see `client_expects`) are outside the
/// step's domain; the last arm gives them a value only to keep the function total.
pub open spec fn client_step(s: ClientState, e: IoEvent) -> (ClientState, ClientStepView) {
    match (s.phase, e) {
        (ClientPhase::Sending, IoEvent::Wrote(n)) => {
            if n == 0 {
                client_closed_with(s, seq![ClientNote::ConnectionClosed], CloseReason::WriteZero)
            } else {
                (
                    ClientState { phase: ClientPhase::Flushing, iteration: s.iteration },
                    ClientStepView { notes: seq![ClientNote::Sent], action: ClientActionView::Flush },
                )
            }
        },
        (ClientPhase::Sending, IoEvent::WriteFailed) => client_closed_with(
            s,
            seq![ClientNote::Failed],
            CloseReason::WriteError,
        ),
        (ClientPhase::Flushing, IoEvent::Flushed) => (
            ClientState { phase: ClientPhase::Receiving, iteration: s.iteration },
            ClientStepView { notes: seq![ClientNote::Receiving], action: ClientActionView::Read },
        ),
        (ClientPhase::Flushing, IoEvent::FlushFailed) => client_closed_with(
            s,
            seq![ClientNote::Failed],
            CloseReason::FlushError,
        ),
        (ClientPhase::Receiving, IoEvent::Read(n)) => {
            if n == 0 {
                client_closed_with(s, seq![ClientNote::ConnectionClosed], CloseReason::PeerClosed)
            } else if s.iteration + 1 < NUM_ITER {
                (
                    ClientState { phase: ClientPhase::Sending, iteration: s.iteration + 1 },
                    ClientStepView {
                        notes: seq![ClientNote::Received(n), ClientNote::Sending],
                        action: ClientActionView::Write(greeting(s.iteration + 1)),
                    },
                )
            } else {
                client_closed_with(
                    s,
                    seq![ClientNote::Received(n), ClientNote::ConnectionClosed],
                    CloseReason::Finished,
                )
            }
        },
        (ClientPhase::Receiving, IoEvent::ReadFailed) => client_closed_with(
            s,
            seq![ClientNote::Failed],
            CloseReason::ReadError,
        ),
        _ => (s, ClientStepView { notes: seq![], action: ClientActionView::Close(CloseReason::ReadError) }),
    }
}

impl ClientSession {
    /// Starts a session: its first step sends the round-zero greeting.
    pub fn open() -> (r: (ClientSession, ClientStep))
        ensures
            (r.0@, r.1@) == client_open(),
            client_wf(r.0@),
    {
        let msg = hello_message(0);
        let step = ClientStep { notes: vec![ClientNote::Sending], action: ClientAction::Write(msg) };
        assert(step@.notes =~= client_open().1.notes);
        (ClientSession { phase: ClientPhase::Sending, iteration: 0 }, step)
    }

    /// The round the session is in, counting from zero.
    pub fn iteration(&self) -> (r: u32)
        ensures
            r == self@.iteration,
    {
        self.iteration
    }

    /// Whether the session has ended.
    pub fn is_closed(&self) -> (r: bool)
        ensures
            r == (self@.phase == ClientPhase::Closed),
    {
        match self.phase {
            ClientPhase::Closed => true,
            _ => false,
        }
    }

    /// Hands the session the outcome of the operation it asked for.
    pub fn step(&mut self, event: IoEvent) -> (out: ClientStep)
        requires
            client_wf(old(self)@),
            client_expects(old(self)@, event),
        ensures
            (final(self)@, out@) == client_step(old(self)@, event),
            client_wf(final(self)@),
    {
        let iteration = self.iteration;
        let (phase, next_iteration, notes, action) = match (self.phase, event) {
            (ClientPhase::Sending, IoEvent::Wrote(n)) => {
                if n == 0 {
                    (
                        ClientPhase::Closed,
                        iteration,
                        vec![ClientNote::ConnectionClosed],
                        ClientAction::Close(CloseReason::WriteZero),
                    )
                } else {
                    (ClientPhase::Flushing, iteration, vec![ClientNote::Sent], ClientAction::Flush)
                }
            },
            (ClientPhase::Sending, _) => (
                ClientPhase::Closed,
                iteration,
                vec![ClientNote::Failed],
                ClientAction::Close(CloseReason::WriteError),
            ),
            (ClientPhase::Flushing, IoEvent::Flushed) => (
                ClientPhase::Receiving,
                iteration,
                vec![ClientNote::Receiving],
                ClientAction::Read,
            ),
            (ClientPhase::Flushing, _) => (
                ClientPhase::Closed,
                iteration,
                vec![ClientNote::Failed],
                ClientAction::Close(CloseReason::FlushError),
            ),
            (_, IoEvent::Read(n)) => {
                if n == 0 {
                    (
                        ClientPhase::Closed,
                        iteration,
                        vec![ClientNote::ConnectionClosed],
                        ClientAction::Close(CloseReason::PeerClosed),
                    )
                } else if iteration + 1 < NUM_ITER {
                    let next = iteration + 1;
                    (
                        ClientPhase::Sending,
                        next,
                        vec![ClientNote::Received(n), ClientNote::Sending],
                        ClientAction::Write(hello_message(next)),
                    )
                } else {
                    (
                        ClientPhase::Closed,
                        iteration,
                        vec![ClientNote::Received(n), ClientNote::ConnectionClosed],
                        ClientAction::Close(CloseReason::Finished),
                    )
                }
            },
            (_, _) => (
                ClientPhase::Closed,
                iteration,
                vec![ClientNote::Failed],
                ClientAction::Close(CloseReason::ReadError),
            ),
        };
        self.phase = phase;
        self.iteration = next_iteration;
        let out = ClientStep { notes, action };
        assert(out@.notes =~= client_step(old(self)@, event).1.notes);
        out
    }
}

/// Runs a session from `s` through a sequence of outcomes, collecting the
/// operations it asks for along the way.
pub open spec fn client_run(s: ClientState, events: Seq<IoEvent>) -> (ClientState, Seq<ClientActionView>)
    decreases events.len(),
{
    if events.len() == 0 {
        (s, seq![])
    } else {
        let (s1, out) = client_step(s, events[0]);
        let (s2, actions) = client_run(s1, events.drop_first());
        (s2, seq![out.action] + actions)
    }
}

/// Every outcome in `events` is one the session asked for when it came.
pub open spec fn client_valid_run(s: ClientState, events: Seq<IoEvent>) -> bool
    decreases events.len(),
{
    events.len() == 0 || (client_expects(s, events[0]) && client_valid_run(
        client_step(s, events[0]).0,
        events.drop_first(),
    ))
}

/// The bytes of the writes among `actions`, in order.
pub open spec fn written_messages(actions: Seq<ClientActionView>) -> Seq<Seq<u8>>
    decreases actions.len(),
{
    if actions.len() == 0 {
        seq![]
    } else {
        let rest = written_messages(actions.drop_first());
        match actions[0] {
            ClientActionView::Write(bytes) => seq![bytes] + rest,
            _ => rest,
        }
    }
}

/// How many more outcomes a session in state `s` can take at most: three per
/// round still to come, plus what is left of the current round.
pub open spec fn client_budget(s: ClientState) -> nat {
    match s.phase {
        ClientPhase::Closed => 0,
        ClientPhase::Sending => ((NUM_ITER - 1 - s.iteration) * 3 + 3) as nat,
        ClientPhase::Flushing => ((NUM_ITER - 1 - s.iteration) * 3 + 2) as nat,
        ClientPhase::Receiving => ((NUM_ITER - 1 - s.iteration) * 3 + 1) as nat,
    }
}

/// Greetings in order: over any run of a session, the messages it writes are
/// the greetings of the following rounds, consecutively (`hello1`, `hello2`,
/// ... after `hello0` from the opening step), and it never goes past the last
/// round.
pub proof fn law_client_sends_greetings_in_order(s: ClientState, events: Seq<IoEvent>)
    requires
        client_wf(s),
        client_valid_run(s, events),
    ensures
        ({
            let msgs = written_messages(client_run(s, events).1);
            &&& s.iteration + msgs.len() < NUM_ITER
            &&& msgs == Seq::new(msgs.len(), |j: int| greeting((s.iteration + 1 + j) as nat))
            &&& client_wf(client_run(s, events).0)
            &&& client_run(s, events).0.iteration == s.iteration + msgs.len()
        }),
    decreases events.len(),
{
    if events.len() > 0 {
        let (s1, out) = client_step(s, events[0]);
        law_client_sends_greetings_in_order(s1, events.drop_first());
        let actions = client_run(s, events).1;
        assert(actions.drop_first() =~= client_run(s1, events.drop_first()).1);
        let rest = written_messages(client_run(s1, events.drop_first()).1);
        let msgs = written_messages(actions);
        match out.action {
            ClientActionView::Write(bytes) => {
                assert(s1.iteration == s.iteration + 1);
                assert(msgs =~= seq![bytes] + rest);
                assert(msgs =~= Seq::new(msgs.len(), |j: int| greeting((s.iteration + 1 + j) as nat)));
            },
            _ => {
                assert(s1.iteration == s.iteration);
                assert(msgs =~= rest);
            },
        }
    } else {
        assert(written_messages(client_run(s, events).1) =~= Seq::<Seq<u8>>::empty());
    }
}

/// A whole session: starting from its opening step, the client sends
/// `hello0`, `hello1`, ... in that order, at most `NUM_ITER` of them.
pub proof fn law_client_session_greetings(events: Seq<IoEvent>)
    requires
        client_valid_run(client_open().0, events),
    ensures
        ({
            let all = seq![greeting(0)] + written_messages(client_run(client_open().0, events).1);
            &&& all.len() <= NUM_ITER
            &&& all == Seq::new(all.len(), |j: int| greeting(j as nat))
        }),
{
    let s = client_open().0;
    law_client_sends_greetings_in_order(s, events);
    let all = seq![greeting(0)] + written_messages(client_run(s, events).1);
    assert(all =~= Seq::new(all.len(), |j: int| greeting(j as nat)));
}

/// A client session always ends: from a state `s` it takes at most
/// `client_budget(s)` outcomes, so at most `3 * NUM_ITER` after it opens.
pub proof fn law_client_terminates(s: ClientState, events: Seq<IoEvent>)
    requires
        client_wf(s),
        client_valid_run(s, events),
    ensures
        events.len() <= client_budget(s),
        client_budget(client_open().0) == 3 * NUM_ITER,
    decreases events.len(),
{
    if events.len() > 0 {
        let s1 = client_step(s, events[0]).0;
        law_client_terminates(s1, events.drop_first());
    }
}

/// A closed session accepts no further outcome, and a session closes exactly
/// when it answers with `Close`. Orderly ends print `Connection closed` last;
/// failures print only the error.
pub proof fn law_client_close_is_final(s: ClientState, e: IoEvent)
    requires
        client_wf(s),
        client_expects(s, e),
    ensures
        ({
            let (s1, out) = client_step(s, e);
            &&& (out.action is Close <==> s1.phase == ClientPhase::Closed)
            &&& forall|f: IoEvent| !client_expects(ClientState { phase: ClientPhase::Closed, iteration: s1.iteration }, f)
            &&& (out.action matches ClientActionView::Close(reason) ==> {
                &&& reason.is_failure() ==> out.notes == seq![ClientNote::Failed]
                &&& !reason.is_failure() ==> out.notes.len() > 0 && out.notes.last() == ClientNote::ConnectionClosed
            })
        }),
{
}

/// The steps a session produces from state `s` when handed `events` in turn.
pub open spec fn client_trace(s: ClientState, events: Seq<IoEvent>) -> Seq<ClientStepView>
    decreases events.len(),
{
    if events.len() == 0 {
        seq![]
    } else {
        let (s1, out) = client_step(s, events[0]);
        seq![out] + client_trace(s1, events.drop_first())
    }
}

/// A record of driving a session through the script `events`: the states it
/// passed through and the steps it produced, starting from `open` and then
/// one `step` per outcome. Every caller of [`ClientSession::open`] and
/// [`ClientSession::step`] obtains such a record, whatever stream (plain or
/// TLS, blocking or asynchronous) carries the bytes.
pub open spec fn client_follows(
    events: Seq<IoEvent>,
    states: Seq<ClientState>,
    steps: Seq<ClientStepView>,
) -> bool {
    &&& states.len() == events.len() + 1
    &&& steps.len() == events.len() + 1
    &&& (states[0], steps[0]) == client_open()
    &&& forall|i: int|
        0 <= i < events.len() ==> (states[i + 1], steps[i + 1]) == #[trigger] client_step(
            states[i],
            events[i],
        )
}

proof fn lemma_client_suffix(
    events: Seq<IoEvent>,
    states: Seq<ClientState>,
    steps: Seq<ClientStepView>,
    k: int,
)
    requires
        client_follows(events, states, steps),
        0 <= k <= events.len(),
    ensures
        steps.subrange(k + 1, steps.len() as int) == client_trace(
            states[k],
            events.subrange(k, events.len() as int),
        ),
    decreases events.len() - k,
{
    let n = events.len() as int;
    if k < n {
        lemma_client_suffix(events, states, steps, k + 1);
        let ev = events.subrange(k, n);
        assert(ev[0] == events[k]);
        assert(ev.drop_first() =~= events.subrange(k + 1, n));
        let (s1, out) = client_step(states[k], events[k]);
        assert(s1 == states[k + 1] && out == steps[k + 1]);
        assert(steps.subrange(k + 1, n + 1) =~= seq![steps[k + 1]] + steps.subrange(k + 2, n + 1));
    } else {
        assert(steps.subrange(k + 1, n + 1) =~= Seq::<ClientStepView>::empty());
        assert(events.subrange(k, n) =~= Seq::<IoEvent>::empty());
    }
}

/// What a client does depends on the script of outcomes alone: however a
/// session is driven, the steps it produces (the bytes it writes, the
/// flushes and reads it asks for, and the lines it prints) are the opening
/// step followed by `client_trace` of the script.
pub proof fn law_client_steps_determined_by_script(
    events: Seq<IoEvent>,
    states: Seq<ClientState>,
    steps: Seq<ClientStepView>,
)
    requires
        client_follows(events, states, steps),
    ensures
        steps == seq![client_open().1] + client_trace(client_open().0, events),
{
    lemma_client_suffix(events, states, steps, 0);
    assert(events.subrange(0, events.len() as int) =~= events);
    assert(steps =~= seq![steps[0]] + steps.subrange(1, steps.len() as int));
}

/// Two clients handed the same script of outcomes (say, one over a blocking
/// TCP stream, one over an asynchronous one, or one over TLS) write the same
/// bytes, ask for the same flushes and reads, and print the same lines, in
/// the same order, and pass through the same states.
pub proof fn law_client_same_script_same_run(
    events: Seq<IoEvent>,
    states1: Seq<ClientState>,
    steps1: Seq<ClientStepView>,
    states2: Seq<ClientState>,
    steps2: Seq<ClientStepView>,
)
    requires
        client_follows(events, states1, steps1),
        client_follows(events, states2, steps2),
    ensures
        steps1 == steps2,
        states1 == states2,
{
    law_client_steps_determined_by_script(events, states1, steps1);
    law_client_steps_determined_by_script(events, states2, steps2);
    assert forall|i: int| 0 <= i < states1.len() implies states1[i] == states2[i] by {
        lemma_client_same_state(events, states1, steps1, states2, steps2, i);
    }
    assert(states1 =~= states2);
}

proof fn lemma_client_same_state(
    events: Seq<IoEvent>,
    states1: Seq<ClientState>,
    steps1: Seq<ClientStepView>,
    states2: Seq<ClientState>,
    steps2: Seq<ClientStepView>,
    i: int,
)
    requires
        client_follows(events, states1, steps1),
        client_follows(events, states2, steps2),
        0 <= i <= events.len(),
    ensures
        states1[i] == states2[i],
    decreases i,
{
    if i > 0 {
        lemma_client_same_state(events, states1, steps1, states2, steps2, i - 1);
        let _ = client_step(states1[i - 1], events[i - 1]);
        let _ = client_step(states2[i - 1], events[i - 1]);
    }
}

/// A reply of any non-empty size ends the round: the client prints that it
/// received exactly those `n` bytes, and then, before the last round, moves
/// to the next round and sends its greeting; after the last round it
/// prints `Connection closed` and finishes. The size of the reply does not
/// matter otherwise.
pub proof fn law_client_reply_ends_round(s: ClientState, n: usize)
    requires
        client_wf(s),
        s.phase == ClientPhase::Receiving,
        0 < n <= BUFFER_SIZE,
    ensures
        client_step(s, IoEvent::Read(n)).1.notes[0] == ClientNote::Received(n),
        s.iteration + 1 < NUM_ITER ==> {
            &&& client_step(s, IoEvent::Read(n)).0 == (ClientState {
                phase: ClientPhase::Sending,
                iteration: s.iteration + 1,
            })
            &&& client_step(s, IoEvent::Read(n)).1.notes == seq![ClientNote::Received(n), ClientNote::Sending]
            &&& client_step(s, IoEvent::Read(n)).1.action == ClientActionView::Write(greeting(s.iteration + 1))
        },
        s.iteration + 1 == NUM_ITER ==> {
            &&& client_step(s, IoEvent::Read(n)).0 == (ClientState {
                phase: ClientPhase::Closed,
                iteration: s.iteration,
            })
            &&& client_step(s, IoEvent::Read(n)).1.notes == seq![ClientNote::Received(n), ClientNote::ConnectionClosed]
            &&& client_step(s, IoEvent::Read(n)).1.action == ClientActionView::Close(CloseReason::Finished)
        },
{
}

/// A write that accepted `n > 0` bytes (all or part of the greeting) is
/// followed by a flush, printing the greeting; a completed flush by a read
/// of the reply. The round does not change.
pub proof fn law_client_round_goes_on(s: ClientState, n: usize)
    requires
        client_wf(s),
    ensures
        (s.phase == ClientPhase::Sending && 0 < n <= greeting(s.iteration).len()) ==> {
            &&& client_step(s, IoEvent::Wrote(n)).0 == (ClientState {
                phase: ClientPhase::Flushing,
                iteration: s.iteration,
            })
            &&& client_step(s, IoEvent::Wrote(n)).1.notes == seq![ClientNote::Sent]
            &&& client_step(s, IoEvent::Wrote(n)).1.action == ClientActionView::Flush
        },
        s.phase == ClientPhase::Flushing ==> {
            &&& client_step(s, IoEvent::Flushed).0 == (ClientState {
                phase: ClientPhase::Receiving,
                iteration: s.iteration,
            })
            &&& client_step(s, IoEvent::Flushed).1.notes == seq![ClientNote::Receiving]
            &&& client_step(s, IoEvent::Flushed).1.action == ClientActionView::Read
        },
{
}

/// A client closes only when the server closes (a read of zero bytes), on a
/// write of zero bytes, when an operation fails, or after a reply in the last
/// round; each for its own reason.
pub proof fn law_client_closes_only_when_it_must(s: ClientState, e: IoEvent)
    requires
        client_wf(s),
        client_expects(s, e),
    ensures
        (client_step(s, e).1.action == ClientActionView::Close(CloseReason::PeerClosed)) <==> e == IoEvent::Read(0),
        (client_step(s, e).1.action == ClientActionView::Close(CloseReason::WriteZero)) <==> e == IoEvent::Wrote(0),
        (client_step(s, e).1.action == ClientActionView::Close(CloseReason::ReadError)) <==> e == IoEvent::ReadFailed,
        (client_step(s, e).1.action == ClientActionView::Close(CloseReason::WriteError)) <==> e == IoEvent::WriteFailed,
        (client_step(s, e).1.action == ClientActionView::Close(CloseReason::FlushError)) <==> e == IoEvent::FlushFailed,
        (client_step(s, e).1.action == ClientActionView::Close(CloseReason::Finished)) <==> (
            s.iteration + 1 == NUM_ITER && (e matches IoEvent::Read(n) && n > 0)),
        (e == IoEvent::Read(0) || e == IoEvent::Wrote(0)) ==> client_step(s, e).1.notes == seq![ClientNote::ConnectionClosed],
        (e == IoEvent::ReadFailed || e == IoEvent::WriteFailed || e == IoEvent::FlushFailed) ==> client_step(s, e).1.notes == seq![ClientNote::Failed],
        client_step(s, e).1.action is Close ==> client_step(s, e).0 == (ClientState { phase: ClientPhase::Closed, iteration: s.iteration }),
{
}

/// A new session is in round zero, prints `Sending` and sends `hello0`.
pub proof fn law_client_opens_with_hello0()
    ensures
        client_open().0 == (ClientState { phase: ClientPhase::Sending, iteration: 0 }),
        client_open().1.notes == seq![ClientNote::Sending],
        client_open().1.action == ClientActionView::Write(seq![104u8, 101u8, 108u8, 108u8, 111u8, 48u8]),
{
    assert(greeting(0) =~= seq![104u8, 101u8, 108u8, 108u8, 111u8, 48u8]);
}

} // verus!
