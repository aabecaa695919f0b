//! The accepting side of a server: number each accepted connection and hand
//! it to a session of its own; decide what a failed accept means.

use vstd::prelude::*;

verus! {

/// What a failed accept means to a server.
#[derive(Clone, Copy, Debug, PartialEq, Eq, Structural)]
pub enum AcceptPolicy {
    /// Print a warning and keep accepting (the thread-per-connection servers).
    WarnAndContinue,
    /// Stop serving and report the error (the task-per-connection server).
    Stop,
}

/// The outcome of one accept.
#[derive(Clone, Copy, Debug, PartialEq, Eq, Structural)]
pub enum AcceptEvent {
    /// A connection was accepted.
    Accepted,
    /// The accept failed.
    Failed,
}

/// What the server does with the outcome of an accept.
#[derive(Clone, Copy, Debug, PartialEq, Eq, Structural)]
pub enum ListenerAction {
    /// Serve the accepted connection in a session of its own, numbered `index`.
    Serve { index: u32 },
    /// Serve the accepted connection, numbered `index` (the largest number a
    /// `u32` holds), then stop: the numbering cannot move past it, and the
    /// program ends with an arithmetic overflow.
    Overflow { index: u32 },
    /// Print a warning with the error, then accept again.
    Warn,
    /// Stop accepting and report the error.
    Stop,
}

/// The abstract state of a listener: the number the next accepted connection
/// gets, how failures are handled, and whether it has stopped.
pub struct ListenerState {
    pub next_index: nat,
    pub policy: AcceptPolicy,
    pub stopped: bool,
}

/// The accept loop of a server.
pub struct Listener {
    next_index: u32,
    policy: AcceptPolicy,
    stopped: bool,
}

impl View for Listener {
    type V = ListenerState;

    closed spec fn view(&self) -> ListenerState {
        ListenerState {
            next_index: self.next_index as nat,
            policy: self.policy,
            stopped: self.stopped,
        }
    }
}

/// The outcomes a listener can be handed: none once it has stopped.
pub open spec fn listener_expects(s: ListenerState, e: AcceptEvent) -> bool {
    !s.stopped
}

/// One accept: an accepted connection gets the next number, and numbering
/// moves on by one; the connection numbered `u32::MAX` is served but the
/// numbering overflows after it, which stops the listener. A failure is
/// warned about or stops the listener, according to its policy.
pub open spec fn listener_step(s: ListenerState, e: AcceptEvent) -> (ListenerState, ListenerAction) {
    match e {
        AcceptEvent::Accepted => if s.next_index < u32::MAX {
            (
                ListenerState { next_index: s.next_index + 1, ..s },
                ListenerAction::Serve { index: s.next_index as u32 },
            )
        } else {
            (
                ListenerState { stopped: true, ..s },
                ListenerAction::Overflow { index: s.next_index as u32 },
            )
        },
        AcceptEvent::Failed => match s.policy {
            AcceptPolicy::WarnAndContinue => (s, ListenerAction::Warn),
            AcceptPolicy::Stop => (ListenerState { stopped: true, ..s }, ListenerAction::Stop),
        },
    }
}

impl Listener {
    /// A listener that has accepted nothing yet: the first connection is
    /// numbered zero.
    pub fn new(policy: AcceptPolicy) -> (r: Listener)
        ensures
            r@ == (ListenerState { next_index: 0, policy, stopped: false }),
    {
        Listener { next_index: 0, policy, stopped: false }
    }

    /// The number the next accepted connection gets.
    pub fn next_index(&self) -> (r: u32)
        ensures
            r == self@.next_index,
    {
        self.next_index
    }

    /// Whether the listener has stopped.
    pub fn is_stopped(&self) -> (r: bool)
        ensures
            r == self@.stopped,
    {
        self.stopped
    }

    /// Hands the listener the outcome of an accept.
    pub fn on_accept(&mut self, event: AcceptEvent) -> (action: ListenerAction)
        requires
            listener_expects(old(self)@, event),
        ensures
            (final(self)@, action) == listener_step(old(self)@, event),
    {
        match event {
            AcceptEvent::Accepted => {
                let index = self.next_index;
                if index < u32::MAX {
                    self.next_index = index + 1;
                    ListenerAction::Serve { index }
                } else {
                    self.stopped = true;
                    ListenerAction::Overflow { index }
                }
            },
            AcceptEvent::Failed => match self.policy {
                AcceptPolicy::WarnAndContinue => ListenerAction::Warn,
                AcceptPolicy::Stop => {
                    self.stopped = true;
                    ListenerAction::Stop
                },
            },
        }
    }
}

/// Runs a listener from `s` through a sequence of accept outcomes,
/// collecting what it does with each.
pub open spec fn listener_run(s: ListenerState, events: Seq<AcceptEvent>) -> (
    ListenerState,
    Seq<ListenerAction>,
)
    decreases events.len(),
{
    if events.len() == 0 {
        (s, seq![])
    } else {
        let (s1, a) = listener_step(s, events[0]);
        let (s2, actions) = listener_run(s1, events.drop_first());
        (s2, seq![a] + actions)
    }
}

/// Every outcome in `events` is one the listener can take when it comes.
pub open spec fn listener_valid_run(s: ListenerState, events: Seq<AcceptEvent>) -> bool
    decreases events.len(),
{
    events.len() == 0 || (listener_expects(s, events[0]) && listener_valid_run(
        listener_step(s, events[0]).0,
        events.drop_first(),
    ))
}

/// The numbers of the connections served among `actions`, in order.
pub open spec fn served_indices(actions: Seq<ListenerAction>) -> Seq<nat>
    decreases actions.len(),
{
    if actions.len() == 0 {
        seq![]
    } else {
        let rest = served_indices(actions.drop_first());
        match actions[0] {
            ListenerAction::Serve { index } => seq![index as nat] + rest,
            ListenerAction::Overflow { index } => seq![index as nat] + rest,
            _ => rest,
        }
    }
}

/// Connections are numbered consecutively: over any run, the sessions served
/// get the numbers `next_index`, `next_index + 1`, ... in order, so no two
/// connections share a number; and the numbering moves on by the count of
/// connections served (one less when the run ends in the overflow).
pub proof fn law_listener_numbers_consecutively(s: ListenerState, events: Seq<AcceptEvent>)
    requires
        listener_valid_run(s, events),
        s.next_index <= u32::MAX,
    ensures
        ({
            let (s2, actions) = listener_run(s, events);
            let served = served_indices(actions);
            &&& served == Seq::new(served.len(), |j: int| (s.next_index + j) as nat)
            &&& s2.next_index <= s.next_index + served.len() <= s2.next_index + 1
            &&& (s2.next_index == s.next_index + served.len() || s2.stopped)
            &&& s2.policy == s.policy
            &&& s2.next_index <= u32::MAX
        }),
    decreases events.len(),
{
    if events.len() > 0 {
        let (s1, a) = listener_step(s, events[0]);
        law_listener_numbers_consecutively(s1, events.drop_first());
        let actions = listener_run(s, events).1;
        assert(actions.drop_first() =~= listener_run(s1, events.drop_first()).1);
        let rest = served_indices(listener_run(s1, events.drop_first()).1);
        let served = served_indices(actions);
        match a {
            ListenerAction::Serve { index } => {
                assert(index as nat == s.next_index);
                assert(served =~= seq![index as nat] + rest);
                assert(served =~= Seq::new(served.len(), |j: int| (s.next_index + j) as nat));
            },
            ListenerAction::Overflow { index } => {
                assert(index as nat == s.next_index);
                assert(listener_valid_run(s1, events.drop_first()));
                if events.drop_first().len() > 0 {
                    assert(!listener_expects(s1, events.drop_first()[0]));
                }
                assert(events.drop_first().len() == 0);
                assert(rest =~= Seq::<nat>::empty());
                assert(served =~= seq![index as nat] + rest);
                assert(served =~= Seq::new(served.len(), |j: int| (s.next_index + j) as nat));
            },
            _ => {
                assert(served =~= rest);
            },
        }
    } else {
        assert(served_indices(listener_run(s, events).1) =~= Seq::<nat>::empty());
    }
}

/// No two connections served in one run share a number.
pub proof fn law_listener_numbers_distinct(s: ListenerState, events: Seq<AcceptEvent>, i: int, j: int)
    requires
        listener_valid_run(s, events),
        s.next_index <= u32::MAX,
        0 <= i < j < served_indices(listener_run(s, events).1).len(),
    ensures
        served_indices(listener_run(s, events).1)[i] < served_indices(listener_run(s, events).1)[j],
{
    law_listener_numbers_consecutively(s, events);
}

/// A listener that warns on failures goes on after each; one that stops does
/// so at its first failure and accepts nothing after. The connection
/// numbered `u32::MAX` is the last one any listener serves.
pub proof fn law_listener_failure_policy(s: ListenerState)
    requires
        !s.stopped,
    ensures
        s.policy == AcceptPolicy::WarnAndContinue ==> listener_step(s, AcceptEvent::Failed) == (
        s, ListenerAction::Warn),
        s.policy == AcceptPolicy::Stop ==> {
            &&& listener_step(s, AcceptEvent::Failed).0.stopped
            &&& forall|e: AcceptEvent| !listener_expects(listener_step(s, AcceptEvent::Failed).0, e)
        },
        s.next_index == u32::MAX ==> {
            &&& listener_step(s, AcceptEvent::Accepted).1 == (ListenerAction::Overflow { index: u32::MAX })
            &&& forall|e: AcceptEvent| !listener_expects(listener_step(s, AcceptEvent::Accepted).0, e)
        },
{
}

/// Every accepted connection below the numbering's limit is served under
/// the next number, the numbering moves on by one, and the listener keeps
/// accepting, whatever its policy: only a failed accept (under the stopping
/// policy) or the number `u32::MAX` stops it.
pub proof fn law_listener_accept_serves_and_goes_on(s: ListenerState)
    requires
        !s.stopped,
        s.next_index < u32::MAX,
    ensures
        listener_step(s, AcceptEvent::Accepted).1 == (ListenerAction::Serve { index: s.next_index as u32 }),
        listener_step(s, AcceptEvent::Accepted).0 == (ListenerState {
            next_index: s.next_index + 1,
            policy: s.policy,
            stopped: false,
        }),
{
}

/// A listener stops only on a failed accept under the stopping policy, or
/// after serving the connection numbered `u32::MAX`.
pub proof fn law_listener_stops_only_when_it_must(s: ListenerState, e: AcceptEvent)
    requires
        !s.stopped,
    ensures
        listener_step(s, e).0.stopped <==> (
            (e == AcceptEvent::Failed && s.policy == AcceptPolicy::Stop)
            || (e == AcceptEvent::Accepted && s.next_index >= u32::MAX)),
        listener_step(s, e).0.policy == s.policy,
{
}

} // verus!
