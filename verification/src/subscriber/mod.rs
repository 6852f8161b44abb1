//! Subscriptions to the event log: a signal that the subsystem sets when
//! there is something to read, and the session that waits for it and drains
//! what has come.

use vstd::prelude::*;
use crate::api::{begun, resumed, shown, torn_down, Error, Event, Pull, Turn, WinEvents, WinEventsIntoIterator};
use crate::host::{
    Call, Reply, Request, Step, INFINITE, SUBSCRIBE_START_AT_OLDEST_RECORD, WAIT_OBJECT_0,
};
use crate::registry::{Capability, Registry};
use crate::text::IntoText;
use crate::wide::{to_wide, wide};

verus! {

/// The owner of a signal. It holds a handle that is not null, and asks for
/// it to be closed once at most.
#[derive(Debug)]
pub struct HandleWrapper {
    raw: usize,
    released: bool,
}

impl HandleWrapper {
    #[verifier::type_invariant]
    spec fn not_null(self) -> bool {
        self.raw != 0
    }

    /// The handle that is owned.
    pub closed spec fn spec_raw(&self) -> usize {
        self.raw
    }

    /// Whether the owner has already been asked to let the handle go.
    pub closed spec fn spec_released(&self) -> bool {
        self.released
    }

    /// Wraps a signal that the host created; a null result is never
    /// wrapped.
    pub fn new(raw: usize) -> (handle: Option<HandleWrapper>)
        ensures
            handle is Some <==> raw != 0,
            handle matches Some(h) ==> (h.spec_raw() == raw && !h.spec_released()),
    {
        if raw != 0 {
            Some(HandleWrapper { raw, released: false })
        } else {
            None
        }
    }

    /// The handle that is owned; it is not null.
    #[verifier::when_used_as_spec(spec_raw)]
    pub fn raw(&self) -> (raw: usize)
        ensures
            raw == self.spec_raw(),
            raw != 0,
    {
        proof {
            use_type_invariant(self);
        }
        self.raw
    }

    /// Whether the owner has already been asked to let the handle go.
    #[verifier::when_used_as_spec(spec_released)]
    pub fn released(&self) -> (released: bool)
        ensures
            released == self.spec_released(),
    {
        self.released
    }

    /// Lets the signal go: the first time the host is asked to close it,
    /// from then on nothing is asked again.
    pub fn release(&mut self) -> (call: Option<Call>)
        ensures
            final(self).spec_raw() == old(self).spec_raw(),
            final(self).spec_released(),
            call == unsignalled(old(self).spec_released(), old(self).spec_raw()),
    {
        proof {
            use_type_invariant(&*self);
        }
        let first = !self.released;
        self.released = true;
        if first {
            Some(Call::CloseHandle { handle: self.raw })
        } else {
            None
        }
    }
}

/// The request that lets a signal go: none where it was let go before.
pub open spec fn unsignalled(released: bool, raw: usize) -> Option<Call> {
    if !released {
        Some(Call::CloseHandle { handle: raw })
    } else {
        None
    }
}

/// The states of a subscription.
#[derive(Clone, Copy, Debug, PartialEq, Eq, Structural)]
pub enum Phase {
    /// The session exists, the subscription does not yet.
    Unsubscribed,
    /// Nothing is known to be there: the next pull waits for the signal.
    WaitingForSignal,
    /// Events are available: the next pull reads without waiting.
    Draining,
    /// The session has ended.
    Closed,
}

/// The request of a subscription that is out to the host.
#[derive(Clone, Copy, Debug, PartialEq, Eq, Structural)]
pub enum Awaited {
    Nothing,
    /// The signal is being created.
    Signal,
    /// The subscription is being registered.
    Subscription,
    /// The session waits for the signal.
    Wait,
    /// An event is being pulled.
    Pull,
}

/// A subscription session as a plain value.
pub struct Subscription {
    pub phase: Phase,
    pub awaited: Awaited,
    /// The subscribe entry point.
    pub entry: usize,
    /// The query in its wide form.
    pub query: Seq<u16>,
    /// The signal, once the host has created it; it is never null.
    pub signal: Option<usize>,
    /// The subscription that is read from, once the host has given it.
    pub result_set: Option<usize>,
    /// Where the pull of an event stands.
    pub pull: Pull,
    /// The host's last error, where it could not create the signal or
    /// refused the subscription.
    pub rejected: Option<u32>,
}

impl Subscription {
    /// Events are currently available.
    pub open spec fn has_events(self) -> bool {
        self.phase == Phase::Draining
    }

    /// What holds of every session from the moment it is made: each state
    /// goes with the requests that can be out in it, a subscribed session
    /// has its signal, and a pull is in flight exactly while the session
    /// awaits its replies.
    pub open spec fn wf(self) -> bool {
        match self.phase {
            Phase::Unsubscribed => {
                &&& self.awaited == Awaited::Signal || self.awaited == Awaited::Subscription
                    || self.awaited == Awaited::Nothing
                &&& self.awaited == Awaited::Signal ==> self.signal is None
                &&& self.awaited == Awaited::Subscription ==> (self.signal matches Some(signal)
                    && signal != 0)
                &&& self.rejected is Some <==> self.awaited == Awaited::Nothing
                &&& self.result_set is None
                &&& self.pull == Pull::Idle
            },
            Phase::WaitingForSignal => {
                &&& self.awaited == Awaited::Nothing || self.awaited == Awaited::Wait
                &&& self.signal matches Some(signal) && signal != 0
                &&& self.result_set is Some
                &&& self.rejected is None
                &&& self.pull == Pull::Idle
            },
            Phase::Draining => {
                &&& self.awaited == Awaited::Nothing || self.awaited == Awaited::Pull
                &&& self.signal matches Some(signal) && signal != 0
                &&& self.result_set is Some
                &&& self.rejected is None
                &&& self.pull == Pull::Idle <==> self.awaited == Awaited::Nothing
            },
            Phase::Closed => {
                &&& self.awaited == Awaited::Nothing
                &&& self.signal is None
                &&& self.result_set is None
                &&& self.pull == Pull::Idle
            },
        }
    }
}

/// A pull of an event begins, the signal being set. Where nothing can be
/// asked of the host the pull ends with nothing and the session goes back
/// to waiting.
pub open spec fn drained(s: Subscription, registry: &Registry) -> (Subscription, Turn) {
    let (pull, turn) = begun(s.pull, s.result_set, registry);
    match turn {
        Turn::Call(_) => (Subscription { phase: Phase::Draining, awaited: Awaited::Pull, pull, ..s }, turn),
        Turn::Done(_) => (
            Subscription { phase: Phase::WaitingForSignal, awaited: Awaited::Nothing, ..s },
            Turn::Done(None),
        ),
    }
}

/// The next event is asked for. A session that waits for the signal asks
/// the host to wait, without a timeout; one that is draining pulls at once.
/// A session that is not subscribed, has ended, has no signal or has a
/// request out to the host gives nothing and stays as it is.
pub open spec fn started(s: Subscription, registry: &Registry) -> (Subscription, Turn) {
    if s.awaited != Awaited::Nothing {
        (s, Turn::Done(None))
    } else {
        match (s.phase, s.signal) {
            (Phase::WaitingForSignal, Some(signal)) => (
                Subscription { awaited: Awaited::Wait, ..s },
                Turn::Call(Request::Wait { signal, timeout: INFINITE }),
            ),
            (Phase::Draining, Some(_)) => drained(s, registry),
            _ => (s, Turn::Done(None)),
        }
    }
}

/// The session goes on with the host's reply to the request that is out.
///
/// Opening: the signal that the host created is bound to the subscription,
/// which starts at the oldest record. With the host's handle for it the
/// session waits for the signal. A null answer is never wrapped: where the
/// host gives no signal, no subscription is asked for, and where it gives
/// no subscription, none is read from; either way the opening has failed
/// with the host's last error, and the session stays unsubscribed.
///
/// Pulling: a wait that ends because the signal is set makes events
/// available and the pull begins; a pull that ends with an event keeps them
/// available, one that ends with nothing sends the session back to waiting.
pub open spec fn continued(s: Subscription, registry: &Registry, reply: Reply) -> (Subscription, Turn) {
    match s.awaited {
        Awaited::Nothing => (s, Turn::Done(None)),
        Awaited::Signal => if reply.raw() != 0 {
            (
                Subscription { awaited: Awaited::Subscription, signal: Some(reply.raw()), ..s },
                Turn::Call(
                    Request::Subscribe {
                        entry: s.entry,
                        signal: reply.raw(),
                        query: s.query,
                        flags: SUBSCRIBE_START_AT_OLDEST_RECORD,
                    },
                ),
            )
        } else {
            (
                Subscription {
                    awaited: Awaited::Nothing,
                    signal: None,
                    rejected: Some(reply.last_error()),
                    ..s
                },
                Turn::Done(None),
            )
        },
        Awaited::Subscription => if reply.raw() != 0 {
            (
                Subscription {
                    phase: Phase::WaitingForSignal,
                    awaited: Awaited::Nothing,
                    result_set: Some(reply.raw()),
                    pull: Pull::Idle,
                    ..s
                },
                Turn::Done(None),
            )
        } else {
            (
                Subscription {
                    awaited: Awaited::Nothing,
                    rejected: Some(reply.last_error()),
                    result_set: None,
                    pull: Pull::Idle,
                    ..s
                },
                Turn::Done(None),
            )
        },
        Awaited::Wait => if reply == (Reply::Waited { status: WAIT_OBJECT_0 }) {
            drained(Subscription { awaited: Awaited::Nothing, ..s }, registry)
        } else {
            (
                Subscription { phase: Phase::WaitingForSignal, awaited: Awaited::Nothing, ..s },
                Turn::Done(None),
            )
        },
        Awaited::Pull => {
            let (pull, turn) = resumed(s.pull, registry, reply);
            match turn {
                Turn::Call(_) => (Subscription { pull, ..s }, turn),
                Turn::Done(outcome) => (
                    Subscription {
                        phase: if outcome is Some {
                            Phase::Draining
                        } else {
                            Phase::WaitingForSignal
                        },
                        awaited: Awaited::Nothing,
                        pull,
                        ..s
                    },
                    turn,
                ),
            }
        },
    }
}

/// Every step keeps a session well-formed.
pub proof fn lemma_wf_kept(s: Subscription, registry: &Registry, reply: Reply)
    requires
        s.wf(),
    ensures
        started(s, registry).0.wf(),
        continued(s, registry, reply).0.wf(),
{
}

/// Events are available exactly when the last pull gave an event, or the
/// wait has just succeeded and the pull that follows it has not ended.
///
/// A pull that ends leaves the flag at whether it gave an event. A wait
/// that succeeds and a pull that goes on have the flag set. Asking for the
/// next event does not change the flag unless the pull ends at once.
pub proof fn lemma_events_available(s: Subscription, registry: &Registry, reply: Reply)
    requires
        s.wf(),
        s.phase == Phase::WaitingForSignal || s.phase == Phase::Draining,
    ensures
        match started(s, registry).1 {
            Turn::Done(outcome) => s.awaited == Awaited::Nothing ==> (started(
                s,
                registry,
            ).0.has_events() <==> outcome is Some),
            Turn::Call(_) => started(s, registry).0.has_events() == s.has_events(),
        },
        match continued(s, registry, reply).1 {
            Turn::Done(outcome) => s.awaited != Awaited::Nothing ==> (continued(
                s,
                registry,
                reply,
            ).0.has_events() <==> outcome is Some),
            Turn::Call(_) => continued(s, registry, reply).0.has_events(),
        },
{
}

/// The requests that end a subscription: what its pull and its result set
/// ask for, and only then the close of the signal, so that no subscription
/// outlives the signal it is bound to.
pub open spec fn ended(s: Subscription, registry: &Registry) -> Seq<Call> {
    torn_down(s.pull, s.result_set, registry) + match s.signal {
        Some(raw) => match unsignalled(false, raw) {
            Some(call) => seq![call],
            None => Seq::empty(),
        },
        None => Seq::empty(),
    }
}

/// A session that has ended asks nothing more of the host, however often
/// it is ended again.
pub proof fn lemma_ended_once(s: Subscription, registry: &Registry)
    requires
        s.wf(),
        s.phase == Phase::Closed,
    ensures
        ended(s, registry) == Seq::<Call>::empty(),
        started(s, registry) == (s, Turn::Done(None)),
{
}

/// A subscription to the event log.
#[derive(Debug)]
pub struct WinEventsSubscriber {
    signal: Option<HandleWrapper>,
    events: Option<WinEventsIntoIterator>,
    phase: Phase,
    awaited: Awaited,
    entry: usize,
    query: Vec<u16>,
    rejected: Option<u32>,
}

impl View for WinEventsSubscriber {
    type V = Subscription;

    closed spec fn view(&self) -> Subscription {
        Subscription {
            phase: self.phase,
            awaited: self.awaited,
            entry: self.entry,
            query: self.query@,
            signal: match self.signal {
                Some(handle) => if handle.spec_released() {
                    None
                } else {
                    Some(handle.spec_raw())
                },
                None => None,
            },
            result_set: match self.events {
                Some(events) => events.result_set(),
                None => None,
            },
            pull: match self.events {
                Some(events) => events.pull(),
                None => Pull::Idle,
            },
            rejected: self.rejected,
        }
    }
}

impl WinEventsSubscriber {
    /// Starts a subscription. Where the subscribe entry point is absent it
    /// fails at once. Else the session is made, not yet subscribed, and the
    /// host is asked for a manual-reset signal that is set from the start,
    /// so that the first wait returns at once and the backlog is drained;
    /// [`WinEventsSubscriber::resume`] takes its reply.
    pub fn get<T: IntoText>(registry: &Registry, query: T) -> (r: Result<
        (WinEventsSubscriber, Call),
        Error,
    >)
        ensures
            match registry.slot(Capability::Subscribe) {
                None => r matches Err(e) && e == Error::CapabilityUnavailable(Capability::Subscribe),
                Some(entry) => r matches Ok((session, call)) && call@ == (Request::CreateEvent {
                    manual_reset: true,
                    signaled: true,
                })
                    && session@ == (Subscription {
                    phase: Phase::Unsubscribed,
                    awaited: Awaited::Signal,
                    entry,
                    query: wide(query.text()),
                    signal: None,
                    result_set: None,
                    pull: Pull::Idle,
                    rejected: None,
                }),
            },
    {
        match registry.entry(Capability::Subscribe) {
            None => Err(Error::CapabilityUnavailable(Capability::Subscribe)),
            Some(entry) => {
                let text = query.into_text();
                let session = WinEventsSubscriber {
                    signal: None,
                    events: None,
                    phase: Phase::Unsubscribed,
                    awaited: Awaited::Signal,
                    entry,
                    query: to_wide(text.as_str()),
                    rejected: None,
                };
                Ok((session, Call::CreateEvent { manual_reset: true, signaled: true }))
            },
        }
    }

    /// Events are currently available: the next pull reads without waiting.
    pub fn has_events(&self) -> (flag: bool)
        ensures
            flag == self@.has_events(),
    {
        match self.phase {
            Phase::Draining => true,
            _ => false,
        }
    }

    /// Why the subscription could not be opened, where the host gave no
    /// signal or refused the subscription.
    pub fn error(&self) -> (error: Option<Error>)
        ensures
            error == match self@.rejected {
                Some(code) => Some(Error::QueryRejected(code)),
                None => None,
            },
    {
        match self.rejected {
            Some(code) => Some(Error::QueryRejected(code)),
            None => None,
        }
    }

    /// The state of the subscription.
    pub fn phase(&self) -> (phase: Phase)
        ensures
            phase == self@.phase,
    {
        self.phase
    }

    fn drain(&mut self, registry: &Registry) -> (step: Step<Option<Event>>)
        ensures
            (final(self)@, shown(step)) == drained(old(self)@, registry),
    {
        let step = match &mut self.events {
            Some(events) => events.next(registry),
            None => Step::Done(None),
        };
        match step {
            Step::Call(call) => {
                self.phase = Phase::Draining;
                self.awaited = Awaited::Pull;
                Step::Call(call)
            },
            Step::Done(_) => {
                self.phase = Phase::WaitingForSignal;
                self.awaited = Awaited::Nothing;
                Step::Done(None)
            },
        }
    }

    /// Asks for the next event: see [`started`].
    pub fn next(&mut self, registry: &Registry) -> (step: Step<Option<Event>>)
        ensures
            (final(self)@, shown(step)) == started(old(self)@, registry),
    {
        let idle = match self.awaited {
            Awaited::Nothing => true,
            _ => false,
        };
        let signal = match &self.signal {
            Some(handle) => if handle.released() {
                None
            } else {
                Some(handle.raw())
            },
            None => None,
        };
        if !idle {
            return Step::Done(None);
        }
        match (self.phase, signal) {
            (Phase::WaitingForSignal, Some(signal)) => {
                self.awaited = Awaited::Wait;
                Step::Call(Call::Wait { signal, timeout: INFINITE })
            },
            (Phase::Draining, Some(_)) => self.drain(registry),
            _ => Step::Done(None),
        }
    }

    /// Goes on with the host's reply: see [`continued`].
    pub fn resume(&mut self, registry: &Registry, reply: Reply) -> (step: Step<Option<Event>>)
        ensures
            (final(self)@, shown(step)) == continued(old(self)@, registry, reply),
    {
        match self.awaited {
            Awaited::Nothing => Step::Done(None),
            Awaited::Signal => {
                let (raw, last_error) = match reply {
                    Reply::Handle { raw, last_error } => (raw, last_error),
                    Reply::Rendered { last_error, .. } => (0, last_error),
                    _ => (0, 0),
                };
                match HandleWrapper::new(raw) {
                    Some(signal) => {
                        self.signal = Some(signal);
                        self.awaited = Awaited::Subscription;
                        let query = self.query.clone();
                        assert(query@ =~= self.query@);
                        Step::Call(
                            Call::Subscribe {
                                entry: self.entry,
                                signal: raw,
                                query,
                                flags: SUBSCRIBE_START_AT_OLDEST_RECORD,
                            },
                        )
                    },
                    None => {
                        self.signal = None;
                        self.awaited = Awaited::Nothing;
                        self.rejected = Some(last_error);
                        Step::Done(None)
                    },
                }
            },
            Awaited::Subscription => {
                let (raw, last_error) = match reply {
                    Reply::Handle { raw, last_error } => (raw, last_error),
                    Reply::Rendered { last_error, .. } => (0, last_error),
                    _ => (0, 0),
                };
                self.awaited = Awaited::Nothing;
                if raw != 0 {
                    self.events = Some(WinEvents::new(raw).into_iter());
                    self.phase = Phase::WaitingForSignal;
                } else {
                    self.events = None;
                    self.rejected = Some(last_error);
                }
                Step::Done(None)
            },
            Awaited::Wait => {
                let set = match reply {
                    Reply::Waited { status } => status == WAIT_OBJECT_0,
                    _ => false,
                };
                self.awaited = Awaited::Nothing;
                if set {
                    self.drain(registry)
                } else {
                    self.phase = Phase::WaitingForSignal;
                    Step::Done(None)
                }
            },
            Awaited::Pull => {
                let step = match &mut self.events {
                    Some(events) => events.resume(registry, reply),
                    None => Step::Done(None),
                };
                match step {
                    Step::Call(call) => Step::Call(call),
                    Step::Done(outcome) => {
                        self.phase = if outcome.is_some() {
                            Phase::Draining
                        } else {
                            Phase::WaitingForSignal
                        };
                        self.awaited = Awaited::Nothing;
                        Step::Done(outcome)
                    },
                }
            },
        }
    }

    /// Ends the session: see [`ended`]. Each handle is closed once at most;
    /// a session that has ended asks for nothing more.
    pub fn close(&mut self, registry: &Registry) -> (calls: Vec<Call>)
        ensures
            calls@ == ended(old(self)@, registry),
            final(self)@ == (Subscription {
                phase: Phase::Closed,
                awaited: Awaited::Nothing,
                signal: None,
                result_set: None,
                pull: Pull::Idle,
                ..old(self)@
            }),
    {
        let mut calls = match &mut self.events {
            Some(events) => events.close(registry),
            None => Vec::new(),
        };
        let signal = match &mut self.signal {
            Some(handle) => if handle.released() {
                None
            } else {
                handle.release()
            },
            None => None,
        };
        if let Some(call) = signal {
            calls.push(call);
        }
        self.phase = Phase::Closed;
        self.awaited = Awaited::Nothing;
        assert(calls@ =~= ended(old(self)@, registry));
        calls
    }
}

} // verus!
