//! Queries against the event log: entry points, owned handles, the result
//! cursor and the renderer.

use vstd::prelude::*;
use vstd::string::StringExecFns;
use crate::host::{Call, Reply, Request, Step, ERROR_INSUFFICIENT_BUFFER, QUERY_FLAGS, RENDER_EVENT_XML};
use crate::registry::{Capability, Registry};
use crate::text::{decimal, push_decimal, IntoText};
use crate::wide::{decode, encode, from_wide, lemma_decode_keeps_length, to_wide, wide};

verus! {

/// A resolved entry point of the event subsystem: which operation it is, and
/// the address at which the system library exports it.
#[derive(Clone, Copy, Debug, PartialEq, Eq, Structural)]
pub enum EvtApi {
    Close(usize),
    Next(usize),
    Query(usize),
    Render(usize),
    Subscribe(usize),
}

impl EvtApi {
    /// The entry point of a capability at an address.
    pub open spec fn at(capability: Capability, address: usize) -> EvtApi {
        match capability {
            Capability::Close => EvtApi::Close(address),
            Capability::Next => EvtApi::Next(address),
            Capability::Query => EvtApi::Query(address),
            Capability::Render => EvtApi::Render(address),
            Capability::Subscribe => EvtApi::Subscribe(address),
        }
    }

    /// Which operation the entry point performs.
    pub open spec fn spec_capability(&self) -> Capability {
        match *self {
            EvtApi::Close(_) => Capability::Close,
            EvtApi::Next(_) => Capability::Next,
            EvtApi::Query(_) => Capability::Query,
            EvtApi::Render(_) => Capability::Render,
            EvtApi::Subscribe(_) => Capability::Subscribe,
        }
    }

    /// The address of the entry point.
    pub open spec fn spec_entry(&self) -> usize {
        match *self {
            EvtApi::Close(a) => a,
            EvtApi::Next(a) => a,
            EvtApi::Query(a) => a,
            EvtApi::Render(a) => a,
            EvtApi::Subscribe(a) => a,
        }
    }

    /// The entry point of a capability at an address.
    pub fn new(capability: Capability, address: usize) -> (api: EvtApi)
        ensures
            api == EvtApi::at(capability, address),
    {
        match capability {
            Capability::Close => EvtApi::Close(address),
            Capability::Next => EvtApi::Next(address),
            Capability::Query => EvtApi::Query(address),
            Capability::Render => EvtApi::Render(address),
            Capability::Subscribe => EvtApi::Subscribe(address),
        }
    }

    /// Which operation the entry point performs.
    #[verifier::when_used_as_spec(spec_capability)]
    pub fn capability(&self) -> (c: Capability)
        ensures
            c == self.spec_capability(),
    {
        match self {
            EvtApi::Close(_) => Capability::Close,
            EvtApi::Next(_) => Capability::Next,
            EvtApi::Query(_) => Capability::Query,
            EvtApi::Render(_) => Capability::Render,
            EvtApi::Subscribe(_) => Capability::Subscribe,
        }
    }

    /// The address of the entry point.
    #[verifier::when_used_as_spec(spec_entry)]
    pub fn entry(&self) -> (a: usize)
        ensures
            a == self.spec_entry(),
    {
        match self {
            EvtApi::Close(a) => *a,
            EvtApi::Next(a) => *a,
            EvtApi::Query(a) => *a,
            EvtApi::Render(a) => *a,
            EvtApi::Subscribe(a) => *a,
        }
    }
}

/// Why a session could not be opened.
#[derive(Clone, Copy, Debug, PartialEq, Eq, Structural)]
pub enum Error {
    /// An entry point that the operation needs was not resolved. This does
    /// not change while the process runs.
    CapabilityUnavailable(Capability),
    /// The host refused the query, or gave no handle that the session
    /// needs; the code is the host's last error.
    QueryRejected(u32),
}

impl Error {
    /// The error in words.
    pub open spec fn text(self) -> Seq<char> {
        match self {
            Error::CapabilityUnavailable(capability) => capability.symbol_text()
                + " API is not available"@,
            Error::QueryRejected(code) => "There was an error processing the query: "@ + decimal(
                code as nat,
            ),
        }
    }

    /// The error in words.
    pub fn message(&self) -> (s: String)
        ensures
            s@ == self.text(),
    {
        match self {
            Error::CapabilityUnavailable(capability) => {
                let mut s = String::from_str(capability.symbol());
                s.append(" API is not available");
                s
            },
            Error::QueryRejected(code) => {
                let mut s = String::from_str("There was an error processing the query: ");
                push_decimal(&mut s, *code as u64);
                s
            },
        }
    }
}

/// The owner of one handle of the event subsystem. It holds a handle that is
/// not null, and asks for it to be closed once at most.
#[derive(Debug)]
pub struct EvtHandleWrapper {
    raw: usize,
    released: bool,
}

impl EvtHandleWrapper {
    #[verifier::type_invariant]
    spec fn not_null(self) -> bool {
        self.raw != 0
    }

    /// The handle that is owned.
    pub closed spec fn spec_raw(&self) -> usize {
        self.raw
    }

    /// Whether the owner has already been asked to let the handle go.
    pub closed spec fn spec_released(&self) -> bool {
        self.released
    }

    /// Wraps the result of a host call; a null result is never wrapped.
    pub fn new(raw: usize) -> (handle: Option<EvtHandleWrapper>)
        ensures
            handle is Some <==> raw != 0,
            handle matches Some(h) ==> (h.spec_raw() == raw && !h.spec_released()),
    {
        if raw != 0 {
            Some(EvtHandleWrapper { raw, released: false })
        } else {
            None
        }
    }

    /// The handle that is owned; it is not null.
    #[verifier::when_used_as_spec(spec_raw)]
    pub fn raw(&self) -> (raw: usize)
        ensures
            raw == self.spec_raw(),
            raw != 0,
    {
        proof {
            use_type_invariant(self);
        }
        self.raw
    }

    /// Whether the owner has already been asked to let the handle go.
    #[verifier::when_used_as_spec(spec_released)]
    pub fn released(&self) -> (released: bool)
        ensures
            released == self.spec_released(),
    {
        self.released
    }

    /// Lets the handle go. The first time, and only where the close entry
    /// point was resolved, the host is asked to close it; where it was not,
    /// the handle is leaked. From then on nothing is asked again.
    pub fn release(&mut self, registry: &Registry) -> (call: Option<Call>)
        ensures
            final(self).spec_raw() == old(self).spec_raw(),
            final(self).spec_released(),
            call == closing(old(self).spec_released(), old(self).spec_raw(), registry),
    {
        proof {
            use_type_invariant(&*self);
        }
        let first = !self.released;
        self.released = true;
        match registry.entry(Capability::Close) {
            Some(entry) => if first {
                Some(Call::Close { entry, handle: self.raw })
            } else {
                None
            },
            None => None,
        }
    }
}

/// The request that lets a handle go: none where it was let go before or
/// the close entry point is absent.
pub open spec fn closing(released: bool, raw: usize, registry: &Registry) -> Option<Call> {
    match registry.slot(Capability::Close) {
        Some(entry) => if !released {
            Some(Call::Close { entry, handle: raw })
        } else {
            None
        },
        None => None,
    }
}

/// One record of the log, as the text that the subsystem renders for it.
#[derive(Debug)]
pub struct Event(String);

impl View for Event {
    type V = Seq<char>;

    closed spec fn view(&self) -> Seq<char> {
        self.0@
    }
}

impl Event {
    /// An event with the given rendered text.
    pub fn new(text: String) -> (event: Event)
        ensures
            event@ == text@,
    {
        Event(text)
    }

    /// The rendered text.
    pub fn as_str(&self) -> (s: &str)
        ensures
            s@ == self@,
    {
        self.0.as_str()
    }

    /// A copy of the rendered text.
    pub fn to_string(&self) -> (s: String)
        ensures
            s@ == self@,
    {
        self.0.clone()
    }
}

/// The first entry point that a query needs and the registry lacks, in the
/// order query, next, render.
pub open spec fn missing(registry: &Registry) -> Option<Capability> {
    if registry.slot(Capability::Query) is None {
        Some(Capability::Query)
    } else if registry.slot(Capability::Next) is None {
        Some(Capability::Next)
    } else if registry.slot(Capability::Render) is None {
        Some(Capability::Render)
    } else {
        None
    }
}

/// An open query: the cursor over its result set. It holds the handle of
/// the result set, or nothing where there is none to read from.
#[derive(Debug)]
pub struct WinEvents {
    handle: Option<EvtHandleWrapper>,
}

impl WinEvents {
    /// The handle of the result set that is read from, if there is one.
    pub closed spec fn result_set(&self) -> Option<usize> {
        match self.handle {
            Some(h) => if h.spec_released() {
                None
            } else {
                Some(h.spec_raw())
            },
            None => None,
        }
    }

    /// Starts a query against the event log. Where the query, next or
    /// render entry point is absent, it ends at once with the first one
    /// that is missing. Else the host is asked to open the query, with the
    /// text in its wide form; [`WinEvents::opened`] takes its reply.
    pub fn get<T: IntoText>(registry: &Registry, query: T) -> (step: Step<Result<WinEvents, Error>>)
        ensures
            match missing(registry) {
                Some(capability) => step matches Step::Done(Err(e)) && e
                    == Error::CapabilityUnavailable(capability),
                None => step matches Step::Call(Call::Query { entry, query: q, flags })
                    && registry.slot(Capability::Query) == Some(entry) && q@ == wide(query.text())
                    && flags == QUERY_FLAGS,
            },
    {
        match registry.entry(Capability::Query) {
            None => Step::Done(Err(Error::CapabilityUnavailable(Capability::Query))),
            Some(entry) => {
                if registry.entry(Capability::Next).is_none() {
                    Step::Done(Err(Error::CapabilityUnavailable(Capability::Next)))
                } else if registry.entry(Capability::Render).is_none() {
                    Step::Done(Err(Error::CapabilityUnavailable(Capability::Render)))
                } else {
                    let text = query.into_text();
                    Step::Call(Call::Query { entry, query: to_wide(text.as_str()), flags: QUERY_FLAGS })
                }
            },
        }
    }

    /// Ends the opening of a query with the host's reply: the session where
    /// the host gave a handle, else the host's last error.
    pub fn opened(reply: Reply) -> (r: Result<WinEvents, Error>)
        ensures
            reply.raw() != 0 ==> (r matches Ok(events) && events.result_set() == Some(reply.raw())),
            reply.raw() == 0 ==> (r matches Err(e) && e == Error::QueryRejected(reply.last_error())),
    {
        match reply {
            Reply::Handle { raw, last_error } => match EvtHandleWrapper::new(raw) {
                Some(handle) => Ok(WinEvents { handle: Some(handle) }),
                None => Err(Error::QueryRejected(last_error)),
            },
            Reply::Rendered { last_error, .. } => Err(Error::QueryRejected(last_error)),
            _ => Err(Error::QueryRejected(0)),
        }
    }

    /// A cursor over an existing result set. A null handle is not wrapped:
    /// the cursor then has nothing to read from.
    pub fn new(handle: usize) -> (events: WinEvents)
        ensures
            events.result_set() == if handle != 0 {
                Some(handle)
            } else {
                None
            },
    {
        WinEvents { handle: EvtHandleWrapper::new(handle) }
    }

    /// Starts the fetch of the next result. Without a result set or without
    /// the next entry point there is none; else the host is asked for one
    /// result, and [`WinEvents::fetched`] takes its reply.
    pub fn next(&self, registry: &Registry) -> (step: Step<Option<EvtHandleWrapper>>)
        ensures
            step == fetching(self.result_set(), registry),
    {
        match &self.handle {
            Some(handle) => {
                if handle.released() {
                    Step::Done(None)
                } else {
                    match registry.entry(Capability::Next) {
                        Some(entry) => Step::Call(
                            Call::Next { entry, result_set: handle.raw(), count: 1, timeout: 0, flags: 0 },
                        ),
                        None => Step::Done(None),
                    }
                }
            },
            None => Step::Done(None),
        }
    }

    /// Ends a fetch with the host's reply: the result where the call
    /// succeeded and the host reports that one came, nothing else. Nothing
    /// is kept from one fetch to the next.
    pub fn fetched(reply: &Reply) -> (result: Option<EvtHandleWrapper>)
        ensures
            result is Some <==> produced(*reply) != 0,
            result matches Some(h) ==> (h.spec_raw() == produced(*reply) && !h.spec_released()),
    {
        match reply {
            Reply::Fetched { ok, returned, handle } => if *ok && *returned == 1 {
                EvtHandleWrapper::new(*handle)
            } else {
                None
            },
            _ => None,
        }
    }

    /// The events of the query, rendered one by one.
    pub fn into_iter(self) -> (events: WinEventsIntoIterator)
        ensures
            events.result_set() == self.result_set(),
            events.pull() == Pull::Idle,
    {
        WinEventsIntoIterator { win_events: self, stage: Stage::Idle }
    }

    /// Lets the result set go: see [`EvtHandleWrapper::release`]. The cursor
    /// has nothing to read from afterwards.
    pub fn close(&mut self, registry: &Registry) -> (call: Option<Call>)
        ensures
            final(self).result_set() is None,
            call == match old(self).result_set() {
                Some(raw) => closing(false, raw, registry),
                None => None,
            },
    {
        let call = match &mut self.handle {
            Some(handle) => handle.release(registry),
            None => None,
        };
        call
    }
}

/// The request for the next result of a result set: one result, without
/// waiting. Where there is no result set or no entry point the fetch ends
/// at once with nothing.
pub open spec fn fetching(result_set: Option<usize>, registry: &Registry) -> Step<
    Option<EvtHandleWrapper>,
> {
    match (result_set, registry.slot(Capability::Next)) {
        (Some(raw), Some(entry)) => Step::Call(
            Call::Next { entry, result_set: raw, count: 1, timeout: 0, flags: 0 },
        ),
        _ => Step::Done(None),
    }
}

/// The handle that a fetch produced: null unless the call succeeded and
/// the host reports one result.
pub open spec fn produced(reply: Reply) -> usize {
    match reply {
        Reply::Fetched { ok, returned, handle } => if ok && returned == 1 {
            handle
        } else {
            0
        },
        _ => 0,
    }
}

/// Where the pull of one event stands.
pub enum Pull {
    /// No pull is in flight.
    Idle,
    /// The host is asked for the next result.
    Fetching,
    /// The host is asked for the size that the result takes when rendered.
    Probing { event: usize, entry: usize },
    /// The host is asked to render the result into a buffer of this size.
    Filling { event: usize, size: u32 },
    /// The host is asked to close the result; the pull ends with this text.
    Closing { outcome: Option<Seq<char>> },
}

/// What a pull does next: a request to the host, or its end with the text
/// of the event, if one came and could be rendered.
pub enum Turn {
    Call(Request),
    Done(Option<Seq<char>>),
}

/// A step of a pull as the turn that it stands for.
pub open spec fn shown(step: Step<Option<Event>>) -> Turn {
    match step {
        Step::Call(call) => Turn::Call(call@),
        Step::Done(Some(event)) => Turn::Done(Some(event@)),
        Step::Done(None) => Turn::Done(None),
    }
}

/// A pull lets its result go and ends with `outcome`. Where the close entry
/// point is absent the result is leaked and the pull ends at once.
pub open spec fn let_go(event: usize, outcome: Option<Seq<char>>, registry: &Registry) -> (
    Pull,
    Turn,
) {
    match registry.slot(Capability::Close) {
        Some(entry) => (Pull::Closing { outcome }, Turn::Call(Request::Close { entry, handle: event })),
        None => (Pull::Idle, Turn::Done(outcome)),
    }
}

/// A pull begins: the host is asked for the next result, unless a pull is
/// in flight already or nothing can be asked.
pub open spec fn begun(pull: Pull, result_set: Option<usize>, registry: &Registry) -> (Pull, Turn) {
    match (pull, fetching(result_set, registry)) {
        (Pull::Idle, Step::Call(call)) => (Pull::Fetching, Turn::Call(call@)),
        _ => (pull, Turn::Done(None)),
    }
}

/// The size that a probe reports: the host must fail the call for want of a
/// buffer; any other outcome reports nothing.
pub open spec fn sized(reply: Reply) -> Option<u32> {
    match reply {
        Reply::Rendered { ok, last_error, used, .. } => if !ok && last_error
            == ERROR_INSUFFICIENT_BUFFER {
            Some(used)
        } else {
            None
        },
        _ => None,
    }
}

/// The text that the second render call gives: the whole buffer, decoded,
/// where the call succeeded on a buffer of exactly the probed size; nothing
/// else, so that no partly filled buffer is ever shown. This holds of every
/// size: for the size zero a call that succeeds gives the empty text, and a
/// call that fails gives nothing, as for any other size.
pub open spec fn filled(size: u32, reply: Reply) -> Option<Seq<char>> {
    match reply {
        Reply::Rendered { ok, buffer, .. } => if ok && buffer@.len() == size {
            Some(decode(buffer@))
        } else {
            None
        },
        _ => None,
    }
}

/// A rendered text is never shorter than the size that the probe reported:
/// written as wide characters again it takes up exactly that many units.
pub proof fn lemma_rendered_size(size: u32, reply: Reply)
    ensures
        filled(size, reply) matches Some(text) ==> encode(text).len() == size,
{
    if let Reply::Rendered { buffer, .. } = reply {
        lemma_decode_keeps_length(buffer@);
    }
}

/// A probe that reports a size is followed by exactly one more render call:
/// for the same result, at the same entry point, with a buffer of exactly
/// that size, zero included. Whatever the host answers to it, no third
/// render call follows: the pull lets its result go and ends.
pub proof fn lemma_one_fill(event: usize, entry: usize, registry: &Registry, probe: Reply, fill: Reply)
    requires
        sized(probe) is Some,
    ensures
        resumed(Pull::Probing { event, entry }, registry, probe) == (
            Pull::Filling { event, size: sized(probe)->0 },
            Turn::Call(
                Request::Render {
                    entry,
                    event,
                    flags: RENDER_EVENT_XML,
                    size: sized(probe)->0,
                    buffer: true,
                },
            ),
        ),
        resumed(Pull::Filling { event, size: sized(probe)->0 }, registry, fill) == let_go(
            event,
            filled(sized(probe)->0, fill),
            registry,
        ),
        !(let_go(event, filled(sized(probe)->0, fill), registry).1 matches Turn::Call(
            Request::Render { .. },
        )),
{
}

/// A fill of size zero ends with the empty text, not with nothing, where
/// the call succeeds on the empty buffer; where it fails it ends with
/// nothing, as a fill of any size does.
pub proof fn lemma_fill_of_nothing(reply: Reply)
    ensures
        filled(0, reply) == match reply {
            Reply::Rendered { ok, buffer, .. } => if ok && buffer@.len() == 0 {
                Some(Seq::<char>::empty())
            } else {
                None
            },
            _ => None,
        },
{
    if let Reply::Rendered { buffer, .. } = reply {
        if buffer@.len() == 0 {
            assert(decode(buffer@) =~= Seq::<char>::empty());
        }
    }
}

/// A pull goes on with the host's reply to its last request.
///
/// The result that was fetched is rendered in two calls. The first passes
/// no buffer and must fail with the size that is needed; any other outcome
/// ends the pull with nothing. The second call passes a buffer of exactly
/// that size, whatever the size, and must succeed; its text is the whole
/// buffer, decoded, and a failure ends the pull with nothing. Whatever the
/// outcome, the result is let go before the pull ends.
pub open spec fn resumed(pull: Pull, registry: &Registry, reply: Reply) -> (Pull, Turn) {
    match pull {
        Pull::Idle => (Pull::Idle, Turn::Done(None)),
        Pull::Fetching => if produced(reply) != 0 {
            match registry.slot(Capability::Render) {
                Some(entry) => (
                    Pull::Probing { event: produced(reply), entry },
                    Turn::Call(
                        Request::Render {
                            entry,
                            event: produced(reply),
                            flags: RENDER_EVENT_XML,
                            size: 0,
                            buffer: false,
                        },
                    ),
                ),
                None => let_go(produced(reply), None, registry),
            }
        } else {
            (Pull::Idle, Turn::Done(None))
        },
        Pull::Probing { event, entry } => match sized(reply) {
            Some(size) => (
                Pull::Filling { event, size },
                Turn::Call(
                    Request::Render { entry, event, flags: RENDER_EVENT_XML, size, buffer: true },
                ),
            ),
            None => let_go(event, None, registry),
        },
        Pull::Filling { event, size } => let_go(event, filled(size, reply), registry),
        Pull::Closing { outcome } => (Pull::Idle, Turn::Done(outcome)),
    }
}

#[derive(Debug)]
enum Stage {
    Idle,
    Fetching,
    Probing(EvtHandleWrapper, usize),
    Filling(EvtHandleWrapper, u32),
    Closing(Option<Event>),
}

/// The events of a query, one pull at a time.
#[derive(Debug)]
pub struct WinEventsIntoIterator {
    win_events: WinEvents,
    stage: Stage,
}

impl WinEventsIntoIterator {
    /// The handle of the result set that is read from, if there is one.
    pub closed spec fn result_set(&self) -> Option<usize> {
        self.win_events.result_set()
    }

    /// Where the pull stands.
    pub closed spec fn pull(&self) -> Pull {
        staged(self.stage)
    }

    #[verifier::type_invariant]
    spec fn holds_result(self) -> bool {
        held(self.stage)
    }

    /// Starts a pull: see [`begun`]. [`WinEventsIntoIterator::resume`] takes
    /// the host's replies until the pull is done.
    pub fn next(&mut self, registry: &Registry) -> (step: Step<Option<Event>>)
        ensures
            final(self).result_set() == old(self).result_set(),
            (final(self).pull(), shown(step)) == begun(old(self).pull(), old(self).result_set(), registry),
    {
        let idle = match &self.stage {
            Stage::Idle => true,
            _ => false,
        };
        if idle {
            match self.win_events.next(registry) {
                Step::Call(call) => {
                    self.stage = Stage::Fetching;
                    Step::Call(call)
                },
                Step::Done(_) => Step::Done(None),
            }
        } else {
            Step::Done(None)
        }
    }

    /// Goes on with a pull: see [`resumed`].
    pub fn resume(&mut self, registry: &Registry, reply: Reply) -> (step: Step<Option<Event>>)
        ensures
            final(self).result_set() == old(self).result_set(),
            (final(self).pull(), shown(step)) == resumed(old(self).pull(), registry, reply),
    {
        proof {
            use_type_invariant(&*self);
        }
        let mut stage = Stage::Idle;
        core::mem::swap(&mut self.stage, &mut stage);
        let (next, step) = match stage {
            Stage::Idle => (Stage::Idle, Step::Done(None)),
            Stage::Fetching => match WinEvents::fetched(&reply) {
                Some(handle) => match registry.entry(Capability::Render) {
                    Some(entry) => {
                        let event = handle.raw();
                        (
                            Stage::Probing(handle, entry),
                            Step::Call(
                                Call::Render {
                                    entry,
                                    event,
                                    flags: RENDER_EVENT_XML,
                                    size: 0,
                                    buffer: false,
                                },
                            ),
                        )
                    },
                    None => Self::let_go(handle, None, registry),
                },
                None => (Stage::Idle, Step::Done(None)),
            },
            Stage::Probing(handle, entry) => match reply {
                Reply::Rendered { ok, last_error, used, .. } => {
                    if !ok && last_error == ERROR_INSUFFICIENT_BUFFER {
                        let event = handle.raw();
                        (
                            Stage::Filling(handle, used),
                            Step::Call(
                                Call::Render {
                                    entry,
                                    event,
                                    flags: RENDER_EVENT_XML,
                                    size: used,
                                    buffer: true,
                                },
                            ),
                        )
                    } else {
                        Self::let_go(handle, None, registry)
                    }
                },
                _ => Self::let_go(handle, None, registry),
            },
            Stage::Filling(handle, size) => match reply {
                Reply::Rendered { ok, buffer, .. } => {
                    if ok && buffer.len() == size as usize {
                        Self::let_go(handle, Some(Event::new(from_wide(&buffer))), registry)
                    } else {
                        Self::let_go(handle, None, registry)
                    }
                },
                _ => Self::let_go(handle, None, registry),
            },
            Stage::Closing(outcome) => (Stage::Idle, Step::Done(outcome)),
        };
        self.stage = next;
        step
    }

    /// Ends the session: the result that a pull holds is let go first, then
    /// the result set. Each is closed once at most; a second call asks for
    /// nothing.
    pub fn close(&mut self, registry: &Registry) -> (calls: Vec<Call>)
        ensures
            final(self).result_set() is None,
            final(self).pull() == Pull::Idle,
            calls@ == torn_down(old(self).pull(), old(self).result_set(), registry),
    {
        proof {
            use_type_invariant(&*self);
        }
        let mut calls: Vec<Call> = Vec::new();
        let mut stage = Stage::Idle;
        core::mem::swap(&mut self.stage, &mut stage);
        let held = match stage {
            Stage::Probing(mut handle, _) => handle.release(registry),
            Stage::Filling(mut handle, _) => handle.release(registry),
            _ => None,
        };
        if let Some(call) = held {
            calls.push(call);
        }
        let mut events = WinEvents { handle: None };
        core::mem::swap(&mut self.win_events, &mut events);
        if let Some(call) = events.close(registry) {
            calls.push(call);
        }
        assert(calls@ =~= torn_down(old(self).pull(), old(self).result_set(), registry));
        calls
    }

    fn let_go(mut handle: EvtHandleWrapper, outcome: Option<Event>, registry: &Registry) -> (r: (
        Stage,
        Step<Option<Event>>,
    ))
        requires
            !handle.spec_released(),
        ensures
            held(r.0),
            staged(r.0) == let_go(handle.spec_raw(), told(outcome), registry).0,
            shown(r.1) == let_go(handle.spec_raw(), told(outcome), registry).1,
    {
        match handle.release(registry) {
            Some(call) => (Stage::Closing(outcome), Step::Call(call)),
            None => (Stage::Idle, Step::Done(outcome)),
        }
    }
}

/// The result that a pull holds while it is rendered.
pub open spec fn in_flight(pull: Pull) -> Option<usize> {
    match pull {
        Pull::Probing { event, .. } => Some(event),
        Pull::Filling { event, .. } => Some(event),
        _ => None,
    }
}

/// The request that lets a handle go, if there is a handle, as a sequence
/// of one or none.
pub open spec fn asked(handle: Option<usize>, registry: &Registry) -> Seq<Call> {
    match handle {
        Some(raw) => match closing(false, raw, registry) {
            Some(call) => seq![call],
            None => Seq::empty(),
        },
        None => Seq::empty(),
    }
}

/// The requests that end a session: for the result in flight, then for the
/// result set.
pub open spec fn torn_down(pull: Pull, result_set: Option<usize>, registry: &Registry) -> Seq<Call> {
    asked(in_flight(pull), registry) + asked(result_set, registry)
}

/// A handle is closed once at most: once it was let go, letting it go again
/// asks nothing of the host, whatever the registry holds.
pub proof fn lemma_release_once(raw: usize, registry: &Registry)
    ensures
        closing(true, raw, registry) is None,
{
}

/// Once a session has ended, ending it again asks nothing of the host.
pub proof fn lemma_torn_down_once(registry: &Registry)
    ensures
        torn_down(Pull::Idle, None, registry) == Seq::<Call>::empty(),
{
}

/// A pull on which the host reports no result ends with nothing and leaves
/// the session as it was: idle, on the same result set. So every further
/// pull ends with nothing as well, for as long as the host reports none;
/// nothing that was read comes back.
pub proof fn lemma_exhausted(result_set: Option<usize>, registry: &Registry, reply: Reply)
    requires
        produced(reply) == 0,
    ensures
        match begun(Pull::Idle, result_set, registry) {
            (pull, Turn::Call(_)) => pull == Pull::Fetching && resumed(pull, registry, reply) == (
                Pull::Idle,
                Turn::Done(None),
            ),
            (pull, Turn::Done(outcome)) => pull == Pull::Idle && outcome is None,
        },
{
}

/// The text of an event that may be there.
pub open spec fn told(outcome: Option<Event>) -> Option<Seq<char>> {
    match outcome {
        Some(event) => Some(event@),
        None => None,
    }
}

spec fn held(stage: Stage) -> bool {
    match stage {
        Stage::Probing(handle, _) => !handle.spec_released(),
        Stage::Filling(handle, _) => !handle.spec_released(),
        _ => true,
    }
}

spec fn staged(stage: Stage) -> Pull {
    match stage {
        Stage::Idle => Pull::Idle,
        Stage::Fetching => Pull::Fetching,
        Stage::Probing(handle, entry) => Pull::Probing { event: handle.spec_raw(), entry },
        Stage::Filling(handle, size) => Pull::Filling { event: handle.spec_raw(), size },
        Stage::Closing(Some(event)) => Pull::Closing { outcome: Some(event@) },
        Stage::Closing(None) => Pull::Closing { outcome: None },
    }
}

} // verus!
