//! The conversation with the host.
//!
//! Nothing in this crate calls the operating system. An operation that needs
//! the host returns a [`Call`], the caller performs it and resumes the
//! operation with the [`Reply`]. Handles and entry points travel as plain
//! pointer-sized numbers; zero stands for null.

use vstd::prelude::*;

verus! {

/// Query flag: the path names a channel.
pub const QUERY_CHANNEL_PATH: u32 = 0x1;

/// Query flag: results come oldest first.
pub const QUERY_FORWARD_DIRECTION: u32 = 0x100;

/// The flags of every query: a channel path, read oldest first.
pub const QUERY_FLAGS: u32 = 0x101;

/// The flags of a query are the two query flags together.
pub proof fn lemma_query_flags()
    ensures
        QUERY_FLAGS == QUERY_CHANNEL_PATH | QUERY_FORWARD_DIRECTION,
{
    assert(0x101u32 == 0x1u32 | 0x100u32) by (bit_vector);
}

/// Render flag: render the event as XML.
pub const RENDER_EVENT_XML: u32 = 1;

/// Subscribe flag: start with the oldest record of the channel.
pub const SUBSCRIBE_START_AT_OLDEST_RECORD: u32 = 2;

/// The error code with which a probe reports the size it needs.
pub const ERROR_INSUFFICIENT_BUFFER: u32 = 122;

/// The wait status of a signal that is set.
pub const WAIT_OBJECT_0: u32 = 0;

/// The timeout of a wait that never gives up.
pub const INFINITE: u32 = 0xFFFF_FFFF;

/// One request to the host.
#[derive(Debug, PartialEq, Eq)]
pub enum Call {
    /// Open a query: session and path are null.
    Query { entry: usize, query: Vec<u16>, flags: u32 },
    /// Fetch up to `count` results, waiting `timeout` milliseconds for them.
    Next { entry: usize, result_set: usize, count: u32, timeout: u32, flags: u32 },
    /// Render a result, with no context. With `buffer` set, a buffer of
    /// exactly `size` units is passed, and `size` as its length; else the
    /// buffer is null and `size` is zero.
    Render { entry: usize, event: usize, flags: u32, size: u32, buffer: bool },
    /// Close a handle of the event subsystem.
    Close { entry: usize, handle: usize },
    /// Create a signal without a name: one that stays set until it is
    /// reset by hand, or not, and that is set from the start, or not.
    CreateEvent { manual_reset: bool, signaled: bool },
    /// Subscribe with a signal: session, channel, bookmark, context and
    /// callback are null.
    Subscribe { entry: usize, signal: usize, query: Vec<u16>, flags: u32 },
    /// Wait for the signal, `timeout` milliseconds at most.
    Wait { signal: usize, timeout: u32 },
    /// Close a signal.
    CloseHandle { handle: usize },
}

/// A request to the host as a plain value: a [`Call`] with its query as a
/// sequence of units.
pub enum Request {
    Query { entry: usize, query: Seq<u16>, flags: u32 },
    Next { entry: usize, result_set: usize, count: u32, timeout: u32, flags: u32 },
    Render { entry: usize, event: usize, flags: u32, size: u32, buffer: bool },
    Close { entry: usize, handle: usize },
    CreateEvent { manual_reset: bool, signaled: bool },
    Subscribe { entry: usize, signal: usize, query: Seq<u16>, flags: u32 },
    Wait { signal: usize, timeout: u32 },
    CloseHandle { handle: usize },
}

impl View for Call {
    type V = Request;

    open spec fn view(&self) -> Request {
        match *self {
            Call::Query { entry, query, flags } => Request::Query { entry, query: query@, flags },
            Call::Next { entry, result_set, count, timeout, flags } => Request::Next {
                entry,
                result_set,
                count,
                timeout,
                flags,
            },
            Call::Render { entry, event, flags, size, buffer } => Request::Render {
                entry,
                event,
                flags,
                size,
                buffer,
            },
            Call::Close { entry, handle } => Request::Close { entry, handle },
            Call::CreateEvent { manual_reset, signaled } => Request::CreateEvent {
                manual_reset,
                signaled,
            },
            Call::Subscribe { entry, signal, query, flags } => Request::Subscribe {
                entry,
                signal,
                query: query@,
                flags,
            },
            Call::Wait { signal, timeout } => Request::Wait { signal, timeout },
            Call::CloseHandle { handle } => Request::CloseHandle { handle },
        }
    }
}

impl Clone for Call {
    fn clone(&self) -> (r: Self)
        ensures
            r@ == self@,
    {
        match self {
            Call::Query { entry, query, flags } => {
                let copy = query.clone();
                assert(copy@ =~= query@);
                Call::Query { entry: *entry, query: copy, flags: *flags }
            },
            Call::Next { entry, result_set, count, timeout, flags } => Call::Next {
                entry: *entry,
                result_set: *result_set,
                count: *count,
                timeout: *timeout,
                flags: *flags,
            },
            Call::Render { entry, event, flags, size, buffer } => Call::Render {
                entry: *entry,
                event: *event,
                flags: *flags,
                size: *size,
                buffer: *buffer,
            },
            Call::Close { entry, handle } => Call::Close { entry: *entry, handle: *handle },
            Call::CreateEvent { manual_reset, signaled } => Call::CreateEvent {
                manual_reset: *manual_reset,
                signaled: *signaled,
            },
            Call::Subscribe { entry, signal, query, flags } => {
                let copy = query.clone();
                assert(copy@ =~= query@);
                Call::Subscribe { entry: *entry, signal: *signal, query: copy, flags: *flags }
            },
            Call::Wait { signal, timeout } => Call::Wait { signal: *signal, timeout: *timeout },
            Call::CloseHandle { handle } => Call::CloseHandle { handle: *handle },
        }
    }
}

/// What the host answered.
#[derive(Debug, PartialEq, Eq)]
pub enum Reply {
    /// To `Query`, `Subscribe` and `CreateEvent`: the handle as the host
    /// returned it, null for a failure, and the host's last error as it
    /// stood after the call.
    Handle { raw: usize, last_error: u32 },
    /// To `Next`: whether the call succeeded, how many results it reports,
    /// and the handle in the first place of its buffer.
    Fetched { ok: bool, returned: u32, handle: usize },
    /// To `Render`: whether the call succeeded, the host's last error as it
    /// stood after the call, the size it reported, and the buffer that was
    /// passed, empty where none was.
    Rendered { ok: bool, last_error: u32, used: u32, buffer: Vec<u16> },
    /// To `Wait`: the wait status.
    Waited { status: u32 },
    /// To `Close` and `CloseHandle`, which report nothing.
    Closed,
}

impl Reply {
    /// The handle of the reply; null where the reply carries none.
    pub open spec fn raw(self) -> usize {
        match self {
            Reply::Handle { raw, .. } => raw,
            _ => 0,
        }
    }

    /// The host's last error; zero where the reply carries none.
    pub open spec fn last_error(self) -> u32 {
        match self {
            Reply::Handle { last_error, .. } => last_error,
            Reply::Rendered { last_error, .. } => last_error,
            _ => 0,
        }
    }
}

/// Where an operation stands after it was started or resumed.
#[derive(Debug)]
pub enum Step<T> {
    /// The host is asked for this; the operation goes on with its reply.
    Call(Call),
    /// The operation has ended with this result.
    Done(T),
}

} // verus!
