use win_event_log::api::{Error, Event, EvtApi, EvtHandleWrapper, WinEvents, WinEventsIntoIterator};
use win_event_log::host::{
    Call, Reply, Step, ERROR_INSUFFICIENT_BUFFER, INFINITE, QUERY_FLAGS, RENDER_EVENT_XML,
    SUBSCRIBE_START_AT_OLDEST_RECORD, WAIT_OBJECT_0,
};
use win_event_log::query_list::{Comparison, Condition, EventFilter, Query, QueryItem, QueryList};
use win_event_log::registry::{try_load_from_dll, Capability, Lookup, Registry, MODULE};
use win_event_log::subscriber::{HandleWrapper, Phase, WinEventsSubscriber};

const CLOSE: usize = 0x1001;
const NEXT: usize = 0x1002;
const QUERY: usize = 0x1003;
const RENDER: usize = 0x1004;
const SUBSCRIBE: usize = 0x1005;
const RESULT_SET: usize = 0x5000;
const FIRST_EVENT: usize = 0x6000;
const SIGNAL: usize = 0x7000;
const SUBSCRIPTION: usize = 0x8000;

/// A host that plays the event subsystem from memory.
struct Host {
    records: Vec<String>,
    cursor: usize,
    reject: Option<u32>,
    fail_fill: bool,
    calls: Vec<Call>,
    closed: Vec<usize>,
}

impl Host {
    fn new(records: &[&str]) -> Host {
        Host {
            records: records.iter().map(|r| r.to_string()).collect(),
            cursor: 0,
            reject: None,
            fail_fill: false,
            calls: Vec::new(),
            closed: Vec::new(),
        }
    }

    fn perform(&mut self, call: Call) -> Reply {
        self.calls.push(call.clone());
        match call {
            Call::Query { .. } => match self.reject {
                Some(code) => Reply::Handle { raw: 0, last_error: code },
                None => Reply::Handle { raw: RESULT_SET, last_error: 0 },
            },
            Call::Next { .. } => {
                if self.cursor < self.records.len() {
                    self.cursor += 1;
                    Reply::Fetched { ok: true, returned: 1, handle: FIRST_EVENT + self.cursor - 1 }
                } else {
                    Reply::Fetched { ok: false, returned: 0, handle: 0 }
                }
            }
            Call::Render { event, size, buffer, .. } => {
                let units: Vec<u16> = self.records[event - FIRST_EVENT].encode_utf16().collect();
                if !buffer {
                    Reply::Rendered {
                        ok: false,
                        last_error: ERROR_INSUFFICIENT_BUFFER,
                        used: units.len() as u32,
                        buffer: Vec::new(),
                    }
                } else if self.fail_fill {
                    Reply::Rendered { ok: false, last_error: 13, used: 0, buffer: vec![0; size as usize] }
                } else {
                    Reply::Rendered { ok: true, last_error: 0, used: size, buffer: units }
                }
            }
            Call::Close { handle, .. } => {
                self.closed.push(handle);
                Reply::Closed
            }
            Call::CreateEvent { .. } => Reply::Handle { raw: SIGNAL, last_error: 0 },
            Call::Subscribe { .. } => Reply::Handle { raw: SUBSCRIPTION, last_error: 0 },
            Call::Wait { .. } => Reply::Waited { status: WAIT_OBJECT_0 },
            Call::CloseHandle { handle } => {
                self.closed.push(handle);
                Reply::Closed
            }
        }
    }
}

fn full_registry() -> Registry {
    let mut registry = Registry::new();
    registry.install(EvtApi::Close(CLOSE));
    registry.install(EvtApi::Next(NEXT));
    registry.install(EvtApi::Query(QUERY));
    registry.install(EvtApi::Render(RENDER));
    registry.install(EvtApi::Subscribe(SUBSCRIBE));
    registry
}

fn registry_without(missing: Capability) -> Registry {
    let mut registry = Registry::new();
    for api in [
        EvtApi::Close(CLOSE),
        EvtApi::Next(NEXT),
        EvtApi::Query(QUERY),
        EvtApi::Render(RENDER),
        EvtApi::Subscribe(SUBSCRIBE),
    ] {
        if api.capability() != missing {
            registry.install(api);
        }
    }
    registry
}

fn open(host: &mut Host, registry: &Registry, query: &str) -> Result<WinEvents, Error> {
    match WinEvents::get(registry, query) {
        Step::Call(call) => WinEvents::opened(host.perform(call)),
        Step::Done(result) => result,
    }
}

fn pull(host: &mut Host, registry: &Registry, events: &mut WinEventsIntoIterator) -> Option<Event> {
    let mut step = events.next(registry);
    loop {
        match step {
            Step::Call(call) => step = events.resume(registry, host.perform(call)),
            Step::Done(event) => return event,
        }
    }
}

fn subscribe(host: &mut Host, registry: &Registry, query: &str) -> WinEventsSubscriber {
    let (mut session, call) = WinEventsSubscriber::get(registry, query).unwrap();
    let mut step = Step::Call(call);
    loop {
        match step {
            Step::Call(call) => step = session.resume(registry, host.perform(call)),
            Step::Done(event) => {
                assert!(event.is_none());
                return session;
            }
        }
    }
}

/// Runs one `next` of a subscription; stops short of a wait where `wait` is
/// false, and says so by `Err` with the signal waited for.
fn pull_subscribed(
    host: &mut Host,
    registry: &Registry,
    session: &mut WinEventsSubscriber,
    wait: bool,
) -> Result<Option<Event>, usize> {
    let mut step = session.next(registry);
    loop {
        match step {
            Step::Call(Call::Wait { signal, timeout }) if !wait => {
                assert_eq!(timeout, INFINITE);
                return Err(signal);
            }
            Step::Call(call) => step = session.resume(registry, host.perform(call)),
            Step::Done(event) => return Ok(event),
        }
    }
}

#[test]
fn test_params_query_list() {
    let mut host = Host::new(&[]);
    let registry = full_registry();
    let ql = QueryList::new();
    match WinEvents::get(&registry, ql) {
        Step::Call(call) => {
            let wide: Vec<u16> = "<QueryList>\n</QueryList>\0".encode_utf16().collect();
            assert_eq!(call, Call::Query { entry: QUERY, query: wide, flags: QUERY_FLAGS });
            assert!(WinEvents::opened(host.perform(call)).is_ok());
        }
        Step::Done(_) => panic!("the registry holds every entry point"),
    }
}

#[test]
fn test_params_str() {
    let mut host = Host::new(&[]);
    let registry = full_registry();
    let query = r#"<QueryList>
<Query Id="0">
<Select Path="Security">
*[System[((Level = 0) or (Level >= 4))]]
and
*[EventData[((Data[@Name = 'TargetUserName']) and (Data = 'SYSTEM'))]]
</Select>
</Query>
</QueryList>"#;
    assert!(open(&mut host, &registry, query).is_ok());
    match &host.calls[0] {
        Call::Query { entry, query: wide, flags } => {
            assert_eq!(*entry, QUERY);
            assert_eq!(*flags, 0x101);
            assert_eq!(wide.len(), query.len() + 1);
            assert_eq!(String::from_utf16(&wide[..query.len()]).unwrap(), query);
            assert_eq!(wide[query.len()], 0);
        }
        other => panic!("{:?}", other),
    }
}

#[test]
fn query_from_a_built_list() {
    let mut host = Host::new(&[]);
    let registry = full_registry();
    let conditions = vec![
        Condition::filter(EventFilter::level(1, Comparison::Equal)),
        Condition::filter(EventFilter::level(4, Comparison::GreaterThanOrEqual)),
    ];
    let query = QueryList::new()
        .with_query(
            Query::new()
                .item(
                    QueryItem::selector("Application".to_owned())
                        .system_conditions(Condition::or(conditions))
                        .build(),
                )
                .query(),
        )
        .build();
    let text = query.to_string();
    match WinEvents::get(&registry, query) {
        Step::Call(Call::Query { query: wide, .. }) => {
            let mut expected: Vec<u16> = text.encode_utf16().collect();
            expected.push(0);
            assert_eq!(wide, expected);
        }
        other => panic!("{:?}", other),
    }
    assert!(open(&mut host, &registry, "*").is_ok());
}

#[test]
fn query_is_rejected_with_the_host_code() {
    let mut host = Host::new(&[]);
    host.reject = Some(15001);
    let registry = full_registry();
    let result = open(&mut host, &registry, "<QueryList><Query");
    assert_eq!(result.unwrap_err(), Error::QueryRejected(15001));
    assert_eq!(
        Error::QueryRejected(15001).message(),
        "There was an error processing the query: 15001"
    );
    assert!(host.closed.is_empty());
}

#[test]
fn a_reply_without_a_handle_rejects_the_query() {
    assert_eq!(WinEvents::opened(Reply::Closed).unwrap_err(), Error::QueryRejected(0));
    assert_eq!(
        WinEvents::opened(Reply::Waited { status: 3 }).unwrap_err(),
        Error::QueryRejected(0)
    );
    assert_eq!(
        WinEvents::opened(Reply::Handle { raw: 0, last_error: 0 }).unwrap_err(),
        Error::QueryRejected(0)
    );
}

#[test]
fn open_names_the_first_missing_capability() {
    let mut host = Host::new(&["<Event/>"]);
    for (missing, symbol) in [
        (Capability::Query, "EvtQuery"),
        (Capability::Next, "EvtNext"),
        (Capability::Render, "EvtRender"),
    ] {
        let registry = registry_without(missing);
        let error = open(&mut host, &registry, "*").unwrap_err();
        assert_eq!(error, Error::CapabilityUnavailable(missing));
        assert_eq!(error.message(), format!("{} API is not available", symbol));
    }
    let empty = Registry::new();
    assert_eq!(
        open(&mut host, &empty, "*").unwrap_err(),
        Error::CapabilityUnavailable(Capability::Query)
    );
    assert!(host.calls.is_empty());
    let registry = registry_without(Capability::Close);
    assert!(open(&mut host, &registry, "*").is_ok());
}

#[test]
fn render_entry_point_is_missing() {
    let mut host = Host::new(&["<Event/>"]);
    let registry = registry_without(Capability::Render);
    assert_eq!(
        open(&mut host, &registry, "*").unwrap_err(),
        Error::CapabilityUnavailable(Capability::Render)
    );
    let mut events = WinEvents::new(RESULT_SET).into_iter();
    assert!(pull(&mut host, &registry, &mut events).is_none());
    assert_eq!(
        host.calls,
        vec![
            Call::Next { entry: NEXT, result_set: RESULT_SET, count: 1, timeout: 0, flags: 0 },
            Call::Close { entry: CLOSE, handle: FIRST_EVENT },
        ]
    );
}

#[test]
fn events_come_in_log_order_and_then_nothing() {
    let mut host = Host::new(&["<Event>1</Event>", "<Event>2</Event>"]);
    let registry = full_registry();
    let mut events = open(&mut host, &registry, "*").unwrap().into_iter();
    assert_eq!(pull(&mut host, &registry, &mut events).unwrap().to_string(), "<Event>1</Event>");
    assert_eq!(pull(&mut host, &registry, &mut events).unwrap().as_str(), "<Event>2</Event>");
    for _ in 0..5 {
        assert!(pull(&mut host, &registry, &mut events).is_none());
    }
    assert_eq!(host.closed, vec![FIRST_EVENT, FIRST_EVENT + 1]);
    assert_eq!(events.close(&registry), vec![Call::Close { entry: CLOSE, handle: RESULT_SET }]);
    assert!(events.close(&registry).is_empty());
    let calls = host.calls.len();
    assert!(pull(&mut host, &registry, &mut events).is_none());
    assert_eq!(host.calls.len(), calls);
}

#[test]
fn a_pull_renders_in_two_calls() {
    let mut host = Host::new(&["<E>\u{1F600}</E>"]);
    let registry = full_registry();
    let mut events = WinEvents::new(RESULT_SET).into_iter();
    let event = pull(&mut host, &registry, &mut events).unwrap();
    assert_eq!(event.as_str(), "<E>\u{1F600}</E>");
    assert_eq!(event.as_str().encode_utf16().count(), 9);
    assert_eq!(
        host.calls,
        vec![
            Call::Next { entry: NEXT, result_set: RESULT_SET, count: 1, timeout: 0, flags: 0 },
            Call::Render { entry: RENDER, event: FIRST_EVENT, flags: RENDER_EVENT_XML, size: 0, buffer: false },
            Call::Render { entry: RENDER, event: FIRST_EVENT, flags: 1, size: 9, buffer: true },
            Call::Close { entry: CLOSE, handle: FIRST_EVENT },
        ]
    );
}

#[test]
fn a_probe_of_size_zero_is_filled_like_any_other() {
    let mut host = Host::new(&[""]);
    let registry = full_registry();
    let mut events = WinEvents::new(RESULT_SET).into_iter();
    let event = pull(&mut host, &registry, &mut events);
    assert_eq!(event.unwrap().as_str(), "");
    assert_eq!(
        host.calls,
        vec![
            Call::Next { entry: NEXT, result_set: RESULT_SET, count: 1, timeout: 0, flags: 0 },
            Call::Render { entry: RENDER, event: FIRST_EVENT, flags: 1, size: 0, buffer: false },
            Call::Render { entry: RENDER, event: FIRST_EVENT, flags: 1, size: 0, buffer: true },
            Call::Close { entry: CLOSE, handle: FIRST_EVENT },
        ]
    );
}

#[test]
fn a_failed_fill_of_size_zero_gives_nothing() {
    let mut host = Host::new(&[""]);
    host.fail_fill = true;
    let registry = full_registry();
    let mut events = WinEvents::new(RESULT_SET).into_iter();
    assert!(pull(&mut host, &registry, &mut events).is_none());
    assert_eq!(host.calls.len(), 4);
    assert_eq!(
        host.calls[2],
        Call::Render { entry: RENDER, event: FIRST_EVENT, flags: 1, size: 0, buffer: true }
    );
    assert_eq!(host.closed, vec![FIRST_EVENT]);
}

#[test]
fn a_failed_render_skips_the_event() {
    let mut host = Host::new(&["<a/>", "<b/>"]);
    host.fail_fill = true;
    let registry = full_registry();
    let mut events = WinEvents::new(RESULT_SET).into_iter();
    assert!(pull(&mut host, &registry, &mut events).is_none());
    host.fail_fill = false;
    assert_eq!(pull(&mut host, &registry, &mut events).unwrap().as_str(), "<b/>");
    assert_eq!(host.closed, vec![FIRST_EVENT, FIRST_EVENT + 1]);
}

#[test]
fn a_probe_must_report_a_missing_buffer() {
    let registry = full_registry();
    for reply in [
        Reply::Rendered { ok: true, last_error: ERROR_INSUFFICIENT_BUFFER, used: 4, buffer: vec![] },
        Reply::Rendered { ok: false, last_error: 5, used: 4, buffer: vec![] },
        Reply::Closed,
    ] {
        let mut events = WinEvents::new(RESULT_SET).into_iter();
        assert!(matches!(events.next(&registry), Step::Call(Call::Next { .. })));
        let probe = events.resume(&registry, Reply::Fetched { ok: true, returned: 1, handle: 77 });
        assert!(matches!(probe, Step::Call(Call::Render { event: 77, size: 0, buffer: false, .. })));
        let step = events.resume(&registry, reply);
        assert!(matches!(step, Step::Call(Call::Close { handle: 77, .. })));
        assert!(matches!(events.resume(&registry, Reply::Closed), Step::Done(None)));
    }
}

#[test]
fn a_buffer_of_another_size_is_not_shown() {
    let registry = full_registry();
    for (buffer, expected) in [
        (vec![0x61u16, 0x62], None),
        (vec![0x61u16, 0x62, 0x63, 0x64], None),
        (vec![0x61u16, 0x62, 0x63], Some("abc")),
    ] {
        let mut events = WinEvents::new(RESULT_SET).into_iter();
        events.next(&registry);
        events.resume(&registry, Reply::Fetched { ok: true, returned: 1, handle: 9 });
        let fill = events.resume(
            &registry,
            Reply::Rendered { ok: false, last_error: 122, used: 3, buffer: vec![] },
        );
        assert!(matches!(fill, Step::Call(Call::Render { event: 9, size: 3, buffer: true, .. })));
        events.resume(&registry, Reply::Rendered { ok: true, last_error: 0, used: 3, buffer });
        match events.resume(&registry, Reply::Closed) {
            Step::Done(event) => {
                assert_eq!(event.as_ref().map(|e| e.as_str()), expected);
                if let Some(event) = event {
                    assert!(event.as_str().encode_utf16().count() >= 3);
                }
            }
            other => panic!("{:?}", other),
        }
    }
}

#[test]
fn a_fetch_yields_one_result_or_none() {
    let registry = full_registry();
    let events = WinEvents::new(RESULT_SET);
    match events.next(&registry) {
        Step::Call(call) => assert_eq!(call, Call::Next { entry: NEXT, result_set: RESULT_SET, count: 1, timeout: 0, flags: 0 }),
        other => panic!("{:?}", other),
    }
    assert_eq!(WinEvents::fetched(&Reply::Fetched { ok: true, returned: 1, handle: 5 }).unwrap().raw(), 5);
    assert!(WinEvents::fetched(&Reply::Fetched { ok: true, returned: 0, handle: 5 }).is_none());
    assert!(WinEvents::fetched(&Reply::Fetched { ok: true, returned: 2, handle: 5 }).is_none());
    assert!(WinEvents::fetched(&Reply::Fetched { ok: true, returned: 1, handle: 0 }).is_none());
    assert!(WinEvents::fetched(&Reply::Fetched { ok: false, returned: 1, handle: 5 }).is_none());
    assert!(WinEvents::fetched(&Reply::Closed).is_none());
    assert!(matches!(WinEvents::new(0).next(&registry), Step::Done(None)));
    assert!(matches!(events.next(&registry_without(Capability::Next)), Step::Done(None)));
}

#[test]
fn a_pull_in_flight_is_not_started_again() {
    let registry = full_registry();
    let mut events = WinEvents::new(RESULT_SET).into_iter();
    assert!(matches!(events.resume(&registry, Reply::Closed), Step::Done(None)));
    assert!(matches!(events.next(&registry), Step::Call(_)));
    assert!(matches!(events.next(&registry), Step::Done(None)));
    let probe = events.resume(&registry, Reply::Fetched { ok: true, returned: 1, handle: 3 });
    assert!(matches!(probe, Step::Call(Call::Render { event: 3, .. })));
    assert_eq!(
        events.close(&registry),
        vec![
            Call::Close { entry: CLOSE, handle: 3 },
            Call::Close { entry: CLOSE, handle: RESULT_SET },
        ]
    );
    assert!(events.close(&registry).is_empty());
}

#[test]
fn a_handle_is_closed_once() {
    let registry = full_registry();
    assert!(EvtHandleWrapper::new(0).is_none());
    let mut handle = EvtHandleWrapper::new(42).unwrap();
    assert_eq!(handle.raw(), 42);
    assert!(!handle.released());
    assert_eq!(handle.release(&registry), Some(Call::Close { entry: CLOSE, handle: 42 }));
    assert!(handle.released());
    assert_eq!(handle.release(&registry), None);
    assert_eq!(handle.release(&registry), None);

    let mut leaked = EvtHandleWrapper::new(43).unwrap();
    assert_eq!(leaked.release(&registry_without(Capability::Close)), None);
    assert_eq!(leaked.release(&registry), None);

    let mut events = WinEvents::new(44);
    assert_eq!(events.close(&registry), Some(Call::Close { entry: CLOSE, handle: 44 }));
    assert_eq!(events.close(&registry), None);
    assert!(matches!(events.next(&registry), Step::Done(None)));
}

#[test]
fn a_signal_is_closed_once() {
    assert!(HandleWrapper::new(0).is_none());
    let mut signal = HandleWrapper::new(7).unwrap();
    assert_eq!(signal.raw(), 7);
    assert!(!signal.released());
    assert_eq!(signal.release(), Some(Call::CloseHandle { handle: 7 }));
    assert!(signal.released());
    assert_eq!(signal.release(), None);
    assert_eq!(signal.release(), None);
}

#[test]
fn entry_points_resolve_by_name() {
    assert_eq!(MODULE, "wevtapi.dll");
    let loaded = try_load_from_dll("EvtClose", Lookup::Module, 0x10);
    assert_eq!(loaded, Lookup::Symbol(0x10));
    assert_eq!(
        try_load_from_dll("EvtClose", loaded, 0x99),
        Lookup::Done(Some(EvtApi::Close(0x99)))
    );
    assert_eq!(try_load_from_dll("EvtClose", loaded, 0), Lookup::Done(None));

    let absent = try_load_from_dll("EvtNext", Lookup::Module, 0);
    assert_eq!(absent, Lookup::Library);
    assert_eq!(try_load_from_dll("EvtNext", absent, 0), Lookup::Done(None));
    assert_eq!(try_load_from_dll("EvtNext", absent, 0x20), Lookup::Symbol(0x20));

    for (name, api) in [
        ("EvtClose", Some(EvtApi::Close(8))),
        ("EvtNext", Some(EvtApi::Next(8))),
        ("EvtQuery", Some(EvtApi::Query(8))),
        ("EvtRender", Some(EvtApi::Render(8))),
        ("EvtSubscribe", Some(EvtApi::Subscribe(8))),
        ("EvtSeek", None),
        ("evtclose", None),
        ("", None),
    ] {
        assert_eq!(try_load_from_dll(name, Lookup::Symbol(1), 8), Lookup::Done(api));
        assert_eq!(Capability::from_symbol(name), api.map(|a| a.capability()));
    }
    let done = Lookup::Done(Some(EvtApi::Query(8)));
    assert_eq!(try_load_from_dll("EvtQuery", done, 0), done);
    assert_eq!(Capability::Subscribe.symbol(), "EvtSubscribe");
    assert_eq!(EvtApi::new(Capability::Render, 5), EvtApi::Render(5));
    assert_eq!(EvtApi::Render(5).entry(), 5);
}

#[test]
fn a_slot_keeps_its_first_entry_point() {
    let mut registry = Registry::new();
    assert_eq!(registry.get(Capability::Query), None);
    registry.install(EvtApi::Query(1));
    registry.install(EvtApi::Query(2));
    assert_eq!(registry.get(Capability::Query), Some(EvtApi::Query(1)));
    assert_eq!(registry.entry(Capability::Query), Some(1));
    assert_eq!(registry.entry(Capability::Close), None);
}

#[test]
fn subscription_needs_its_entry_point() {
    let registry = registry_without(Capability::Subscribe);
    let error = WinEventsSubscriber::get(&registry, "*").unwrap_err();
    assert_eq!(error, Error::CapabilityUnavailable(Capability::Subscribe));
    assert_eq!(error.message(), "EvtSubscribe API is not available");
}

#[test]
fn subscription_is_bound_to_its_signal() {
    let mut host = Host::new(&[]);
    let registry = full_registry();
    let session = subscribe(&mut host, &registry, "*");
    assert_eq!(session.phase(), Phase::WaitingForSignal);
    assert!(!session.has_events());
    assert_eq!(
        host.calls,
        vec![
            Call::CreateEvent { manual_reset: true, signaled: true },
            Call::Subscribe {
                entry: SUBSCRIBE,
                signal: SIGNAL,
                query: vec![0x2A, 0],
                flags: SUBSCRIBE_START_AT_OLDEST_RECORD,
            },
        ]
    );
}

#[test]
fn subscription_drains_the_backlog_and_then_waits() {
    let mut host = Host::new(&["<Event>1</Event>", "<Event>2</Event>", "<Event>3</Event>"]);
    let registry = full_registry();
    let mut session = subscribe(&mut host, &registry, "*");

    let first = pull_subscribed(&mut host, &registry, &mut session, true).unwrap();
    assert_eq!(first.unwrap().as_str(), "<Event>1</Event>");
    assert!(session.has_events());
    let second = pull_subscribed(&mut host, &registry, &mut session, false).unwrap();
    assert_eq!(second.unwrap().as_str(), "<Event>2</Event>");
    assert!(session.has_events());
    let third = pull_subscribed(&mut host, &registry, &mut session, false).unwrap();
    assert_eq!(third.unwrap().as_str(), "<Event>3</Event>");
    assert!(session.has_events());
    assert_eq!(host.calls.iter().filter(|c| matches!(c, Call::Wait { .. })).count(), 1);

    let fourth = pull_subscribed(&mut host, &registry, &mut session, false).unwrap();
    assert!(fourth.is_none());
    assert!(!session.has_events());
    assert_eq!(session.phase(), Phase::WaitingForSignal);

    let fifth = pull_subscribed(&mut host, &registry, &mut session, false);
    assert_eq!(fifth.unwrap_err(), SIGNAL);
    assert!(!session.has_events());

    host.records.push("<Event>4</Event>".to_owned());
    let step = session.resume(&registry, Reply::Waited { status: WAIT_OBJECT_0 });
    assert!(matches!(step, Step::Call(Call::Next { result_set: SUBSCRIPTION, .. })));
    assert!(session.has_events());
    assert_eq!(session.phase(), Phase::Draining);
}

#[test]
fn a_wait_that_fails_gives_nothing() {
    let mut host = Host::new(&["<Event/>"]);
    let registry = full_registry();
    let mut session = subscribe(&mut host, &registry, "*");
    assert!(matches!(session.next(&registry), Step::Call(Call::Wait { signal: SIGNAL, timeout: INFINITE })));
    assert!(matches!(session.next(&registry), Step::Done(None)));
    let step = session.resume(&registry, Reply::Waited { status: 0xFFFF_FFFF });
    assert!(matches!(step, Step::Done(None)));
    assert!(!session.has_events());
    assert!(matches!(session.next(&registry), Step::Call(Call::Wait { signal: SIGNAL, timeout: INFINITE })));
}

#[test]
fn a_refused_subscription_is_rejected_with_the_host_code() {
    let registry = full_registry();
    let (mut session, call) = WinEventsSubscriber::get(&registry, "*").unwrap();
    assert_eq!(call, Call::CreateEvent { manual_reset: true, signaled: true });
    assert_eq!(session.phase(), Phase::Unsubscribed);
    assert_eq!(session.error(), None);
    assert!(matches!(session.next(&registry), Step::Done(None)));
    let step = session.resume(&registry, Reply::Handle { raw: SIGNAL, last_error: 0 });
    assert!(matches!(step, Step::Call(Call::Subscribe { signal: SIGNAL, .. })));
    let step = session.resume(&registry, Reply::Handle { raw: 0, last_error: 15007 });
    assert!(matches!(step, Step::Done(None)));
    assert_eq!(session.error(), Some(Error::QueryRejected(15007)));
    assert_eq!(session.phase(), Phase::Unsubscribed);
    assert!(matches!(session.next(&registry), Step::Done(None)));
    assert!(!session.has_events());
    assert_eq!(session.close(&registry), vec![Call::CloseHandle { handle: SIGNAL }]);
    assert_eq!(session.phase(), Phase::Closed);
    assert!(session.close(&registry).is_empty());
}

#[test]
fn a_signal_that_cannot_be_made_fails_the_opening() {
    let registry = full_registry();
    let (mut session, _) = WinEventsSubscriber::get(&registry, "*").unwrap();
    let step = session.resume(&registry, Reply::Handle { raw: 0, last_error: 8 });
    assert!(matches!(step, Step::Done(None)));
    assert_eq!(session.error(), Some(Error::QueryRejected(8)));
    assert_eq!(session.phase(), Phase::Unsubscribed);
    assert!(!session.has_events());
    assert!(matches!(session.next(&registry), Step::Done(None)));
    assert!(matches!(session.resume(&registry, Reply::Closed), Step::Done(None)));
    assert!(session.close(&registry).is_empty());
    assert_eq!(session.phase(), Phase::Closed);
}

#[test]
fn a_subscription_closes_before_its_signal() {
    let mut host = Host::new(&["<Event/>"]);
    let registry = full_registry();
    let mut session = subscribe(&mut host, &registry, "*");
    assert!(matches!(session.next(&registry), Step::Call(Call::Wait { .. })));
    session.resume(&registry, Reply::Waited { status: 0 });
    let probe = session.resume(&registry, Reply::Fetched { ok: true, returned: 1, handle: FIRST_EVENT });
    assert!(matches!(probe, Step::Call(Call::Render { .. })));
    assert_eq!(
        session.close(&registry),
        vec![
            Call::Close { entry: CLOSE, handle: FIRST_EVENT },
            Call::Close { entry: CLOSE, handle: SUBSCRIPTION },
            Call::CloseHandle { handle: SIGNAL },
        ]
    );
    assert_eq!(session.phase(), Phase::Closed);
    assert!(session.close(&registry).is_empty());
    assert!(matches!(session.next(&registry), Step::Done(None)));
    assert!(matches!(session.resume(&registry, Reply::Closed), Step::Done(None)));
}
