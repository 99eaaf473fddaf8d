use do_proxy::dispatch::{would_fault, Dispatch, ProxiedRequest, TransportOrAlarm};
use do_proxy::error::{CrateOrObjectError, Error};
use do_proxy::proxy::Builder;
use do_proxy::transport::{RequestTransport, ResponseTransport};
use std::collections::BTreeMap;

type Step = Dispatch<Counter, u32, String, u64, String>;
type Input = TransportOrAlarm<u32, String>;

#[derive(Debug, PartialEq, Eq)]
struct Counter {
    served: u64,
}

fn call(envelope: RequestTransport<u32, String>) -> Input {
    TransportOrAlarm::Transport(envelope)
}

fn fetch(request: &str) -> Option<ProxiedRequest<String>> {
    Some(ProxiedRequest::Fetch(request.to_string()))
}

#[test]
fn cold_start_with_both_payloads_then_warm_call() {
    let mut slot: Option<Counter> = None;
    let input = call(RequestTransport::InitWithRequest { init: 7, request: "a".to_string() });
    assert!(!would_fault(&slot, &input));

    let step = Step::start(&mut slot, input);
    assert_eq!(step, Dispatch::Init { init: 7, then: fetch("a") });
    assert_eq!(slot, None);

    let step = Step::after_init(fetch("a"), Ok(()));
    assert_eq!(step, Dispatch::Load { then: fetch("a"), init_failure: None });

    let step = Step::after_load(&mut slot, fetch("a"), None, Ok(Counter { served: 0 }));
    assert_eq!(
        step,
        Dispatch::Handle {
            proxy: Counter { served: 0 },
            request: ProxiedRequest::Fetch("a".to_string())
        }
    );
    assert_eq!(slot, None);

    let step = Step::after_handle(&mut slot, Counter { served: 1 }, Ok(10));
    assert_eq!(step, Dispatch::Respond { response: ResponseTransport::Response { response: 10 } });
    assert_eq!(slot, Some(Counter { served: 1 }));

    let input = call(RequestTransport::Request { request: "b".to_string() });
    assert!(!would_fault(&slot, &input));
    let step = Step::start(&mut slot, input);
    assert_eq!(
        step,
        Dispatch::Handle {
            proxy: Counter { served: 1 },
            request: ProxiedRequest::Fetch("b".to_string())
        }
    );
    assert_eq!(slot, None);
}

#[test]
fn cold_start_with_request_alone_loads_first() {
    let mut slot: Option<Counter> = None;
    let step = Step::start(&mut slot, call(RequestTransport::Request { request: "a".to_string() }));
    assert_eq!(step, Dispatch::Load { then: fetch("a"), init_failure: None });
    assert_eq!(slot, None);
}

#[test]
fn cold_start_with_init_alone_is_acknowledged() {
    let mut slot: Option<Counter> = None;
    let step = Step::start(&mut slot, call(RequestTransport::Init { init: 3 }));
    assert_eq!(step, Dispatch::Init { init: 3, then: None });

    let step = Step::after_init(None, Ok(()));
    assert_eq!(step, Dispatch::Load { then: None, init_failure: None });

    let step = Step::after_load(&mut slot, None, None, Ok(Counter { served: 0 }));
    assert_eq!(step, Dispatch::Respond { response: ResponseTransport::Initialized });
    assert_eq!(slot, Some(Counter { served: 0 }));
}

#[test]
fn empty_envelope_is_acknowledged() {
    let mut slot: Option<Counter> = None;
    let step = Step::start(&mut slot, call(RequestTransport::Empty));
    assert_eq!(step, Dispatch::Load { then: None, init_failure: None });

    let mut warm = Some(Counter { served: 4 });
    assert!(!would_fault(&warm, &call(RequestTransport::Empty)));
    let step = Step::start(&mut warm, call(RequestTransport::Empty));
    assert_eq!(step, Dispatch::Respond { response: ResponseTransport::Initialized });
    assert_eq!(warm, Some(Counter { served: 4 }));
}

#[test]
fn alarm_on_cold_start_loads_and_never_initializes() {
    let mut slot: Option<Counter> = None;
    assert!(!would_fault(&slot, &Input::Alarm));
    let step = Step::start(&mut slot, TransportOrAlarm::Alarm);
    assert_eq!(step, Dispatch::Load { then: Some(ProxiedRequest::Alarm), init_failure: None });

    let step =
        Step::after_load(&mut slot, Some(ProxiedRequest::Alarm), None, Ok(Counter { served: 0 }));
    assert_eq!(
        step,
        Dispatch::Handle { proxy: Counter { served: 0 }, request: ProxiedRequest::Alarm }
    );
}

#[test]
fn alarm_on_unpopulated_storage_fails_without_handling() {
    let mut slot: Option<Counter> = None;
    let step = Step::after_load(
        &mut slot,
        Some(ProxiedRequest::Alarm),
        None,
        Err("never initialized".to_string()),
    );
    assert_eq!(step, Dispatch::Fail { message: "never initialized".to_string() });
    assert_eq!(slot, None);
}

#[test]
fn alarm_on_warm_actor_is_handled_at_once() {
    let mut slot = Some(Counter { served: 2 });
    let step = Step::start(&mut slot, TransportOrAlarm::Alarm);
    assert_eq!(
        step,
        Dispatch::Handle { proxy: Counter { served: 2 }, request: ProxiedRequest::Alarm }
    );
    assert_eq!(slot, None);
}

#[test]
fn init_failure_loads_and_then_ends_the_call() {
    let mut slot: Option<Counter> = None;
    let step = Step::after_init(fetch("a"), Err("bad payload".to_string()));
    assert_eq!(
        step,
        Dispatch::Load { then: fetch("a"), init_failure: Some("bad payload".to_string()) }
    );

    let step = Step::after_load(
        &mut slot,
        fetch("a"),
        Some("bad payload".to_string()),
        Ok(Counter { served: 0 }),
    );
    assert_eq!(step, Dispatch::Fail { message: "bad payload".to_string() });
    assert_eq!(slot, None);

    let step = Step::after_load(
        &mut slot,
        fetch("a"),
        Some("bad payload".to_string()),
        Err("nothing stored".to_string()),
    );
    assert_eq!(step, Dispatch::Fail { message: "bad payload".to_string() });
    assert_eq!(slot, None);
}

#[test]
fn load_failure_ends_the_call() {
    let mut slot: Option<Counter> = None;
    let step = Step::after_load(&mut slot, fetch("a"), None, Err("nothing stored".to_string()));
    assert_eq!(step, Dispatch::Fail { message: "nothing stored".to_string() });
    assert_eq!(slot, None);
}

#[test]
fn handler_error_is_the_answer_and_the_instance_is_kept() {
    let mut slot: Option<Counter> = None;
    let step = Step::after_handle(&mut slot, Counter { served: 5 }, Err("no".to_string()));
    assert_eq!(
        step,
        Dispatch::Respond { response: ResponseTransport::Error { error: "no".to_string() } }
    );
    assert_eq!(slot, Some(Counter { served: 5 }));

    let stub = ();
    let builder: Builder<'_, (), u32, String, _> = Builder::new(&stub).send("a".to_string());
    let reply: Result<ResponseTransport<u64, String>, Error> =
        Ok(ResponseTransport::Error { error: "no".to_string() });
    assert_eq!(builder.run(reply), Err(CrateOrObjectError::Object("no".to_string())));
}

#[test]
fn after_handle_replaces_what_a_later_call_left_in_the_slot() {
    let mut slot = Some(Counter { served: 100 });
    let step = Step::after_handle(&mut slot, Counter { served: 1 }, Ok(1));
    assert_eq!(step, Dispatch::Respond { response: ResponseTransport::Response { response: 1 } });
    assert_eq!(slot, Some(Counter { served: 1 }));
}

#[test]
fn init_payload_for_a_warm_actor_is_a_fault() {
    let warm = Some(Counter { served: 1 });
    assert!(would_fault(&warm, &call(RequestTransport::Init { init: 1 })));
    assert!(would_fault(
        &warm,
        &call(RequestTransport::InitWithRequest { init: 1, request: "a".to_string() })
    ));
    assert!(!would_fault(&warm, &call(RequestTransport::Request { request: "a".to_string() })));
    assert!(!would_fault(&warm, &call(RequestTransport::Empty)));
    assert!(!would_fault(&warm, &Input::Alarm));
    let cold: Option<Counter> = None;
    assert!(!would_fault(&cold, &call(RequestTransport::Init { init: 1 })));
}

// An actor that keeps values under keys, a store that outlives it, and a
// loop that runs its hooks as the dispatch says.

#[derive(Debug, Clone, PartialEq, Eq)]
enum InserterRequest {
    Insert { key: String, value: i64 },
    Get { key: String },
    Delete { key: String },
}

#[derive(Debug, Clone, PartialEq, Eq)]
enum InserterResponse {
    Inserted,
    Deleted,
    Value(Option<i64>),
}

#[derive(Default)]
struct Storage {
    initialized: bool,
    values: BTreeMap<String, i64>,
    calls: Vec<&'static str>,
}

#[derive(Debug)]
struct Inserter;

impl Inserter {
    fn init(storage: &mut Storage, _init: ()) -> Result<(), String> {
        storage.calls.push("init");
        storage.initialized = true;
        Ok(())
    }

    fn load_from_storage(storage: &mut Storage) -> Result<Inserter, String> {
        storage.calls.push("load_from_storage");
        if storage.initialized {
            Ok(Inserter)
        } else {
            Err("not initialized".to_string())
        }
    }

    fn handle(
        &mut self,
        storage: &mut Storage,
        request: ProxiedRequest<InserterRequest>,
    ) -> Result<InserterResponse, String> {
        storage.calls.push("handle");
        match request {
            ProxiedRequest::Fetch(InserterRequest::Insert { key, value }) => {
                storage.values.insert(key, value);
                Ok(InserterResponse::Inserted)
            }
            ProxiedRequest::Fetch(InserterRequest::Get { key }) => {
                Ok(InserterResponse::Value(storage.values.get(&key).copied()))
            }
            ProxiedRequest::Fetch(InserterRequest::Delete { key }) => {
                match storage.values.remove(&key) {
                    Some(_) => Ok(InserterResponse::Deleted),
                    None => Err(format!("no value under {key}")),
                }
            }
            ProxiedRequest::Alarm => Err("no alarm was set".to_string()),
        }
    }
}

fn run_request(
    cached: &mut Option<Inserter>,
    storage: &mut Storage,
    input: TransportOrAlarm<(), InserterRequest>,
) -> Result<ResponseTransport<InserterResponse, String>, String> {
    assert!(!would_fault(cached, &input));
    let mut step = Dispatch::start(cached, input);
    loop {
        step = match step {
            Dispatch::Init { init, then } => {
                Dispatch::after_init(then, Inserter::init(storage, init))
            }
            Dispatch::Load { then, init_failure } => {
                let outcome = Inserter::load_from_storage(storage);
                Dispatch::after_load(cached, then, init_failure, outcome)
            }
            Dispatch::Handle { mut proxy, request } => {
                assert!(cached.is_none());
                let outcome = proxy.handle(storage, request);
                Dispatch::after_handle(cached, proxy, outcome)
            }
            Dispatch::Respond { response } => return Ok(response),
            Dispatch::Fail { message } => return Err(message),
        };
    }
}

fn get(key: &str) -> InserterRequest {
    InserterRequest::Get { key: key.to_string() }
}

#[test]
fn get_from_an_actor_that_was_never_initialized() {
    let mut cached = None;
    let mut storage = Storage::default();
    let stub = ();
    let builder: Builder<'_, (), (), InserterRequest, _> = Builder::new(&stub).send(get("x"));
    let input = TransportOrAlarm::Transport(builder.request().clone());

    let served = run_request(&mut cached, &mut storage, input);
    assert_eq!(served, Err("not initialized".to_string()));
    assert_eq!(storage.calls, vec!["load_from_storage"]);
    assert!(cached.is_none());

    let reply: Result<ResponseTransport<InserterResponse, String>, Error> =
        served.map_err(Error::Worker);
    let outcome = builder.run(reply);
    assert_eq!(
        outcome,
        Err(CrateOrObjectError::Crate(Error::Worker("not initialized".to_string())))
    );
    assert!(!matches!(outcome, Ok(InserterResponse::Value(_))));
}

#[test]
fn init_and_insert_in_one_call_then_get() {
    let mut cached = None;
    let mut storage = Storage::default();
    let stub = ();

    let builder: Builder<'_, (), (), InserterRequest, _> = Builder::new(&stub)
        .init(())
        .and_send(InserterRequest::Insert { key: "x".to_string(), value: 4 });
    let input = TransportOrAlarm::Transport(builder.request().clone());
    let served = run_request(&mut cached, &mut storage, input);
    assert_eq!(storage.calls, vec!["init", "load_from_storage", "handle"]);
    assert!(cached.is_some());
    assert_eq!(builder.run(served.map_err(Error::Worker)), Ok(InserterResponse::Inserted));

    let builder: Builder<'_, (), (), InserterRequest, _> = Builder::new(&stub).send(get("x"));
    let input = TransportOrAlarm::Transport(builder.request().clone());
    let served = run_request(&mut cached, &mut storage, input);
    assert_eq!(storage.calls, vec!["init", "load_from_storage", "handle", "handle"]);
    assert_eq!(builder.run(served.map_err(Error::Worker)), Ok(InserterResponse::Value(Some(4))));

    let builder: Builder<'_, (), (), InserterRequest, _> =
        Builder::new(&stub).send(InserterRequest::Delete { key: "y".to_string() });
    let input = TransportOrAlarm::Transport(builder.request().clone());
    let served = run_request(&mut cached, &mut storage, input);
    assert!(cached.is_some());
    assert_eq!(
        builder.run(served.map_err(Error::Worker)),
        Err(CrateOrObjectError::Object("no value under y".to_string()))
    );
}

#[test]
fn init_alone_then_eviction_then_alarm() {
    let mut cached = None;
    let mut storage = Storage::default();
    let stub = ();

    let builder: Builder<'_, (), (), InserterRequest, _> = Builder::new(&stub).init(());
    let input = TransportOrAlarm::Transport(builder.request().clone());
    let served = run_request(&mut cached, &mut storage, input);
    assert_eq!(storage.calls, vec!["init", "load_from_storage"]);
    assert_eq!(builder.run(served.map_err(Error::Worker)), Ok(Ok(())));

    cached = None;
    let served = run_request(&mut cached, &mut storage, TransportOrAlarm::Alarm);
    assert_eq!(storage.calls, vec!["init", "load_from_storage", "load_from_storage", "handle"]);
    assert_eq!(served, Ok(ResponseTransport::Error { error: "no alarm was set".to_string() }));
    assert!(cached.is_some());
}

#[test]
fn alarm_at_an_actor_that_was_never_initialized() {
    let mut cached = None;
    let mut storage = Storage::default();
    let served = run_request(&mut cached, &mut storage, TransportOrAlarm::Alarm);
    assert_eq!(served, Err("not initialized".to_string()));
    assert_eq!(storage.calls, vec!["load_from_storage"]);
    assert!(cached.is_none());
}
