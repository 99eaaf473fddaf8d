use do_proxy::transport::{RequestTransport, ResponseTransport};

type Envelope = RequestTransport<u32, String>;

#[test]
fn take_init_from_init_with_request() {
    let mut envelope: Envelope =
        RequestTransport::InitWithRequest { init: 7, request: "get".to_string() };
    assert_eq!(envelope.take_init(), Some(7));
    assert_eq!(envelope, RequestTransport::Request { request: "get".to_string() });
}

#[test]
fn take_init_from_init() {
    let mut envelope: Envelope = RequestTransport::Init { init: 7 };
    assert_eq!(envelope.take_init(), Some(7));
    assert_eq!(envelope, RequestTransport::Empty);
}

#[test]
fn take_init_from_request() {
    let mut envelope: Envelope = RequestTransport::Request { request: "get".to_string() };
    assert_eq!(envelope.take_init(), None);
    assert_eq!(envelope, RequestTransport::Request { request: "get".to_string() });
}

#[test]
fn take_init_from_empty() {
    let mut envelope: Envelope = RequestTransport::Empty;
    assert_eq!(envelope.take_init(), None);
    assert_eq!(envelope, RequestTransport::Empty);
}

#[test]
fn take_init_twice_takes_nothing_more() {
    let mut envelope: Envelope =
        RequestTransport::InitWithRequest { init: 1, request: "r".to_string() };
    assert_eq!(envelope.take_init(), Some(1));
    assert_eq!(envelope.take_init(), None);
    assert_eq!(envelope, RequestTransport::Request { request: "r".to_string() });
}

#[test]
fn request_as_ref_keeps_the_variant() {
    let envelope: Envelope =
        RequestTransport::InitWithRequest { init: 3, request: "r".to_string() };
    let request = "r".to_string();
    assert_eq!(
        envelope.as_ref(),
        RequestTransport::InitWithRequest { init: &3, request: &request }
    );
    let empty: Envelope = RequestTransport::Empty;
    assert_eq!(empty.as_ref(), RequestTransport::Empty);
}

#[test]
fn request_try_map_converts_each_payload() {
    let envelope: Envelope =
        RequestTransport::InitWithRequest { init: 3, request: "r".to_string() };
    let mapped: Result<RequestTransport<u64, usize>, ()> =
        envelope.try_map(|init| Ok(u64::from(init) + 1), |request: String| Ok(request.len()));
    assert_eq!(mapped, Ok(RequestTransport::InitWithRequest { init: 4, request: 1 }));

    let only_init: Envelope = RequestTransport::Init { init: 9 };
    let mapped: Result<RequestTransport<u64, usize>, ()> =
        only_init.try_map(|init| Ok(u64::from(init)), |_| Err(()));
    assert_eq!(mapped, Ok(RequestTransport::Init { init: 9 }));

    let empty: Envelope = RequestTransport::Empty;
    let mapped: Result<RequestTransport<u64, usize>, ()> =
        empty.try_map(|_| Err(()), |_| Err(()));
    assert_eq!(mapped, Ok(RequestTransport::Empty));
}

#[test]
fn request_try_map_stops_at_the_first_refusal() {
    let envelope: Envelope =
        RequestTransport::InitWithRequest { init: 3, request: "r".to_string() };
    let mapped: Result<RequestTransport<u64, usize>, &str> =
        envelope.try_map(|_| Err("init"), |_| Err("request"));
    assert_eq!(mapped, Err("init"));

    let envelope: Envelope =
        RequestTransport::InitWithRequest { init: 3, request: "r".to_string() };
    let mapped: Result<RequestTransport<u64, usize>, &str> =
        envelope.try_map(|init| Ok(u64::from(init)), |_| Err("request"));
    assert_eq!(mapped, Err("request"));
}

#[test]
fn response_as_ref_and_try_map() {
    let response: ResponseTransport<u8, String> = ResponseTransport::Response { response: 5 };
    assert_eq!(response.as_ref(), ResponseTransport::Response { response: &5 });
    let mapped: Result<ResponseTransport<u16, usize>, ()> =
        response.try_map(|r| Ok(u16::from(r) * 2), |e: String| Ok(e.len()));
    assert_eq!(mapped, Ok(ResponseTransport::Response { response: 10 }));

    let error: ResponseTransport<u8, String> =
        ResponseTransport::Error { error: "boom".to_string() };
    let mapped: Result<ResponseTransport<u16, usize>, ()> =
        error.try_map(|r| Ok(u16::from(r)), |e: String| Ok(e.len()));
    assert_eq!(mapped, Ok(ResponseTransport::Error { error: 4 }));

    let refused: ResponseTransport<u8, String> =
        ResponseTransport::Error { error: "boom".to_string() };
    let mapped: Result<ResponseTransport<u16, usize>, &str> =
        refused.try_map(|r| Ok(u16::from(r)), |_| Err("no"));
    assert_eq!(mapped, Err("no"));

    let initialized: ResponseTransport<u8, String> = ResponseTransport::Initialized;
    let mapped: Result<ResponseTransport<u16, usize>, ()> =
        initialized.try_map(|_| Err(()), |_| Err(()));
    assert_eq!(mapped, Ok(ResponseTransport::Initialized));
}
