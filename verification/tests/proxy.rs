use do_proxy::error::{CrateOrObjectError, Error};
use do_proxy::proxy::{request_url, Builder, New, Proxy, Send, WithInit};
use do_proxy::transport::{RequestTransport, ResponseTransport};

type Reply = Result<ResponseTransport<u32, String>, Error>;

fn send_builder(stub: &u8) -> Builder<'_, u8, String, u64, Send> {
    Builder::new(stub).send(5)
}

fn init_builder(stub: &u8) -> Builder<'_, u8, String, u64, WithInit> {
    Builder::new(stub).init("Bob".to_string())
}

#[test]
fn new_builder_holds_nothing() {
    let stub = 1u8;
    let builder: Builder<'_, u8, String, u64, New> = Builder::new(&stub);
    assert_eq!(builder.request(), &RequestTransport::Empty);
    assert!(std::ptr::eq(builder.stub(), &stub));
}

#[test]
fn send_holds_the_request() {
    let stub = 1u8;
    let builder = send_builder(&stub);
    assert_eq!(builder.request(), &RequestTransport::Request { request: 5 });
    assert!(std::ptr::eq(builder.stub(), &stub));
}

#[test]
fn init_holds_the_payload() {
    let stub = 1u8;
    let builder = init_builder(&stub);
    assert_eq!(builder.request(), &RequestTransport::Init { init: "Bob".to_string() });
    assert!(std::ptr::eq(builder.stub(), &stub));
}

#[test]
fn and_send_joins_payload_and_request() {
    let stub = 1u8;
    let builder = init_builder(&stub).and_send(9);
    assert_eq!(
        builder.request(),
        &RequestTransport::InitWithRequest { init: "Bob".to_string(), request: 9 }
    );
    assert!(std::ptr::eq(builder.stub(), &stub));
}

#[test]
fn request_gets_its_response() {
    let stub = 1u8;
    let reply: Reply = Ok(ResponseTransport::Response { response: 42 });
    assert_eq!(send_builder(&stub).run(reply), Ok(42));
}

#[test]
fn request_gets_the_actors_error_as_the_actors() {
    let stub = 1u8;
    let reply: Reply = Ok(ResponseTransport::Error { error: "not yet born".to_string() });
    assert_eq!(
        send_builder(&stub).run(reply),
        Err(CrateOrObjectError::Object("not yet born".to_string()))
    );
}

#[test]
fn request_does_not_take_an_acknowledgement() {
    let stub = 1u8;
    let reply: Reply = Ok(ResponseTransport::Initialized);
    let outcome = send_builder(&stub).run(reply);
    assert_eq!(outcome, Err(CrateOrObjectError::Crate(Error::ExpectedObjectResponse)));
}

#[test]
fn request_passes_a_failure_on() {
    let stub = 1u8;
    let reply: Reply = Err(Error::Worker("unreachable host".to_string()));
    assert_eq!(
        send_builder(&stub).run(reply),
        Err(CrateOrObjectError::Crate(Error::Worker("unreachable host".to_string())))
    );
}

#[test]
fn init_with_request_expects_a_response() {
    let stub = 1u8;
    let reply: Reply = Ok(ResponseTransport::Initialized);
    assert_eq!(
        init_builder(&stub).and_send(9).run(reply),
        Err(CrateOrObjectError::Crate(Error::ExpectedObjectResponse))
    );
    let reply: Reply = Ok(ResponseTransport::Response { response: 3 });
    assert_eq!(init_builder(&stub).and_send(9).run(reply), Ok(3));
}

#[test]
fn init_gets_its_acknowledgement() {
    let stub = 1u8;
    let reply: Reply = Ok(ResponseTransport::Initialized);
    assert_eq!(init_builder(&stub).run(reply), Ok(Ok(())));
}

#[test]
fn init_gets_the_actors_error_inside() {
    let stub = 1u8;
    let reply: Reply = Ok(ResponseTransport::Error { error: "taken".to_string() });
    assert_eq!(init_builder(&stub).run(reply), Ok(Err("taken".to_string())));
}

#[test]
fn init_does_not_take_a_response() {
    let stub = 1u8;
    let reply: Reply = Ok(ResponseTransport::Response { response: 42 });
    assert_eq!(init_builder(&stub).run(reply), Err(Error::ExpectedObjectInitialized));
}

#[test]
fn init_passes_a_failure_on() {
    let stub = 1u8;
    let reply: Reply = Err(Error::Json("bad".to_string()));
    assert_eq!(init_builder(&stub).run(reply), Err(Error::Json("bad".to_string())));
}

#[test]
fn proxy_begins_builders_on_its_stub() {
    let proxy: Proxy<String, String, u64> = Proxy::new("stub".to_string());
    assert_eq!(proxy.stub(), "stub");
    let send = proxy.send(7);
    assert_eq!(send.request(), &RequestTransport::Request { request: 7 });
    assert!(std::ptr::eq(send.stub(), proxy.stub()));
    let init = proxy.init("Bob".to_string());
    assert_eq!(init.request(), &RequestTransport::Init { init: "Bob".to_string() });
    assert!(std::ptr::eq(init.stub(), proxy.stub()));
    let both = proxy.init("Bob".to_string()).and_send(8);
    assert_eq!(
        both.request(),
        &RequestTransport::InitWithRequest { init: "Bob".to_string(), request: 8 }
    );
}

#[test]
fn request_url_of_a_binding() {
    assert_eq!(request_url("INSERTER_OBJECT"), "http://INSERTER_OBJECT/");
    assert_eq!(request_url(""), "http:///");
}
