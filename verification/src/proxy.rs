//! The caller side: a handle on one actor, and the builder that puts a
//! request together in phases.
//!
//! A builder starts in phase [`New`] with nothing in it. An initialization
//! payload takes it to [`WithInit`], a request to [`Send`]. Only the last
//! two can be run, and each expects another kind of answer.

use crate::dispatch::Dispatch;
use crate::error::{CrateOrObjectError, Error};
use crate::transport::{RequestTransport, ResponseTransport, Shape};
use std::marker::PhantomData;
use vstd::prelude::*;
use vstd::string::StringExecFns;

verus! {

/// The phase of a builder that holds nothing yet.
#[derive(Debug, Clone, Copy)]
pub struct New;

/// The phase of a builder that holds an initialization payload and may
/// still take a request.
#[derive(Debug, Clone, Copy)]
pub struct WithInit;

/// The phase of a builder that holds a request, with or without an
/// initialization payload before it.
#[derive(Debug, Clone, Copy)]
pub struct Send;

/// A phase says which envelopes a builder in it may hold, by their shape.
pub trait Phase {
    spec fn admits(shape: Shape) -> bool;
}

impl Phase for New {
    open spec fn admits(shape: Shape) -> bool {
        shape is Empty
    }
}

impl Phase for WithInit {
    open spec fn admits(shape: Shape) -> bool {
        shape is Init
    }
}

impl Phase for Send {
    open spec fn admits(shape: Shape) -> bool {
        shape is Request || shape is InitWithRequest
    }
}

/// A request in the making, for the actor behind `stub`.
///
/// `S` is the kind of handle that reaches the actor; the builder keeps a
/// reference to it and never looks inside.
pub struct Builder<'s, S, Init, Request, State: Phase> {
    stub: &'s S,
    request: RequestTransport<Init, Request>,
    _phantom: PhantomData<State>,
}

/// What a caller gets from a request, given what came back for it: the
/// decoded answer, or the failure to get one.
///
/// An acknowledgement of initialization is no answer to a request.
pub open spec fn sent_outcome<Response, ObjectError>(
    reply: Result<ResponseTransport<Response, ObjectError>, Error>,
) -> Result<Response, CrateOrObjectError<ObjectError>> {
    match reply {
        Ok(ResponseTransport::Response { response }) => Ok(response),
        Ok(ResponseTransport::Error { error }) => Err(CrateOrObjectError::Object(error)),
        Ok(ResponseTransport::Initialized) => Err(
            CrateOrObjectError::Crate(Error::ExpectedObjectResponse),
        ),
        Err(error) => Err(CrateOrObjectError::Crate(error)),
    }
}

/// What a caller gets from an initialization alone, given what came back
/// for it. The outer result tells whether the library got an answer, the
/// inner one what the actor made of the payload.
///
/// A response is no answer to an initialization, and its payload is
/// dropped.
pub open spec fn init_outcome<Response, ObjectError>(
    reply: Result<ResponseTransport<Response, ObjectError>, Error>,
) -> Result<Result<(), ObjectError>, Error> {
    match reply {
        Ok(ResponseTransport::Initialized) => Ok(Ok(())),
        Ok(ResponseTransport::Response { .. }) => Err(Error::ExpectedObjectInitialized),
        Ok(ResponseTransport::Error { error }) => Ok(Err(error)),
        Err(error) => Err(error),
    }
}

impl<'s, S, Init, Request, State: Phase> Builder<'s, S, Init, Request, State> {
    #[verifier::type_invariant]
    spec fn holds_what_the_phase_admits(self) -> bool {
        State::admits(self.request.shape())
    }

    /// The handle that the builder was made for.
    pub closed spec fn spec_stub(&self) -> &'s S {
        self.stub
    }

    /// The envelope as it stands.
    pub closed spec fn spec_request(&self) -> &RequestTransport<Init, Request> {
        &self.request
    }

    /// The handle that the builder was made for.
    #[verifier::when_used_as_spec(spec_stub)]
    pub fn stub(&self) -> (stub: &'s S)
        ensures
            stub == self.spec_stub(),
    {
        self.stub
    }

    /// The envelope as it stands. It is one that the phase admits.
    #[verifier::when_used_as_spec(spec_request)]
    pub fn request(&self) -> (request: &RequestTransport<Init, Request>)
        ensures
            request == self.spec_request(),
            State::admits(request.shape()),
    {
        proof {
            use_type_invariant(self);
        }
        &self.request
    }
}

impl<'s, S, Init, Request> Builder<'s, S, Init, Request, New> {
    /// A builder for the actor behind `stub`, with nothing in it.
    pub fn new(stub: &'s S) -> (builder: Self)
        ensures
            builder.stub() == stub,
            *builder.request() == RequestTransport::<Init, Request>::Empty,
    {
        Builder { stub, request: RequestTransport::Empty, _phantom: PhantomData }
    }

    /// Puts a request into the builder.
    pub fn send(self, request: Request) -> (builder: Builder<'s, S, Init, Request, Send>)
        ensures
            builder.stub() == self.stub(),
            *builder.request() == (RequestTransport::<Init, Request>::Request { request }),
    {
        Builder {
            stub: self.stub,
            request: RequestTransport::Request { request },
            _phantom: PhantomData,
        }
    }

    /// Puts an initialization payload into the builder.
    pub fn init(self, init: Init) -> (builder: Builder<'s, S, Init, Request, WithInit>)
        ensures
            builder.stub() == self.stub(),
            *builder.request() == (RequestTransport::<Init, Request>::Init { init }),
    {
        Builder { stub: self.stub, request: RequestTransport::Init { init }, _phantom: PhantomData }
    }
}

impl<'s, S, Init, Request> Builder<'s, S, Init, Request, WithInit> {
    /// Adds a request behind the initialization payload: the actor is to be
    /// initialized and then to serve the request, in one call.
    pub fn and_send(self, request: Request) -> (builder: Builder<'s, S, Init, Request, Send>)
        ensures
            self.request() is Init,
            *builder.request() == (RequestTransport::InitWithRequest {
                init: self.request()->Init_init,
                request,
            }),
            builder.stub() == self.stub(),
    {
        proof {
            use_type_invariant(&self);
        }
        let stub = self.stub;
        let mut held = self.request;
        let init = held.take_init();
        Builder {
            stub,
            request: RequestTransport::InitWithRequest { init: init.unwrap(), request },
            _phantom: PhantomData,
        }
    }

    /// Ends the call with what came back for the initialization.
    pub fn run<Response, ObjectError>(
        self,
        reply: Result<ResponseTransport<Response, ObjectError>, Error>,
    ) -> (outcome: Result<Result<(), ObjectError>, Error>)
        ensures
            outcome == init_outcome(reply),
    {
        match reply {
            Ok(response) => match response {
                ResponseTransport::Initialized => Ok(Ok(())),
                ResponseTransport::Response { .. } => Err(Error::ExpectedObjectInitialized),
                ResponseTransport::Error { error } => Ok(Err(error)),
            },
            Err(error) => Err(error),
        }
    }
}

impl<'s, S, Init, Request> Builder<'s, S, Init, Request, Send> {
    /// Ends the call with what came back for the request.
    pub fn run<Response, ObjectError>(
        self,
        reply: Result<ResponseTransport<Response, ObjectError>, Error>,
    ) -> (outcome: Result<Response, CrateOrObjectError<ObjectError>>)
        ensures
            outcome == sent_outcome(reply),
    {
        match reply {
            Ok(response) => match response {
                ResponseTransport::Response { response } => Ok(response),
                ResponseTransport::Error { error } => Err(CrateOrObjectError::Object(error)),
                ResponseTransport::Initialized => Err(
                    CrateOrObjectError::from(Error::ExpectedObjectResponse),
                ),
            },
            Err(error) => Err(CrateOrObjectError::from(error)),
        }
    }
}

/// A handle on one actor, for callers that speak to it in `Init` and
/// `Request`.
pub struct Proxy<S, Init, Request> {
    stub: S,
    _phantom: PhantomData<(Init, Request)>,
}

impl<S, Init, Request> Proxy<S, Init, Request> {
    /// The handle that reaches the actor.
    pub closed spec fn spec_stub(&self) -> &S {
        &self.stub
    }

    /// The handle that reaches the actor.
    #[verifier::when_used_as_spec(spec_stub)]
    pub fn stub(&self) -> (stub: &S)
        ensures
            stub == self.spec_stub(),
    {
        &self.stub
    }

    /// A proxy for the actor behind `stub`.
    pub fn new(stub: S) -> (proxy: Self)
        ensures
            *proxy.stub() == stub,
    {
        Proxy { stub, _phantom: PhantomData }
    }

    /// Begins a call that sends `request`.
    pub fn send(&self, request: Request) -> (builder: Builder<'_, S, Init, Request, Send>)
        ensures
            builder.stub() == self.stub(),
            *builder.request() == (RequestTransport::<Init, Request>::Request { request }),
    {
        Builder::new(&self.stub).send(request)
    }

    /// Begins a call that initializes the actor with `init`. A request may
    /// follow with [`Builder::and_send`].
    pub fn init(&self, init: Init) -> (builder: Builder<'_, S, Init, Request, WithInit>)
        ensures
            builder.stub() == self.stub(),
            *builder.request() == (RequestTransport::<Init, Request>::Init { init }),
    {
        Builder::new(&self.stub).init(init)
    }
}

/// The address under which the host delivers a call to the actor that is
/// bound as `binding`.
pub open spec fn url_of(binding: Seq<char>) -> Seq<char> {
    "http://"@ + binding + "/"@
}

/// The address under which the host delivers a call to the actor that is
/// bound as `binding`.
pub fn request_url(binding: &str) -> (url: String)
    ensures
        url@ == url_of(binding@),
{
    String::from_str("http://").concat(binding).concat("/")
}

/// An error that the actor's handler returns reaches the caller as the
/// actor's own error: the answer carries it as it is, and the caller finds
/// it set apart from every failure of the library.
pub proof fn handler_error_reaches_caller<O, Init, Request, Response, ObjectError>(
    proxy: O,
    error: ObjectError,
)
    ensures
        ({
            let (next, slot) = Dispatch::<O, Init, Request, Response, ObjectError>::handled(
                proxy,
                Err(error),
            );
            let answer = ResponseTransport::<Response, ObjectError>::Error { error };
            let respond: Dispatch<O, Init, Request, Response, ObjectError> = Dispatch::Respond {
                response: answer,
            };
            &&& next == respond
            &&& slot == Some(proxy)
            &&& sent_outcome(Ok(answer)) == Err::<Response, CrateOrObjectError<ObjectError>>(
                CrateOrObjectError::Object(error),
            )
            &&& init_outcome(Ok(answer)) == Ok::<Result<(), ObjectError>, Error>(Err(error))
        }),
{
}

/// A builder that holds an initialization payload alone takes an
/// acknowledgement or the actor's error for an answer and nothing else;
/// one that holds a request takes a response or the actor's error and
/// nothing else. A builder that holds nothing cannot be run at all: [`New`]
/// has no `run`.
pub proof fn each_phase_expects_its_answer<Response, ObjectError>(
    reply: Result<ResponseTransport<Response, ObjectError>, Error>,
)
    ensures
        WithInit::admits(Shape::Init) && !WithInit::admits(Shape::InitWithRequest),
        Send::admits(Shape::Request) && Send::admits(Shape::InitWithRequest),
        forall|shape: Shape| #[trigger]
            New::admits(shape) ==> !WithInit::admits(shape) && !Send::admits(shape),
        init_outcome(reply) is Ok <==> (reply matches Ok(answer) && !(answer is Response)),
        sent_outcome(reply) is Ok <==> (reply matches Ok(answer) && answer is Response),
{
}

/// An answer of the wrong kind is reported as such and never taken for the
/// right one: a response to an initialization is dropped with its payload,
/// and an acknowledgement is no response.
pub proof fn wrong_answer_is_reported<Response, ObjectError>(response: Response)
    ensures
        init_outcome(
            Ok(ResponseTransport::<Response, ObjectError>::Response { response }),
        ) == Err::<Result<(), ObjectError>, Error>(Error::ExpectedObjectInitialized),
        sent_outcome(Ok(ResponseTransport::<Response, ObjectError>::Initialized)) == Err::<
            Response,
            CrateOrObjectError<ObjectError>,
        >(CrateOrObjectError::Crate(Error::ExpectedObjectResponse)),
        Error::ExpectedObjectInitialized@.message() == "expected object initialized"@,
        Error::ExpectedObjectResponse@.message() == "expected object response"@,
{
}

} // verus!
