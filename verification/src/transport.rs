//! The two envelopes that travel between a caller and an actor.

use vstd::prelude::*;

verus! {

/// What a caller sends to an actor.
///
/// `Empty` is the state of an envelope that nothing has been put into yet,
/// or whose only content was an initialization payload that has since been
/// taken out. It has no wire form.
#[derive(Debug, Clone, PartialEq, Eq)]
pub enum RequestTransport<Init, Request> {
    InitWithRequest { init: Init, request: Request },
    Init { init: Init },
    Request { request: Request },
    Empty,
}

/// Which of its four forms a [`RequestTransport`] has.
#[derive(Debug, Clone, Copy, PartialEq, Eq)]
pub enum Shape {
    InitWithRequest,
    Init,
    Request,
    Empty,
}

/// What an actor sends back.
#[derive(Debug, Clone, PartialEq, Eq)]
pub enum ResponseTransport<Response, Error> {
    Response { response: Response },
    Error { error: Error },
    Initialized,
}

impl<Init: View, Request: View> View for RequestTransport<Init, Request> {
    type V = RequestTransport<Init::V, Request::V>;

    open spec fn view(&self) -> Self::V {
        match self {
            RequestTransport::InitWithRequest { init, request } => {
                RequestTransport::InitWithRequest { init: init@, request: request@ }
            },
            RequestTransport::Init { init } => RequestTransport::Init { init: init@ },
            RequestTransport::Request { request } => RequestTransport::Request {
                request: request@,
            },
            RequestTransport::Empty => RequestTransport::Empty,
        }
    }
}

impl<Response: View, Error: View> View for ResponseTransport<Response, Error> {
    type V = ResponseTransport<Response::V, Error::V>;

    open spec fn view(&self) -> Self::V {
        match self {
            ResponseTransport::Response { response } => ResponseTransport::Response {
                response: response@,
            },
            ResponseTransport::Error { error } => ResponseTransport::Error { error: error@ },
            ResponseTransport::Initialized => ResponseTransport::Initialized,
        }
    }
}

impl<Init, Request> RequestTransport<Init, Request> {
    /// The form of the envelope, without what it carries.
    pub open spec fn shape(self) -> Shape {
        match self {
            RequestTransport::InitWithRequest { .. } => Shape::InitWithRequest,
            RequestTransport::Init { .. } => Shape::Init,
            RequestTransport::Request { .. } => Shape::Request,
            RequestTransport::Empty => Shape::Empty,
        }
    }

    /// The initialization payload that the envelope carries, if any.
    pub open spec fn init_payload(self) -> Option<Init> {
        match self {
            RequestTransport::InitWithRequest { init, .. } => Some(init),
            RequestTransport::Init { init } => Some(init),
            RequestTransport::Request { .. } => None,
            RequestTransport::Empty => None,
        }
    }

    /// The request payload that the envelope carries, if any.
    pub open spec fn request_payload(self) -> Option<Request> {
        match self {
            RequestTransport::InitWithRequest { request, .. } => Some(request),
            RequestTransport::Request { request } => Some(request),
            RequestTransport::Init { .. } => None,
            RequestTransport::Empty => None,
        }
    }

    /// The envelope that is left once the initialization payload is gone.
    pub open spec fn without_init(self) -> Self {
        match self {
            RequestTransport::InitWithRequest { request, .. } => RequestTransport::Request {
                request,
            },
            RequestTransport::Init { .. } => RequestTransport::Empty,
            RequestTransport::Request { request } => RequestTransport::Request { request },
            RequestTransport::Empty => RequestTransport::Empty,
        }
    }

    /// Removes the initialization payload from the envelope and returns it.
    /// The request payload, where there is one, stays.
    pub fn take_init(&mut self) -> (taken: Option<Init>)
        ensures
            taken == old(self).init_payload(),
            *final(self) == old(self).without_init(),
    {
        let mut this = RequestTransport::Empty;
        std::mem::swap(self, &mut this);
        match this {
            RequestTransport::Init { init } => Some(init),
            RequestTransport::Request { request } => {
                *self = RequestTransport::Request { request };
                None
            },
            RequestTransport::InitWithRequest { init, request } => {
                *self = RequestTransport::Request { request };
                Some(init)
            },
            RequestTransport::Empty => None,
        }
    }

    /// The same envelope over references to the payloads.
    pub fn as_ref(&self) -> (borrowed: RequestTransport<&Init, &Request>)
        ensures
            borrowed == match *self {
                RequestTransport::InitWithRequest { init, request } => {
                    RequestTransport::InitWithRequest { init: &init, request: &request }
                },
                RequestTransport::Init { init } => RequestTransport::Init { init: &init },
                RequestTransport::Request { request } => RequestTransport::Request {
                    request: &request,
                },
                RequestTransport::Empty => RequestTransport::Empty,
            },
    {
        match self {
            RequestTransport::InitWithRequest { init, request } => {
                RequestTransport::InitWithRequest { init, request }
            },
            RequestTransport::Init { init } => RequestTransport::Init { init },
            RequestTransport::Request { request } => RequestTransport::Request { request },
            RequestTransport::Empty => RequestTransport::Empty,
        }
    }

    /// Whether `mapped` may come out of converting the payloads of `self`
    /// with `on_init` and `on_request`: the variant stays, and each payload
    /// is one that its conversion may return for the payload of `self`.
    pub open spec fn maps_to<I, R, E, F: FnOnce(Init) -> Result<I, E>, G: FnOnce(Request) -> Result<
        R,
        E,
    >>(self, on_init: F, on_request: G, mapped: RequestTransport<I, R>) -> bool {
        match self {
            RequestTransport::InitWithRequest { init, request } => {
                &&& mapped is InitWithRequest
                &&& on_init.ensures((init,), Ok(mapped->InitWithRequest_init))
                &&& on_request.ensures((request,), Ok(mapped->InitWithRequest_request))
            },
            RequestTransport::Init { init } => {
                &&& mapped is Init
                &&& on_init.ensures((init,), Ok(mapped->Init_init))
            },
            RequestTransport::Request { request } => {
                &&& mapped is Request
                &&& on_request.ensures((request,), Ok(mapped->Request_request))
            },
            RequestTransport::Empty => mapped is Empty,
        }
    }

    /// Whether converting the payloads of `self` may stop at `error`: one
    /// of the payloads that `self` carries is refused with it.
    pub open spec fn fails_with<I, R, E, F: FnOnce(Init) -> Result<I, E>, G: FnOnce(
        Request,
    ) -> Result<R, E>>(self, on_init: F, on_request: G, error: E) -> bool {
        ||| self.init_payload() matches Some(init) && on_init.ensures((init,), Err(error))
        ||| self.request_payload() matches Some(request) && on_request.ensures(
            (request,),
            Err(error),
        )
    }

    /// Converts each payload, the initialization payload first, and stops
    /// at the first that is refused.
    pub fn try_map<I, R, E, F: FnOnce(Init) -> Result<I, E>, G: FnOnce(Request) -> Result<R, E>>(
        self,
        on_init: F,
        on_request: G,
    ) -> (mapped: Result<RequestTransport<I, R>, E>)
        requires
            self.init_payload() matches Some(init) ==> on_init.requires((init,)),
            self.request_payload() matches Some(request) ==> on_request.requires((request,)),
        ensures
            match mapped {
                Ok(mapped) => self.maps_to(on_init, on_request, mapped),
                Err(error) => self.fails_with(on_init, on_request, error),
            },
    {
        match self {
            RequestTransport::InitWithRequest { init, request } => {
                let init = match on_init(init) {
                    Ok(init) => init,
                    Err(error) => { return Err(error); },
                };
                match on_request(request) {
                    Ok(request) => Ok(RequestTransport::InitWithRequest { init, request }),
                    Err(error) => Err(error),
                }
            },
            RequestTransport::Init { init } => match on_init(init) {
                Ok(init) => Ok(RequestTransport::Init { init }),
                Err(error) => Err(error),
            },
            RequestTransport::Request { request } => match on_request(request) {
                Ok(request) => Ok(RequestTransport::Request { request }),
                Err(error) => Err(error),
            },
            RequestTransport::Empty => Ok(RequestTransport::Empty),
        }
    }
}

impl<Response, Error> ResponseTransport<Response, Error> {
    /// The same envelope over references to the payloads.
    pub fn as_ref(&self) -> (borrowed: ResponseTransport<&Response, &Error>)
        ensures
            borrowed == match *self {
                ResponseTransport::Response { response } => ResponseTransport::Response {
                    response: &response,
                },
                ResponseTransport::Error { error } => ResponseTransport::Error { error: &error },
                ResponseTransport::Initialized => ResponseTransport::Initialized,
            },
    {
        match self {
            ResponseTransport::Response { response } => ResponseTransport::Response { response },
            ResponseTransport::Error { error } => ResponseTransport::Error { error },
            ResponseTransport::Initialized => ResponseTransport::Initialized,
        }
    }

    /// Whether `mapped` may come out of converting the payload of `self`
    /// with `on_response` or `on_error`: the variant stays, and the payload
    /// is one that its conversion may return for the payload of `self`.
    pub open spec fn maps_to<R, E, X, F: FnOnce(Response) -> Result<R, X>, G: FnOnce(
        Error,
    ) -> Result<E, X>>(self, on_response: F, on_error: G, mapped: ResponseTransport<R, E>) -> bool {
        match self {
            ResponseTransport::Response { response } => {
                &&& mapped is Response
                &&& on_response.ensures((response,), Ok(mapped->Response_response))
            },
            ResponseTransport::Error { error } => {
                &&& mapped is Error
                &&& on_error.ensures((error,), Ok(mapped->Error_error))
            },
            ResponseTransport::Initialized => mapped is Initialized,
        }
    }

    /// Whether converting the payload of `self` may stop at `failure`: the
    /// payload that `self` carries is refused with it.
    pub open spec fn fails_with<R, E, X, F: FnOnce(Response) -> Result<R, X>, G: FnOnce(
        Error,
    ) -> Result<E, X>>(self, on_response: F, on_error: G, failure: X) -> bool {
        match self {
            ResponseTransport::Response { response } => on_response.ensures(
                (response,),
                Err(failure),
            ),
            ResponseTransport::Error { error } => on_error.ensures((error,), Err(failure)),
            ResponseTransport::Initialized => false,
        }
    }

    /// Converts the payload, if there is one.
    pub fn try_map<R, E, X, F: FnOnce(Response) -> Result<R, X>, G: FnOnce(Error) -> Result<E, X>>(
        self,
        on_response: F,
        on_error: G,
    ) -> (mapped: Result<ResponseTransport<R, E>, X>)
        requires
            self matches ResponseTransport::Response { response } ==> on_response.requires(
                (response,),
            ),
            self matches ResponseTransport::Error { error } ==> on_error.requires((error,)),
        ensures
            match mapped {
                Ok(mapped) => self.maps_to(on_response, on_error, mapped),
                Err(failure) => self.fails_with(on_response, on_error, failure),
            },
    {
        match self {
            ResponseTransport::Response { response } => match on_response(response) {
                Ok(response) => Ok(ResponseTransport::Response { response }),
                Err(failure) => Err(failure),
            },
            ResponseTransport::Error { error } => match on_error(error) {
                Ok(error) => Ok(ResponseTransport::Error { error }),
                Err(failure) => Err(failure),
            },
            ResponseTransport::Initialized => Ok(ResponseTransport::Initialized),
        }
    }
}

} // verus!
