//! The actor side of one call: in which order the actor's hooks run, what
//! is answered, and when the instance goes back into its slot.
//!
//! The hooks themselves (`init`, `load_from_storage`, `handle`) touch
//! storage and suspend, so they are run by the caller of this module. Each
//! value of [`Dispatch`] says which hook is due next; the caller runs it and
//! reports the outcome through the matching `after_*` function, until the
//! value is [`Dispatch::Respond`] or [`Dispatch::Fail`].

use crate::transport::{RequestTransport, ResponseTransport};
use vstd::prelude::*;

verus! {

/// A request sent to an object.
#[derive(Debug, Clone, PartialEq, Eq)]
pub enum ProxiedRequest<R> {
    /// A caller's request.
    Fetch(R),
    /// The host's scheduled wake-up. It has no payload.
    Alarm,
}

/// What set the actor in motion: an envelope from a caller, or the alarm.
#[derive(Debug, Clone, PartialEq, Eq)]
pub enum TransportOrAlarm<Init, Request> {
    Transport(RequestTransport<Init, Request>),
    Alarm,
}

/// The next thing to do for the call at hand.
///
/// `O` is the actor, the other parameters are its payload types.
#[derive(Debug, PartialEq, Eq)]
pub enum Dispatch<O, Init, Request, Response, Error> {
    /// Run `init` with `init`, then report to [`Dispatch::after_init`].
    Init { init: Init, then: Option<ProxiedRequest<Request>> },
    /// Run `load_from_storage`, then report to [`Dispatch::after_load`].
    Load { then: Option<ProxiedRequest<Request>>, init_failure: Option<String> },
    /// Run `handle` on `proxy` with `request`, then report to
    /// [`Dispatch::after_handle`].
    Handle { proxy: O, request: ProxiedRequest<Request> },
    /// The call is over and the instance is back in its slot: send
    /// `response`.
    Respond { response: ResponseTransport<Response, Error> },
    /// The call is over because `init` or `load_from_storage` failed.
    /// No instance was put into the slot and `handle` did not run.
    Fail { message: String },
}

/// What is left to do with an envelope once its initialization payload is
/// gone: serve the request, or nothing.
pub open spec fn rest_of<Init, Request>(transport: RequestTransport<Init, Request>) -> Option<
    ProxiedRequest<Request>,
> {
    match transport {
        RequestTransport::InitWithRequest { request, .. } => Some(ProxiedRequest::Fetch(request)),
        RequestTransport::Request { request } => Some(ProxiedRequest::Fetch(request)),
        RequestTransport::Init { .. } => None,
        RequestTransport::Empty => None,
    }
}

/// An initialization payload arrives at an actor that is already in memory.
/// Nothing takes the payload out of the envelope then, and no step is
/// defined for what remains.
pub open spec fn faults<O, Init, Request>(
    cached_proxy: Option<O>,
    input: TransportOrAlarm<Init, Request>,
) -> bool {
    &&& cached_proxy is Some
    &&& input matches TransportOrAlarm::Transport(transport)
    &&& transport.init_payload() is Some
}

/// Tells whether [`Dispatch::start`] can take this call.
pub fn would_fault<O, Init, Request>(
    cached_proxy: &Option<O>,
    input: &TransportOrAlarm<Init, Request>,
) -> (fault: bool)
    ensures
        fault == faults(*cached_proxy, *input),
{
    match cached_proxy {
        None => false,
        Some(_) => match input {
            TransportOrAlarm::Transport(RequestTransport::Init { .. }) => true,
            TransportOrAlarm::Transport(RequestTransport::InitWithRequest { .. }) => true,
            _ => false,
        },
    }
}

impl<O, Init, Request, Response, Error> Dispatch<O, Init, Request, Response, Error> {
    /// The first step of a call and the slot during it.
    ///
    /// With an instance in the slot the call goes to `handle` at once, on
    /// that instance. With an empty slot the instance is loaded, after
    /// `init` where the envelope brought a payload for it.
    pub open spec fn started(cached_proxy: Option<O>, input: TransportOrAlarm<Init, Request>) -> (
        Self,
        Option<O>,
    )
        recommends
            !faults(cached_proxy, input),
    {
        match cached_proxy {
            Some(proxy) => match input {
                TransportOrAlarm::Alarm => (
                    Dispatch::Handle { proxy, request: ProxiedRequest::Alarm },
                    None,
                ),
                TransportOrAlarm::Transport(RequestTransport::Request { request }) => (
                    Dispatch::Handle { proxy, request: ProxiedRequest::Fetch(request) },
                    None,
                ),
                TransportOrAlarm::Transport(RequestTransport::Empty) => (
                    Dispatch::Respond { response: ResponseTransport::Initialized },
                    Some(proxy),
                ),
                TransportOrAlarm::Transport(_) => arbitrary(),
            },
            None => match input {
                TransportOrAlarm::Alarm => (
                    Dispatch::Load { then: Some(ProxiedRequest::Alarm), init_failure: None },
                    None,
                ),
                TransportOrAlarm::Transport(transport) => match transport.init_payload() {
                    Some(init) => (Dispatch::Init { init, then: rest_of(transport) }, None),
                    None => (Dispatch::Load { then: rest_of(transport), init_failure: None }, None),
                },
            },
        }
    }

    /// The step after `init` returned `outcome`: the instance is loaded
    /// either way, and a failure of `init` is kept for afterwards.
    pub open spec fn initialized(
        then: Option<ProxiedRequest<Request>>,
        outcome: Result<(), String>,
    ) -> Self {
        Dispatch::Load {
            then,
            init_failure: match outcome {
                Ok(_) => None,
                Err(message) => Some(message),
            },
        }
    }

    /// The step after `load_from_storage` returned `outcome`, and the slot
    /// after it, where `slot` is the slot before.
    ///
    /// A failure of `init` ends the call, whatever was loaded; then a
    /// failure to load does. Otherwise the loaded instance serves `then`,
    /// and where nothing is left to serve it goes into the slot and the
    /// call is acknowledged.
    pub open spec fn loaded(
        slot: Option<O>,
        then: Option<ProxiedRequest<Request>>,
        init_failure: Option<String>,
        outcome: Result<O, String>,
    ) -> (Self, Option<O>) {
        match init_failure {
            Some(message) => (Dispatch::Fail { message }, slot),
            None => match outcome {
                Err(message) => (Dispatch::Fail { message }, slot),
                Ok(proxy) => match then {
                    Some(request) => (Dispatch::Handle { proxy, request }, slot),
                    None => (
                        Dispatch::Respond { response: ResponseTransport::Initialized },
                        Some(proxy),
                    ),
                },
            },
        }
    }

    /// The step after `handle` returned `outcome` for `proxy`, and the slot
    /// after it: the answer carries the outcome, and the instance is in the
    /// slot whether the handler succeeded or not.
    pub open spec fn handled(proxy: O, outcome: Result<Response, Error>) -> (Self, Option<O>) {
        (
            Dispatch::Respond {
                response: match outcome {
                    Ok(response) => ResponseTransport::Response { response },
                    Err(error) => ResponseTransport::Error { error },
                },
            },
            Some(proxy),
        )
    }

    /// Begins a call: takes the instance out of its slot, if one is there,
    /// and says what is due first.
    ///
    /// The slot is empty while hooks run, so that a call that comes in
    /// meanwhile cannot reach the same instance.
    pub fn start(cached_proxy: &mut Option<O>, input: TransportOrAlarm<Init, Request>) -> (next:
        Self)
        requires
            !faults(*old(cached_proxy), input),
        ensures
            (next, *final(cached_proxy)) == Self::started(*old(cached_proxy), input),
    {
        match cached_proxy.take() {
            Some(proxy) => match input {
                TransportOrAlarm::Alarm => Dispatch::Handle {
                    proxy,
                    request: ProxiedRequest::Alarm,
                },
                TransportOrAlarm::Transport(RequestTransport::Request { request }) => {
                    Dispatch::Handle { proxy, request: ProxiedRequest::Fetch(request) }
                },
                TransportOrAlarm::Transport(_) => {
                    *cached_proxy = Some(proxy);
                    Dispatch::Respond { response: ResponseTransport::Initialized }
                },
            },
            None => match input {
                TransportOrAlarm::Alarm => Dispatch::Load {
                    then: Some(ProxiedRequest::Alarm),
                    init_failure: None,
                },
                TransportOrAlarm::Transport(transport) => {
                    let mut transport = transport;
                    let init = transport.take_init();
                    let then = match transport {
                        RequestTransport::Request { request } => Some(
                            ProxiedRequest::Fetch(request),
                        ),
                        _ => None,
                    };
                    match init {
                        Some(init) => Dispatch::Init { init, then },
                        None => Dispatch::Load { then, init_failure: None },
                    }
                },
            },
        }
    }

    /// Takes the outcome of `init`.
    pub fn after_init(then: Option<ProxiedRequest<Request>>, outcome: Result<(), String>) -> (next:
        Self)
        ensures
            next == Self::initialized(then, outcome),
    {
        match outcome {
            Ok(_) => Dispatch::Load { then, init_failure: None },
            Err(message) => Dispatch::Load { then, init_failure: Some(message) },
        }
    }

    /// Takes the outcome of `load_from_storage`.
    pub fn after_load(
        cached_proxy: &mut Option<O>,
        then: Option<ProxiedRequest<Request>>,
        init_failure: Option<String>,
        outcome: Result<O, String>,
    ) -> (next: Self)
        ensures
            (next, *final(cached_proxy)) == Self::loaded(
                *old(cached_proxy),
                then,
                init_failure,
                outcome,
            ),
    {
        match init_failure {
            Some(message) => Dispatch::Fail { message },
            None => match outcome {
                Err(message) => Dispatch::Fail { message },
                Ok(proxy) => match then {
                    Some(request) => Dispatch::Handle { proxy, request },
                    None => {
                        *cached_proxy = Some(proxy);
                        Dispatch::Respond { response: ResponseTransport::Initialized }
                    },
                },
            },
        }
    }

    /// Takes the outcome of `handle` and puts the instance back.
    pub fn after_handle(
        cached_proxy: &mut Option<O>,
        proxy: O,
        outcome: Result<Response, Error>,
    ) -> (next: Self)
        ensures
            (next, *final(cached_proxy)) == Self::handled(proxy, outcome),
    {
        *cached_proxy = Some(proxy);
        match outcome {
            Ok(response) => Dispatch::Respond {
                response: ResponseTransport::Response { response },
            },
            Err(error) => Dispatch::Respond { response: ResponseTransport::Error { error } },
        }
    }

    /// How many hooks may still run before the call is over.
    pub open spec fn hooks_left(self) -> nat {
        match self {
            Dispatch::Init { .. } => 3,
            Dispatch::Load { .. } => 2,
            Dispatch::Handle { .. } => 1,
            Dispatch::Respond { .. } => 0,
            Dispatch::Fail { .. } => 0,
        }
    }

    /// While hooks run the slot is empty: a call begins either with the
    /// answer, and then the instance is in the slot, or with a hook, and
    /// then the slot holds nothing until the call puts an instance there.
    pub proof fn slot_is_empty_while_hooks_run(
        cached_proxy: Option<O>,
        input: TransportOrAlarm<Init, Request>,
    )
        requires
            !faults(cached_proxy, input),
        ensures
            ({
                let (next, slot) = Self::started(cached_proxy, input);
                &&& next is Respond <==> slot is Some
                &&& next is Respond ==> slot == cached_proxy
                &&& !(next is Fail)
                &&& next is Handle ==> cached_proxy is Some
                &&& (next is Init || next is Load) ==> cached_proxy is None
            }),
    {
    }

    /// Every outcome of a hook brings the end of the call nearer, so a call
    /// runs three hooks at most: `init`, `load_from_storage` and `handle`,
    /// in this order.
    pub proof fn every_hook_brings_the_end_nearer(
        slot: Option<O>,
        then: Option<ProxiedRequest<Request>>,
        init_failure: Option<String>,
        proxy: O,
        init_outcome: Result<(), String>,
        load_outcome: Result<O, String>,
        handle_outcome: Result<Response, Error>,
    )
        ensures
            Self::initialized(then, init_outcome).hooks_left() == 2,
            Self::loaded(slot, then, init_failure, load_outcome).0.hooks_left() <= 1,
            Self::handled(proxy, handle_outcome).0.hooks_left() == 0,
    {
    }

    /// A first call that brings both payloads to an actor that is not in
    /// memory runs `init` with the initialization payload, then
    /// `load_from_storage`, then `handle` with the request on what was
    /// loaded, and leaves the instance in the slot. A later call with a
    /// request alone goes to `handle` at once, on that same instance.
    pub proof fn cold_start_then_warm_call(
        init: Init,
        request: Request,
        loaded: O,
        served: O,
        outcome: Result<Response, Error>,
        second: Request,
    )
        ensures
            ({
                let first_call = TransportOrAlarm::Transport(
                    RequestTransport::InitWithRequest { init, request },
                );
                let second_call = TransportOrAlarm::<Init, Request>::Transport(
                    RequestTransport::Request { request: second },
                );
                let fetch = Some(ProxiedRequest::Fetch(request));
                let run_init: (Self, Option<O>) = (Dispatch::Init { init, then: fetch }, None);
                let run_load: Self = Dispatch::Load { then: fetch, init_failure: None };
                let run_handle: (Self, Option<O>) = (
                    Dispatch::Handle { proxy: loaded, request: ProxiedRequest::Fetch(request) },
                    None,
                );
                let (answered, slot) = Self::handled(served, outcome);
                let run_handle_again: (Self, Option<O>) = (
                    Dispatch::Handle { proxy: served, request: ProxiedRequest::Fetch(second) },
                    None,
                );
                &&& Self::started(None, first_call) == run_init
                &&& Self::initialized(fetch, Ok(())) == run_load
                &&& Self::loaded(None, fetch, None, Ok(loaded)) == run_handle
                &&& answered is Respond
                &&& slot == Some(served)
                &&& !faults(slot, second_call)
                &&& Self::started(slot, second_call) == run_handle_again
            }),
    {
    }

    /// The answer fits the question. A call that brings an initialization
    /// payload alone is acknowledged once the instance is loaded, and
    /// `handle` does not run for it. A call that brings a request is
    /// answered with what `handle` returned, a response or an error, and
    /// never with an acknowledgement.
    pub proof fn answer_fits_the_question(
        slot: Option<O>,
        init: Init,
        request: Request,
        loaded: O,
        served: O,
        outcome: Result<Response, Error>,
    )
        ensures
            ({
                let alone = RequestTransport::<Init, Request>::Init { init };
                let both = RequestTransport::InitWithRequest { init, request };
                let plain = RequestTransport::<Init, Request>::Request { request };
                let fetch = Some(ProxiedRequest::Fetch(request));
                let acknowledge: (Self, Option<O>) = (
                    Dispatch::Respond { response: ResponseTransport::Initialized },
                    Some(loaded),
                );
                let run_handle: (Self, Option<O>) = (
                    Dispatch::Handle { proxy: loaded, request: ProxiedRequest::Fetch(request) },
                    slot,
                );
                &&& rest_of(alone) is None
                &&& rest_of(both) == fetch
                &&& rest_of(plain) == fetch
                &&& Self::loaded(slot, None, None, Ok(loaded)) == acknowledge
                &&& Self::loaded(slot, fetch, None, Ok(loaded)) == run_handle
                &&& Self::handled(served, outcome).0 matches Dispatch::Respond { response }
                &&& !(response is Initialized)
                &&& (response is Response <==> outcome is Ok)
            }),
    {
    }

    /// The alarm at an actor that is not in memory runs `load_from_storage`
    /// first and never `init`. What was loaded gets the alarm; where
    /// loading fails the call ends there, `handle` does not run and the
    /// slot stays empty.
    pub proof fn alarm_on_cold_start(loaded: O, failure: String)
        ensures
            ({
                let alarm = Some(ProxiedRequest::<Request>::Alarm);
                let run_load: (Self, Option<O>) = (
                    Dispatch::Load { then: alarm, init_failure: None },
                    None,
                );
                let run_handle: (Self, Option<O>) = (
                    Dispatch::Handle { proxy: loaded, request: ProxiedRequest::Alarm },
                    None,
                );
                let fail: (Self, Option<O>) = (Dispatch::Fail { message: failure }, None);
                &&& Self::started(None, TransportOrAlarm::Alarm) == run_load
                &&& Self::loaded(None, alarm, None, Ok(loaded)) == run_handle
                &&& Self::loaded(None, alarm, None, Err(failure)) == fail
            }),
    {
    }

    /// Where `init` fails the call fails with what `init` reported, after
    /// `load_from_storage` has run and whatever it returned: `handle` does
    /// not run, and nothing is put into the slot.
    pub proof fn init_failure_ends_the_call(
        slot: Option<O>,
        then: Option<ProxiedRequest<Request>>,
        failure: String,
        outcome: Result<O, String>,
    )
        ensures
            ({
                let run_load: Self = Dispatch::Load { then, init_failure: Some(failure) };
                let fail: (Self, Option<O>) = (Dispatch::Fail { message: failure }, slot);
                &&& Self::initialized(then, Err(failure)) == run_load
                &&& Self::loaded(slot, then, Some(failure), outcome) == fail
            }),
    {
    }
}

} // verus!
