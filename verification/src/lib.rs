//! Typed calls to host-managed persistent actors.
//!
//! An actor lives behind a handle, may be put out of memory at any time and
//! is loaded again from its storage when the next call arrives. A caller
//! speaks to it in envelopes:
//!
//! - [`transport`] holds the two envelopes, request and response;
//! - [`wire`] writes them as JSON objects and reads them back;
//! - [`proxy`] is the caller's side: a handle on one actor and the builder
//!   that puts a request together in phases, so that only a complete
//!   request can be run and each kind of request takes only its kind of
//!   answer;
//! - [`dispatch`] is the actor's side: which of the actor's hooks runs
//!   next, what is answered, and when the instance is in its slot;
//! - [`error`] holds what can go wrong on the way.
//!
//! Nothing here sends, stores or waits. The one who does hands in what came
//! back and is told what follows.

pub mod dispatch;
pub mod error;
pub mod proxy;
pub mod transport;
pub mod wire;

pub use crate::dispatch::{Dispatch, ProxiedRequest, TransportOrAlarm};
pub use crate::error::{CrateOrObjectError, Error};
pub use crate::proxy::{Builder, New, Proxy, Send, WithInit};
pub use crate::transport::{RequestTransport, ResponseTransport};
