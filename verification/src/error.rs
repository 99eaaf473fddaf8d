//! What can go wrong between a caller and an actor.

use serde_json::Error as JsonFailure;
use vstd::prelude::*;
use vstd::std_specs::convert::FromSpecImpl;
use vstd::string::{to_string_from_display_ensures, StringExecFns};
use worker::Error as WorkerFailure;

verus! {

/// The error that `serde_json` reports. Nothing is known of its inside.
#[verifier::external_type_specification]
#[verifier::external_body]
pub struct ExJsonFailure(JsonFailure);

/// The error of the host runtime. Nothing is known of its inside.
#[verifier::external_type_specification]
#[verifier::external_body]
pub struct ExWorkerFailure(WorkerFailure);

/// A failure of the library itself: the envelope could not be written or
/// read, the host refused the call, or the answer does not fit the question.
#[derive(Debug, Clone, PartialEq, Eq)]
pub enum Error {
    Json(String),
    Worker(String),
    ExpectedObjectResponse,
    ExpectedObjectInitialized,
}

/// An [`Error`] with its texts as sequences of characters.
pub enum ErrorView {
    Json(Seq<char>),
    Worker(Seq<char>),
    ExpectedObjectResponse,
    ExpectedObjectInitialized,
}

impl View for Error {
    type V = ErrorView;

    open spec fn view(&self) -> ErrorView {
        match self {
            Error::Json(detail) => ErrorView::Json(detail@),
            Error::Worker(detail) => ErrorView::Worker(detail@),
            Error::ExpectedObjectResponse => ErrorView::ExpectedObjectResponse,
            Error::ExpectedObjectInitialized => ErrorView::ExpectedObjectInitialized,
        }
    }
}

impl ErrorView {
    /// The text that describes the error to a reader.
    pub open spec fn message(self) -> Seq<char> {
        match self {
            ErrorView::Json(detail) => "json: "@ + detail,
            ErrorView::Worker(detail) => "worker: "@ + detail,
            ErrorView::ExpectedObjectResponse => "expected object response"@,
            ErrorView::ExpectedObjectInitialized => "expected object initialized"@,
        }
    }
}

impl Error {
    /// The text that describes the error to a reader.
    pub fn message(&self) -> (text: String)
        ensures
            text@ == self@.message(),
    {
        match self {
            Error::Json(detail) => String::from_str("json: ").concat(detail.as_str()),
            Error::Worker(detail) => String::from_str("worker: ").concat(detail.as_str()),
            Error::ExpectedObjectResponse => String::from_str("expected object response"),
            Error::ExpectedObjectInitialized => String::from_str("expected object initialized"),
        }
    }
}

impl From<JsonFailure> for Error {
    /// A failure to write or read JSON, with the text that `serde_json`
    /// gives it.
    fn from(err: JsonFailure) -> (error: Error)
        ensures
            error matches Error::Json(detail) && to_string_from_display_ensures::<JsonFailure>(
                &err,
                detail,
            ),
    {
        Error::Json(err.to_string())
    }
}

impl FromSpecImpl<JsonFailure> for Error {
    open spec fn obeys_from_spec() -> bool {
        false
    }

    open spec fn from_spec(err: JsonFailure) -> Error {
        arbitrary()
    }
}

impl From<WorkerFailure> for Error {
    /// A failure that the host reported, with the text that it gives it.
    fn from(err: WorkerFailure) -> (error: Error)
        ensures
            error matches Error::Worker(detail) && to_string_from_display_ensures::<WorkerFailure>(
                &err,
                detail,
            ),
    {
        Error::Worker(err.to_string())
    }
}

impl FromSpecImpl<WorkerFailure> for Error {
    open spec fn obeys_from_spec() -> bool {
        false
    }

    open spec fn from_spec(err: WorkerFailure) -> Error {
        arbitrary()
    }
}

/// Whatever `to_string` gives for `failure`, it is `text`.
pub open spec fn reads_as(failure: WorkerFailure, text: Seq<char>) -> bool {
    forall|shown: String| #[trigger]
        to_string_from_display_ensures::<WorkerFailure>(&failure, shown) ==> shown@ == text
}

/// `worker::Error::from` for a `String`. It makes the variant that holds
/// the text as it is, and that variant is displayed as the text alone.
pub assume_specification[ <WorkerFailure as From<String>>::from ](a: String) -> (failure:
    WorkerFailure)
    ensures
        reads_as(failure, a@),
;

impl From<Error> for WorkerFailure {
    /// The host's error that carries the message of `err`.
    fn from(err: Error) -> (failure: WorkerFailure)
        ensures
            reads_as(failure, err@.message()),
    {
        WorkerFailure::from(err.message())
    }
}

impl FromSpecImpl<Error> for WorkerFailure {
    open spec fn obeys_from_spec() -> bool {
        false
    }

    open spec fn from_spec(err: Error) -> WorkerFailure {
        arbitrary()
    }
}

/// Either a failure of the library or the error that the actor itself
/// reported.
#[derive(Debug, Clone, PartialEq, Eq)]
pub enum CrateOrObjectError<ObjectError> {
    Crate(Error),
    Object(ObjectError),
}

impl<ObjectError> From<Error> for CrateOrObjectError<ObjectError> {
    fn from(err: Error) -> (wrapped: Self)
        ensures
            wrapped == CrateOrObjectError::<ObjectError>::Crate(err),
    {
        CrateOrObjectError::Crate(err)
    }
}

impl<ObjectError> FromSpecImpl<Error> for CrateOrObjectError<ObjectError> {
    open spec fn obeys_from_spec() -> bool {
        true
    }

    open spec fn from_spec(err: Error) -> Self {
        CrateOrObjectError::Crate(err)
    }
}

impl<ObjectError: std::fmt::Display> From<CrateOrObjectError<ObjectError>> for WorkerFailure {
    /// The host's error that carries the message of the library's failure,
    /// or the text of the actor's error.
    fn from(err: CrateOrObjectError<ObjectError>) -> (failure: WorkerFailure)
        ensures
            match err {
                CrateOrObjectError::Crate(err) => reads_as(failure, err@.message()),
                CrateOrObjectError::Object(err) => exists|shown: String|
                    #[trigger] to_string_from_display_ensures::<ObjectError>(&err, shown)
                        && reads_as(failure, shown@),
            },
    {
        match err {
            CrateOrObjectError::Crate(err) => WorkerFailure::from(err.message()),
            CrateOrObjectError::Object(err) => WorkerFailure::from(err.to_string()),
        }
    }
}

impl<ObjectError: std::fmt::Display> FromSpecImpl<CrateOrObjectError<ObjectError>> for WorkerFailure {
    open spec fn obeys_from_spec() -> bool {
        false
    }

    open spec fn from_spec(err: CrateOrObjectError<ObjectError>) -> WorkerFailure {
        arbitrary()
    }
}

} // verus!
