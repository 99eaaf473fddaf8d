//! The envelopes on the wire.
//!
//! An envelope travels as a JSON object: the member `type` names the
//! variant, and each payload is a member under the name of its field.
//!
//! ```text
//! {"type":"init","init":<init>}
//! {"type":"request","request":<request>}
//! {"type":"initWithRequest","init":<init>,"request":<request>}
//! {"type":"response","response":<response>}
//! {"type":"error","error":<error>}
//! {"type":"initialized"}
//! ```
//!
//! Here a payload is the JSON text of one value, as a `String`. Writing an
//! envelope puts the texts into the frame as they are; reading one hands the
//! texts out as they were written. Turning a payload into its text and back
//! is the caller's business.
//!
//! Nothing is written that would not be read back as it was: a payload that
//! is not the text of one JSON value, or that would change what the frame
//! says, is refused.

use crate::dispatch::TransportOrAlarm;
use crate::error::{Error, ErrorView};
use crate::transport::{RequestTransport, ResponseTransport};
use serde_json::value::RawValue;
use serde_json::Error as JsonFailure;
use std::collections::BTreeMap;
use vstd::prelude::*;
use vstd::string::StringExecFns;

verus! {

/// The members of the JSON object that `text` holds, each as its key and
/// the text of its value as written, or `None` where `text` is no JSON
/// object. This is what `serde_json::from_str` reads from `text` into a map
/// from `String` to `Box<RawValue>`.
pub uninterp spec fn json_members(text: Seq<char>) -> Option<Seq<(Seq<char>, Seq<char>)>>;

/// Reads `text` as a JSON object with `serde_json::from_str`, into a map
/// from `String` to `Box<RawValue>`, and hands the members out in the map's
/// order. The contract gives the outcome its name and claims nothing else.
#[verifier::external_body]
fn parse_members(text: &str) -> (parsed: Result<Vec<(String, String)>, JsonFailure>)
    ensures
        match parsed {
            Ok(members) => json_members(text@) == Some(members.deep_view()),
            Err(_) => json_members(text@) is None,
        },
{
    let object: BTreeMap<String, Box<RawValue>> = serde_json::from_str(text)?;
    Ok(object.into_iter().map(|(key, value)| (key, value.get().to_owned())).collect())
}

/// A result with each side as its view.
pub open spec fn viewed<T: View, E: View>(result: Result<T, E>) -> Result<T::V, E::V> {
    match result {
        Ok(value) => Ok(value@),
        Err(error) => Err(error@),
    }
}

/// The text of the first member named `key`, if there is one.
pub open spec fn member(members: Seq<(Seq<char>, Seq<char>)>, key: Seq<char>) -> Option<
    Seq<char>,
>
    decreases members.len(),
{
    if members.len() == 0 {
        None
    } else if members[0].0 == key {
        Some(members[0].1)
    } else {
        member(members.drop_first(), key)
    }
}

/// What is said of an object that lacks the member `name`.
pub open spec fn missing_field(name: Seq<char>) -> Seq<char> {
    "missing field `"@ + name + "`"@
}

/// What is said of an object whose `type` is `tag` where only `expected`
/// would do.
pub open spec fn unknown_variant(tag: Seq<char>, expected: Seq<char>) -> Seq<char> {
    "unknown variant `"@ + tag + "`, expected one of "@ + expected
}

/// The wire form of a request envelope. `Empty` has none.
pub open spec fn request_text(envelope: RequestTransport<Seq<char>, Seq<char>>) -> Seq<char>
    recommends
        !(envelope is Empty),
{
    match envelope {
        RequestTransport::InitWithRequest { init, request } => {
            "{\"type\":\"initWithRequest\",\"init\":"@ + init + ",\"request\":"@ + request + "}"@
        },
        RequestTransport::Init { init } => "{\"type\":\"init\",\"init\":"@ + init + "}"@,
        RequestTransport::Request { request } => {
            "{\"type\":\"request\",\"request\":"@ + request + "}"@
        },
        RequestTransport::Empty => Seq::empty(),
    }
}

/// The wire form of a response envelope.
pub open spec fn response_text(envelope: ResponseTransport<Seq<char>, Seq<char>>) -> Seq<char> {
    match envelope {
        ResponseTransport::Response { response } => {
            "{\"type\":\"response\",\"response\":"@ + response + "}"@
        },
        ResponseTransport::Error { error } => "{\"type\":\"error\",\"error\":"@ + error + "}"@,
        ResponseTransport::Initialized => "{\"type\":\"initialized\"}"@,
    }
}

/// The request envelope that a JSON object with these members stands for.
///
/// The member `type` decides the variant and has to be written as one of
/// `"initWithRequest"`, `"init"` and `"request"`. Each payload of that
/// variant has to be there; members beyond those are passed over.
pub open spec fn request_of_members(members: Seq<(Seq<char>, Seq<char>)>) -> Result<
    RequestTransport<Seq<char>, Seq<char>>,
    ErrorView,
> {
    match member(members, "type"@) {
        None => Err(ErrorView::Json(missing_field("type"@))),
        Some(tag) => if tag == "\"initWithRequest\""@ {
            match member(members, "init"@) {
                None => Err(ErrorView::Json(missing_field("init"@))),
                Some(init) => match member(members, "request"@) {
                    None => Err(ErrorView::Json(missing_field("request"@))),
                    Some(request) => Ok(RequestTransport::InitWithRequest { init, request }),
                },
            }
        } else if tag == "\"init\""@ {
            match member(members, "init"@) {
                None => Err(ErrorView::Json(missing_field("init"@))),
                Some(init) => Ok(RequestTransport::Init { init }),
            }
        } else if tag == "\"request\""@ {
            match member(members, "request"@) {
                None => Err(ErrorView::Json(missing_field("request"@))),
                Some(request) => Ok(RequestTransport::Request { request }),
            }
        } else {
            Err(
                ErrorView::Json(
                    unknown_variant(tag, "`initWithRequest`, `init`, `request`"@),
                ),
            )
        },
    }
}

/// The response envelope that a JSON object with these members stands for.
///
/// The member `type` decides the variant and has to be written as one of
/// `"response"`, `"error"` and `"initialized"`. The payload of that variant
/// has to be there; members beyond those are passed over.
pub open spec fn response_of_members(members: Seq<(Seq<char>, Seq<char>)>) -> Result<
    ResponseTransport<Seq<char>, Seq<char>>,
    ErrorView,
> {
    match member(members, "type"@) {
        None => Err(ErrorView::Json(missing_field("type"@))),
        Some(tag) => if tag == "\"response\""@ {
            match member(members, "response"@) {
                None => Err(ErrorView::Json(missing_field("response"@))),
                Some(response) => Ok(ResponseTransport::Response { response }),
            }
        } else if tag == "\"error\""@ {
            match member(members, "error"@) {
                None => Err(ErrorView::Json(missing_field("error"@))),
                Some(error) => Ok(ResponseTransport::Error { error }),
            }
        } else if tag == "\"initialized\""@ {
            Ok(ResponseTransport::Initialized)
        } else {
            Err(ErrorView::Json(unknown_variant(tag, "`response`, `error`, `initialized`"@)))
        },
    }
}

/// What reading `text` as a request envelope gives, or `None` where the
/// JSON reader finds no object in `text` and reports a failure of its own.
pub open spec fn request_read(text: Seq<char>) -> Option<
    Result<RequestTransport<Seq<char>, Seq<char>>, ErrorView>,
> {
    match json_members(text) {
        Some(members) => Some(request_of_members(members)),
        None => None,
    }
}

/// What reading `text` as a response envelope gives, or `None` where the
/// JSON reader finds no object in `text` and reports a failure of its own.
pub open spec fn response_read(text: Seq<char>) -> Option<
    Result<ResponseTransport<Seq<char>, Seq<char>>, ErrorView>,
> {
    match json_members(text) {
        Some(members) => Some(response_of_members(members)),
        None => None,
    }
}

/// What is written for the request envelope is read back as the envelope.
/// This is so where each payload is the text of one JSON value as the JSON
/// reader hands it out, and for no `Empty`.
pub open spec fn request_reads_back(envelope: RequestTransport<Seq<char>, Seq<char>>) -> bool {
    request_read(request_text(envelope)) == Some(Ok::<_, ErrorView>(envelope))
}

/// What is written for the response envelope is read back as the envelope.
pub open spec fn response_reads_back(envelope: ResponseTransport<Seq<char>, Seq<char>>) -> bool {
    response_read(response_text(envelope)) == Some(Ok::<_, ErrorView>(envelope))
}

/// What is said of an envelope that would not be read back as it is.
pub open spec fn unreadable() -> Seq<char> {
    "a payload is not the text of one JSON value"@
}

/// Looks a member up by its key.
pub fn find_member(members: &Vec<(String, String)>, key: &str) -> (found: Option<String>)
    ensures
        match found {
            Some(text) => member(members.deep_view(), key@) == Some(text@),
            None => member(members.deep_view(), key@) is None,
        },
{
    let wanted = String::from_str(key);
    let ghost all = members.deep_view();
    let mut at: usize = 0;
    assert(all.subrange(0, all.len() as int) == all);
    while at < members.len()
        invariant
            at <= members.len(),
            wanted@ == key@,
            all == members.deep_view(),
            member(all, key@) == member(all.subrange(at as int, all.len() as int), key@),
        decreases members.len() - at,
    {
        let ghost rest = all.subrange(at as int, all.len() as int);
        assert(rest[0] == all[at as int]);
        assert(rest.drop_first() == all.subrange(at + 1, all.len() as int));
        if members[at].0 == wanted {
            return Some(members[at].1.clone());
        }
        at += 1;
    }
    None
}

/// The failure to find the member `name`.
fn missing(name: &str) -> (error: Error)
    ensures
        error@ == ErrorView::Json(missing_field(name@)),
{
    Error::Json(String::from_str("missing field `").concat(name).concat("`"))
}

/// The failure to make sense of the member `type`.
fn unknown(tag: &str, expected: &str) -> (error: Error)
    ensures
        error@ == ErrorView::Json(unknown_variant(tag@, expected@)),
{
    Error::Json(
        String::from_str("unknown variant `").concat(tag).concat("`, expected one of ").concat(
            expected,
        ),
    )
}

/// The request envelope that the members of a JSON object stand for.
pub fn request_from_members(members: &Vec<(String, String)>) -> (decoded: Result<
    RequestTransport<String, String>,
    Error,
>)
    ensures
        viewed(decoded) == request_of_members(members.deep_view()),
{
    let tag = match find_member(members, "type") {
        None => { return Err(missing("type")); },
        Some(tag) => tag,
    };
    if tag == String::from_str("\"initWithRequest\"") {
        let init = match find_member(members, "init") {
            None => { return Err(missing("init")); },
            Some(init) => init,
        };
        match find_member(members, "request") {
            None => Err(missing("request")),
            Some(request) => Ok(RequestTransport::InitWithRequest { init, request }),
        }
    } else if tag == String::from_str("\"init\"") {
        match find_member(members, "init") {
            None => Err(missing("init")),
            Some(init) => Ok(RequestTransport::Init { init }),
        }
    } else if tag == String::from_str("\"request\"") {
        match find_member(members, "request") {
            None => Err(missing("request")),
            Some(request) => Ok(RequestTransport::Request { request }),
        }
    } else {
        Err(unknown(tag.as_str(), "`initWithRequest`, `init`, `request`"))
    }
}

/// The response envelope that the members of a JSON object stand for.
pub fn response_from_members(members: &Vec<(String, String)>) -> (decoded: Result<
    ResponseTransport<String, String>,
    Error,
>)
    ensures
        viewed(decoded) == response_of_members(members.deep_view()),
{
    let tag = match find_member(members, "type") {
        None => { return Err(missing("type")); },
        Some(tag) => tag,
    };
    if tag == String::from_str("\"response\"") {
        match find_member(members, "response") {
            None => Err(missing("response")),
            Some(response) => Ok(ResponseTransport::Response { response }),
        }
    } else if tag == String::from_str("\"error\"") {
        match find_member(members, "error") {
            None => Err(missing("error")),
            Some(error) => Ok(ResponseTransport::Error { error }),
        }
    } else if tag == String::from_str("\"initialized\"") {
        Ok(ResponseTransport::Initialized)
    } else {
        Err(unknown(tag.as_str(), "`response`, `error`, `initialized`"))
    }
}

/// The frame of a request envelope, with the payloads as they are.
fn frame_request(envelope: &RequestTransport<String, String>) -> (text: String)
    ensures
        text@ == request_text(envelope@),
{
    match envelope {
        RequestTransport::InitWithRequest { init, request } => String::from_str(
            "{\"type\":\"initWithRequest\",\"init\":",
        ).concat(init.as_str()).concat(",\"request\":").concat(request.as_str()).concat("}"),
        RequestTransport::Init { init } => String::from_str(
            "{\"type\":\"init\",\"init\":",
        ).concat(init.as_str()).concat("}"),
        RequestTransport::Request { request } => String::from_str(
            "{\"type\":\"request\",\"request\":",
        ).concat(request.as_str()).concat("}"),
        RequestTransport::Empty => String::new(),
    }
}

/// The frame of a response envelope, with the payload as it is.
fn frame_response(envelope: &ResponseTransport<String, String>) -> (text: String)
    ensures
        text@ == response_text(envelope@),
{
    match envelope {
        ResponseTransport::Response { response } => String::from_str(
            "{\"type\":\"response\",\"response\":",
        ).concat(response.as_str()).concat("}"),
        ResponseTransport::Error { error } => String::from_str(
            "{\"type\":\"error\",\"error\":",
        ).concat(error.as_str()).concat("}"),
        ResponseTransport::Initialized => String::from_str("{\"type\":\"initialized\"}"),
    }
}

/// Tells whether two request envelopes say the same.
pub fn same_request(
    left: &RequestTransport<String, String>,
    right: &RequestTransport<String, String>,
) -> (same: bool)
    ensures
        same == (left@ == right@),
{
    match (left, right) {
        (
            RequestTransport::InitWithRequest { init, request },
            RequestTransport::InitWithRequest { init: other_init, request: other_request },
        ) => *init == *other_init && *request == *other_request,
        (RequestTransport::Init { init }, RequestTransport::Init { init: other_init }) => {
            *init == *other_init
        },
        (
            RequestTransport::Request { request },
            RequestTransport::Request { request: other_request },
        ) => *request == *other_request,
        (RequestTransport::Empty, RequestTransport::Empty) => true,
        _ => false,
    }
}

/// Tells whether two response envelopes say the same.
pub fn same_response(
    left: &ResponseTransport<String, String>,
    right: &ResponseTransport<String, String>,
) -> (same: bool)
    ensures
        same == (left@ == right@),
{
    match (left, right) {
        (
            ResponseTransport::Response { response },
            ResponseTransport::Response { response: other_response },
        ) => *response == *other_response,
        (ResponseTransport::Error { error }, ResponseTransport::Error { error: other_error }) => {
            *error == *other_error
        },
        (ResponseTransport::Initialized, ResponseTransport::Initialized) => true,
        _ => false,
    }
}

/// Writes a request envelope.
///
/// The text is the frame with the payloads in it as they are, and it is
/// one that [`decode_request`] reads back as this envelope. `Empty` cannot
/// be written, nor an envelope that would not be read back as it is.
pub fn encode_request(envelope: &RequestTransport<String, String>) -> (encoded: Result<
    String,
    Error,
>)
    ensures
        encoded is Ok <==> request_reads_back(envelope@),
        match encoded {
            Ok(text) => text@ == request_text(envelope@),
            Err(error) => error@ == ErrorView::Json(
                if envelope is Empty {
                    "the enum variant RequestTransport::Empty cannot be serialized"@
                } else {
                    unreadable()
                },
            ),
        },
{
    if let RequestTransport::Empty = envelope {
        proof {
            written_request_is_read_back(envelope@);
        }
        return Err(
            Error::Json(
                String::from_str("the enum variant RequestTransport::Empty cannot be serialized"),
            ),
        );
    }
    let text = frame_request(envelope);
    let back = match decode_request(text.as_str()) {
        Ok(read) => same_request(&read, envelope),
        Err(_) => false,
    };
    if back {
        Ok(text)
    } else {
        Err(Error::Json(String::from_str("a payload is not the text of one JSON value")))
    }
}

/// Writes a response envelope.
///
/// The text is the frame with the payload in it as it is, and it is one
/// that [`decode_response`] reads back as this envelope. An envelope that
/// would not be read back as it is cannot be written.
pub fn encode_response(envelope: &ResponseTransport<String, String>) -> (encoded: Result<
    String,
    Error,
>)
    ensures
        encoded is Ok <==> response_reads_back(envelope@),
        match encoded {
            Ok(text) => text@ == response_text(envelope@),
            Err(error) => error@ == ErrorView::Json(unreadable()),
        },
{
    let text = frame_response(envelope);
    let back = match decode_response(text.as_str()) {
        Ok(read) => same_response(&read, envelope),
        Err(_) => false,
    };
    if back {
        Ok(text)
    } else {
        Err(Error::Json(String::from_str("a payload is not the text of one JSON value")))
    }
}

/// Reads a request envelope.
///
/// Where `text` is a JSON object, the outcome is what its members stand
/// for. Where it is none, the outcome is the failure that the JSON reader
/// reported.
pub fn decode_request(text: &str) -> (decoded: Result<RequestTransport<String, String>, Error>)
    ensures
        match request_read(text@) {
            Some(outcome) => viewed(decoded) == outcome,
            None => decoded matches Err(Error::Json(_)),
        },
{
    match parse_members(text) {
        Ok(members) => request_from_members(&members),
        Err(err) => Err(Error::from(err)),
    }
}

/// What arrived at the actor: the envelope in the body of a call, or the
/// alarm where there is no body.
pub fn receive(body: Option<&str>) -> (input: Result<TransportOrAlarm<String, String>, Error>)
    ensures
        match body {
            None => input == Ok::<_, Error>(TransportOrAlarm::<String, String>::Alarm),
            Some(text) => match request_read(text@) {
                Some(Ok(envelope)) => input matches Ok(TransportOrAlarm::Transport(read))
                    && read@ == envelope,
                Some(Err(error)) => input matches Err(reported) && reported@ == error,
                None => input matches Err(Error::Json(_)),
            },
        },
{
    match body {
        None => Ok(TransportOrAlarm::Alarm),
        Some(text) => match decode_request(text) {
            Ok(envelope) => Ok(TransportOrAlarm::Transport(envelope)),
            Err(error) => Err(error),
        },
    }
}

/// Reads a response envelope.
///
/// Where `text` is a JSON object, the outcome is what its members stand
/// for. Where it is none, the outcome is the failure that the JSON reader
/// reported.
pub fn decode_response(text: &str) -> (decoded: Result<ResponseTransport<String, String>, Error>)
    ensures
        match response_read(text@) {
            Some(outcome) => viewed(decoded) == outcome,
            None => decoded matches Err(Error::Json(_)),
        },
{
    match parse_members(text) {
        Ok(members) => response_from_members(&members),
        Err(err) => Err(Error::from(err)),
    }
}

/// The members say what the request envelope says: its variant under
/// `type`, and each of its payloads under the name of its field.
pub open spec fn holds_request(
    members: Seq<(Seq<char>, Seq<char>)>,
    envelope: RequestTransport<Seq<char>, Seq<char>>,
) -> bool {
    match envelope {
        RequestTransport::InitWithRequest { init, request } => {
            &&& member(members, "type"@) == Some("\"initWithRequest\""@)
            &&& member(members, "init"@) == Some(init)
            &&& member(members, "request"@) == Some(request)
        },
        RequestTransport::Init { init } => {
            &&& member(members, "type"@) == Some("\"init\""@)
            &&& member(members, "init"@) == Some(init)
        },
        RequestTransport::Request { request } => {
            &&& member(members, "type"@) == Some("\"request\""@)
            &&& member(members, "request"@) == Some(request)
        },
        RequestTransport::Empty => false,
    }
}

/// The members say what the response envelope says.
pub open spec fn holds_response(
    members: Seq<(Seq<char>, Seq<char>)>,
    envelope: ResponseTransport<Seq<char>, Seq<char>>,
) -> bool {
    match envelope {
        ResponseTransport::Response { response } => {
            &&& member(members, "type"@) == Some("\"response\""@)
            &&& member(members, "response"@) == Some(response)
        },
        ResponseTransport::Error { error } => {
            &&& member(members, "type"@) == Some("\"error\""@)
            &&& member(members, "error"@) == Some(error)
        },
        ResponseTransport::Initialized => member(members, "type"@) == Some("\"initialized\""@),
    }
}

/// Reading gives back the request envelope that was written, field for
/// field, and nothing else: an object is read as an envelope exactly when
/// its members say what the envelope says. No object is read as `Empty`.
pub proof fn request_round_trip(
    members: Seq<(Seq<char>, Seq<char>)>,
    envelope: RequestTransport<Seq<char>, Seq<char>>,
)
    ensures
        request_of_members(members) == Ok::<_, ErrorView>(envelope) <==> holds_request(
            members,
            envelope,
        ),
{
    reveal_strlit("\"initWithRequest\"");
    reveal_strlit("\"init\"");
    reveal_strlit("\"request\"");
    assert("\"init\""@.len() != "\"initWithRequest\""@.len());
    assert("\"init\""@.len() != "\"request\""@.len());
    assert("\"request\""@.len() != "\"initWithRequest\""@.len());
}

/// Reading gives back the response envelope that was written, field for
/// field, and nothing else.
pub proof fn response_round_trip(
    members: Seq<(Seq<char>, Seq<char>)>,
    envelope: ResponseTransport<Seq<char>, Seq<char>>,
)
    ensures
        response_of_members(members) == Ok::<_, ErrorView>(envelope) <==> holds_response(
            members,
            envelope,
        ),
{
    reveal_strlit("\"response\"");
    reveal_strlit("\"error\"");
    reveal_strlit("\"initialized\"");
    assert("\"response\""@.len() != "\"error\""@.len());
    assert("\"response\""@.len() != "\"initialized\""@.len());
    assert("\"error\""@.len() != "\"initialized\""@.len());
}

/// A request envelope is read back as it was written wherever the JSON
/// reader finds in the text the members that were written into it, and
/// only there. No text is read back as `Empty`.
pub proof fn written_request_is_read_back(envelope: RequestTransport<Seq<char>, Seq<char>>)
    ensures
        request_reads_back(envelope) <==> (json_members(request_text(envelope)) matches Some(
            members,
        ) && holds_request(members, envelope)),
        envelope is Empty ==> !request_reads_back(envelope),
{
    match json_members(request_text(envelope)) {
        Some(members) => request_round_trip(members, envelope),
        None => {},
    }
}

/// A response envelope is read back as it was written wherever the JSON
/// reader finds in the text the members that were written into it, and
/// only there.
pub proof fn written_response_is_read_back(envelope: ResponseTransport<Seq<char>, Seq<char>>)
    ensures
        response_reads_back(envelope) <==> (json_members(response_text(envelope)) matches Some(
            members,
        ) && holds_response(members, envelope)),
{
    match json_members(response_text(envelope)) {
        Some(members) => response_round_trip(members, envelope),
        None => {},
    }
}

} // verus!
