//! The opening request in the form that the network layer takes: an HTTP
//! request built with the `http` crate, as `tungstenite` hands it out.
//!
//! The crate decides which targets and headers it accepts, and in which form
//! it keeps them. Those decisions are named here, not described: each is a
//! function of the texts alone.

use tokio_tungstenite::tungstenite::http::request::Builder;
use tokio_tungstenite::tungstenite::http::Request;
use vstd::multiset::Multiset;
use vstd::prelude::*;
use vstd::string::*;
use crate::deepgram::connection::ConnectionError;
use crate::deepgram::handshake::{HandshakeRequest, Header};

verus! {

/// `http::Request`, carried through as an opaque value.
#[verifier::external_type_specification]
#[verifier::external_body]
#[verifier::reject_recursive_types(T)]
pub struct ExRequest<T>(Request<T>);

/// `http::request::Builder`, carried through as an opaque value.
#[verifier::external_type_specification]
#[verifier::external_body]
pub struct ExBuilder(Builder);

/// `http::Error`, carried through as an opaque value.
#[verifier::external_type_specification]
#[verifier::external_body]
pub struct ExHttpError(tokio_tungstenite::tungstenite::http::Error);

/// Fewer headers than this always find room in a request. The header map of
/// the `http` crate refuses a header only once it would have to grow past
/// its largest table, which takes several thousand entries.
pub const HEADER_ROOM: usize = 1024;

/// The `http` crate reads the text as a target: `Uri::try_from` succeeds on
/// it.
pub uninterp spec fn target_accepted(target: Seq<char>) -> bool;

/// The form in which the `http` crate shows the target that it read from
/// the text: the `Display` of the `Uri`.
pub uninterp spec fn target_form(target: Seq<char>) -> Seq<char>;

/// The `http` crate reads the texts as a header: `HeaderName::try_from`
/// succeeds on the name and `HeaderValue::try_from` on the value.
pub uninterp spec fn header_accepted(name: Seq<char>, value: Seq<char>) -> bool;

/// The form in which the `http` crate keeps a header name that it read from
/// the text: what `HeaderName::as_str` gives.
pub uninterp spec fn stored_name(name: Seq<char>) -> Seq<char>;

/// The builder has met no error so far.
pub uninterp spec fn builder_sound(builder: Builder) -> bool;

/// The target that a sound builder holds, as it is shown.
pub uninterp spec fn builder_target(builder: Builder) -> Seq<char>;

/// The headers that a sound builder holds: each stored name with the text of
/// its value, as often as it was added.
pub uninterp spec fn builder_headers(builder: Builder) -> Multiset<(Seq<char>, Seq<char>)>;

/// The target of a request, as it is shown.
pub uninterp spec fn request_target(request: Request<()>) -> Seq<char>;

/// The headers of a request: each stored name with the text of its value, as
/// often as it was added.
pub uninterp spec fn request_headers(request: Request<()>) -> Multiset<(Seq<char>, Seq<char>)>;

/// Calls `Request::builder`: a sound builder without headers.
#[verifier::external_body]
fn new_builder() -> (builder: Builder)
    ensures
        builder_sound(builder),
        builder_headers(builder) == Multiset::<(Seq<char>, Seq<char>)>::empty(),
{
    Request::builder()
}

/// Calls `Builder::uri`. A sound builder stays sound exactly when the target
/// is accepted, and then holds it with the headers it had; an error, once
/// met, stays.
#[verifier::external_body]
fn with_uri(builder: Builder, uri: &str) -> (grown: Builder)
    ensures
        builder_sound(grown) <==> (builder_sound(builder) && target_accepted(uri@)),
        builder_sound(grown) ==> (builder_target(grown) == target_form(uri@) && builder_headers(
            grown,
        ) == builder_headers(builder)),
{
    builder.uri(uri)
}

/// Calls `Builder::header`. A builder is sound afterwards only if it was
/// before and the header is accepted; it then holds one header more and the
/// target it had. A sound builder with room takes every accepted header.
#[verifier::external_body]
fn with_header(builder: Builder, name: &str, value: &str) -> (grown: Builder)
    ensures
        builder_sound(grown) ==> (builder_sound(builder) && header_accepted(name@, value@)),
        (builder_sound(builder) && header_accepted(name@, value@) && builder_headers(builder).len()
            < HEADER_ROOM) ==> builder_sound(grown),
        builder_sound(grown) ==> (builder_target(grown) == builder_target(builder)
            && builder_headers(grown) == builder_headers(builder).insert(
            (stored_name(name@), value@),
        )),
{
    builder.header(name, value)
}

/// Calls `Builder::body` with the empty body: a sound builder gives the
/// request with its target and headers, any other the error it met.
#[verifier::external_body]
fn finish(builder: Builder) -> (built: Result<
    Request<()>,
    tokio_tungstenite::tungstenite::http::Error,
>)
    ensures
        built is Ok <==> builder_sound(builder),
        built matches Ok(request) ==> (request_target(request) == builder_target(builder)
            && request_headers(request) == builder_headers(builder)),
{
    builder.body(())
}

/// The text of an `http::Error`, as its `Display` gives it. Nothing is
/// claimed of the text.
#[verifier::external_body]
fn error_text(error: &tokio_tungstenite::tungstenite::http::Error) -> (text: String) {
    format!("{}", error)
}

/// The message of a request that could not be built.
pub open spec fn build_failure(reason: Seq<char>) -> bool {
    "Failed to build request: "@.is_prefix_of(reason)
}

/// The target and every header of the opening request are accepted.
pub open spec fn request_accepted(handshake: HandshakeRequest) -> bool {
    &&& target_accepted(handshake.url@)
    &&& forall|k: int|
        0 <= k < handshake.headers@.len() ==> header_accepted(
            (#[trigger] handshake.headers@[k]).name@,
            handshake.headers@[k].value@,
        )
}

/// The headers as a request holds them: each stored name with its value.
pub open spec fn stored_headers(headers: Seq<Header>) -> Multiset<(Seq<char>, Seq<char>)>
    decreases headers.len(),
{
    if headers.len() == 0 {
        Multiset::empty()
    } else {
        stored_headers(headers.drop_last()).insert(
            (stored_name(headers.last().name@), headers.last().value@),
        )
    }
}

/// A request holds as many headers as were added.
pub proof fn lemma_stored_headers_len(headers: Seq<Header>)
    ensures
        stored_headers(headers).len() == headers.len(),
    decreases headers.len(),
{
    broadcast use vstd::multiset::group_multiset_axioms;

    if headers.len() > 0 {
        lemma_stored_headers_len(headers.drop_last());
    }
}

/// Builds the HTTP request for the opening exchange: the target, then the
/// headers in their order, and no body. The attempt succeeds only if the
/// `http` crate accepts the target and every header, and it always succeeds
/// then unless there are more headers than surely find room. The request
/// holds the target and all the headers. A failure is a failed connect whose
/// reason starts with `Failed to build request: `.
pub fn build_request(handshake: &HandshakeRequest) -> (result: Result<Request<()>, ConnectionError>)
    ensures
        result is Ok ==> request_accepted(*handshake),
        request_accepted(*handshake) && handshake.headers@.len() <= HEADER_ROOM ==> result is Ok,
        result matches Ok(request) ==> request_target(request) == target_form(handshake.url@)
            && request_headers(request) == stored_headers(handshake.headers@),
        result matches Err(error) ==> (error matches ConnectionError::ConnectFailed(reason)
            && build_failure(reason@)),
{
    let ghost headers = handshake.headers@;
    let mut builder = with_uri(new_builder(), handshake.url.as_str());
    let mut i: usize = 0;
    proof {
        assert(headers.take(0) =~= Seq::<Header>::empty());
    }
    while i < handshake.headers.len()
        invariant
            i <= handshake.headers.len(),
            headers == handshake.headers@,
            builder_sound(builder) ==> {
                &&& target_accepted(handshake.url@)
                &&& forall|k: int|
                    0 <= k < i ==> header_accepted((#[trigger] headers[k]).name@, headers[k].value@)
                &&& builder_target(builder) == target_form(handshake.url@)
                &&& builder_headers(builder) == stored_headers(headers.take(i as int))
            },
            request_accepted(*handshake) && headers.len() <= HEADER_ROOM ==> builder_sound(builder),
        decreases handshake.headers.len() - i,
    {
        let header = &handshake.headers[i];
        proof {
            lemma_stored_headers_len(headers.take(i as int));
            let next = headers.take(i + 1);
            assert(next.drop_last() =~= headers.take(i as int));
            assert(next.last() == headers[i as int]);
        }
        builder = with_header(builder, header.name.as_str(), header.value.as_str());
        i += 1;
    }
    proof {
        assert(headers.take(headers.len() as int) =~= headers);
    }
    let built = match finish(builder) {
        Ok(request) => Ok(request),
        Err(error) => Err(error_text(&error)),
    };
    request_outcome(built)
}

/// What the attempt gives for what the builder gave: the request as it is,
/// or a failed connect whose reason is the builder's message after
/// `Failed to build request: `.
pub open spec fn is_request_outcome(
    result: Result<Request<()>, ConnectionError>,
    built: Result<Request<()>, String>,
) -> bool {
    match built {
        Ok(request) => result == Ok::<Request<()>, ConnectionError>(request),
        Err(detail) => result matches Err(ConnectionError::ConnectFailed(reason)) && reason@
            == "Failed to build request: "@ + detail@,
    }
}

/// Turns what the builder gave, with its error as text, into the result of
/// the attempt.
pub fn request_outcome(built: Result<Request<()>, String>) -> (result: Result<
    Request<()>,
    ConnectionError,
>)
    ensures
        is_request_outcome(result, built),
        result matches Err(error) ==> (error matches ConnectionError::ConnectFailed(reason)
            && build_failure(reason@)),
{
    match built {
        Ok(request) => Ok(request),
        Err(detail) => {
            let mut reason = "Failed to build request: ".to_owned();
            reason.append(detail.as_str());
            Err(ConnectionError::ConnectFailed(reason))
        },
    }
}

} // verus!
