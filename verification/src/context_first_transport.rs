//! What the HTTP transport of the two legs decides: where a leg goes, with which
//! headers, and which failure a bad end counts as.

use crate::address::{join_url, url_join, url_text};
use crate::buffer::{grown, BoundedBody};
use crate::trtllm_context_first::dispatch::{Leg, LegFailure};
use crate::trtllm_context_first::request::PreparedLeg;
use reqwest::{Client, Url};
use vstd::prelude::*;

verus! {

#[verifier::external_type_specification]
#[verifier::external_body]
pub struct ExClient(reqwest::Client);

#[verifier::external_type_specification]
#[verifier::external_body]
pub struct ExTransportError(reqwest::Error);

/// Whether `reqwest` says of an error that time ran out.
pub uninterp spec fn timed_out(error: reqwest::Error) -> bool;

/// Whether `reqwest` says of an error that connecting failed.
pub uninterp spec fn failed_to_connect(error: reqwest::Error) -> bool;

/// `reqwest::Error::is_timeout`: whether the error comes from time running out.
pub assume_specification[ reqwest::Error::is_timeout ](error: &reqwest::Error) -> (timeout: bool)
    ensures
        timeout == timed_out(*error),
;

/// `reqwest::Error::is_connect`: whether the error comes from connecting.
pub assume_specification[ reqwest::Error::is_connect ](error: &reqwest::Error) -> (connect: bool)
    ensures
        connect == failed_to_connect(*error),
;

/// The HTTP client and the base URLs of both workers.
///
/// The legs go to different workers, and both addresses are configured.
pub struct ContextFirstTransport {
    client: Client,
    context_base: Url,
    generation_base: Url,
    max_response_bytes: usize,
}

impl ContextFirstTransport {
    /// The client that sends the legs.
    pub closed spec fn sender(self) -> Client {
        self.client
    }

    /// The base URL of the worker of a leg.
    pub closed spec fn base(self, leg: Leg) -> Url {
        match leg {
            Leg::Context => self.context_base,
            Leg::Generation => self.generation_base,
        }
    }

    /// The longest response of any leg.
    pub closed spec fn cap(self) -> usize {
        self.max_response_bytes
    }

    pub fn new(
        client: Client,
        context_base: Url,
        generation_base: Url,
        max_response_bytes: usize,
    ) -> (transport: Self)
        ensures
            transport.sender() == client,
            transport.base(Leg::Context) == context_base,
            transport.base(Leg::Generation) == generation_base,
            transport.cap() == max_response_bytes,
    {
        ContextFirstTransport { client, context_base, generation_base, max_response_bytes }
    }

    pub fn client(&self) -> (client: &Client)
        ensures
            *client == self.sender(),
    {
        &self.client
    }

    pub fn max_response_bytes(&self) -> (limit: usize)
        ensures
            limit == self.cap(),
    {
        self.max_response_bytes
    }

    /// The URL of a path at the worker of a leg. A URL that cannot be built makes
    /// the worker unavailable.
    pub fn url(&self, path: &str, leg: Leg) -> (outcome: Result<Url, LegFailure>)
        ensures
            match url_join(url_text(self.base(leg)), path@) {
                Some(text) => outcome is Ok && url_text(outcome->Ok_0) == text,
                None => outcome == Err::<Url, LegFailure>((LegFailure::Unavailable { leg })),
            },
    {
        let base: &Url = match leg {
            Leg::Context => &self.context_base,
            Leg::Generation => &self.generation_base,
        };
        match join_url(base, path) {
            Some(url) => Ok(url),
            None => Err(LegFailure::Unavailable { leg }),
        }
    }
}

/// The failure that an error of the HTTP client counts as.
///
/// Time that runs out while the body is read is a stall: the worker stopped
/// sending. Before that it is the deadline of the leg.
pub open spec fn failure_of(
    timeout: bool,
    connect: bool,
    leg: Leg,
    reading_body: bool,
) -> LegFailure {
    if timeout && reading_body {
        LegFailure::ReadStall { leg }
    } else if timeout {
        LegFailure::Deadline { leg }
    } else if connect {
        LegFailure::Connect { leg }
    } else {
        LegFailure::Unavailable { leg }
    }
}

/// Decides which failure an error counts as.
pub fn classify_signs(timeout: bool, connect: bool, leg: Leg, reading_body: bool) -> (failure:
    LegFailure)
    ensures
        failure == failure_of(timeout, connect, leg, reading_body),
{
    if timeout {
        if reading_body {
            LegFailure::ReadStall { leg }
        } else {
            LegFailure::Deadline { leg }
        }
    } else if connect {
        LegFailure::Connect { leg }
    } else {
        LegFailure::Unavailable { leg }
    }
}

/// Decides which failure an error of the HTTP client counts as.
pub fn classify(error: &reqwest::Error, leg: Leg, reading_body: bool) -> (failure: LegFailure)
    ensures
        failure == failure_of(timed_out(*error), failed_to_connect(*error), leg, reading_body),
{
    let timeout: bool = error.is_timeout();
    let connect: bool = error.is_connect();
    classify_signs(timeout, connect, leg, reading_body)
}

/// Accepts the statuses of success, from 200 to 299, and reports any other.
pub fn check_status(status: u16, leg: Leg) -> (outcome: Result<(), LegFailure>)
    ensures
        outcome == (if 200 <= status < 300 {
            Ok::<(), LegFailure>(())
        } else {
            Err::<(), LegFailure>((LegFailure::Status { leg, status }))
        }),
{
    if 200 <= status && status < 300 {
        Ok(())
    } else {
        Err(LegFailure::Status { leg, status })
    }
}

/// How the sending of a leg ended without a response.
#[derive(Debug)]
pub enum SendEnd {
    /// The client cancelled its request.
    Cancelled,
    /// The time for the leg was up.
    Elapsed,
    /// The HTTP client gave an error.
    Failed(reqwest::Error),
}

/// Decides which failure the sending of a leg ended in.
pub fn send_failure(end: &SendEnd, leg: Leg) -> (failure: LegFailure)
    ensures
        failure == (match *end {
            SendEnd::Cancelled => LegFailure::Unavailable { leg },
            SendEnd::Elapsed => LegFailure::Deadline { leg },
            SendEnd::Failed(error) => failure_of(
                timed_out(error),
                failed_to_connect(error),
                leg,
                false,
            ),
        }),
{
    match end {
        SendEnd::Cancelled => LegFailure::Unavailable { leg },
        SendEnd::Elapsed => LegFailure::Deadline { leg },
        SendEnd::Failed(error) => classify(error, leg, false),
    }
}

/// Names and values of headers.
pub open spec fn headers_of(headers: Seq<(&'static str, String)>) -> Seq<(Seq<char>, Seq<char>)> {
    headers.map_values(|header: (&'static str, String)| (header.0@, header.1@))
}

/// The headers of a leg: its content type, and the header that the leg itself
/// asks for.
pub open spec fn leg_headers(auth_header: Option<(Seq<char>, Seq<char>)>) -> Seq<
    (Seq<char>, Seq<char>),
> {
    let content = seq![("content-type"@, "application/json"@)];
    match auth_header {
        Some(header) => content.push(header),
        None => content,
    }
}

/// Lists the headers that a leg is sent with.
pub fn request_headers(leg: &PreparedLeg) -> (headers: Vec<(&'static str, String)>)
    ensures
        headers_of(headers@) == leg_headers(leg@.auth_header),
{
    let mut headers: Vec<(&'static str, String)> = Vec::new();
    headers.push(("content-type", "application/json".to_string()));
    match &leg.auth_header {
        Some((name, value)) => {
            headers.push((*name, value.clone()));
        },
        None => {},
    }
    assert(headers_of(headers@) =~= leg_headers(leg@.auth_header));
    headers
}

/// Takes one chunk of a response, unless the response would grow past its cap.
pub fn accept_chunk(body: &mut BoundedBody, chunk: &[u8], leg: Leg) -> (outcome: Result<
    (),
    LegFailure,
>)
    ensures
        final(body).cap() == old(body).cap(),
        match grown(old(body)@, chunk@, old(body).cap()) {
            Some(whole) => outcome is Ok && final(body)@ == whole,
            None => outcome == Err::<(), LegFailure>(
                (LegFailure::BodyTooLarge { leg, limit: old(body).cap() as usize }),
            ) && final(body)@ == old(body)@,
        },
{
    let limit: usize = body.limit();
    if body.accept(chunk) {
        Ok(())
    } else {
        Err(LegFailure::BodyTooLarge { leg, limit })
    }
}

/// An unreachable worker, a stalled one and one that takes too long are never
/// mistaken for one another.
pub proof fn law_failures_keep_their_causes_apart(
    timeout: bool,
    connect: bool,
    leg: Leg,
    reading_body: bool,
)
    ensures
        failure_of(timeout, connect, leg, reading_body) is ReadStall <==> timeout && reading_body,
        failure_of(timeout, connect, leg, reading_body) is Deadline <==> timeout && !reading_body,
        failure_of(timeout, connect, leg, reading_body) is Connect <==> !timeout && connect,
        failure_of(timeout, connect, leg, reading_body) is Unavailable <==> !timeout && !connect,
{
}

/// A leg is always sent as JSON, with the header that it asks for as it is, and with
/// no other.
pub proof fn law_legs_are_sent_with_their_own_header(auth_header: Option<(Seq<char>, Seq<char>)>)
    ensures
        leg_headers(auth_header)[0] == ("content-type"@, "application/json"@),
        leg_headers(auth_header).len() == (if auth_header is Some {
            2int
        } else {
            1
        }),
        auth_header matches Some(header) ==> leg_headers(auth_header)[1] == header,
{
}

/// The names and values of headers are those of the headers, one by one.
pub proof fn law_headers_are_kept_one_by_one(headers: Seq<(&'static str, String)>, i: int)
    requires
        0 <= i < headers.len(),
    ensures
        headers_of(headers).len() == headers.len(),
        headers_of(headers)[i] == (headers[i].0@, headers[i].1@),
{
}

} // verus!
