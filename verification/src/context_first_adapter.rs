//! The context-first handoff as the sidecar serves it: the client body in, the
//! answer out, and every failure under a code of its own.

use crate::buffer::{grown, BoundedBody};
use crate::error::{SidecarError, SidecarErrorView};
use crate::text::{
    decimal, decimal_text, join_three, join_two, law_decimal_is_digits, law_decimal_is_injective,
    law_decimal_reads_back, unsigned_value,
};
use crate::trtllm_context_first::dispatch::{
    ContextFirstDispatcher, DispatchError, DispatchErrorView, DispatchOutcome, Leg, LegFailure,
    OutcomeView,
};
use crate::trtllm_context_first::request::{RequestError, RequestErrorView};
use std::sync::Arc;
use std::time::Duration;
use vstd::prelude::*;

verus! {

/// Serves requests through a dispatcher.
pub struct ContextFirstAdapter {
    dispatcher: Arc<ContextFirstDispatcher>,
    /// The time that a client is given to send its body.
    client_body_timeout: Duration,
}

impl ContextFirstAdapter {
    /// The dispatcher behind the adapter.
    pub closed spec fn through(self) -> Arc<ContextFirstDispatcher> {
        self.dispatcher
    }

    /// The time that a client is given to send its body.
    pub closed spec fn patience(self) -> Duration {
        self.client_body_timeout
    }

    pub fn new(dispatcher: Arc<ContextFirstDispatcher>, client_body_timeout: Duration) -> (adapter:
        Self)
        ensures
            adapter.through() == dispatcher,
            adapter.patience() == client_body_timeout,
    {
        ContextFirstAdapter { dispatcher, client_body_timeout }
    }

    pub fn dispatcher(&self) -> (dispatcher: &Arc<ContextFirstDispatcher>)
        ensures
            *dispatcher == self.through(),
    {
        &self.dispatcher
    }

    pub fn client_body_timeout(&self) -> (timeout: Duration)
        ensures
            timeout == self.patience(),
    {
        self.client_body_timeout
    }

    /// Gives the next request its conversation. A client has no say in it.
    pub fn next_conversation_id(&self) -> (id: String)
        ensures
            exists|sequence: u64|
                self.through().counted(sequence) && id@ == #[trigger] conversation(sequence as nat),
    {
        conversation_id(self.dispatcher.next_conversation_sequence())
    }
}

/// Makes an adapter.
pub fn trtllm_context_first_adapter(
    dispatcher: Arc<ContextFirstDispatcher>,
    client_body_timeout: Duration,
) -> (adapter: ContextFirstAdapter)
    ensures
        adapter.through() == dispatcher,
        adapter.patience() == client_body_timeout,
{
    ContextFirstAdapter::new(dispatcher, client_body_timeout)
}

/// The conversation with a number.
pub open spec fn conversation(sequence: nat) -> Seq<char> {
    "dyn-"@ + decimal(sequence)
}

/// Writes the conversation with a number.
pub fn conversation_id(sequence: u64) -> (id: String)
    ensures
        id@ == conversation(sequence as nat),
{
    join_two("dyn-", decimal_text(sequence).as_str())
}

/// Two numbers never give the same conversation.
pub proof fn law_conversations_are_distinct(first: nat, second: nat)
    ensures
        conversation(first) == conversation(second) ==> first == second,
{
    let prefix = "dyn-"@;
    if conversation(first) == conversation(second) {
        assert(conversation(first).skip(prefix.len() as int) =~= decimal(first));
        assert(conversation(second).skip(prefix.len() as int) =~= decimal(second));
        law_decimal_is_injective(first, second);
    }
}

/// What a failed request is put down to.
#[verifier::ext_equal]
pub enum Cause {
    InvalidRequest,
    Streaming,
    InvalidHandoff,
    Cancelled,
    Unreachable,
    ReadStall(Leg),
    Deadline(Leg),
    Status,
    ResponseTooLarge,
    ClientTooSlow,
}

impl Cause {
    /// The HTTP status of a cause.
    pub open spec fn status(self) -> u16 {
        match self {
            Cause::InvalidRequest => 400,
            Cause::Streaming => 501,
            Cause::InvalidHandoff => 502,
            Cause::Cancelled => 502,
            Cause::Unreachable => 502,
            Cause::ReadStall(_) => 504,
            Cause::Deadline(_) => 504,
            Cause::Status => 502,
            Cause::ResponseTooLarge => 502,
            Cause::ClientTooSlow => 408,
        }
    }

    /// The code of a cause.
    pub open spec fn code(self) -> Seq<char> {
        match self {
            Cause::InvalidRequest => "invalid_request"@,
            Cause::Streaming => "streaming_not_supported"@,
            Cause::InvalidHandoff => "trtllm_context_handoff_invalid"@,
            Cause::Cancelled => "trtllm_context_cancelled"@,
            Cause::Unreachable => "trtllm_context_unreachable"@,
            Cause::ReadStall(Leg::Context) => "trtllm_context_read_stall"@,
            Cause::ReadStall(Leg::Generation) => "trtllm_generation_read_stall"@,
            Cause::Deadline(Leg::Context) => "trtllm_context_deadline_exceeded"@,
            Cause::Deadline(Leg::Generation) => "trtllm_generation_deadline_exceeded"@,
            Cause::Status => "trtllm_worker_status"@,
            Cause::ResponseTooLarge => "trtllm_worker_response_too_large"@,
            Cause::ClientTooSlow => "client_body_deadline_exceeded"@,
        }
    }

    /// The answer to a client whose request failed for this cause.
    pub open spec fn answer(self, message: Seq<char>) -> SidecarErrorView {
        SidecarErrorView { status: self.status(), code: self.code(), message }
    }
}

/// The length of each code, by which all but two of them differ.
proof fn lemma_code_len(cause: Cause)
    ensures
        cause.code().len() == (match cause {
            Cause::InvalidRequest => 15int,
            Cause::Streaming => 23,
            Cause::InvalidHandoff => 30,
            Cause::Cancelled => 24,
            Cause::Unreachable => 26,
            Cause::ReadStall(Leg::Context) => 25,
            Cause::ReadStall(Leg::Generation) => 28,
            Cause::Deadline(Leg::Context) => 32,
            Cause::Deadline(Leg::Generation) => 35,
            Cause::Status => 20,
            Cause::ResponseTooLarge => 32,
            Cause::ClientTooSlow => 29,
        }),
        cause == Cause::Deadline(Leg::Context) ==> cause.code()[7] == 'c',
        cause == Cause::ResponseTooLarge ==> cause.code()[7] == 'w',
{
    reveal_strlit("invalid_request");
    reveal_strlit("streaming_not_supported");
    reveal_strlit("trtllm_context_handoff_invalid");
    reveal_strlit("trtllm_context_cancelled");
    reveal_strlit("trtllm_context_unreachable");
    reveal_strlit("trtllm_context_read_stall");
    reveal_strlit("trtllm_generation_read_stall");
    reveal_strlit("trtllm_context_deadline_exceeded");
    reveal_strlit("trtllm_generation_deadline_exceeded");
    reveal_strlit("trtllm_worker_status");
    reveal_strlit("trtllm_worker_response_too_large");
    reveal_strlit("client_body_deadline_exceeded");
}

/// Every cause has a code of its own.
pub proof fn law_codes_tell_causes_apart(first: Cause, second: Cause)
    ensures
        first.code() == second.code() ==> first == second,
{
    lemma_code_len(first);
    lemma_code_len(second);
}

/// The cause of a failed leg.
pub open spec fn leg_cause(failure: LegFailure) -> Cause {
    match failure {
        LegFailure::Connect { .. } => Cause::Unreachable,
        LegFailure::Unavailable { .. } => Cause::Unreachable,
        LegFailure::ReadStall { leg } => Cause::ReadStall(leg),
        LegFailure::Deadline { leg } => Cause::Deadline(leg),
        LegFailure::Status { .. } => Cause::Status,
        LegFailure::BodyTooLarge { .. } => Cause::ResponseTooLarge,
    }
}

/// The answer to a client whose request was refused.
pub open spec fn request_answer(error: RequestErrorView) -> SidecarErrorView {
    match error {
        RequestErrorView::BodyTooLarge { .. } => Cause::InvalidRequest.answer(error.text()),
        RequestErrorView::MalformedJson { .. } => Cause::InvalidRequest.answer(error.text()),
        RequestErrorView::NotAnObject => Cause::InvalidRequest.answer(error.text()),
        RequestErrorView::ForbiddenField { .. } => Cause::InvalidRequest.answer(error.text()),
        RequestErrorView::UnsupportedStreaming => Cause::Streaming.answer(error.text()),
        RequestErrorView::Handoff { source } => Cause::InvalidHandoff.answer(source.text()),
    }
}

/// The answer to a client whose dispatch failed.
pub open spec fn dispatch_answer(error: DispatchErrorView) -> SidecarErrorView {
    match error {
        DispatchErrorView::Request(source) => request_answer(source),
        DispatchErrorView::Handoff { source } => Cause::InvalidHandoff.answer(source.text()),
        DispatchErrorView::Cancelled { .. } => Cause::Cancelled.answer(error.text()),
        DispatchErrorView::Leg(failure) => leg_cause(failure).answer(failure.text()),
    }
}

/// Turns a failed dispatch into an answer.
pub fn map_dispatch_error(error: DispatchError) -> (answer: SidecarError)
    ensures
        answer@ == dispatch_answer(error@),
{
    let message = error.message();
    match error {
        DispatchError::Request(source) => map_request_error(&source),
        DispatchError::Handoff { source } => SidecarError::adapter(
            502,
            "trtllm_context_handoff_invalid",
            source.message(),
        ),
        DispatchError::Cancelled { .. } => SidecarError::adapter(
            502,
            "trtllm_context_cancelled",
            message,
        ),
        DispatchError::Leg(failure) => map_leg_failure(failure),
    }
}

/// Turns a refused request into an answer.
pub fn map_request_error(error: &RequestError) -> (answer: SidecarError)
    ensures
        answer@ == request_answer(error@),
{
    match error {
        RequestError::BodyTooLarge { .. }
        | RequestError::MalformedJson { .. }
        | RequestError::NotAnObject
        | RequestError::ForbiddenField { .. } => SidecarError::adapter(
            400,
            "invalid_request",
            error.message(),
        ),
        RequestError::UnsupportedStreaming => SidecarError::adapter(
            501,
            "streaming_not_supported",
            error.message(),
        ),
        RequestError::Handoff { source } => SidecarError::adapter(
            502,
            "trtllm_context_handoff_invalid",
            source.message(),
        ),
    }
}

/// Turns a failed leg into an answer.
pub fn map_leg_failure(failure: LegFailure) -> (answer: SidecarError)
    ensures
        answer@ == leg_cause(failure).answer(failure.text()),
{
    let (status, code): (u16, &'static str) = match failure {
        LegFailure::Connect { .. } => (502, "trtllm_context_unreachable"),
        LegFailure::Unavailable { .. } => (502, "trtllm_context_unreachable"),
        LegFailure::ReadStall { leg } => (
            504,
            match leg {
                Leg::Context => "trtllm_context_read_stall",
                Leg::Generation => "trtllm_generation_read_stall",
            },
        ),
        LegFailure::Deadline { leg } => (
            504,
            match leg {
                Leg::Context => "trtllm_context_deadline_exceeded",
                Leg::Generation => "trtllm_generation_deadline_exceeded",
            },
        ),
        LegFailure::Status { .. } => (502, "trtllm_worker_status"),
        LegFailure::BodyTooLarge { .. } => (502, "trtllm_worker_response_too_large"),
    };
    SidecarError::adapter(status, code, failure.message())
}

/// Takes one chunk of a client body, unless the body would grow past its cap.
pub fn accept_client_chunk(body: &mut BoundedBody, chunk: &[u8]) -> (outcome: Result<
    (),
    RequestError,
>)
    ensures
        final(body).cap() == old(body).cap(),
        match grown(old(body)@, chunk@, old(body).cap()) {
            Some(whole) => outcome is Ok && final(body)@ == whole,
            None => outcome is Err && outcome->Err_0@ == (RequestErrorView::MalformedJson {
                source: "body exceeds the configured limit of "@ + decimal(old(body).cap())
                    + " bytes"@,
            }) && final(body)@ == old(body)@,
        },
{
    let limit: usize = body.limit();
    if body.accept(chunk) {
        Ok(())
    } else {
        let source = join_three(
            "body exceeds the configured limit of ",
            decimal_text(limit as u64).as_str(),
            " bytes",
        );
        Err(RequestError::MalformedJson { source })
    }
}

/// How the reading of a client body ended.
#[derive(Debug)]
pub enum ClientRead {
    /// The client took too long.
    Elapsed,
    /// The connection to the client failed, with this text.
    Broken(String),
    /// The body was refused.
    Refused(RequestError),
    /// The body is complete.
    Complete(Vec<u8>),
}

/// The answer to a client whose body could not be read. A connection that fails
/// is the client's fault, which did not deliver.
pub open spec fn client_read_answer(read: ClientRead) -> Option<SidecarErrorView> {
    match read {
        ClientRead::Elapsed => Some(
            Cause::ClientTooSlow.answer(
                "the client did not finish sending its request body in time"@,
            ),
        ),
        ClientRead::Broken(text) => Some(
            request_answer(RequestErrorView::MalformedJson { source: text@ }),
        ),
        ClientRead::Refused(error) => Some(request_answer(error@)),
        ClientRead::Complete(_) => None,
    }
}

/// Takes the body of a client, or says what to answer where there is none.
pub fn client_body(read: ClientRead) -> (outcome: Result<Vec<u8>, SidecarError>)
    ensures
        match client_read_answer(read) {
            Some(answer) => outcome is Err && outcome->Err_0@ == answer,
            None => outcome is Ok && outcome->Ok_0@ == read->Complete_0@,
        },
{
    match read {
        ClientRead::Elapsed => Err(
            SidecarError::adapter(
                408,
                "client_body_deadline_exceeded",
                "the client did not finish sending its request body in time".to_string(),
            ),
        ),
        ClientRead::Broken(source) => Err(
            map_request_error(&RequestError::MalformedJson { source }),
        ),
        ClientRead::Refused(error) => Err(map_request_error(&error)),
        ClientRead::Complete(body) => Ok(body),
    }
}

/// The answer to a request that succeeded.
#[derive(Debug, Clone, PartialEq, Eq)]
pub struct ClientResponse {
    pub status: u16,
    pub content_type: &'static str,
    pub body: Vec<u8>,
}

/// Whether a response is what a client is given for an outcome: the bytes of the
/// answer, as JSON.
pub open spec fn answers(response: ClientResponse, outcome: OutcomeView) -> bool {
    &&& response.status == 200
    &&& response.content_type@ == "application/json"@
    &&& response.body@ == outcome.answer()
}

/// Builds the answer to a request that succeeded.
pub fn response_for(outcome: &DispatchOutcome) -> (response: ClientResponse)
    ensures
        answers(response, outcome@),
{
    let mut body: Vec<u8> = Vec::new();
    body.extend_from_slice(outcome.body().as_slice());
    assert(body@ =~= outcome@.answer());
    ClientResponse { status: 200, content_type: "application/json", body }
}

/// The number of a conversation stands behind its mark, with every digit.
pub proof fn law_conversations_name_their_number(sequence: nat)
    ensures
        conversation(sequence).len() > 4,
        conversation(sequence).take(4) == "dyn-"@,
        unsigned_value(conversation(sequence).skip(4)) == Some(sequence),
{
    reveal_strlit("dyn-");
    law_decimal_reads_back(sequence);
    law_decimal_is_digits(sequence);
    assert(conversation(sequence).take(4) =~= "dyn-"@);
    assert(conversation(sequence).skip(4) =~= decimal(sequence));
}

/// A failed leg is answered in its own words, with 504 where time ran out and with
/// 502 otherwise. A leg that stalled or ran out of time is told from the other leg,
/// and failures of different kinds are told apart, but for the two ways in which a
/// worker is not reached.
pub proof fn law_failed_legs_are_answered_by_their_cause(first: LegFailure, second: LegFailure)
    ensures
        dispatch_answer(DispatchErrorView::Leg(first)).message == first.text(),
        dispatch_answer(DispatchErrorView::Leg(first)).status == (if first is ReadStall
            || first is Deadline {
            504u16
        } else {
            502
        }),
        dispatch_answer(DispatchErrorView::Leg(first)).code == dispatch_answer(
            DispatchErrorView::Leg(second),
        ).code <==> {
            ||| (first is Connect || first is Unavailable) && (second is Connect
                || second is Unavailable)
            ||| first matches LegFailure::ReadStall { leg } && second == (LegFailure::ReadStall {
                leg,
            })
            ||| first matches LegFailure::Deadline { leg } && second == (LegFailure::Deadline {
                leg,
            })
            ||| first is Status && second is Status
            ||| first is BodyTooLarge && second is BodyTooLarge
        },
{
    law_codes_tell_causes_apart(leg_cause(first), leg_cause(second));
}

/// A request that is refused for what the client sent is answered with 400, one that
/// asks for a stream with 501, and one whose handoff is of no use with 502. The
/// message is that of the error, or of the handoff's error alone.
pub proof fn law_refused_requests_are_answered_by_their_cause(error: RequestErrorView)
    ensures
        request_answer(error).status == (match error {
            RequestErrorView::UnsupportedStreaming => 501u16,
            RequestErrorView::Handoff { .. } => 502,
            _ => 400,
        }),
        request_answer(error).message == (match error {
            RequestErrorView::Handoff { source } => source.text(),
            _ => error.text(),
        }),
        dispatch_answer(DispatchErrorView::Request(error)) == request_answer(error),
        error matches RequestErrorView::Handoff { source } ==> dispatch_answer(
            DispatchErrorView::Handoff { source },
        ) == request_answer(error),
{
}

/// Only a body that was read to its end is taken. A client that is too slow is
/// answered with 408, and every other end with the answer to a refused request.
pub proof fn law_only_whole_bodies_are_taken(read: ClientRead)
    ensures
        client_read_answer(read) is None <==> read is Complete,
        read is Elapsed ==> client_read_answer(read)->Some_0.status == 408,
        read matches ClientRead::Refused(error) ==> client_read_answer(read) == Some(
            request_answer(error@),
        ),
        read matches ClientRead::Broken(text) ==> client_read_answer(read)->Some_0.status == 400,
{
}

} // verus!
