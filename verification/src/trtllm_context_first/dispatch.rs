//! The order of the two legs: what is sent when, and what each reply leads to.
//!
//! A dispatch goes through four steps. [`ContextFirstDispatcher::begin`] gives
//! the context leg to send, [`ContextPending::receive`] takes its reply,
//! [`GenerationPlan::release`] gives the generation leg to send, and
//! [`GenerationPending::finish`] takes the reply to that. Each step hands over
//! what the next one needs, so that none can be left out or taken twice.

use crate::clock::duration_nanos;
use crate::text::{
    decimal, decimal_text, join_three, join_two, law_decimal_reads_back, unsigned_value,
};
use crate::trtllm_context_first::contract::TrtllmContextFirstContract;
use crate::trtllm_context_first::handoff::{
    handoff_in_body, parse_context_response, HandoffError, HandoffErrorView, HandoffView,
};
use crate::trtllm_context_first::ids::RequestIds;
use crate::trtllm_context_first::request::{
    accept_client_body, build_context_leg, client_object, correlation_in, object_in,
    prepare_generation_request, prepared_context, prepared_generation, reads_as_context,
    reads_as_generation, resolved_id, LegView, PreparedLeg, RequestError, RequestErrorView,
};
use std::sync::atomic::AtomicU64;
use std::sync::Arc;
use std::time::Duration;
use tokio_util::sync::CancellationToken;
use vstd::prelude::*;

verus! {

/// The leg that something belongs to.
#[derive(Debug, Clone, Copy, PartialEq, Eq, Structural)]
pub enum Leg {
    Context,
    Generation,
}

impl Leg {
    /// The name of the leg.
    pub open spec fn name(self) -> Seq<char> {
        match self {
            Leg::Context => "context"@,
            Leg::Generation => "generation"@,
        }
    }

    pub fn as_str(self) -> (name: &'static str)
        ensures
            name@ == self.name(),
    {
        match self {
            Leg::Context => "context",
            Leg::Generation => "generation",
        }
    }
}

/// Why a leg gave no usable response.
///
/// The kinds are kept apart, so that a wrong address can be told from a slow
/// engine.
#[derive(Debug, Clone, Copy, PartialEq, Eq, Structural)]
pub enum LegFailure {
    Connect { leg: Leg },
    ReadStall { leg: Leg },
    Deadline { leg: Leg },
    Status { leg: Leg, status: u16 },
    BodyTooLarge { leg: Leg, limit: usize },
    Unavailable { leg: Leg },
}

impl LegFailure {
    /// The text of the failure.
    pub open spec fn text(self) -> Seq<char> {
        match self {
            LegFailure::Connect { leg } => "could not connect to the "@ + leg.name() + " worker"@,
            LegFailure::ReadStall { leg } => "the "@ + leg.name()
                + " worker stopped sending data before finishing"@,
            LegFailure::Deadline { leg } => "the "@ + leg.name()
                + " leg exceeded its total deadline"@,
            LegFailure::Status { leg, status } => "the "@ + leg.name() + " worker returned HTTP "@
                + decimal(status as nat),
            LegFailure::BodyTooLarge { leg, limit } => "the "@ + leg.name()
                + " response body exceeded the configured limit of "@ + decimal(limit as nat)
                + " bytes"@,
            LegFailure::Unavailable { leg } => "the "@ + leg.name()
                + " worker could not be reached"@,
        }
    }

    /// Writes the failure out.
    pub fn message(&self) -> (message: String)
        ensures
            message@ == self.text(),
    {
        match self {
            LegFailure::Connect { leg } => join_three(
                "could not connect to the ",
                leg.as_str(),
                " worker",
            ),
            LegFailure::ReadStall { leg } => join_three(
                "the ",
                leg.as_str(),
                " worker stopped sending data before finishing",
            ),
            LegFailure::Deadline { leg } => join_three(
                "the ",
                leg.as_str(),
                " leg exceeded its total deadline",
            ),
            LegFailure::Status { leg, status } => {
                let mut message = join_three("the ", leg.as_str(), " worker returned HTTP ");
                message.append(decimal_text(*status as u64).as_str());
                message
            },
            LegFailure::BodyTooLarge { leg, limit } => {
                let mut message = join_three(
                    "the ",
                    leg.as_str(),
                    " response body exceeded the configured limit of ",
                );
                message.append(decimal_text(*limit as u64).as_str());
                message.append(" bytes");
                message
            },
            LegFailure::Unavailable { leg } => join_three(
                "the ",
                leg.as_str(),
                " worker could not be reached",
            ),
        }
    }
}

/// Why a dispatch gave no answer.
#[derive(Debug)]
pub enum DispatchError {
    Request(RequestError),
    Leg(LegFailure),
    Handoff { source: HandoffError },
    Cancelled { leg: Leg },
}

/// What a [`DispatchError`] holds.
#[verifier::ext_equal]
pub enum DispatchErrorView {
    Request(RequestErrorView),
    Leg(LegFailure),
    Handoff { source: HandoffErrorView },
    Cancelled { leg: Leg },
}

impl View for DispatchError {
    type V = DispatchErrorView;

    open spec fn view(&self) -> DispatchErrorView {
        match self {
            DispatchError::Request(error) => DispatchErrorView::Request(error@),
            DispatchError::Leg(failure) => DispatchErrorView::Leg(*failure),
            DispatchError::Handoff { source } => DispatchErrorView::Handoff { source: source@ },
            DispatchError::Cancelled { leg } => DispatchErrorView::Cancelled { leg: *leg },
        }
    }
}

impl DispatchErrorView {
    /// The text of the error.
    pub open spec fn text(self) -> Seq<char> {
        match self {
            DispatchErrorView::Request(error) => error.text(),
            DispatchErrorView::Leg(failure) => failure.text(),
            DispatchErrorView::Handoff { source } => "context handoff rejected: "@ + source.text(),
            DispatchErrorView::Cancelled { leg } => "the client cancelled the request during the "@
                + leg.name() + " leg"@,
        }
    }
}

impl DispatchError {
    /// Writes the error out.
    pub fn message(&self) -> (message: String)
        ensures
            message@ == self@.text(),
    {
        match self {
            DispatchError::Request(error) => error.message(),
            DispatchError::Leg(failure) => failure.message(),
            DispatchError::Handoff { source } => join_two(
                "context handoff rejected: ",
                source.message().as_str(),
            ),
            DispatchError::Cancelled { leg } => join_three(
                "the client cancelled the request during the ",
                leg.as_str(),
                " leg",
            ),
        }
    }
}

impl From<RequestError> for DispatchError {
    fn from(error: RequestError) -> (converted: Self) {
        DispatchError::Request(error)
    }
}

impl vstd::std_specs::convert::FromSpecImpl<RequestError> for DispatchError {
    open spec fn obeys_from_spec() -> bool {
        true
    }

    open spec fn from_spec(error: RequestError) -> DispatchError {
        DispatchError::Request(error)
    }
}

impl From<LegFailure> for DispatchError {
    fn from(failure: LegFailure) -> (converted: Self) {
        DispatchError::Leg(failure)
    }
}

impl vstd::std_specs::convert::FromSpecImpl<LegFailure> for DispatchError {
    open spec fn obeys_from_spec() -> bool {
        true
    }

    open spec fn from_spec(failure: LegFailure) -> DispatchError {
        DispatchError::Leg(failure)
    }
}

impl From<HandoffError> for DispatchError {
    fn from(source: HandoffError) -> (converted: Self) {
        DispatchError::Handoff { source }
    }
}

impl vstd::std_specs::convert::FromSpecImpl<HandoffError> for DispatchError {
    open spec fn obeys_from_spec() -> bool {
        true
    }

    open spec fn from_spec(source: HandoffError) -> DispatchError {
        DispatchError::Handoff { source }
    }
}

#[verifier::external_type_specification]
#[verifier::external_body]
pub struct ExCancellationToken(tokio_util::sync::CancellationToken);

/// `tokio_util::sync::CancellationToken::is_cancelled`: whether the token has
/// been cancelled by now, which is up to whoever holds a copy of it.
pub assume_specification[ tokio_util::sync::CancellationToken::is_cancelled ](
    token: &CancellationToken,
) -> (cancelled: bool)
;

/// Whether a call of `tokio_util::sync::CancellationToken::is_cancelled` on the
/// token gave this.
pub open spec fn token_said(token: &CancellationToken, cancelled: bool) -> bool {
    call_ensures(CancellationToken::is_cancelled, (token,), cancelled)
}

/// The body of a response, and the token that ends whatever still feeds it.
#[derive(Debug)]
pub struct OwnedBody {
    bytes: Vec<u8>,
    cancellation: CancellationToken,
}

impl OwnedBody {
    /// The bytes of the body.
    pub closed spec fn view(self) -> Seq<u8> {
        self.bytes@
    }

    /// The token of the body.
    pub closed spec fn token(self) -> CancellationToken {
        self.cancellation
    }

    pub fn new(bytes: Vec<u8>, cancellation: CancellationToken) -> (body: Self)
        ensures
            body@ == bytes@,
            body.token() == cancellation,
    {
        OwnedBody { bytes, cancellation }
    }

    pub fn as_slice(&self) -> (bytes: &[u8])
        ensures
            bytes@ == self@,
    {
        self.bytes.as_slice()
    }

    pub fn len(&self) -> (len: usize)
        ensures
            len == self@.len(),
    {
        self.bytes.len()
    }

    pub fn is_empty(&self) -> (empty: bool)
        ensures
            empty == (self@.len() == 0),
    {
        self.bytes.is_empty()
    }

    pub fn cancellation(&self) -> (token: &CancellationToken)
        ensures
            *token == self.token(),
    {
        &self.cancellation
    }
}

/// How a dispatch was answered.
#[derive(Debug)]
pub enum DispatchOutcome {
    /// The context leg gave the whole answer, and no generation ran.
    ContextCompleted { body: OwnedBody, correlation_id: i64 },
    /// The generation leg gave the answer.
    Generated { body: OwnedBody, correlation_id: i64 },
}

/// What a [`DispatchOutcome`] holds.
#[verifier::ext_equal]
pub enum OutcomeView {
    ContextCompleted { body: Seq<u8>, correlation_id: i64 },
    Generated { body: Seq<u8>, correlation_id: i64 },
}

impl View for DispatchOutcome {
    type V = OutcomeView;

    open spec fn view(&self) -> OutcomeView {
        match self {
            DispatchOutcome::ContextCompleted {
                body,
                correlation_id,
            } => OutcomeView::ContextCompleted { body: body@, correlation_id: *correlation_id },
            DispatchOutcome::Generated { body, correlation_id } => OutcomeView::Generated {
                body: body@,
                correlation_id: *correlation_id,
            },
        }
    }
}

impl OutcomeView {
    /// The bytes of the answer.
    pub open spec fn answer(self) -> Seq<u8> {
        match self {
            OutcomeView::ContextCompleted { body, .. } => body,
            OutcomeView::Generated { body, .. } => body,
        }
    }

    /// The id of the request.
    pub open spec fn id(self) -> i64 {
        match self {
            OutcomeView::ContextCompleted { correlation_id, .. } => correlation_id,
            OutcomeView::Generated { correlation_id, .. } => correlation_id,
        }
    }
}

impl DispatchOutcome {
    pub fn body(&self) -> (answer: &OwnedBody)
        ensures
            answer@ == self@.answer(),
            *self matches DispatchOutcome::ContextCompleted { body, .. } ==> *answer == body,
            *self matches DispatchOutcome::Generated { body, .. } ==> *answer == body,
    {
        match self {
            DispatchOutcome::ContextCompleted { body, .. } => body,
            DispatchOutcome::Generated { body, .. } => body,
        }
    }

    pub fn correlation_id(&self) -> (id: i64)
        ensures
            id == self@.id(),
    {
        match self {
            DispatchOutcome::ContextCompleted { correlation_id, .. } => *correlation_id,
            DispatchOutcome::Generated { correlation_id, .. } => *correlation_id,
        }
    }

    /// Whether no generation leg was sent.
    pub fn context_completed(&self) -> (completed: bool)
        ensures
            completed == (self@ is ContextCompleted),
    {
        match self {
            DispatchOutcome::ContextCompleted { .. } => true,
            DispatchOutcome::Generated { .. } => false,
        }
    }
}

/// The caps on bodies and the time that each leg is given.
#[derive(Debug, Clone, Copy)]
pub struct ContextFirstLimits {
    /// The longest client body.
    pub request_body_bytes: usize,
    /// The longest context response. It has a cap of its own, since a handoff
    /// can be much longer than the request that led to it.
    pub handoff_body_bytes: usize,
    /// The longest response of any leg.
    pub response_body_bytes: usize,
    /// The time for the whole context leg.
    pub context_deadline: Duration,
    /// The time for the whole generation leg.
    pub generation_deadline: Duration,
}

/// Why limits were refused.
#[derive(Debug, Clone, Copy, PartialEq, Eq, Structural)]
pub enum ConfigError {
    RequestBodyLimit,
    HandoffBodyLimit,
    ResponseBodyLimit,
    Deadline,
}

impl ConfigError {
    /// The text of the error.
    pub open spec fn text(self) -> Seq<char> {
        match self {
            ConfigError::RequestBodyLimit => "request_body_bytes must be greater than zero"@,
            ConfigError::HandoffBodyLimit => "handoff_body_bytes must be greater than zero"@,
            ConfigError::ResponseBodyLimit => "response_body_bytes must be greater than zero"@,
            ConfigError::Deadline => "leg deadlines must be greater than zero"@,
        }
    }

    /// Writes the error out.
    pub fn message(&self) -> (message: String)
        ensures
            message@ == self.text(),
    {
        match self {
            ConfigError::RequestBodyLimit =>
                "request_body_bytes must be greater than zero".to_string(),
            ConfigError::HandoffBodyLimit =>
                "handoff_body_bytes must be greater than zero".to_string(),
            ConfigError::ResponseBodyLimit =>
                "response_body_bytes must be greater than zero".to_string(),
            ConfigError::Deadline => "leg deadlines must be greater than zero".to_string(),
        }
    }
}

/// The first limit, in the order of the parameters, that is zero.
pub open spec fn refused_limit(
    request_body_bytes: usize,
    handoff_body_bytes: usize,
    response_body_bytes: usize,
    context_deadline: Duration,
    generation_deadline: Duration,
) -> Option<ConfigError> {
    if request_body_bytes == 0 {
        Some(ConfigError::RequestBodyLimit)
    } else if handoff_body_bytes == 0 {
        Some(ConfigError::HandoffBodyLimit)
    } else if response_body_bytes == 0 {
        Some(ConfigError::ResponseBodyLimit)
    } else if duration_nanos(context_deadline) == 0 || duration_nanos(generation_deadline) == 0 {
        Some(ConfigError::Deadline)
    } else {
        None
    }
}

impl ContextFirstLimits {
    /// Takes limits of which none is zero.
    pub fn new(
        request_body_bytes: usize,
        handoff_body_bytes: usize,
        response_body_bytes: usize,
        context_deadline: Duration,
        generation_deadline: Duration,
    ) -> (outcome: Result<Self, ConfigError>)
        ensures
            match refused_limit(
                request_body_bytes,
                handoff_body_bytes,
                response_body_bytes,
                context_deadline,
                generation_deadline,
            ) {
                Some(error) => outcome == Err::<Self, ConfigError>(error),
                None => outcome == Ok::<Self, ConfigError>(
                    (ContextFirstLimits {
                        request_body_bytes,
                        handoff_body_bytes,
                        response_body_bytes,
                        context_deadline,
                        generation_deadline,
                    }),
                ),
            },
    {
        if request_body_bytes == 0 {
            return Err(ConfigError::RequestBodyLimit);
        }
        if handoff_body_bytes == 0 {
            return Err(ConfigError::HandoffBodyLimit);
        }
        if response_body_bytes == 0 {
            return Err(ConfigError::ResponseBodyLimit);
        }
        if context_deadline.is_zero() || generation_deadline.is_zero() {
            return Err(ConfigError::Deadline);
        }
        Ok(
            ContextFirstLimits {
                request_body_bytes,
                handoff_body_bytes,
                response_body_bytes,
                context_deadline,
                generation_deadline,
            },
        )
    }
}

/// Why no context leg is sent: the client has gone, or its request is refused.
pub open spec fn refusal(
    cancelled: bool,
    client_body: Seq<u8>,
    limits: ContextFirstLimits,
) -> Option<DispatchErrorView> {
    if cancelled {
        Some(DispatchErrorView::Cancelled { leg: Leg::Context })
    } else {
        match client_object(client_body, limits.request_body_bytes) {
            Ok(_) => None,
            Err(error) => Some(DispatchErrorView::Request(error)),
        }
    }
}

/// The first step of a dispatch: the context leg, unless the client has gone or
/// its request is refused.
pub open spec fn begun(
    cancelled: bool,
    client_body: Seq<u8>,
    limits: ContextFirstLimits,
    conversation_id: Seq<char>,
    minted_id: i64,
) -> Result<LegView, DispatchErrorView> {
    if cancelled {
        Err(DispatchErrorView::Cancelled { leg: Leg::Context })
    } else {
        match prepared_context(
            client_body,
            limits.request_body_bytes,
            conversation_id,
            minted_id,
        ) {
            Ok(leg) => Ok(leg),
            Err(error) => Err(DispatchErrorView::Request(error)),
        }
    }
}

/// What a context reply leads to.
#[verifier::ext_equal]
pub enum AfterContextView {
    /// The context leg gave the whole answer.
    Completed(OutcomeView),
    /// A generation leg is to be sent.
    Generate { leg: LegView, correlation_id: i64 },
}

/// The handoff in a context response under its cap.
pub open spec fn handoff_within(raw: Seq<u8>, limits: ContextFirstLimits) -> Result<
    HandoffView,
    DispatchErrorView,
> {
    if raw.len() > limits.handoff_body_bytes {
        Err(
            DispatchErrorView::Leg(
                LegFailure::BodyTooLarge { leg: Leg::Context, limit: limits.handoff_body_bytes },
            ),
        )
    } else {
        match handoff_in_body(raw) {
            Ok(handoff) => Ok(handoff),
            Err(source) => Err(DispatchErrorView::Handoff { source }),
        }
    }
}

/// The second step of a dispatch: what the reply of the context worker leads to.
pub open spec fn after_context(
    client_body: Seq<u8>,
    limits: ContextFirstLimits,
    conversation_id: Seq<char>,
    auth_key: Option<Seq<u8>>,
    minted_id: i64,
    reply: Result<Seq<u8>, LegFailure>,
) -> Result<AfterContextView, DispatchErrorView> {
    match reply {
        Err(failure) => Err(DispatchErrorView::Leg(failure)),
        Ok(raw) => match handoff_within(raw, limits) {
            Err(error) => Err(error),
            Ok(handoff) => {
                let id = resolved_id(handoff, minted_id);
                if !handoff.pending() {
                    Ok(
                        AfterContextView::Completed(
                            OutcomeView::ContextCompleted { body: raw, correlation_id: id },
                        ),
                    )
                } else {
                    match prepared_generation(client_body, handoff, id, conversation_id, auth_key) {
                        Ok(generation) => Ok(
                            AfterContextView::Generate { leg: generation.leg, correlation_id: id },
                        ),
                        Err(error) => Err(DispatchErrorView::Request(error)),
                    }
                }
            },
        },
    }
}

/// The last step of a dispatch: the answer in the reply of the generation
/// worker.
pub open spec fn finished(
    correlation_id: i64,
    reply: Result<Seq<u8>, LegFailure>,
) -> Result<OutcomeView, DispatchErrorView> {
    match reply {
        Ok(body) => Ok(OutcomeView::Generated { body, correlation_id }),
        Err(failure) => Err(DispatchErrorView::Leg(failure)),
    }
}

/// The context leg to send, the time that it is given, and what takes its reply.
pub struct ContextPlan<'a> {
    pub leg: PreparedLeg,
    pub deadline: Duration,
    pub pending: ContextPending<'a>,
}

/// A dispatch that waits for the reply of the context worker.
pub struct ContextPending<'a> {
    dispatcher: &'a ContextFirstDispatcher,
    client_body: &'a [u8],
    conversation_id: &'a str,
    minted_id: i64,
}

/// What a start of a dispatch holds.
pub open spec fn begin_outcome(outcome: Result<ContextPlan<'_>, DispatchError>) -> Result<
    LegView,
    DispatchErrorView,
> {
    match outcome {
        Ok(plan) => Ok(plan.leg@),
        Err(error) => Err(error@),
    }
}

/// The generation leg to send, and the time that it is given.
///
/// The leg is handed out by [`GenerationPlan::release`] alone.
#[derive(Debug)]
pub struct GenerationPlan {
    leg: PreparedLeg,
    correlation_id: i64,
    deadline: Duration,
}

impl GenerationPlan {
    /// The leg to send.
    pub closed spec fn leg(self) -> LegView {
        self.leg@
    }

    /// The id of the request.
    pub closed spec fn id(self) -> i64 {
        self.correlation_id
    }

    /// The time that the leg is given.
    pub closed spec fn time(self) -> Duration {
        self.deadline
    }

    pub fn correlation_id(&self) -> (id: i64)
        ensures
            id == self.id(),
    {
        self.correlation_id
    }

    /// Hands the leg out, unless the client has gone.
    pub fn release_unless(self, cancelled: bool) -> (outcome: Result<GenerationLeg, DispatchError>)
        ensures
            cancelled ==> outcome is Err && outcome->Err_0@ == (DispatchErrorView::Cancelled {
                leg: Leg::Generation,
            }),
            !cancelled ==> outcome is Ok && outcome->Ok_0.leg@ == self.leg()
                && outcome->Ok_0.deadline == self.time() && outcome->Ok_0.pending.id()
                == self.id(),
    {
        if cancelled {
            return Err(DispatchError::Cancelled { leg: Leg::Generation });
        }
        Ok(
            GenerationLeg {
                leg: self.leg,
                deadline: self.deadline,
                pending: GenerationPending { correlation_id: self.correlation_id },
            },
        )
    }

    /// Hands the leg out, unless the token has been cancelled.
    pub fn release(self, cancellation: &CancellationToken) -> (outcome: Result<
        GenerationLeg,
        DispatchError,
    >)
        ensures
            token_said(cancellation, outcome is Err),
            outcome is Err ==> outcome->Err_0@ == (DispatchErrorView::Cancelled {
                leg: Leg::Generation,
            }),
            outcome is Ok ==> outcome->Ok_0.leg@ == self.leg() && outcome->Ok_0.deadline
                == self.time() && outcome->Ok_0.pending.id() == self.id(),
    {
        let cancelled: bool = cancellation.is_cancelled();
        self.release_unless(cancelled)
    }
}

/// The generation leg to send, the time that it is given, and what takes its
/// reply.
#[derive(Debug)]
pub struct GenerationLeg {
    pub leg: PreparedLeg,
    pub deadline: Duration,
    pub pending: GenerationPending,
}

/// A dispatch that waits for the reply of the generation worker.
#[derive(Debug)]
pub struct GenerationPending {
    correlation_id: i64,
}

/// What a context reply leads to.
#[derive(Debug)]
pub enum AfterContext {
    Completed(DispatchOutcome),
    Generate(GenerationPlan),
}

impl View for AfterContext {
    type V = AfterContextView;

    open spec fn view(&self) -> AfterContextView {
        match self {
            AfterContext::Completed(outcome) => AfterContextView::Completed(outcome@),
            AfterContext::Generate(plan) => AfterContextView::Generate {
                leg: plan.leg(),
                correlation_id: plan.id(),
            },
        }
    }
}

/// What the handling of a context reply holds.
pub open spec fn context_reply_outcome(outcome: Result<AfterContext, DispatchError>) -> Result<
    AfterContextView,
    DispatchErrorView,
> {
    match outcome {
        Ok(next) => Ok(next@),
        Err(error) => Err(error@),
    }
}

/// The bytes of a reply.
pub open spec fn reply_bytes(reply: Result<Vec<u8>, LegFailure>) -> Result<Seq<u8>, LegFailure> {
    match reply {
        Ok(body) => Ok(body@),
        Err(failure) => Err(failure),
    }
}

/// The bytes of a reply with an owned body.
pub open spec fn owned_reply_bytes(reply: Result<OwnedBody, LegFailure>) -> Result<
    Seq<u8>,
    LegFailure,
> {
    match reply {
        Ok(body) => Ok(body@),
        Err(failure) => Err(failure),
    }
}

/// What the end of a dispatch holds.
pub open spec fn finish_outcome(outcome: Result<DispatchOutcome, DispatchError>) -> Result<
    OutcomeView,
    DispatchErrorView,
> {
    match outcome {
        Ok(outcome) => Ok(outcome@),
        Err(error) => Err(error@),
    }
}

impl GenerationPending {
    /// The id of the request.
    pub closed spec fn id(self) -> i64 {
        self.correlation_id
    }

    /// Takes the reply of the generation worker as the answer.
    pub fn finish(self, reply: Result<OwnedBody, LegFailure>) -> (outcome: Result<
        DispatchOutcome,
        DispatchError,
    >)
        ensures
            finish_outcome(outcome) == finished(self.id(), owned_reply_bytes(reply)),
            reply is Ok ==> outcome == Ok::<DispatchOutcome, DispatchError>(
                (DispatchOutcome::Generated { body: reply->Ok_0, correlation_id: self.id() }),
            ),
    {
        match reply {
            Ok(body) => Ok(
                DispatchOutcome::Generated { body, correlation_id: self.correlation_id },
            ),
            Err(failure) => Err(DispatchError::from(failure)),
        }
    }
}

/// Decides the order of the two legs.
pub struct ContextFirstDispatcher {
    contract: TrtllmContextFirstContract,
    ids: (Arc<dyn RequestIds>,),
    limits: ContextFirstLimits,
    conversations: AtomicU64,
    /// The key that handoffs are signed with. Without one a worker accepts only
    /// handoffs that carry no protected field.
    internal_auth_key: Option<Vec<u8>>,
}

/// The bytes of an optional key.
pub open spec fn owned_key_of(key: Option<Vec<u8>>) -> Option<Seq<u8>> {
    match key {
        Some(key) => Some(key@),
        None => None,
    }
}

impl ContextFirstDispatcher {
    /// The revisions that the dispatcher was made for.
    pub closed spec fn terms(self) -> TrtllmContextFirstContract {
        self.contract
    }

    /// Whether counting one more conversation of this dispatcher gave this number.
    pub closed spec fn counted(self, sequence: u64) -> bool {
        call_ensures(
            AtomicU64::fetch_add,
            (&self.conversations, 1u64, std::sync::atomic::Ordering::Relaxed),
            sequence,
        )
    }

    /// Whether the supply of ids behind the dispatcher may give an id.
    pub closed spec fn may_mint(self, id: i64) -> bool {
        (*self.ids.0).may_mint(id)
    }

    /// The limits that the dispatcher keeps to.
    pub closed spec fn budget(self) -> ContextFirstLimits {
        self.limits
    }

    /// The key that handoffs are signed with.
    pub closed spec fn key(self) -> Option<Seq<u8>> {
        owned_key_of(self.internal_auth_key)
    }

    pub fn new(
        contract: TrtllmContextFirstContract,
        ids: Arc<dyn RequestIds>,
        limits: ContextFirstLimits,
        internal_auth_key: Option<Vec<u8>>,
    ) -> (dispatcher: Self)
        ensures
            dispatcher.terms() == contract,
            dispatcher.budget() == limits,
            dispatcher.key() == owned_key_of(internal_auth_key),
            forall|id: i64| #[trigger] dispatcher.may_mint(id) == (*ids).may_mint(id),
    {
        let source = (ids,);
        ContextFirstDispatcher {
            contract,
            ids: source,
            limits,
            conversations: AtomicU64::new(0),
            internal_auth_key,
        }
    }

    /// Whether handoffs are signed.
    pub fn signs_handoffs(&self) -> (signs: bool)
        ensures
            signs == (self.key() is Some),
    {
        self.internal_auth_key.is_some()
    }

    /// Takes the next number for a conversation. The numbers of one process count
    /// up from zero. Which one a call gets depends on the calls of every thread
    /// that shares the dispatcher, so any may come.
    pub fn next_conversation_sequence(&self) -> (sequence: u64)
        ensures
            self.counted(sequence),
    {
        self.conversations.fetch_add(1, std::sync::atomic::Ordering::Relaxed)
    }

    pub fn contract(&self) -> (contract: TrtllmContextFirstContract)
        ensures
            contract == self.terms(),
    {
        self.contract
    }

    pub fn limits(&self) -> (limits: ContextFirstLimits)
        ensures
            limits == self.budget(),
    {
        self.limits
    }

    /// Gives the context leg to send, unless the client has gone or its request
    /// is refused. An id is minted only for a leg that is to be sent.
    pub fn begin_unless<'a>(
        &'a self,
        cancelled: bool,
        client_body: &'a [u8],
        conversation_id: &'a str,
    ) -> (outcome: Result<ContextPlan<'a>, DispatchError>)
        ensures
            match refusal(cancelled, client_body@, self.budget()) {
                Some(error) => outcome is Err && outcome->Err_0@ == error,
                None => outcome is Ok,
            },
            outcome is Ok ==> begin_outcome(outcome) == begun(
                cancelled,
                client_body@,
                self.budget(),
                conversation_id@,
                outcome->Ok_0.leg.correlation_id,
            ) && reads_as_context(
                outcome->Ok_0.leg@.body,
                client_object(client_body@, self.budget().request_body_bytes)->Ok_0,
                conversation_id@,
                outcome->Ok_0.leg.correlation_id,
            ) && self.may_mint(outcome->Ok_0.leg.correlation_id) && outcome->Ok_0.deadline
                == self.budget().context_deadline
                && outcome->Ok_0.pending.awaits(
                *self,
                client_body@,
                conversation_id@,
                outcome->Ok_0.leg.correlation_id,
            ),
    {
        if cancelled {
            return Err(DispatchError::Cancelled { leg: Leg::Context });
        }
        let client = match accept_client_body(client_body, self.limits.request_body_bytes) {
            Ok(client) => client,
            Err(error) => {
                return Err(DispatchError::from(error));
            },
        };
        let minted_id: i64 = self.ids.0.mint();
        assert(self.may_mint(minted_id));
        match build_context_leg(client, conversation_id, minted_id) {
            Ok(context) => Ok(
                ContextPlan {
                    leg: context.leg,
                    deadline: self.limits.context_deadline,
                    pending: ContextPending {
                        dispatcher: self,
                        client_body,
                        conversation_id,
                        minted_id,
                    },
                },
            ),
            Err(error) => Err(DispatchError::from(error)),
        }
    }

    /// Gives the context leg to send, unless the token has been cancelled or the
    /// request is refused.
    pub fn begin<'a>(
        &'a self,
        client_body: &'a [u8],
        conversation_id: &'a str,
        cancellation: &CancellationToken,
    ) -> (outcome: Result<ContextPlan<'a>, DispatchError>)
        ensures
            exists|cancelled: bool| #[trigger]
                token_said(cancellation, cancelled) && match refusal(
                    cancelled,
                    client_body@,
                    self.budget(),
                ) {
                    Some(error) => outcome is Err && outcome->Err_0@ == error,
                    None => outcome is Ok,
                },
            outcome is Err ==> refusal(true, client_body@, self.budget()) == Some(outcome->Err_0@)
                || refusal(false, client_body@, self.budget()) == Some(outcome->Err_0@),
            refusal(false, client_body@, self.budget()) is Some ==> outcome is Err,
            outcome is Ok ==> begin_outcome(outcome) == begun(
                false,
                client_body@,
                self.budget(),
                conversation_id@,
                outcome->Ok_0.leg.correlation_id,
            ) && reads_as_context(
                outcome->Ok_0.leg@.body,
                client_object(client_body@, self.budget().request_body_bytes)->Ok_0,
                conversation_id@,
                outcome->Ok_0.leg.correlation_id,
            ) && self.may_mint(outcome->Ok_0.leg.correlation_id) && outcome->Ok_0.deadline
                == self.budget().context_deadline
                && outcome->Ok_0.pending.awaits(
                *self,
                client_body@,
                conversation_id@,
                outcome->Ok_0.leg.correlation_id,
            ),
    {
        let cancelled: bool = cancellation.is_cancelled();
        assert(token_said(cancellation, cancelled));
        self.begin_unless(cancelled, client_body, conversation_id)
    }
}

impl<'a> ContextPending<'a> {
    /// The dispatcher that the dispatch belongs to.
    pub closed spec fn through(self) -> ContextFirstDispatcher {
        *self.dispatcher
    }

    /// What the client sent.
    pub closed spec fn client(self) -> Seq<u8> {
        self.client_body@
    }

    /// The conversation that the gateway gave to the request.
    pub closed spec fn conversation(self) -> Seq<char> {
        self.conversation_id@
    }

    /// The id that the context leg was sent under.
    pub closed spec fn minted(self) -> i64 {
        self.minted_id
    }

    /// Whether this is the dispatch of that request.
    pub open spec fn awaits(
        self,
        dispatcher: ContextFirstDispatcher,
        client_body: Seq<u8>,
        conversation_id: Seq<char>,
        minted_id: i64,
    ) -> bool {
        &&& self.through() == dispatcher
        &&& self.client() == client_body
        &&& self.conversation() == conversation_id
        &&& self.minted() == minted_id
    }

    /// Takes the reply of the context worker.
    ///
    /// The cap on the handoff is looked at before the reply is parsed. Where the
    /// context leg has given the whole answer it is handed on as it came, and
    /// there is no generation leg.
    pub fn receive(
        self,
        reply: Result<Vec<u8>, LegFailure>,
        cancellation: CancellationToken,
    ) -> (outcome: Result<AfterContext, DispatchError>)
        ensures
            context_reply_outcome(outcome) == after_context(
                self.client(),
                self.through().budget(),
                self.conversation(),
                self.through().key(),
                self.minted(),
                reply_bytes(reply),
            ),
            outcome matches Ok(AfterContext::Generate(plan)) ==> plan.time()
                == self.through().budget().generation_deadline && reads_as_generation(
                plan.leg().body,
                object_in(self.client())->Ok_0,
                handoff_in_body(reply->Ok_0@)->Ok_0,
                plan.id(),
                self.conversation(),
            ) && correlation_in(plan.leg().body) == Some(plan.id()),
            outcome matches Ok(AfterContext::Completed(completed)) ==> completed matches
                DispatchOutcome::ContextCompleted { body, .. } && body.token() == cancellation,
    {
        let raw = match reply {
            Ok(raw) => raw,
            Err(failure) => {
                return Err(DispatchError::from(failure));
            },
        };
        if raw.len() > self.dispatcher.limits.handoff_body_bytes {
            return Err(
                DispatchError::from(
                    LegFailure::BodyTooLarge {
                        leg: Leg::Context,
                        limit: self.dispatcher.limits.handoff_body_bytes,
                    },
                ),
            );
        }
        let handoff = match parse_context_response(raw.as_slice()) {
            Ok(handoff) => handoff,
            Err(source) => {
                return Err(DispatchError::from(source));
            },
        };
        let correlation_id: i64 = match handoff.disagg_request_id {
            Some(id) => id,
            None => self.minted_id,
        };
        if !handoff.needs_generation() {
            return Ok(
                AfterContext::Completed(
                    DispatchOutcome::ContextCompleted {
                        body: OwnedBody::new(raw, cancellation),
                        correlation_id,
                    },
                ),
            );
        }
        let auth_key: Option<&[u8]> = match &self.dispatcher.internal_auth_key {
            Some(key) => Some(key.as_slice()),
            None => None,
        };
        match prepare_generation_request(
            self.client_body,
            &handoff,
            correlation_id,
            self.conversation_id,
            auth_key,
        ) {
            Ok(generation) => Ok(
                AfterContext::Generate(
                    GenerationPlan {
                        leg: generation.leg,
                        correlation_id,
                        deadline: self.dispatcher.limits.generation_deadline,
                    },
                ),
            ),
            Err(error) => Err(DispatchError::from(error)),
        }
    }
}

/// Limits are taken exactly where none of them is zero, and else the first that is
/// zero is the reason, the two deadlines counting as one.
pub proof fn law_limits_are_never_zero(
    request: usize,
    handoff: usize,
    response: usize,
    context: Duration,
    generation: Duration,
)
    ensures
        ({
            let refused = refused_limit(request, handoff, response, context, generation);
            let timeless = duration_nanos(context) == 0 || duration_nanos(generation) == 0;
            &&& refused is None <==> request > 0 && handoff > 0 && response > 0 && !timeless
            &&& refused == Some(ConfigError::RequestBodyLimit) <==> request == 0
            &&& refused == Some(ConfigError::HandoffBodyLimit) <==> request > 0 && handoff == 0
            &&& refused == Some(ConfigError::ResponseBodyLimit) <==> request > 0 && handoff > 0
                && response == 0
        }),
{
}

/// The text of a failure names its leg, and the status or the limit as a number.
pub proof fn law_failures_say_what_is_wrong(failure: LegFailure)
    ensures
        ({
            let leg = match failure {
                LegFailure::Connect { leg } => leg,
                LegFailure::ReadStall { leg } => leg,
                LegFailure::Deadline { leg } => leg,
                LegFailure::Status { leg, .. } => leg,
                LegFailure::BodyTooLarge { leg, .. } => leg,
                LegFailure::Unavailable { leg } => leg,
            };
            exists|k: int, n: int|
                0 <= k <= n <= failure.text().len() && #[trigger] failure.text().subrange(k, n)
                    == leg.name()
        }),
        failure matches LegFailure::Status { status, .. } ==> exists|k: int|
            0 <= k <= failure.text().len() && unsigned_value(#[trigger] failure.text().skip(k))
                == Some(status as nat),
        failure matches LegFailure::BodyTooLarge { limit, .. } ==> exists|k: int, n: int|
            0 <= k <= n <= failure.text().len() && unsigned_value(
                #[trigger] failure.text().subrange(k, n),
            ) == Some(limit as nat),
{
    let (head, leg) = match failure {
        LegFailure::Connect { leg } => ("could not connect to the "@, leg),
        LegFailure::ReadStall { leg } => ("the "@, leg),
        LegFailure::Deadline { leg } => ("the "@, leg),
        LegFailure::Status { leg, .. } => ("the "@, leg),
        LegFailure::BodyTooLarge { leg, .. } => ("the "@, leg),
        LegFailure::Unavailable { leg } => ("the "@, leg),
    };
    let k = head.len() as int;
    assert(failure.text().subrange(k, k + leg.name().len()) =~= leg.name());
    match failure {
        LegFailure::Status { leg, status } => {
            let at = ("the "@ + leg.name() + " worker returned HTTP "@).len() as int;
            assert(failure.text().skip(at) =~= decimal(status as nat));
            law_decimal_reads_back(status as nat);
        },
        LegFailure::BodyTooLarge { leg, limit } => {
            let at = ("the "@ + leg.name()
                + " response body exceeded the configured limit of "@).len() as int;
            let end = at + decimal(limit as nat).len();
            assert(failure.text().subrange(at, end) =~= decimal(limit as nat));
            law_decimal_reads_back(limit as nat);
        },
        _ => {},
    }
}

/// A token is said to be cancelled, or not, where asking it gave that.
pub proof fn law_tokens_are_asked(token: &CancellationToken, cancelled: bool)
    ensures
        token_said(token, cancelled) <==> call_ensures(
            CancellationToken::is_cancelled,
            (token,),
            cancelled,
        ),
{
}

/// An error is told in the words of what led to it.
pub proof fn law_dispatch_errors_say_what_is_wrong(
    request: RequestErrorView,
    failure: LegFailure,
    source: HandoffErrorView,
    leg: Leg,
)
    ensures
        DispatchErrorView::Request(request).text() == request.text(),
        DispatchErrorView::Leg(failure).text() == failure.text(),
        (DispatchErrorView::Handoff { source }).text().skip("context handoff rejected: "@.len() as int)
            == source.text(),
        (DispatchErrorView::Cancelled { leg }).text() == "the client cancelled the request during the "@
            + leg.name() + " leg"@,
        Leg::Context.name() == "context"@ && Leg::Generation.name() == "generation"@,
{
    assert((DispatchErrorView::Handoff { source }).text().skip(
        "context handoff rejected: "@.len() as int,
    ) =~= source.text());
}

} // verus!
