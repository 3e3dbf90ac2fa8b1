//! A dispatch from its first step to its last, and what holds of every one.

use crate::trtllm_context_first::dispatch::{
    after_context, begun, finished, handoff_within, refusal, AfterContextView, ContextFirstLimits,
    DispatchErrorView, Leg, LegFailure, OutcomeView,
};
use crate::trtllm_context_first::handoff::{handoff_in_body, HandoffErrorView, HandoffView};
use crate::trtllm_context_first::request::{
    client_object, prepared_context, prepared_generation, resolved_id, LegView, RequestErrorView,
};
use vstd::prelude::*;

verus! {

/// What a dispatch meets from outside, in the order in which it is met.
pub struct Circumstances {
    /// Whether the client was gone before the first leg.
    pub cancelled_before: bool,
    /// What the client sent.
    pub client_body: Seq<u8>,
    /// The conversation that the gateway gave to the request.
    pub conversation_id: Seq<char>,
    /// The id that was minted for the request.
    pub minted_id: i64,
    /// The reply of the context worker.
    pub context_reply: Result<Seq<u8>, LegFailure>,
    /// Whether the client was gone between the two legs.
    pub cancelled_between: bool,
    /// The reply of the generation worker.
    pub generation_reply: Result<Seq<u8>, LegFailure>,
}

/// What a dispatch sends, and how it ends.
#[verifier::ext_equal]
pub struct Run {
    pub context_leg: Option<LegView>,
    pub generation_leg: Option<LegView>,
    pub result: Result<OutcomeView, DispatchErrorView>,
}

/// The dispatch that takes its steps one after the other.
pub open spec fn run(
    limits: ContextFirstLimits,
    auth_key: Option<Seq<u8>>,
    met: Circumstances,
) -> Run {
    match begun(
        met.cancelled_before,
        met.client_body,
        limits,
        met.conversation_id,
        met.minted_id,
    ) {
        Err(error) => Run { context_leg: None, generation_leg: None, result: Err(error) },
        Ok(leg) => match after_context(
            met.client_body,
            limits,
            met.conversation_id,
            auth_key,
            met.minted_id,
            met.context_reply,
        ) {
            Err(error) => Run { context_leg: Some(leg), generation_leg: None, result: Err(error) },
            Ok(AfterContextView::Completed(outcome)) => Run {
                context_leg: Some(leg),
                generation_leg: None,
                result: Ok(outcome),
            },
            Ok(AfterContextView::Generate { leg: generation, correlation_id }) => if
                met.cancelled_between {
                Run {
                    context_leg: Some(leg),
                    generation_leg: None,
                    result: Err(DispatchErrorView::Cancelled { leg: Leg::Generation }),
                }
            } else {
                Run {
                    context_leg: Some(leg),
                    generation_leg: Some(generation),
                    result: finished(correlation_id, met.generation_reply),
                }
            },
        },
    }
}

/// The handoff of the context reply, where it is within its cap and valid.
pub open spec fn met_handoff(limits: ContextFirstLimits, met: Circumstances) -> Option<
    HandoffView,
> {
    match met.context_reply {
        Ok(raw) => match handoff_within(raw, limits) {
            Ok(handoff) => Some(handoff),
            Err(_) => None,
        },
        Err(_) => None,
    }
}

/// A generation leg is sent exactly when the client is there, its request is
/// accepted, the context worker has replied with a valid handoff that leaves
/// something to generate, and the handoff carries the prompt in one form.
pub proof fn law_generation_follows_a_valid_context(
    limits: ContextFirstLimits,
    auth_key: Option<Seq<u8>>,
    met: Circumstances,
)
    ensures
        run(limits, auth_key, met).generation_leg is Some <==> {
            &&& !met.cancelled_before && !met.cancelled_between
            &&& client_object(met.client_body, limits.request_body_bytes) is Ok
            &&& met_handoff(limits, met) is Some
            &&& met_handoff(limits, met)->Some_0.pending()
            &&& met_handoff(limits, met)->Some_0.prompt() is Ok
        },
{
}

/// No generation leg is sent without a context leg before it.
pub proof fn law_context_comes_first(
    limits: ContextFirstLimits,
    auth_key: Option<Seq<u8>>,
    met: Circumstances,
)
    ensures
        run(limits, auth_key, met).generation_leg is Some ==> run(
            limits,
            auth_key,
            met,
        ).context_leg is Some,
{
}

/// Whatever goes wrong in the context leg, the failure is the result and no
/// generation leg is sent.
pub proof fn law_context_failure_never_starts_generation(
    limits: ContextFirstLimits,
    auth_key: Option<Seq<u8>>,
    met: Circumstances,
    failure: LegFailure,
)
    requires
        !met.cancelled_before,
        client_object(met.client_body, limits.request_body_bytes) is Ok,
        met.context_reply == Err::<Seq<u8>, LegFailure>(failure),
    ensures
        run(limits, auth_key, met).generation_leg is None,
        run(limits, auth_key, met).result == Err::<OutcomeView, DispatchErrorView>(
            DispatchErrorView::Leg(failure),
        ),
{
}

/// A context reply above its cap is refused unread.
pub proof fn law_oversized_handoff_is_refused(
    limits: ContextFirstLimits,
    auth_key: Option<Seq<u8>>,
    met: Circumstances,
)
    requires
        !met.cancelled_before,
        client_object(met.client_body, limits.request_body_bytes) is Ok,
        met.context_reply is Ok && met.context_reply->Ok_0.len() > limits.handoff_body_bytes,
    ensures
        run(limits, auth_key, met).generation_leg is None,
        run(limits, auth_key, met).result == Err::<OutcomeView, DispatchErrorView>(
            DispatchErrorView::Leg(
                LegFailure::BodyTooLarge { leg: Leg::Context, limit: limits.handoff_body_bytes },
            ),
        ),
{
}

/// An invalid handoff is the result, and no generation leg is sent.
pub proof fn law_invalid_handoff_never_starts_generation(
    limits: ContextFirstLimits,
    auth_key: Option<Seq<u8>>,
    met: Circumstances,
    source: HandoffErrorView,
)
    requires
        !met.cancelled_before,
        client_object(met.client_body, limits.request_body_bytes) is Ok,
        met.context_reply is Ok && met.context_reply->Ok_0.len() <= limits.handoff_body_bytes,
        handoff_in_body(met.context_reply->Ok_0) == Err::<HandoffView, HandoffErrorView>(source),
    ensures
        run(limits, auth_key, met).generation_leg is None,
        run(limits, auth_key, met).result == Err::<OutcomeView, DispatchErrorView>(
            DispatchErrorView::Handoff { source },
        ),
{
}

/// A client that is gone before the first leg has nothing sent for it.
pub proof fn law_cancelled_before_sends_nothing(
    limits: ContextFirstLimits,
    auth_key: Option<Seq<u8>>,
    met: Circumstances,
)
    requires
        met.cancelled_before,
    ensures
        run(limits, auth_key, met) == (Run {
            context_leg: None,
            generation_leg: None,
            result: Err(DispatchErrorView::Cancelled { leg: Leg::Context }),
        }),
{
}

/// A request that is refused has nothing sent for it.
pub proof fn law_refused_request_sends_nothing(
    limits: ContextFirstLimits,
    auth_key: Option<Seq<u8>>,
    met: Circumstances,
)
    requires
        !met.cancelled_before,
        client_object(met.client_body, limits.request_body_bytes) is Err,
    ensures
        run(limits, auth_key, met) == (Run {
            context_leg: None,
            generation_leg: None,
            result: Err(
                DispatchErrorView::Request(
                    client_object(met.client_body, limits.request_body_bytes)->Err_0,
                ),
            ),
        }),
{
}

/// A client that is gone between the legs has no generation leg sent for it.
pub proof fn law_cancelled_between_sends_no_generation(
    limits: ContextFirstLimits,
    auth_key: Option<Seq<u8>>,
    met: Circumstances,
)
    requires
        met.cancelled_between,
    ensures
        run(limits, auth_key, met).generation_leg is None,
        run(limits, auth_key, met).result matches Ok(outcome) ==> outcome is ContextCompleted,
{
}

/// Where the context leg gives the whole answer, that answer is handed on byte
/// for byte and no generation leg is sent, whether or not the client is gone by
/// then.
pub proof fn law_finished_context_is_the_answer(
    limits: ContextFirstLimits,
    auth_key: Option<Seq<u8>>,
    met: Circumstances,
)
    requires
        !met.cancelled_before,
        client_object(met.client_body, limits.request_body_bytes) is Ok,
        met_handoff(limits, met) is Some,
        !met_handoff(limits, met)->Some_0.pending(),
    ensures
        run(limits, auth_key, met).generation_leg is None,
        run(limits, auth_key, met).result == Ok::<OutcomeView, DispatchErrorView>(
            OutcomeView::ContextCompleted {
                body: met.context_reply->Ok_0,
                correlation_id: resolved_id(met_handoff(limits, met)->Some_0, met.minted_id),
            },
        ),
{
}

/// Where a generation leg is sent, its reply decides: a body is the answer byte
/// for byte, and a failure is the result.
pub proof fn law_generation_reply_is_the_answer(
    limits: ContextFirstLimits,
    auth_key: Option<Seq<u8>>,
    met: Circumstances,
)
    requires
        run(limits, auth_key, met).generation_leg is Some,
    ensures
        run(limits, auth_key, met).result == finished(
            resolved_id(met_handoff(limits, met)->Some_0, met.minted_id),
            met.generation_reply,
        ),
{
}

/// The legs and the answer of one dispatch carry one id. Only an id that the
/// context worker reports takes the place of the minted one, and it does so from
/// the generation leg on.
pub proof fn law_one_id_runs_through(
    limits: ContextFirstLimits,
    auth_key: Option<Seq<u8>>,
    met: Circumstances,
)
    ensures
        ({
            let run = run(limits, auth_key, met);
            &&& run.context_leg matches Some(leg) ==> leg.correlation_id == met.minted_id
            &&& run.generation_leg matches Some(leg) ==> leg.correlation_id == resolved_id(
                met_handoff(limits, met)->Some_0,
                met.minted_id,
            )
            &&& run.result matches Ok(outcome) ==> outcome.id() == resolved_id(
                met_handoff(limits, met)->Some_0,
                met.minted_id,
            )
        }),
{
}

/// The legs that are sent are those of the client's own body: the context leg under
/// the minted id, and the generation leg from the handoff that the context worker
/// replied with, signed with the dispatcher's key.
pub proof fn law_sent_legs_are_those_of_the_request(
    limits: ContextFirstLimits,
    auth_key: Option<Seq<u8>>,
    met: Circumstances,
)
    ensures
        run(limits, auth_key, met).context_leg matches Some(leg) ==> prepared_context(
            met.client_body,
            limits.request_body_bytes,
            met.conversation_id,
            met.minted_id,
        ) == Ok::<LegView, RequestErrorView>(leg),
        run(limits, auth_key, met).generation_leg matches Some(leg) ==> {
            &&& met.context_reply is Ok && met.context_reply->Ok_0.len()
                <= limits.handoff_body_bytes
            &&& handoff_in_body(met.context_reply->Ok_0) is Ok
            &&& prepared_generation(
                met.client_body,
                handoff_in_body(met.context_reply->Ok_0)->Ok_0,
                met.minted_id,
                met.conversation_id,
                auth_key,
            ) matches Ok(generation) && generation.leg == leg
        },
{
}

/// An answer is, byte for byte, what one worker replied: the context worker where no
/// generation leg was sent, and else the generation worker. Its id is the one that
/// the context worker reported, or else the minted one.
pub proof fn law_answers_are_replies(
    limits: ContextFirstLimits,
    auth_key: Option<Seq<u8>>,
    met: Circumstances,
)
    ensures
        run(limits, auth_key, met).result matches Ok(OutcomeView::ContextCompleted {
            body,
            correlation_id,
        }) ==> {
            &&& met.context_reply == Ok::<Seq<u8>, LegFailure>(body)
            &&& run(limits, auth_key, met).generation_leg is None
            &&& handoff_in_body(body) matches Ok(handoff) && correlation_id == (
            if handoff.disagg_request_id is Some {
                handoff.disagg_request_id->Some_0
            } else {
                met.minted_id
            })
        },
        run(limits, auth_key, met).result matches Ok(OutcomeView::Generated {
            body,
            correlation_id,
        }) ==> {
            &&& met.generation_reply == Ok::<Seq<u8>, LegFailure>(body)
            &&& run(limits, auth_key, met).generation_leg matches Some(leg) && leg.correlation_id
                == correlation_id
            &&& handoff_in_body(met.context_reply->Ok_0) matches Ok(handoff) && correlation_id == (
            if handoff.disagg_request_id is Some {
                handoff.disagg_request_id->Some_0
            } else {
                met.minted_id
            })
        },
        run(limits, auth_key, met).generation_leg is Some && met.generation_reply is Err ==> run(
            limits,
            auth_key,
            met,
        ).result == Err::<OutcomeView, DispatchErrorView>(
            DispatchErrorView::Leg(met.generation_reply->Err_0),
        ),
        run(limits, auth_key, met).generation_leg is Some && met.generation_reply is Ok ==> run(
            limits,
            auth_key,
            met,
        ).result is Ok,
{
}

/// A context leg is sent exactly where the client is there and its request is
/// accepted.
pub proof fn law_accepted_requests_are_sent(
    limits: ContextFirstLimits,
    auth_key: Option<Seq<u8>>,
    met: Circumstances,
)
    ensures
        run(limits, auth_key, met).context_leg is Some <==> !met.cancelled_before && client_object(
            met.client_body,
            limits.request_body_bytes,
        ) is Ok,
        refusal(met.cancelled_before, met.client_body, limits) is None <==> run(
            limits,
            auth_key,
            met,
        ).context_leg is Some,
        refusal(met.cancelled_before, met.client_body, limits) matches Some(error) ==> run(
            limits,
            auth_key,
            met,
        ).result == Err::<OutcomeView, DispatchErrorView>(error),
{
}

} // verus!
