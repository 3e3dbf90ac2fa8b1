//! The handoff that a context response carries for the generation leg.

use crate::json::{as_int, get_member, int_array, items_of, json_of, json_parse, member, parse_json, Json};
use crate::text::{debug_text, join_three, quoted_debug, text_eq, text_of};
use serde_json::Value;
use vstd::prelude::*;

verus! {

/// The `request_type` of a context leg.
pub const REQUEST_TYPE_CONTEXT_ONLY: &'static str = "context_only";

/// The `request_type` of a generation leg.
pub const REQUEST_TYPE_GENERATION_ONLY: &'static str = "generation_only";

/// The `request_type` of a request that one worker answers alone. It has no
/// place here and is never taken for one of the other two.
pub const REQUEST_TYPE_CONTEXT_AND_GENERATION: &'static str = "context_and_generation";

/// The finish reasons of a context leg that leave something to generate.
pub const GEN_PENDING_FINISH_REASONS: [&'static str; 2] = ["length", "not_finished"];

/// What a context response hands over.
#[derive(Debug, Clone, PartialEq, Eq)]
pub struct ContextHandoff {
    /// The request id that the context worker reports. It takes the place of the
    /// minted one, since a retried context leg may have changed it.
    pub disagg_request_id: Option<i64>,
    /// An identity of its own, which is relayed as it is.
    pub ctx_request_id: Option<i64>,
    /// First tokens that the generation worker prepends by itself. They are
    /// relayed, never added and never dropped.
    pub first_gen_tokens: Option<Vec<i64>>,
    /// State that only the workers understand.
    pub encoded_opaque_state: Option<String>,
    /// Why the context leg stopped.
    pub finish_reason: Option<String>,
    /// The prompt as token ids.
    pub prompt_token_ids: Option<Vec<i64>>,
    /// The prompt as an encoded buffer of token ids.
    pub prompt_token_ids_b64: Option<String>,
    /// A field that a worker accepts only from a signed request. Of a list it is
    /// the first item.
    pub ctx_info_endpoint: Option<String>,
}

/// What a [`ContextHandoff`] holds.
#[verifier::ext_equal]
pub struct HandoffView {
    pub disagg_request_id: Option<i64>,
    pub ctx_request_id: Option<i64>,
    pub first_gen_tokens: Option<Seq<i64>>,
    pub encoded_opaque_state: Option<Seq<char>>,
    pub finish_reason: Option<Seq<char>>,
    pub prompt_token_ids: Option<Seq<i64>>,
    pub prompt_token_ids_b64: Option<Seq<char>>,
    pub ctx_info_endpoint: Option<Seq<char>>,
}

/// The numbers of an optional vector.
pub open spec fn numbers_of(numbers: Option<Vec<i64>>) -> Option<Seq<i64>> {
    match numbers {
        Some(numbers) => Some(numbers@),
        None => None,
    }
}

impl View for ContextHandoff {
    type V = HandoffView;

    open spec fn view(&self) -> HandoffView {
        HandoffView {
            disagg_request_id: self.disagg_request_id,
            ctx_request_id: self.ctx_request_id,
            first_gen_tokens: numbers_of(self.first_gen_tokens),
            encoded_opaque_state: text_of(self.encoded_opaque_state),
            finish_reason: text_of(self.finish_reason),
            prompt_token_ids: numbers_of(self.prompt_token_ids),
            prompt_token_ids_b64: text_of(self.prompt_token_ids_b64),
            ctx_info_endpoint: text_of(self.ctx_info_endpoint),
        }
    }
}

/// A handoff in which nothing is set.
pub open spec fn empty_handoff() -> HandoffView {
    HandoffView {
        disagg_request_id: None,
        ctx_request_id: None,
        first_gen_tokens: None,
        encoded_opaque_state: None,
        finish_reason: None,
        prompt_token_ids: None,
        prompt_token_ids_b64: None,
        ctx_info_endpoint: None,
    }
}

impl Default for ContextHandoff {
    fn default() -> (handoff: Self)
        ensures
            handoff@ == empty_handoff(),
    {
        ContextHandoff {
            disagg_request_id: None,
            ctx_request_id: None,
            first_gen_tokens: None,
            encoded_opaque_state: None,
            finish_reason: None,
            prompt_token_ids: None,
            prompt_token_ids_b64: None,
            ctx_info_endpoint: None,
        }
    }
}

/// The prompt in the form that the generation leg is given.
#[derive(Debug, Clone, Copy, PartialEq, Eq)]
pub enum PromptTokens<'a> {
    Ids(&'a [i64]),
    /// An encoded buffer, relayed as it is.
    Base64(&'a str),
}

/// What a [`PromptTokens`] holds.
#[verifier::ext_equal]
pub enum PromptView {
    Ids(Seq<i64>),
    Base64(Seq<char>),
}

impl<'a> View for PromptTokens<'a> {
    type V = PromptView;

    open spec fn view(&self) -> PromptView {
        match self {
            PromptTokens::Ids(ids) => PromptView::Ids(ids@),
            PromptTokens::Base64(encoded) => PromptView::Base64(encoded@),
        }
    }
}

/// Why a context response was refused.
#[derive(Debug, Clone, PartialEq, Eq)]
pub enum HandoffError {
    NoChoices,
    NoDisaggregatedParams,
    UnexpectedRequestType { found: Option<String>, expected: &'static str },
    ConflictingPromptTokenForms,
    MissingPromptTokens,
    WrongFieldType { field: &'static str },
}

/// What a [`HandoffError`] holds.
#[verifier::ext_equal]
pub enum HandoffErrorView {
    NoChoices,
    NoDisaggregatedParams,
    UnexpectedRequestType { found: Option<Seq<char>>, expected: Seq<char> },
    ConflictingPromptTokenForms,
    MissingPromptTokens,
    WrongFieldType { field: Seq<char> },
}

impl View for HandoffError {
    type V = HandoffErrorView;

    open spec fn view(&self) -> HandoffErrorView {
        match self {
            HandoffError::NoChoices => HandoffErrorView::NoChoices,
            HandoffError::NoDisaggregatedParams => HandoffErrorView::NoDisaggregatedParams,
            HandoffError::UnexpectedRequestType {
                found,
                expected,
            } => HandoffErrorView::UnexpectedRequestType {
                found: text_of(*found),
                expected: expected@,
            },
            HandoffError::ConflictingPromptTokenForms =>
                HandoffErrorView::ConflictingPromptTokenForms,
            HandoffError::MissingPromptTokens => HandoffErrorView::MissingPromptTokens,
            HandoffError::WrongFieldType { field } => HandoffErrorView::WrongFieldType {
                field: field@,
            },
        }
    }
}

impl HandoffErrorView {
    /// The text of the error.
    pub open spec fn text(self) -> Seq<char> {
        match self {
            HandoffErrorView::NoChoices => "context response carries no choices"@,
            HandoffErrorView::NoDisaggregatedParams =>
                "context response choice carries no disaggregated_params"@,
            HandoffErrorView::UnexpectedRequestType { found, expected } => {
                let shown = match found {
                    Some(found) => "Some("@ + quoted_debug(found) + ")"@,
                    None => "None"@,
                };
                "context disaggregated_params.request_type is "@ + shown + ", expected \""@
                    + expected + "\""@
            },
            HandoffErrorView::ConflictingPromptTokenForms =>
                "context response sets both prompt_token_ids and prompt_token_ids_b64"@,
            HandoffErrorView::MissingPromptTokens =>
                "context response carries no prompt token representation"@,
            HandoffErrorView::WrongFieldType { field } => "context response field "@ + field
                + " has the wrong JSON type"@,
        }
    }
}

impl HandoffError {
    /// Writes the error out.
    pub fn message(&self) -> (message: String)
        ensures
            message@ == self@.text(),
    {
        match self {
            HandoffError::NoChoices => "context response carries no choices".to_string(),
            HandoffError::NoDisaggregatedParams =>
                "context response choice carries no disaggregated_params".to_string(),
            HandoffError::UnexpectedRequestType { found, expected } => {
                let shown = match found {
                    Some(found) => join_three("Some(", debug_text(found.as_str()).as_str(), ")"),
                    None => "None".to_string(),
                };
                let mut message = join_three(
                    "context disaggregated_params.request_type is ",
                    shown.as_str(),
                    ", expected \"",
                );
                message.append(*expected);
                message.append("\"");
                message
            },
            HandoffError::ConflictingPromptTokenForms =>
                "context response sets both prompt_token_ids and prompt_token_ids_b64".to_string(),
            HandoffError::MissingPromptTokens =>
                "context response carries no prompt token representation".to_string(),
            HandoffError::WrongFieldType { field } => join_three(
                "context response field ",
                *field,
                " has the wrong JSON type",
            ),
        }
    }
}

impl HandoffView {
    /// Whether the context leg left something to generate.
    pub open spec fn pending(self) -> bool {
        self.finish_reason == Some("length"@) || self.finish_reason == Some("not_finished"@)
    }

    /// The one form in which the prompt is handed over.
    pub open spec fn prompt(self) -> Result<PromptView, HandoffErrorView> {
        match (self.prompt_token_ids, self.prompt_token_ids_b64) {
            (Some(_), Some(_)) => Err(HandoffErrorView::ConflictingPromptTokenForms),
            (None, None) => Err(HandoffErrorView::MissingPromptTokens),
            (Some(ids), None) => Ok(PromptView::Ids(ids)),
            (None, Some(encoded)) => Ok(PromptView::Base64(encoded)),
        }
    }
}

/// What a result of [`ContextHandoff::prompt_tokens`] holds.
pub open spec fn prompt_outcome(outcome: Result<PromptTokens<'_>, HandoffError>) -> Result<
    PromptView,
    HandoffErrorView,
> {
    match outcome {
        Ok(prompt) => Ok(prompt@),
        Err(error) => Err(error@),
    }
}

impl ContextHandoff {
    /// Whether a generation leg is to be sent. Where the context leg has already
    /// given the whole answer there is none, and that is no failure.
    pub fn needs_generation(&self) -> (pending: bool)
        ensures
            pending == self@.pending(),
    {
        match &self.finish_reason {
            Some(reason) => text_eq(reason.as_str(), GEN_PENDING_FINISH_REASONS[0]) || text_eq(
                reason.as_str(),
                GEN_PENDING_FINISH_REASONS[1],
            ),
            None => false,
        }
    }

    /// The prompt in the form that was handed over, which must be exactly one.
    pub fn prompt_tokens(&self) -> (outcome: Result<PromptTokens<'_>, HandoffError>)
        ensures
            prompt_outcome(outcome) == self@.prompt(),
    {
        match (&self.prompt_token_ids, &self.prompt_token_ids_b64) {
            (Some(_), Some(_)) => Err(HandoffError::ConflictingPromptTokenForms),
            (None, None) => Err(HandoffError::MissingPromptTokens),
            (Some(ids), None) => Ok(PromptTokens::Ids(ids.as_slice())),
            (None, Some(encoded)) => Ok(PromptTokens::Base64(encoded.as_str())),
        }
    }
}

/// The integer in a member that may be missing or `null`.
pub open spec fn int_member(value: Json, name: Seq<char>) -> Result<Option<i64>, HandoffErrorView> {
    match member(value, name) {
        None | Some(Json::Null) => Ok(None),
        Some(found) => match as_int(found) {
            Some(number) => Ok(Some(number)),
            None => Err(HandoffErrorView::WrongFieldType { field: name }),
        },
    }
}

/// Whether every item is an integer that fits in 64 signed bits.
pub open spec fn all_ints(items: Seq<Json>) -> bool {
    forall|i: int| 0 <= i < items.len() ==> as_int(#[trigger] items[i]) is Some
}

/// The integers that the items are.
pub open spec fn ints(items: Seq<Json>) -> Seq<i64> {
    items.map_values(|item: Json| as_int(item)->Some_0)
}

/// The integers in an array member that may be missing or `null`.
pub open spec fn ints_member(value: Json, name: Seq<char>) -> Result<
    Option<Seq<i64>>,
    HandoffErrorView,
> {
    match member(value, name) {
        None | Some(Json::Null) => Ok(None),
        Some(Json::Array(items)) => if all_ints(items) {
            Ok(Some(ints(items)))
        } else {
            Err(HandoffErrorView::WrongFieldType { field: name })
        },
        Some(_) => Err(HandoffErrorView::WrongFieldType { field: name }),
    }
}

/// The text in a member that may be missing or `null`.
pub open spec fn text_member(value: Json, name: Seq<char>) -> Result<
    Option<Seq<char>>,
    HandoffErrorView,
> {
    match member(value, name) {
        None | Some(Json::Null) => Ok(None),
        Some(Json::Text(text)) => Ok(Some(text)),
        Some(_) => Err(HandoffErrorView::WrongFieldType { field: name }),
    }
}

/// A value, or its first item where it is a list that has one.
pub open spec fn first_of(value: Json) -> Json {
    match value {
        Json::Array(items) => if items.len() > 0 {
            items[0]
        } else {
            value
        },
        _ => value,
    }
}

/// The text in a member that may be missing or `null`, of a list the first item.
pub open spec fn endpoint_member(value: Json, name: Seq<char>) -> Result<
    Option<Seq<char>>,
    HandoffErrorView,
> {
    match member(value, name) {
        None => Ok(None),
        Some(found) => match first_of(found) {
            Json::Null => Ok(None),
            Json::Text(text) => Ok(Some(text)),
            _ => Err(HandoffErrorView::WrongFieldType { field: name }),
        },
    }
}

/// Reads an integer member.
fn optional_i64(object: &Value, field: &'static str) -> (outcome: Result<Option<i64>, HandoffError>)
    ensures
        match outcome {
            Ok(number) => int_member(json_of(*object), field@) == Ok::<
                Option<i64>,
                HandoffErrorView,
            >(number),
            Err(error) => int_member(json_of(*object), field@) == Err::<
                Option<i64>,
                HandoffErrorView,
            >(error@),
        },
{
    match get_member(object, field) {
        None => Ok(None),
        Some(value) => {
            if value.is_null() {
                return Ok(None);
            }
            match value.as_i64() {
                Some(number) => Ok(Some(number)),
                None => Err(HandoffError::WrongFieldType { field }),
            }
        },
    }
}

/// Reads a member that is an array of integers.
fn optional_i64_array(object: &Value, field: &'static str) -> (outcome: Result<
    Option<Vec<i64>>,
    HandoffError,
>)
    ensures
        match outcome {
            Ok(numbers) => ints_member(json_of(*object), field@) == Ok::<
                Option<Seq<i64>>,
                HandoffErrorView,
            >(numbers_of(numbers)),
            Err(error) => ints_member(json_of(*object), field@) == Err::<
                Option<Seq<i64>>,
                HandoffErrorView,
            >(error@),
        },
{
    match get_member(object, field) {
        None => Ok(None),
        Some(value) => {
            if value.is_null() {
                return Ok(None);
            }
            match value.as_array() {
                Some(items) => {
                    let ghost documents = items_of(items@);
                    let mut numbers: Vec<i64> = Vec::new();
                    let mut i: usize = 0;
                    while i < items.len()
                        invariant
                            i <= items.len(),
                            documents == items_of(items@),
                            numbers@.len() == i,
                            json_of(*value) == Json::Array(documents),
                            member(json_of(*object), field@) == Some(json_of(*value)),
                            forall|j: int|
                                0 <= j < i ==> as_int(#[trigger] documents[j]) == Some(numbers@[j]),
                        decreases items.len() - i,
                    {
                        assert(documents[i as int] == json_of(items@[i as int]));
                        match items[i].as_i64() {
                            Some(number) => {
                                numbers.push(number);
                            },
                            None => {
                                assert(!all_ints(documents));
                                return Err(HandoffError::WrongFieldType { field });
                            },
                        }
                        i += 1;
                    }
                    assert(all_ints(documents));
                    assert(numbers@ =~= ints(documents));
                    Ok(Some(numbers))
                },
                None => Err(HandoffError::WrongFieldType { field }),
            }
        },
    }
}

/// Reads a member that is a string.
fn optional_string(object: &Value, field: &'static str) -> (outcome: Result<
    Option<String>,
    HandoffError,
>)
    ensures
        match outcome {
            Ok(text) => text_member(json_of(*object), field@) == Ok::<
                Option<Seq<char>>,
                HandoffErrorView,
            >(text_of(text)),
            Err(error) => text_member(json_of(*object), field@) == Err::<
                Option<Seq<char>>,
                HandoffErrorView,
            >(error@),
        },
{
    match get_member(object, field) {
        None => Ok(None),
        Some(value) => {
            if value.is_null() {
                return Ok(None);
            }
            match value.as_str() {
                Some(text) => Ok(Some(text.to_string())),
                None => Err(HandoffError::WrongFieldType { field }),
            }
        },
    }
}

/// Reads a member that is a string or a list with a string in front.
fn optional_endpoint(object: &Value, field: &'static str) -> (outcome: Result<
    Option<String>,
    HandoffError,
>)
    ensures
        match outcome {
            Ok(text) => endpoint_member(json_of(*object), field@) == Ok::<
                Option<Seq<char>>,
                HandoffErrorView,
            >(text_of(text)),
            Err(error) => endpoint_member(json_of(*object), field@) == Err::<
                Option<Seq<char>>,
                HandoffErrorView,
            >(error@),
        },
{
    let found: &Value = match get_member(object, field) {
        None => {
            return Ok(None);
        },
        Some(found) => found,
    };
    let value: &Value = match found.as_array() {
        Some(items) => {
            if items.len() == 0 {
                return Err(HandoffError::WrongFieldType { field });
            }
            assert(items_of(items@)[0] == json_of(items@[0]));
            &items[0]
        },
        None => found,
    };
    if value.is_null() {
        return Ok(None);
    }
    match value.as_str() {
        Some(text) => Ok(Some(text.to_string())),
        None => Err(HandoffError::WrongFieldType { field }),
    }
}

/// The first choice of a context response.
pub open spec fn first_choice(response: Json) -> Option<Json> {
    match member(response, "choices"@) {
        Some(Json::Array(choices)) => if choices.len() > 0 {
            Some(choices[0])
        } else {
            None
        },
        _ => None,
    }
}

/// The parameters that a choice hands over.
pub open spec fn params_of(choice: Json) -> Option<Json> {
    match member(choice, "disaggregated_params"@) {
        None | Some(Json::Null) => None,
        params => params,
    }
}

/// The handoff in a context response.
///
/// The parameters stand in the first choice, beside its finish reason, and the
/// prompt tokens in the response itself. Errors come in the order of the reads.
pub open spec fn handoff_in(response: Json) -> Result<HandoffView, HandoffErrorView> {
    match first_choice(response) {
        None => Err(HandoffErrorView::NoChoices),
        Some(choice) => match params_of(choice) {
            None => Err(HandoffErrorView::NoDisaggregatedParams),
            Some(params) => match text_member(params, "request_type"@) {
                Err(error) => Err(error),
                Ok(found) => if found != Some("context_only"@) {
                    Err(
                        HandoffErrorView::UnexpectedRequestType {
                            found,
                            expected: "context_only"@,
                        },
                    )
                } else {
                    handoff_fields(response, choice, params)
                },
            },
        },
    }
}

/// The fields of a handoff, each read from where it stands.
pub open spec fn handoff_fields(response: Json, choice: Json, params: Json) -> Result<
    HandoffView,
    HandoffErrorView,
> {
    let disagg_request_id = int_member(params, "disagg_request_id"@);
    let ctx_request_id = int_member(params, "ctx_request_id"@);
    let first_gen_tokens = ints_member(params, "first_gen_tokens"@);
    let encoded_opaque_state = text_member(params, "encoded_opaque_state"@);
    let finish_reason = text_member(choice, "finish_reason"@);
    let prompt_token_ids = ints_member(response, "prompt_token_ids"@);
    let prompt_token_ids_b64 = text_member(response, "prompt_token_ids_b64"@);
    let ctx_info_endpoint = endpoint_member(params, "ctx_info_endpoint"@);
    if disagg_request_id is Err {
        Err(disagg_request_id->Err_0)
    } else if ctx_request_id is Err {
        Err(ctx_request_id->Err_0)
    } else if first_gen_tokens is Err {
        Err(first_gen_tokens->Err_0)
    } else if encoded_opaque_state is Err {
        Err(encoded_opaque_state->Err_0)
    } else if finish_reason is Err {
        Err(finish_reason->Err_0)
    } else if prompt_token_ids is Err {
        Err(prompt_token_ids->Err_0)
    } else if prompt_token_ids_b64 is Err {
        Err(prompt_token_ids_b64->Err_0)
    } else if ctx_info_endpoint is Err {
        Err(ctx_info_endpoint->Err_0)
    } else {
        Ok(
            HandoffView {
                disagg_request_id: disagg_request_id->Ok_0,
                ctx_request_id: ctx_request_id->Ok_0,
                first_gen_tokens: first_gen_tokens->Ok_0,
                encoded_opaque_state: encoded_opaque_state->Ok_0,
                finish_reason: finish_reason->Ok_0,
                prompt_token_ids: prompt_token_ids->Ok_0,
                prompt_token_ids_b64: prompt_token_ids_b64->Ok_0,
                ctx_info_endpoint: ctx_info_endpoint->Ok_0,
            },
        )
    }
}

/// What a parse of a handoff holds.
pub open spec fn handoff_outcome(outcome: Result<ContextHandoff, HandoffError>) -> Result<
    HandoffView,
    HandoffErrorView,
> {
    match outcome {
        Ok(handoff) => Ok(handoff@),
        Err(error) => Err(error@),
    }
}

/// The handoff in the body of a context response. A body that is no JSON carries
/// no parameters.
pub open spec fn handoff_in_body(body: Seq<u8>) -> Result<HandoffView, HandoffErrorView> {
    match json_parse(body) {
        Ok(response) => handoff_in(response),
        Err(_) => Err(HandoffErrorView::NoDisaggregatedParams),
    }
}

/// Reads the handoff from the body of a context response.
pub fn parse_context_response(body: &[u8]) -> (outcome: Result<ContextHandoff, HandoffError>)
    ensures
        handoff_outcome(outcome) == handoff_in_body(body@),
{
    match parse_json(body) {
        Ok(response) => read_context_response(&response),
        Err(_) => Err(HandoffError::NoDisaggregatedParams),
    }
}

/// Reads the handoff from a context response.
pub fn read_context_response(response: &Value) -> (outcome: Result<ContextHandoff, HandoffError>)
    ensures
        handoff_outcome(outcome) == handoff_in(json_of(*response)),
{
    let choice: &Value = match get_member(response, "choices") {
        Some(choices) => match choices.as_array() {
            Some(choices) => {
                if choices.len() == 0 {
                    return Err(HandoffError::NoChoices);
                }
                assert(items_of(choices@)[0] == json_of(choices@[0]));
                &choices[0]
            },
            None => {
                return Err(HandoffError::NoChoices);
            },
        },
        None => {
            return Err(HandoffError::NoChoices);
        },
    };
    assert(first_choice(json_of(*response)) == Some(json_of(*choice)));
    let params: &Value = match get_member(choice, "disaggregated_params") {
        Some(params) => {
            if params.is_null() {
                return Err(HandoffError::NoDisaggregatedParams);
            }
            params
        },
        None => {
            return Err(HandoffError::NoDisaggregatedParams);
        },
    };
    assert(params_of(json_of(*choice)) == Some(json_of(*params)));
    let request_type = match optional_string(params, "request_type") {
        Ok(request_type) => request_type,
        Err(error) => {
            return Err(error);
        },
    };
    let context_only = match &request_type {
        Some(request_type) => text_eq(request_type.as_str(), REQUEST_TYPE_CONTEXT_ONLY),
        None => false,
    };
    if !context_only {
        return Err(
            HandoffError::UnexpectedRequestType {
                found: request_type,
                expected: REQUEST_TYPE_CONTEXT_ONLY,
            },
        );
    }
    Ok(
        ContextHandoff {
            disagg_request_id: optional_i64(params, "disagg_request_id")?,
            ctx_request_id: optional_i64(params, "ctx_request_id")?,
            first_gen_tokens: optional_i64_array(params, "first_gen_tokens")?,
            encoded_opaque_state: optional_string(params, "encoded_opaque_state")?,
            finish_reason: optional_string(choice, "finish_reason")?,
            prompt_token_ids: optional_i64_array(response, "prompt_token_ids")?,
            prompt_token_ids_b64: optional_string(response, "prompt_token_ids_b64")?,
            ctx_info_endpoint: optional_endpoint(params, "ctx_info_endpoint")?,
        },
    )
}

/// Whether a member is missing or `null`.
pub open spec fn absent(found: Option<Json>) -> bool {
    found is None || found == Some(Json::Null)
}

/// Whether a member is an integer of 64 signed bits.
pub open spec fn is_small_int(found: Option<Json>) -> bool {
    found matches Some(Json::Int(number)) && i64::MIN <= number <= i64::MAX
}

/// Whether a member is an array of integers of 64 signed bits.
pub open spec fn is_int_array(found: Option<Json>) -> bool {
    exists|numbers: Seq<i64>| found == Some(#[trigger] int_array(numbers))
}

/// Whether a member is a list with this value in front.
pub open spec fn has_in_front(found: Option<Json>, value: Json) -> bool {
    found matches Some(Json::Array(items)) && items.len() > 0 && items[0] == value
}

/// Items that all are small integers are the array of those integers.
proof fn lemma_ints_are_the_items(items: Seq<Json>)
    requires
        all_ints(items),
    ensures
        int_array(ints(items)) == Json::Array(items),
{
    let numbers = ints(items);
    let written = numbers.map_values(|number: i64| Json::Int(number as int));
    assert forall|i: int| 0 <= i < items.len() implies #[trigger] written[i] == items[i] by {
        assert(as_int(items[i]) is Some);
        assert(numbers[i] == as_int(items[i])->Some_0);
    }
    assert(written =~= items);
}

/// The array of some integers has exactly these as its small integers.
proof fn lemma_int_array_is_all_ints(numbers: Seq<i64>)
    ensures
        int_array(numbers) matches Json::Array(items) && all_ints(items),
{
    let items = numbers.map_values(|number: i64| Json::Int(number as int));
    assert forall|i: int| 0 <= i < items.len() implies as_int(#[trigger] items[i]) is Some by {
        assert(items[i] == Json::Int(numbers[i] as int));
    }
}

proof fn lemma_ints_member(value: Json, name: Seq<char>)
    ensures
        match ints_member(value, name) {
            Ok(None) => absent(member(value, name)),
            Ok(Some(numbers)) => member(value, name) == Some(int_array(numbers)),
            Err(error) => !absent(member(value, name)) && !is_int_array(member(value, name))
                && error == (HandoffErrorView::WrongFieldType { field: name }),
        },
{
    match member(value, name) {
        Some(Json::Array(items)) => {
            if all_ints(items) {
                lemma_ints_are_the_items(items);
            } else if is_int_array(member(value, name)) {
                let numbers = choose|numbers: Seq<i64>|
                    member(value, name) == Some(#[trigger] int_array(numbers));
                lemma_int_array_is_all_ints(numbers);
            }
        },
        _ => {},
    }
}

proof fn lemma_int_member(value: Json, name: Seq<char>)
    ensures
        match int_member(value, name) {
            Ok(None) => absent(member(value, name)),
            Ok(Some(number)) => member(value, name) == Some(Json::Int(number as int)),
            Err(error) => !absent(member(value, name)) && !is_small_int(member(value, name))
                && error == (HandoffErrorView::WrongFieldType { field: name }),
        },
{
}

proof fn lemma_endpoint_member(value: Json, name: Seq<char>)
    ensures
        match endpoint_member(value, name) {
            Ok(None) => absent(member(value, name)) || has_in_front(
                member(value, name),
                Json::Null,
            ),
            Ok(Some(text)) => member(value, name) == Some(Json::Text(text)) || has_in_front(
                member(value, name),
                Json::Text(text),
            ),
            Err(error) => !absent(member(value, name)) && error
                == (HandoffErrorView::WrongFieldType { field: name }),
        },
{
}

/// What is read from the body of a context response is what the document in it
/// holds, each field where it stands and with every bit of it: an integer is that
/// integer, a text that text, and a list of tokens, written back as an array, is the
/// array in the document. A field that is missing or `null` is none. The document
/// has a choice in front whose parameters are those of a context leg.
pub proof fn law_handoff_is_what_the_response_holds(
    body: Seq<u8>,
    response: Json,
    choices: Seq<Json>,
    params: Json,
    handoff: HandoffView,
)
    requires
        json_parse(body) == Ok::<Json, Seq<char>>(response),
        handoff_in_body(body) == Ok::<HandoffView, HandoffErrorView>(handoff),
        member(response, "choices"@) == Some(Json::Array(choices)),
        choices.len() > 0 ==> member(choices[0], "disaggregated_params"@) == Some(params),
    ensures
        choices.len() > 0,
        params != Json::Null,
        member(params, "request_type"@) == Some(Json::Text("context_only"@)),
        match handoff.disagg_request_id {
            Some(id) => member(params, "disagg_request_id"@) == Some(Json::Int(id as int)),
            None => absent(member(params, "disagg_request_id"@)),
        },
        match handoff.ctx_request_id {
            Some(id) => member(params, "ctx_request_id"@) == Some(Json::Int(id as int)),
            None => absent(member(params, "ctx_request_id"@)),
        },
        match handoff.first_gen_tokens {
            Some(tokens) => member(params, "first_gen_tokens"@) == Some(int_array(tokens)),
            None => absent(member(params, "first_gen_tokens"@)),
        },
        match handoff.encoded_opaque_state {
            Some(state) => member(params, "encoded_opaque_state"@) == Some(Json::Text(state)),
            None => absent(member(params, "encoded_opaque_state"@)),
        },
        match handoff.finish_reason {
            Some(reason) => member(choices[0], "finish_reason"@) == Some(Json::Text(reason)),
            None => absent(member(choices[0], "finish_reason"@)),
        },
        match handoff.prompt_token_ids {
            Some(tokens) => member(response, "prompt_token_ids"@) == Some(int_array(tokens)),
            None => absent(member(response, "prompt_token_ids"@)),
        },
        match handoff.prompt_token_ids_b64 {
            Some(text) => member(response, "prompt_token_ids_b64"@) == Some(Json::Text(text)),
            None => absent(member(response, "prompt_token_ids_b64"@)),
        },
        match handoff.ctx_info_endpoint {
            Some(text) => member(params, "ctx_info_endpoint"@) == Some(Json::Text(text))
                || has_in_front(member(params, "ctx_info_endpoint"@), Json::Text(text)),
            None => absent(member(params, "ctx_info_endpoint"@)) || has_in_front(
                member(params, "ctx_info_endpoint"@),
                Json::Null,
            ),
        },
{
    lemma_int_member(params, "disagg_request_id"@);
    lemma_int_member(params, "ctx_request_id"@);
    lemma_ints_member(params, "first_gen_tokens"@);
    lemma_ints_member(response, "prompt_token_ids"@);
    lemma_endpoint_member(params, "ctx_info_endpoint"@);
}

/// A list of tokens in a handoff is as long as the list in the document, and the
/// item at each place is the integer that the document holds there.
pub proof fn law_tokens_are_kept_one_by_one(tokens: Seq<i64>, items: Seq<Json>, i: int)
    requires
        int_array(tokens) == Json::Array(items),
        0 <= i < items.len() || 0 <= i < tokens.len(),
    ensures
        tokens.len() == items.len(),
        items[i] == Json::Int(tokens[i] as int),
{
    assert(tokens.map_values(|number: i64| Json::Int(number as int)) == items);
}

/// A handoff is read wherever the response has a choice in front whose parameters
/// are those of a context leg, and every field is missing, `null` or of its type.
pub proof fn law_handoff_is_read_where_it_is_whole(
    body: Seq<u8>,
    response: Json,
    choices: Seq<Json>,
    params: Json,
)
    requires
        json_parse(body) == Ok::<Json, Seq<char>>(response),
        member(response, "choices"@) == Some(Json::Array(choices)) && choices.len() > 0,
        member(choices[0], "disaggregated_params"@) == Some(params) && params != Json::Null,
        member(params, "request_type"@) == Some(Json::Text("context_only"@)),
        forall|name: Seq<char>|
            name == "disagg_request_id"@ || name == "ctx_request_id"@ ==> {
                absent(#[trigger] member(params, name)) || is_small_int(member(params, name))
            },
        absent(member(params, "first_gen_tokens"@)) || is_int_array(
            member(params, "first_gen_tokens"@),
        ),
        absent(member(response, "prompt_token_ids"@)) || is_int_array(
            member(response, "prompt_token_ids"@),
        ),
        absent(member(params, "encoded_opaque_state"@)) || member(
            params,
            "encoded_opaque_state"@,
        )->Some_0 is Text,
        absent(member(params, "ctx_info_endpoint"@)) || member(
            params,
            "ctx_info_endpoint"@,
        )->Some_0 is Text,
        absent(member(choices[0], "finish_reason"@)) || member(
            choices[0],
            "finish_reason"@,
        )->Some_0 is Text,
        absent(member(response, "prompt_token_ids_b64"@)) || member(
            response,
            "prompt_token_ids_b64"@,
        )->Some_0 is Text,
    ensures
        handoff_in_body(body) is Ok,
{
    lemma_int_member(params, "disagg_request_id"@);
    lemma_int_member(params, "ctx_request_id"@);
    lemma_ints_member(params, "first_gen_tokens"@);
    lemma_ints_member(response, "prompt_token_ids"@);
}

/// A response without a choice, without parameters or of another type of request is
/// refused, each for its own reason, and one that is no JSON for want of
/// parameters.
pub proof fn law_responses_without_a_handoff_are_refused(body: Seq<u8>, response: Json)
    ensures
        json_parse(body) is Err ==> handoff_in_body(body) == Err::<HandoffView, HandoffErrorView>(
            HandoffErrorView::NoDisaggregatedParams,
        ),
        json_parse(body) == Ok::<Json, Seq<char>>(response) ==> match member(
            response,
            "choices"@,
        ) {
            Some(Json::Array(choices)) => {
                &&& choices.len() == 0 ==> handoff_in_body(body) == Err::<
                    HandoffView,
                    HandoffErrorView,
                >(HandoffErrorView::NoChoices)
                &&& choices.len() > 0 && absent(member(choices[0], "disaggregated_params"@))
                    ==> handoff_in_body(body) == Err::<HandoffView, HandoffErrorView>(
                    HandoffErrorView::NoDisaggregatedParams,
                )
                &&& choices.len() > 0 && !absent(member(choices[0], "disaggregated_params"@))
                    ==> match member(
                    member(choices[0], "disaggregated_params"@)->Some_0,
                    "request_type"@,
                ) {
                    Some(Json::Text(found)) => found != "context_only"@ ==> handoff_in_body(body)
                        == Err::<HandoffView, HandoffErrorView>(
                        HandoffErrorView::UnexpectedRequestType {
                            found: Some(found),
                            expected: "context_only"@,
                        },
                    ),
                    None | Some(Json::Null) => handoff_in_body(body) == Err::<
                        HandoffView,
                        HandoffErrorView,
                    >(
                        HandoffErrorView::UnexpectedRequestType {
                            found: None,
                            expected: "context_only"@,
                        },
                    ),
                    _ => handoff_in_body(body) == Err::<HandoffView, HandoffErrorView>(
                        HandoffErrorView::WrongFieldType { field: "request_type"@ },
                    ),
                }
            },
            _ => handoff_in_body(body) == Err::<HandoffView, HandoffErrorView>(
                HandoffErrorView::NoChoices,
            ),
        },
{
}

/// Something is left to generate exactly for the two finish reasons that say so.
pub proof fn law_pending_reasons_are_the_listed_ones(handoff: HandoffView)
    ensures
        handoff.pending() <==> exists|i: int|
            0 <= i < 2 && handoff.finish_reason == Some((#[trigger] GEN_PENDING_FINISH_REASONS[i])@),
        GEN_PENDING_FINISH_REASONS[0]@ == "length"@,
        GEN_PENDING_FINISH_REASONS[1]@ == "not_finished"@,
{
    if handoff.pending() {
        assert(handoff.finish_reason == Some(GEN_PENDING_FINISH_REASONS[0]@)
            || handoff.finish_reason == Some(GEN_PENDING_FINISH_REASONS[1]@));
    }
}

/// The prompt is the one form that was handed over, as it was handed over, and
/// there is none where both or neither were.
pub proof fn law_prompt_is_the_only_form(handoff: HandoffView)
    ensures
        handoff.prompt() is Ok <==> (handoff.prompt_token_ids is Some) != (
        handoff.prompt_token_ids_b64 is Some),
        handoff.prompt() matches Ok(PromptView::Ids(ids)) ==> handoff.prompt_token_ids == Some(ids),
        handoff.prompt() matches Ok(PromptView::Base64(text)) ==> handoff.prompt_token_ids_b64
            == Some(text),
        handoff.prompt_token_ids is Some && handoff.prompt_token_ids_b64 is Some
            ==> handoff.prompt()->Err_0 == HandoffErrorView::ConflictingPromptTokenForms,
        handoff.prompt_token_ids is None && handoff.prompt_token_ids_b64 is None
            ==> handoff.prompt()->Err_0 == HandoffErrorView::MissingPromptTokens,
{
}

/// The view of a handoff keeps every field, so that two handoffs with one view are
/// alike.
pub proof fn law_handoff_views_keep_every_field(handoff: ContextHandoff)
    ensures
        handoff@.disagg_request_id == handoff.disagg_request_id,
        handoff@.ctx_request_id == handoff.ctx_request_id,
        handoff@.first_gen_tokens is Some <==> handoff.first_gen_tokens is Some,
        handoff.first_gen_tokens matches Some(tokens) ==> handoff@.first_gen_tokens == Some(
            tokens@,
        ),
        handoff@.encoded_opaque_state is Some <==> handoff.encoded_opaque_state is Some,
        handoff.encoded_opaque_state matches Some(text) ==> handoff@.encoded_opaque_state == Some(
            text@,
        ),
        handoff@.finish_reason is Some <==> handoff.finish_reason is Some,
        handoff.finish_reason matches Some(text) ==> handoff@.finish_reason == Some(text@),
        handoff@.prompt_token_ids is Some <==> handoff.prompt_token_ids is Some,
        handoff.prompt_token_ids matches Some(tokens) ==> handoff@.prompt_token_ids == Some(
            tokens@,
        ),
        handoff@.prompt_token_ids_b64 is Some <==> handoff.prompt_token_ids_b64 is Some,
        handoff.prompt_token_ids_b64 matches Some(text) ==> handoff@.prompt_token_ids_b64 == Some(
            text@,
        ),
        handoff@.ctx_info_endpoint is Some <==> handoff.ctx_info_endpoint is Some,
        handoff.ctx_info_endpoint matches Some(text) ==> handoff@.ctx_info_endpoint == Some(text@),
{
}

/// The text of an error shows the request type that was found, or that there was
/// none, beside the one that was expected, and names the field that is wrong.
pub proof fn law_handoff_errors_say_what_is_wrong(error: HandoffErrorView)
    ensures
        exists|k: int, n: int|
            0 <= k <= n <= error.text().len() && {
                let part = #[trigger] error.text().subrange(k, n);
                match error {
                    HandoffErrorView::UnexpectedRequestType { found: Some(found), expected } => part
                        == "Some("@ + quoted_debug(found) + ")"@ + ", expected \""@ + expected,
                    HandoffErrorView::UnexpectedRequestType { found: None, expected } => part
                        == "None"@ + ", expected \""@ + expected,
                    HandoffErrorView::WrongFieldType { field } => part == field,
                    _ => true,
                }
            },
{
    let (head, part) = match error {
        HandoffErrorView::UnexpectedRequestType { found: Some(found), expected } => (
            "context disaggregated_params.request_type is "@,
            "Some("@ + quoted_debug(found) + ")"@ + ", expected \""@ + expected,
        ),
        HandoffErrorView::UnexpectedRequestType { found: None, expected } => (
            "context disaggregated_params.request_type is "@,
            "None"@ + ", expected \""@ + expected,
        ),
        HandoffErrorView::WrongFieldType { field } => ("context response field "@, field),
        _ => (Seq::<char>::empty(), Seq::<char>::empty()),
    };
    let k = head.len() as int;
    let n = k + part.len();
    assert(error.text().subrange(k, n) =~= part);
}

} // verus!
