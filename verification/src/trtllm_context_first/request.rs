//! The two legs that are built from one client request.

use crate::buffer::{buffer_bytes, bytes_of, freeze};
use crate::json::{
    as_int, bool_value, field, fields_of, get_field, get_member, int_array, int_value, into_object,
    ints_value, json_of, json_parse, json_text, lemma_insert_keeps_nesting, lemma_nesting_widens,
    lemma_remove_keeps_nesting, max_nesting, member, nested_within, no_fields, null_value,
    object_value, parse_json, present, reads_as, remove_field, set_field, text_value, value_of,
    write_object, Json,
};
use crate::text::{
    decimal, decimal_text, hex, join_three, join_two, law_decimal_reads_back, unsigned_value,
};
use crate::trtllm_context_first::handoff::{
    ContextHandoff, HandoffError, HandoffErrorView, HandoffView, PromptTokens, PromptView,
    REQUEST_TYPE_CONTEXT_ONLY, REQUEST_TYPE_GENERATION_ONLY,
};
use crate::trtllm_context_first::ids::RequestIds;
use crate::trtllm_context_first::signature::{
    hmac_code, sign_disagg_handoff, signature, signed_bytes, INTERNAL_DISAGG_AUTH_HEADER,
};
use bytes::Bytes;
use serde_json::Value;
use vstd::prelude::*;

verus! {

/// The path that both legs are sent to. They differ in the worker, not in the
/// path.
pub const CHAT_COMPLETIONS_PATH: &'static str = "v1/chat/completions";

/// The fields that a client must not set: the gateway owns them.
pub const CLIENT_FORBIDDEN_FIELDS: [&'static str; 4] = [
    "disaggregated_params",
    "prompt_token_ids_b64",
    "ctx_info_endpoint",
    "encoded_opaque_state",
];

/// Why no leg could be built.
#[derive(Debug)]
pub enum RequestError {
    BodyTooLarge { limit: usize },
    MalformedJson { source: String },
    NotAnObject,
    ForbiddenField { field: &'static str },
    UnsupportedStreaming,
    Handoff { source: HandoffError },
}

/// What a [`RequestError`] holds.
#[verifier::ext_equal]
pub enum RequestErrorView {
    BodyTooLarge { limit: usize },
    MalformedJson { source: Seq<char> },
    NotAnObject,
    ForbiddenField { field: Seq<char> },
    UnsupportedStreaming,
    Handoff { source: HandoffErrorView },
}

impl View for RequestError {
    type V = RequestErrorView;

    open spec fn view(&self) -> RequestErrorView {
        match self {
            RequestError::BodyTooLarge { limit } => RequestErrorView::BodyTooLarge {
                limit: *limit,
            },
            RequestError::MalformedJson { source } => RequestErrorView::MalformedJson {
                source: source@,
            },
            RequestError::NotAnObject => RequestErrorView::NotAnObject,
            RequestError::ForbiddenField { field } => RequestErrorView::ForbiddenField {
                field: field@,
            },
            RequestError::UnsupportedStreaming => RequestErrorView::UnsupportedStreaming,
            RequestError::Handoff { source } => RequestErrorView::Handoff { source: source@ },
        }
    }
}

impl RequestErrorView {
    /// The text of the error.
    pub open spec fn text(self) -> Seq<char> {
        match self {
            RequestErrorView::BodyTooLarge { limit } =>
                "request body exceeds the configured limit of "@ + decimal(limit as nat)
                    + " bytes"@,
            RequestErrorView::MalformedJson { source } => "request body is not valid JSON: "@
                + source,
            RequestErrorView::NotAnObject => "request body must be a JSON object"@,
            RequestErrorView::ForbiddenField { field } => "client-supplied "@ + field
                + " is not allowed; the gateway owns orchestration state"@,
            RequestErrorView::UnsupportedStreaming =>
                "streaming responses are not supported by the context-first adapter"@,
            RequestErrorView::Handoff { source } => "handoff rejected: "@ + source.text(),
        }
    }
}

impl RequestError {
    /// Writes the error out.
    pub fn message(&self) -> (message: String)
        ensures
            message@ == self@.text(),
    {
        match self {
            RequestError::BodyTooLarge { limit } => join_three(
                "request body exceeds the configured limit of ",
                decimal_text(*limit as u64).as_str(),
                " bytes",
            ),
            RequestError::MalformedJson { source } => join_two(
                "request body is not valid JSON: ",
                source.as_str(),
            ),
            RequestError::NotAnObject => "request body must be a JSON object".to_string(),
            RequestError::ForbiddenField { field } => join_three(
                "client-supplied ",
                *field,
                " is not allowed; the gateway owns orchestration state",
            ),
            RequestError::UnsupportedStreaming =>
                "streaming responses are not supported by the context-first adapter".to_string(),
            RequestError::Handoff { source } => join_two(
                "handoff rejected: ",
                source.message().as_str(),
            ),
        }
    }
}

impl From<HandoffError> for RequestError {
    fn from(source: HandoffError) -> (error: Self) {
        RequestError::Handoff { source }
    }
}

impl vstd::std_specs::convert::FromSpecImpl<HandoffError> for RequestError {
    open spec fn obeys_from_spec() -> bool {
        true
    }

    open spec fn from_spec(source: HandoffError) -> RequestError {
        RequestError::Handoff { source }
    }
}

/// One leg: the path and the body to send, and the header that goes with them.
#[derive(Debug, Clone, PartialEq, Eq)]
pub struct PreparedLeg {
    pub path: &'static str,
    pub correlation_id: i64,
    pub body: Bytes,
    /// The name and the value of a header, where the leg needs one.
    pub auth_header: Option<(&'static str, String)>,
}

/// What a [`PreparedLeg`] holds.
#[verifier::ext_equal]
pub struct LegView {
    pub path: Seq<char>,
    pub correlation_id: i64,
    pub body: Seq<u8>,
    pub auth_header: Option<(Seq<char>, Seq<char>)>,
}

/// The name and the value of an optional header.
pub open spec fn header_of(header: Option<(&'static str, String)>) -> Option<
    (Seq<char>, Seq<char>),
> {
    match header {
        Some((name, value)) => Some((name@, value@)),
        None => None,
    }
}

impl View for PreparedLeg {
    type V = LegView;

    open spec fn view(&self) -> LegView {
        LegView {
            path: self.path@,
            correlation_id: self.correlation_id,
            body: bytes_of(self.body),
            auth_header: header_of(self.auth_header),
        }
    }
}

/// The member `name` of the document in `body`.
pub open spec fn member_in(body: Seq<u8>, name: Seq<char>) -> Option<Json> {
    match json_parse(body) {
        Ok(document) => member(document, name),
        Err(_) => None,
    }
}

impl PreparedLeg {
    /// Reads a member back from the bytes of the leg.
    pub fn field(&self, name: &str) -> (found: Option<Value>)
        ensures
            value_of(found) == member_in(self@.body, name@),
    {
        match parse_json(buffer_bytes(&self.body)) {
            Ok(document) => match get_member(&document, name) {
                Some(value) => Some(value.clone()),
                None => None,
            },
            Err(_) => None,
        }
    }
}

/// The request id that a document carries.
pub open spec fn correlation_of(document: Json) -> Option<i64> {
    match member(document, "disaggregated_params"@) {
        Some(params) => match member(params, "disagg_request_id"@) {
            Some(id) => as_int(id),
            None => None,
        },
        None => None,
    }
}

/// The request id that the document in `body` carries.
pub open spec fn correlation_in(body: Seq<u8>) -> Option<i64> {
    match json_parse(body) {
        Ok(document) => correlation_of(document),
        Err(_) => None,
    }
}

/// Reads the request id from a document.
pub fn correlation_id_in(document: &Value) -> (id: Option<i64>)
    ensures
        id == correlation_of(json_of(*document)),
{
    match get_member(document, "disaggregated_params") {
        Some(params) => match get_member(params, "disagg_request_id") {
            Some(id) => id.as_i64(),
            None => None,
        },
        None => None,
    }
}

/// Reads the request id from the bytes of a leg.
pub fn correlation_id_of(body: &[u8]) -> (id: Option<i64>)
    ensures
        id == correlation_in(body@),
{
    match parse_json(body) {
        Ok(document) => correlation_id_in(&document),
        Err(_) => None,
    }
}

/// The context leg of a client request.
#[derive(Debug, Clone, PartialEq, Eq)]
pub struct PreparedContextRequest {
    pub leg: PreparedLeg,
    /// The conversation that both legs name.
    pub conversation_id: String,
}

/// The generation leg of a client request.
#[derive(Debug, Clone, PartialEq, Eq)]
pub struct PreparedGenerationRequest {
    pub leg: PreparedLeg,
    /// Nothing where the context leg has given the whole answer: no generation
    /// leg is sent.
    pub correlation_id: Option<i64>,
}

/// The first field, in the order of [`CLIENT_FORBIDDEN_FIELDS`], that a client
/// set though it must not.
pub open spec fn forbidden_field(fields: Map<Seq<char>, Json>) -> Option<Seq<char>> {
    if present(fields, "disaggregated_params"@) {
        Some("disaggregated_params"@)
    } else if present(fields, "prompt_token_ids_b64"@) {
        Some("prompt_token_ids_b64"@)
    } else if present(fields, "ctx_info_endpoint"@) {
        Some("ctx_info_endpoint"@)
    } else if present(fields, "encoded_opaque_state"@) {
        Some("encoded_opaque_state"@)
    } else {
        None
    }
}

fn is_present(object: &serde_json::Map<String, Value>, name: &str) -> (set: bool)
    ensures
        set == present(fields_of(*object), name@),
{
    match get_field(object, name) {
        Some(value) => !value.is_null(),
        None => false,
    }
}

/// Refuses a client request that sets a field of the gateway. A field that is
/// `null` counts as not set.
pub fn reject_client_orchestration(object: &serde_json::Map<String, Value>) -> (outcome: Result<
    (),
    RequestError,
>)
    ensures
        outcome is Ok <==> forbidden_field(fields_of(*object)) is None,
        outcome is Err ==> outcome->Err_0@ == (RequestErrorView::ForbiddenField {
            field: forbidden_field(fields_of(*object))->Some_0,
        }),
{
    let mut i: usize = 0;
    while i < 4
        invariant
            i <= 4,
            forall|j: int|
                0 <= j < i ==> !present(
                    fields_of(*object),
                    #[trigger] CLIENT_FORBIDDEN_FIELDS[j]@,
                ),
        decreases 4 - i,
    {
        let field: &'static str = CLIENT_FORBIDDEN_FIELDS[i];
        if is_present(object, field) {
            proof {
                lemma_forbidden_field(fields_of(*object), i as int);
            }
            return Err(RequestError::ForbiddenField { field });
        }
        i += 1;
    }
    proof {
        assert(!present(fields_of(*object), CLIENT_FORBIDDEN_FIELDS[0]@));
        assert(!present(fields_of(*object), CLIENT_FORBIDDEN_FIELDS[1]@));
        assert(!present(fields_of(*object), CLIENT_FORBIDDEN_FIELDS[2]@));
        assert(!present(fields_of(*object), CLIENT_FORBIDDEN_FIELDS[3]@));
    }
    Ok(())
}

proof fn lemma_forbidden_field(fields: Map<Seq<char>, Json>, i: int)
    requires
        0 <= i < 4,
        forall|j: int|
            0 <= j < i ==> !present(fields, #[trigger] CLIENT_FORBIDDEN_FIELDS[j]@),
        present(fields, CLIENT_FORBIDDEN_FIELDS[i]@),
    ensures
        forbidden_field(fields) == Some(CLIENT_FORBIDDEN_FIELDS[i]@),
{
    if i > 0 {
        assert(!present(fields, CLIENT_FORBIDDEN_FIELDS[0]@));
    }
    if i > 1 {
        assert(!present(fields, CLIENT_FORBIDDEN_FIELDS[1]@));
    }
    if i > 2 {
        assert(!present(fields, CLIENT_FORBIDDEN_FIELDS[2]@));
    }
}

/// The members of a document, which must be an object.
pub open spec fn object_of(document: Json) -> Result<Map<Seq<char>, Json>, RequestErrorView> {
    match document {
        Json::Object(fields) => Ok(fields),
        _ => Err(RequestErrorView::NotAnObject),
    }
}

/// The object in a body.
pub open spec fn object_in(body: Seq<u8>) -> Result<Map<Seq<char>, Json>, RequestErrorView> {
    match json_parse(body) {
        Err(source) => Err(RequestErrorView::MalformedJson { source }),
        Ok(document) => object_of(document),
    }
}

/// What a read of an object holds.
pub open spec fn object_outcome(
    outcome: Result<serde_json::Map<String, Value>, RequestError>,
) -> Result<Map<Seq<char>, Json>, RequestErrorView> {
    match outcome {
        Ok(object) => Ok(fields_of(object)),
        Err(error) => Err(error@),
    }
}

/// Takes a document for an object.
pub fn require_object(document: Value) -> (outcome: Result<
    serde_json::Map<String, Value>,
    RequestError,
>)
    ensures
        object_outcome(outcome) == object_of(json_of(document)),
{
    match into_object(document) {
        Some(object) => Ok(object),
        None => Err(RequestError::NotAnObject),
    }
}

fn parse_object(body: &[u8]) -> (outcome: Result<serde_json::Map<String, Value>, RequestError>)
    ensures
        object_outcome(outcome) == object_in(body@),
        outcome is Ok ==> nested_within(Json::Object(fields_of(outcome->Ok_0)), max_nesting()),
{
    match parse_json(body) {
        Err(source) => Err(RequestError::MalformedJson { source }),
        Ok(document) => require_object(document),
    }
}

/// The object in a client body that is short enough, sets no field of the
/// gateway and asks for no stream.
pub open spec fn client_object(body: Seq<u8>, limit: usize) -> Result<
    Map<Seq<char>, Json>,
    RequestErrorView,
> {
    if body.len() > limit {
        Err(RequestErrorView::BodyTooLarge { limit })
    } else {
        match object_in(body) {
            Err(error) => Err(error),
            Ok(fields) => client_fields(fields),
        }
    }
}

/// The members of a client request that sets no field of the gateway and asks
/// for no stream.
pub open spec fn client_fields(fields: Map<Seq<char>, Json>) -> Result<
    Map<Seq<char>, Json>,
    RequestErrorView,
> {
    match forbidden_field(fields) {
        Some(field) => Err(RequestErrorView::ForbiddenField { field }),
        None => if field(fields, "stream"@) == Some(Json::Bool(true)) {
            Err(RequestErrorView::UnsupportedStreaming)
        } else {
            Ok(fields)
        },
    }
}

/// Reads a client body and refuses what the gateway cannot serve.
///
/// A stream is refused and not turned into a plain answer: the client would be
/// given a body that it cannot read.
pub fn accept_client_body(body: &[u8], limit: usize) -> (outcome: Result<
    serde_json::Map<String, Value>,
    RequestError,
>)
    ensures
        object_outcome(outcome) == client_object(body@, limit),
        outcome is Ok ==> nested_within(Json::Object(fields_of(outcome->Ok_0)), max_nesting()),
{
    if body.len() > limit {
        return Err(RequestError::BodyTooLarge { limit });
    }
    match parse_object(body) {
        Ok(object) => match accept_client_object(&object) {
            Ok(()) => Ok(object),
            Err(error) => Err(error),
        },
        Err(error) => Err(error),
    }
}

/// Refuses a client request that the gateway cannot serve.
pub fn accept_client_object(object: &serde_json::Map<String, Value>) -> (outcome: Result<
    (),
    RequestError,
>)
    ensures
        outcome is Ok <==> client_fields(fields_of(*object)) is Ok,
        outcome is Err ==> client_fields(fields_of(*object)) == Err::<
            Map<Seq<char>, Json>,
            RequestErrorView,
        >(outcome->Err_0@),
{
    match reject_client_orchestration(object) {
        Ok(()) => {},
        Err(error) => {
            return Err(error);
        },
    }
    let streams = match get_field(object, "stream") {
        Some(value) => match value.as_bool() {
            Some(truth) => truth,
            None => false,
        },
        None => false,
    };
    if streams {
        return Err(RequestError::UnsupportedStreaming);
    }
    Ok(())
}

/// What the context leg says to its worker.
pub open spec fn context_params(conversation_id: Seq<char>, correlation_id: i64) -> Map<
    Seq<char>,
    Json,
> {
    no_fields().insert("request_type"@, Json::Text("context_only"@)).insert(
        "disagg_request_id"@,
        Json::Int(correlation_id as int),
    ).insert("conversation_id"@, Json::Text(conversation_id))
}

/// The members of the context leg: those of the client, without a stream and with
/// what the leg says to its worker.
pub open spec fn context_fields(
    fields: Map<Seq<char>, Json>,
    conversation_id: Seq<char>,
    correlation_id: i64,
) -> Map<Seq<char>, Json> {
    fields.insert("stream"@, Json::Bool(false)).insert("stream_options"@, Json::Null).insert(
        "disaggregated_params"@,
        Json::Object(context_params(conversation_id, correlation_id)),
    )
}

/// The context leg of these members.
pub open spec fn context_leg(
    fields: Map<Seq<char>, Json>,
    conversation_id: Seq<char>,
    correlation_id: i64,
) -> LegView {
    LegView {
        path: CHAT_COMPLETIONS_PATH@,
        correlation_id,
        body: json_text(Json::Object(context_fields(fields, conversation_id, correlation_id))),
        auth_header: None,
    }
}

/// The context leg of a client body, under the id that was minted for it.
pub open spec fn prepared_context(
    body: Seq<u8>,
    limit: usize,
    conversation_id: Seq<char>,
    correlation_id: i64,
) -> Result<LegView, RequestErrorView> {
    match client_object(body, limit) {
        Ok(fields) => Ok(context_leg(fields, conversation_id, correlation_id)),
        Err(error) => Err(error),
    }
}

/// What a preparation of a context leg holds.
pub open spec fn context_outcome(outcome: Result<PreparedContextRequest, RequestError>) -> Result<
    LegView,
    RequestErrorView,
> {
    match outcome {
        Ok(context) => Ok(context.leg@),
        Err(error) => Err(error@),
    }
}

proof fn lemma_context_params_are_flat(conversation_id: Seq<char>, correlation_id: i64)
    ensures
        nested_within(Json::Object(context_params(conversation_id, correlation_id)), 1),
{
    lemma_insert_keeps_nesting(no_fields(), "request_type"@, Json::Text("context_only"@), 1);
    let named = no_fields().insert("request_type"@, Json::Text("context_only"@));
    let id = Json::Int(correlation_id as int);
    lemma_insert_keeps_nesting(named, "disagg_request_id"@, id, 1);
    lemma_insert_keeps_nesting(
        named.insert("disagg_request_id"@, id),
        "conversation_id"@,
        Json::Text(conversation_id),
        1,
    );
}

proof fn lemma_context_fields_nest(
    fields: Map<Seq<char>, Json>,
    conversation_id: Seq<char>,
    correlation_id: i64,
)
    requires
        nested_within(Json::Object(fields), max_nesting()),
    ensures
        nested_within(
            Json::Object(context_fields(fields, conversation_id, correlation_id)),
            max_nesting(),
        ),
{
    let params = Json::Object(context_params(conversation_id, correlation_id));
    lemma_context_params_are_flat(conversation_id, correlation_id);
    lemma_nesting_widens(params, 1, 126);
    lemma_insert_keeps_nesting(fields, "stream"@, Json::Bool(false), 127);
    let calm = fields.insert("stream"@, Json::Bool(false));
    lemma_insert_keeps_nesting(calm, "stream_options"@, Json::Null, 127);
    lemma_insert_keeps_nesting(
        calm.insert("stream_options"@, Json::Null),
        "disaggregated_params"@,
        params,
        127,
    );
}

/// The members of a leg name their request id.
pub open spec fn names_id(fields: Map<Seq<char>, Json>, correlation_id: i64) -> bool {
    field(fields, "disaggregated_params"@) is Some && member(
        field(fields, "disaggregated_params"@)->Some_0,
        "disagg_request_id"@,
    ) == Some(Json::Int(correlation_id as int))
}

/// Whether a leg can be read back as the context leg of these members.
pub open spec fn reads_as_context(
    body: Seq<u8>,
    fields: Map<Seq<char>, Json>,
    conversation_id: Seq<char>,
    correlation_id: i64,
) -> bool {
    &&& reads_as(body, Json::Object(context_fields(fields, conversation_id, correlation_id)))
    &&& correlation_in(body) == Some(correlation_id)
}

/// Builds the context leg of a client request under a given id.
///
/// Sampling stays as the client sent it.
pub fn build_context_leg(
    client: serde_json::Map<String, Value>,
    conversation_id: &str,
    correlation_id: i64,
) -> (outcome: Result<PreparedContextRequest, RequestError>)
    requires
        nested_within(Json::Object(fields_of(client)), max_nesting()),
    ensures
        outcome is Ok,
        outcome->Ok_0.leg@ == context_leg(fields_of(client), conversation_id@, correlation_id),
        outcome->Ok_0.conversation_id@ == conversation_id@,
        reads_as_context(
            outcome->Ok_0.leg@.body,
            fields_of(client),
            conversation_id@,
            correlation_id,
        ),
{
    let ghost fields = fields_of(client);
    let mut params: serde_json::Map<String, Value> = serde_json::Map::new();
    set_field(&mut params, "request_type", text_value(REQUEST_TYPE_CONTEXT_ONLY));
    set_field(&mut params, "disagg_request_id", int_value(correlation_id));
    set_field(&mut params, "conversation_id", text_value(conversation_id));
    let mut object = client;
    set_field(&mut object, "stream", bool_value(false));
    set_field(&mut object, "stream_options", null_value());
    set_field(&mut object, "disaggregated_params", object_value(params));
    proof {
        lemma_context_fields_nest(fields, conversation_id@, correlation_id);
        law_context_leg_names_its_id(fields, conversation_id@, correlation_id);
    }
    match write_object(&object) {
        Ok(text) => Ok(
            PreparedContextRequest {
                leg: PreparedLeg {
                    path: CHAT_COMPLETIONS_PATH,
                    correlation_id,
                    body: freeze(text),
                    auth_header: None,
                },
                conversation_id: conversation_id.to_string(),
            },
        ),
        Err(source) => Err(RequestError::MalformedJson { source }),
    }
}

/// Builds the context leg of a client body under a given id.
pub fn prepare_context_request_as(
    body: &[u8],
    limit: usize,
    conversation_id: &str,
    correlation_id: i64,
) -> (outcome: Result<PreparedContextRequest, RequestError>)
    ensures
        context_outcome(outcome) == prepared_context(
            body@,
            limit,
            conversation_id@,
            correlation_id,
        ),
        outcome is Ok ==> outcome->Ok_0.conversation_id@ == conversation_id@ && reads_as_context(
            outcome->Ok_0.leg@.body,
            client_object(body@, limit)->Ok_0,
            conversation_id@,
            correlation_id,
        ),
{
    match accept_client_body(body, limit) {
        Ok(client) => build_context_leg(client, conversation_id, correlation_id),
        Err(error) => Err(error),
    }
}

/// Builds the context leg of a client body. An id is minted once the body has
/// been accepted.
pub fn prepare_context_request(
    body: &[u8],
    limit: usize,
    conversation_id: &str,
    ids: &dyn RequestIds,
) -> (outcome: Result<PreparedContextRequest, RequestError>)
    ensures
        outcome is Ok <==> client_object(body@, limit) is Ok,
        outcome is Err ==> client_object(body@, limit) == Err::<
            Map<Seq<char>, Json>,
            RequestErrorView,
        >(outcome->Err_0@),
        outcome is Ok ==> context_outcome(outcome) == prepared_context(
            body@,
            limit,
            conversation_id@,
            outcome->Ok_0.leg.correlation_id,
        ) && outcome->Ok_0.conversation_id@ == conversation_id@ && reads_as_context(
            outcome->Ok_0.leg@.body,
            client_object(body@, limit)->Ok_0,
            conversation_id@,
            outcome->Ok_0.leg.correlation_id,
        ) && ids.may_mint(outcome->Ok_0.leg.correlation_id),
{
    match accept_client_body(body, limit) {
        Ok(client) => {
            let correlation_id: i64 = ids.mint();
            build_context_leg(client, conversation_id, correlation_id)
        },
        Err(error) => Err(error),
    }
}

/// The context leg differs from the client request in its stream, its stream
/// options and what it says to its worker, and in nothing else.
pub proof fn law_context_leg_keeps_the_rest(
    fields: Map<Seq<char>, Json>,
    conversation_id: Seq<char>,
    correlation_id: i64,
    name: Seq<char>,
)
    requires
        name != "stream"@ && name != "stream_options"@ && name != "disaggregated_params"@,
    ensures
        field(context_fields(fields, conversation_id, correlation_id), name) == field(fields, name),
{
}

/// The context leg never streams.
pub proof fn law_context_leg_never_streams(
    fields: Map<Seq<char>, Json>,
    conversation_id: Seq<char>,
    correlation_id: i64,
)
    ensures
        field(context_fields(fields, conversation_id, correlation_id), "stream"@) == Some(
            Json::Bool(false),
        ),
        field(context_fields(fields, conversation_id, correlation_id), "stream_options"@) == Some(
            Json::Null,
        ),
{
    lemma_names_differ();
}

/// The context leg names the id that it is sent under, as a context leg, and
/// its conversation.
pub proof fn law_context_leg_names_its_id(
    fields: Map<Seq<char>, Json>,
    conversation_id: Seq<char>,
    correlation_id: i64,
)
    ensures
        names_id(context_fields(fields, conversation_id, correlation_id), correlation_id),
        field(context_params(conversation_id, correlation_id), "request_type"@) == Some(
            Json::Text("context_only"@),
        ),
        field(context_params(conversation_id, correlation_id), "conversation_id"@) == Some(
            Json::Text(conversation_id),
        ),
{
    lemma_names_differ();
}

/// The members of the generation leg that say what the prompt is: the one form
/// that was handed over, and not the other.
pub open spec fn with_prompt(fields: Map<Seq<char>, Json>, prompt: PromptView) -> Map<
    Seq<char>,
    Json,
> {
    match prompt {
        PromptView::Ids(ids) => fields.insert("prompt_token_ids"@, int_array(ids)).remove(
            "prompt_token_ids_b64"@,
        ),
        PromptView::Base64(encoded) => fields.insert(
            "prompt_token_ids_b64"@,
            Json::Text(encoded),
        ).remove("prompt_token_ids"@),
    }
}

/// `fields` with one more member, where there is a value for it.
pub open spec fn with_optional(
    fields: Map<Seq<char>, Json>,
    name: Seq<char>,
    value: Option<Json>,
) -> Map<Seq<char>, Json> {
    match value {
        Some(value) => fields.insert(name, value),
        None => fields,
    }
}

/// What the generation leg says to its worker: the id and the conversation, and
/// what the context leg handed over.
pub open spec fn generation_params(
    handoff: HandoffView,
    conversation_id: Seq<char>,
    correlation_id: i64,
) -> Map<Seq<char>, Json> {
    let named = no_fields().insert("request_type"@, Json::Text("generation_only"@)).insert(
        "disagg_request_id"@,
        Json::Int(correlation_id as int),
    ).insert("conversation_id"@, Json::Text(conversation_id));
    let identified = with_optional(
        named,
        "ctx_request_id"@,
        match handoff.ctx_request_id {
            Some(id) => Some(Json::Int(id as int)),
            None => None,
        },
    );
    let started = with_optional(
        identified,
        "first_gen_tokens"@,
        match handoff.first_gen_tokens {
            Some(tokens) => Some(int_array(tokens)),
            None => None,
        },
    );
    let stated = with_optional(
        started,
        "encoded_opaque_state"@,
        match handoff.encoded_opaque_state {
            Some(state) => Some(Json::Text(state)),
            None => None,
        },
    );
    with_optional(
        stated,
        "ctx_info_endpoint"@,
        match handoff.ctx_info_endpoint {
            Some(endpoint) => Some(Json::Text(endpoint)),
            None => None,
        },
    )
}

/// The members of the generation leg: those of the client, with the prompt and
/// with what the leg says to its worker.
pub open spec fn generation_fields(
    fields: Map<Seq<char>, Json>,
    handoff: HandoffView,
    prompt: PromptView,
    conversation_id: Seq<char>,
    correlation_id: i64,
) -> Map<Seq<char>, Json> {
    with_prompt(fields, prompt).insert(
        "disaggregated_params"@,
        Json::Object(generation_params(handoff, conversation_id, correlation_id)),
    )
}

/// The header of the generation leg: a signature, where there is a key and a
/// protected field.
pub open spec fn generation_header(handoff: HandoffView, auth_key: Option<Seq<u8>>) -> Option<
    (Seq<char>, Seq<char>),
> {
    match auth_key {
        Some(key) => match signature(
            key,
            handoff.encoded_opaque_state,
            handoff.ctx_info_endpoint,
        ) {
            Some(signed) => Some((INTERNAL_DISAGG_AUTH_HEADER@, signed)),
            None => None,
        },
        None => None,
    }
}

/// The id of the generation leg: the one that the context worker reported, or
/// else the fallback.
pub open spec fn resolved_id(handoff: HandoffView, fallback_id: i64) -> i64 {
    match handoff.disagg_request_id {
        Some(id) => id,
        None => fallback_id,
    }
}

/// What a [`PreparedGenerationRequest`] holds.
#[verifier::ext_equal]
pub struct GenerationView {
    pub leg: LegView,
    pub correlation_id: Option<i64>,
}

impl View for PreparedGenerationRequest {
    type V = GenerationView;

    open spec fn view(&self) -> GenerationView {
        GenerationView { leg: self.leg@, correlation_id: self.correlation_id }
    }
}

/// What stands for a generation leg where none is sent: an empty body.
pub open spec fn no_generation(fallback_id: i64) -> GenerationView {
    GenerationView {
        leg: LegView {
            path: CHAT_COMPLETIONS_PATH@,
            correlation_id: fallback_id,
            body: seq![],
            auth_header: None,
        },
        correlation_id: None,
    }
}

/// The generation leg of these client members.
pub open spec fn generation_of(
    fields: Map<Seq<char>, Json>,
    handoff: HandoffView,
    fallback_id: i64,
    conversation_id: Seq<char>,
    auth_key: Option<Seq<u8>>,
) -> Result<GenerationView, RequestErrorView> {
    let id = resolved_id(handoff, fallback_id);
    if !handoff.pending() {
        Ok(no_generation(fallback_id))
    } else {
        match handoff.prompt() {
            Err(source) => Err(RequestErrorView::Handoff { source }),
            Ok(prompt) => Ok(
                GenerationView {
                    leg: LegView {
                        path: CHAT_COMPLETIONS_PATH@,
                        correlation_id: id,
                        body: json_text(
                            Json::Object(
                                generation_fields(fields, handoff, prompt, conversation_id, id),
                            ),
                        ),
                        auth_header: generation_header(handoff, auth_key),
                    },
                    correlation_id: Some(id),
                },
            ),
        }
    }
}

/// The generation leg of a client body.
pub open spec fn prepared_generation(
    body: Seq<u8>,
    handoff: HandoffView,
    fallback_id: i64,
    conversation_id: Seq<char>,
    auth_key: Option<Seq<u8>>,
) -> Result<GenerationView, RequestErrorView> {
    match object_in(body) {
        Err(error) => Err(error),
        Ok(fields) => generation_of(fields, handoff, fallback_id, conversation_id, auth_key),
    }
}

/// What a preparation of a generation leg holds.
pub open spec fn generation_outcome(
    outcome: Result<PreparedGenerationRequest, RequestError>,
) -> Result<GenerationView, RequestErrorView> {
    match outcome {
        Ok(generation) => Ok(generation@),
        Err(error) => Err(error@),
    }
}

/// The bytes of an optional key.
pub open spec fn key_of(key: Option<&[u8]>) -> Option<Seq<u8>> {
    match key {
        Some(key) => Some(key@),
        None => None,
    }
}

proof fn lemma_int_array_is_flat(numbers: Seq<i64>)
    ensures
        nested_within(int_array(numbers), 1),
{
    match int_array(numbers) {
        Json::Array(items) => {
            assert forall|i: int| 0 <= i < items.len() implies nested_within(
                #[trigger] items[i],
                0,
            ) by {
                assert(items[i] == Json::Int(numbers[i] as int));
            }
        },
        _ => {},
    }
}

proof fn lemma_optional_keeps_nesting(
    fields: Map<Seq<char>, Json>,
    name: Seq<char>,
    value: Option<Json>,
    levels: nat,
)
    requires
        levels > 0,
        nested_within(Json::Object(fields), levels),
        value is Some ==> nested_within(value->Some_0, (levels - 1) as nat),
    ensures
        nested_within(Json::Object(with_optional(fields, name, value)), levels),
{
    match value {
        Some(value) => {
            lemma_insert_keeps_nesting(fields, name, value, levels);
        },
        None => {},
    }
}

proof fn lemma_generation_params_nest(
    handoff: HandoffView,
    conversation_id: Seq<char>,
    correlation_id: i64,
)
    ensures
        nested_within(
            Json::Object(generation_params(handoff, conversation_id, correlation_id)),
            2,
        ),
{
    let typed = no_fields().insert("request_type"@, Json::Text("generation_only"@));
    let id = Json::Int(correlation_id as int);
    let named = typed.insert("disagg_request_id"@, id).insert(
        "conversation_id"@,
        Json::Text(conversation_id),
    );
    lemma_insert_keeps_nesting(no_fields(), "request_type"@, Json::Text("generation_only"@), 2);
    lemma_insert_keeps_nesting(typed, "disagg_request_id"@, id, 2);
    lemma_insert_keeps_nesting(
        typed.insert("disagg_request_id"@, id),
        "conversation_id"@,
        Json::Text(conversation_id),
        2,
    );
    let context_id = match handoff.ctx_request_id {
        Some(id) => Some(Json::Int(id as int)),
        None => None,
    };
    let tokens = match handoff.first_gen_tokens {
        Some(tokens) => Some(int_array(tokens)),
        None => None,
    };
    let state = match handoff.encoded_opaque_state {
        Some(state) => Some(Json::Text(state)),
        None => None,
    };
    if handoff.first_gen_tokens is Some {
        lemma_int_array_is_flat(handoff.first_gen_tokens->Some_0);
    }
    lemma_optional_keeps_nesting(named, "ctx_request_id"@, context_id, 2);
    let identified = with_optional(named, "ctx_request_id"@, context_id);
    lemma_optional_keeps_nesting(identified, "first_gen_tokens"@, tokens, 2);
    let started = with_optional(identified, "first_gen_tokens"@, tokens);
    lemma_optional_keeps_nesting(started, "encoded_opaque_state"@, state, 2);
    let endpoint = match handoff.ctx_info_endpoint {
        Some(endpoint) => Some(Json::Text(endpoint)),
        None => None,
    };
    let stated = with_optional(started, "encoded_opaque_state"@, state);
    lemma_optional_keeps_nesting(stated, "ctx_info_endpoint"@, endpoint, 2);
}

proof fn lemma_generation_fields_nest(
    fields: Map<Seq<char>, Json>,
    handoff: HandoffView,
    prompt: PromptView,
    conversation_id: Seq<char>,
    correlation_id: i64,
)
    requires
        nested_within(Json::Object(fields), max_nesting()),
    ensures
        nested_within(
            Json::Object(
                generation_fields(fields, handoff, prompt, conversation_id, correlation_id),
            ),
            max_nesting(),
        ),
{
    match prompt {
        PromptView::Ids(ids) => {
            lemma_int_array_is_flat(ids);
            lemma_nesting_widens(int_array(ids), 1, 126);
            lemma_insert_keeps_nesting(fields, "prompt_token_ids"@, int_array(ids), 127);
            lemma_remove_keeps_nesting(
                fields.insert("prompt_token_ids"@, int_array(ids)),
                "prompt_token_ids_b64"@,
                127,
            );
        },
        PromptView::Base64(encoded) => {
            let text = Json::Text(encoded);
            lemma_insert_keeps_nesting(fields, "prompt_token_ids_b64"@, text, 127);
            lemma_remove_keeps_nesting(
                fields.insert("prompt_token_ids_b64"@, text),
                "prompt_token_ids"@,
                127,
            );
        },
    }
    let params = Json::Object(generation_params(handoff, conversation_id, correlation_id));
    lemma_generation_params_nest(handoff, conversation_id, correlation_id);
    lemma_nesting_widens(params, 2, 126);
    lemma_insert_keeps_nesting(
        with_prompt(fields, prompt),
        "disaggregated_params"@,
        params,
        127,
    );
}

/// Writes what the generation leg says to its worker.
fn build_generation_params(
    handoff: &ContextHandoff,
    conversation_id: &str,
    correlation_id: i64,
) -> (outcome: Result<serde_json::Map<String, Value>, RequestError>)
    ensures
        outcome is Ok,
        fields_of(outcome->Ok_0) == generation_params(handoff@, conversation_id@, correlation_id),
{
    let mut params: serde_json::Map<String, Value> = serde_json::Map::new();
    set_field(&mut params, "request_type", text_value(REQUEST_TYPE_GENERATION_ONLY));
    set_field(&mut params, "disagg_request_id", int_value(correlation_id));
    set_field(&mut params, "conversation_id", text_value(conversation_id));
    match handoff.ctx_request_id {
        Some(id) => {
            set_field(&mut params, "ctx_request_id", int_value(id));
        },
        None => {},
    }
    match &handoff.first_gen_tokens {
        Some(tokens) => match ints_value(tokens.as_slice()) {
            Ok(tokens) => {
                set_field(&mut params, "first_gen_tokens", tokens);
            },
            Err(source) => {
                return Err(RequestError::MalformedJson { source });
            },
        },
        None => {},
    }
    match &handoff.encoded_opaque_state {
        Some(state) => {
            set_field(&mut params, "encoded_opaque_state", text_value(state.as_str()));
        },
        None => {},
    }
    match &handoff.ctx_info_endpoint {
        Some(endpoint) => {
            set_field(&mut params, "ctx_info_endpoint", text_value(endpoint.as_str()));
        },
        None => {},
    }
    Ok(params)
}

/// Signs a handoff, where there is a key and a protected field.
fn build_generation_header(handoff: &ContextHandoff, auth_key: Option<&[u8]>) -> (header: Option<
    (&'static str, String),
>)
    ensures
        header_of(header) == generation_header(handoff@, key_of(auth_key)),
{
    match auth_key {
        Some(key) => {
            let state: Option<&str> = match &handoff.encoded_opaque_state {
                Some(state) => Some(state.as_str()),
                None => None,
            };
            let endpoint: Option<&str> = match &handoff.ctx_info_endpoint {
                Some(endpoint) => Some(endpoint.as_str()),
                None => None,
            };
            match sign_disagg_handoff(key, state, endpoint) {
                Some(signed) => Some((INTERNAL_DISAGG_AUTH_HEADER, signed)),
                None => None,
            }
        },
        None => None,
    }
}

/// Whether a leg can be read back as the generation leg of these members.
pub open spec fn reads_as_generation(
    body: Seq<u8>,
    fields: Map<Seq<char>, Json>,
    handoff: HandoffView,
    fallback_id: i64,
    conversation_id: Seq<char>,
) -> bool {
    let id = resolved_id(handoff, fallback_id);
    &&& handoff.prompt() is Ok
    &&& reads_as(
        body,
        Json::Object(
            generation_fields(fields, handoff, handoff.prompt()->Ok_0, conversation_id, id),
        ),
    )
    &&& correlation_in(body) == Some(id)
}

/// Builds the generation leg of a client request from a handoff.
pub fn build_generation_leg(
    client: serde_json::Map<String, Value>,
    handoff: &ContextHandoff,
    fallback_id: i64,
    conversation_id: &str,
    auth_key: Option<&[u8]>,
) -> (outcome: Result<PreparedGenerationRequest, RequestError>)
    requires
        nested_within(Json::Object(fields_of(client)), max_nesting()),
    ensures
        generation_outcome(outcome) == generation_of(
            fields_of(client),
            handoff@,
            fallback_id,
            conversation_id@,
            key_of(auth_key),
        ),
        outcome is Ok && handoff@.pending() ==> reads_as_generation(
            outcome->Ok_0@.leg.body,
            fields_of(client),
            handoff@,
            fallback_id,
            conversation_id@,
        ),
{
    if !handoff.needs_generation() {
        return Ok(
            PreparedGenerationRequest {
                leg: PreparedLeg {
                    path: CHAT_COMPLETIONS_PATH,
                    correlation_id: fallback_id,
                    body: Bytes::new(),
                    auth_header: None,
                },
                correlation_id: None,
            },
        );
    }
    let ghost fields = fields_of(client);
    let mut object = client;
    let correlation_id: i64 = match handoff.disagg_request_id {
        Some(id) => id,
        None => fallback_id,
    };
    match handoff.prompt_tokens() {
        Ok(PromptTokens::Ids(ids)) => {
            match ints_value(ids) {
                Ok(ids) => {
                    set_field(&mut object, "prompt_token_ids", ids);
                },
                Err(source) => {
                    return Err(RequestError::MalformedJson { source });
                },
            }
            remove_field(&mut object, "prompt_token_ids_b64");
        },
        Ok(PromptTokens::Base64(encoded)) => {
            set_field(&mut object, "prompt_token_ids_b64", text_value(encoded));
            remove_field(&mut object, "prompt_token_ids");
        },
        Err(source) => {
            return Err(RequestError::from(source));
        },
    }
    let params = match build_generation_params(handoff, conversation_id, correlation_id) {
        Ok(params) => params,
        Err(error) => {
            return Err(error);
        },
    };
    set_field(&mut object, "disaggregated_params", object_value(params));
    let auth_header = build_generation_header(handoff, auth_key);
    proof {
        let prompt = handoff@.prompt()->Ok_0;
        assert(fields_of(object) == generation_fields(
            fields,
            handoff@,
            prompt,
            conversation_id@,
            correlation_id,
        ));
        lemma_generation_fields_nest(fields, handoff@, prompt, conversation_id@, correlation_id);
        law_generation_leg_names_its_id(
            fields,
            handoff@,
            prompt,
            conversation_id@,
            correlation_id,
        );
    }
    match write_object(&object) {
        Ok(text) => Ok(
            PreparedGenerationRequest {
                leg: PreparedLeg {
                    path: CHAT_COMPLETIONS_PATH,
                    correlation_id,
                    body: freeze(text),
                    auth_header,
                },
                correlation_id: Some(correlation_id),
            },
        ),
        Err(source) => Err(RequestError::MalformedJson { source }),
    }
}

/// Builds the generation leg of a client body from a handoff.
///
/// The client body is taken up again, so that sampling, tools and the response
/// format stay as the client sent them.
pub fn prepare_generation_request(
    client_body: &[u8],
    handoff: &ContextHandoff,
    fallback_id: i64,
    conversation_id: &str,
    auth_key: Option<&[u8]>,
) -> (outcome: Result<PreparedGenerationRequest, RequestError>)
    ensures
        generation_outcome(outcome) == prepared_generation(
            client_body@,
            handoff@,
            fallback_id,
            conversation_id@,
            key_of(auth_key),
        ),
        outcome is Ok && handoff@.pending() ==> reads_as_generation(
            outcome->Ok_0@.leg.body,
            object_in(client_body@)->Ok_0,
            handoff@,
            fallback_id,
            conversation_id@,
        ),
{
    match parse_object(client_body) {
        Ok(client) => build_generation_leg(
            client,
            handoff,
            fallback_id,
            conversation_id,
            auth_key,
        ),
        Err(error) => Err(error),
    }
}

/// The generation leg names the id that it is sent under, as a generation leg,
/// and the conversation.
pub proof fn law_generation_leg_names_its_id(
    fields: Map<Seq<char>, Json>,
    handoff: HandoffView,
    prompt: PromptView,
    conversation_id: Seq<char>,
    correlation_id: i64,
)
    ensures
        names_id(
            generation_fields(fields, handoff, prompt, conversation_id, correlation_id),
            correlation_id,
        ),
        field(generation_params(handoff, conversation_id, correlation_id), "request_type"@) == Some(
            Json::Text("generation_only"@),
        ),
        field(generation_params(handoff, conversation_id, correlation_id), "conversation_id"@)
            == Some(Json::Text(conversation_id)),
{
    lemma_names_differ();
}

/// The generation leg differs from the client request in its prompt and in what
/// it says to its worker, and in nothing else.
pub proof fn law_generation_leg_keeps_the_rest(
    fields: Map<Seq<char>, Json>,
    handoff: HandoffView,
    prompt: PromptView,
    conversation_id: Seq<char>,
    correlation_id: i64,
    name: Seq<char>,
)
    requires
        name != "prompt_token_ids"@ && name != "prompt_token_ids_b64"@ && name
            != "disaggregated_params"@,
    ensures
        field(
            generation_fields(fields, handoff, prompt, conversation_id, correlation_id),
            name,
        ) == field(fields, name),
{
}

/// The generation leg carries the prompt in the form that was handed over, as it
/// was handed over, and never in both forms.
pub proof fn law_generation_leg_has_one_prompt(
    fields: Map<Seq<char>, Json>,
    handoff: HandoffView,
    prompt: PromptView,
    conversation_id: Seq<char>,
    correlation_id: i64,
)
    ensures
        ({
            let leg = generation_fields(fields, handoff, prompt, conversation_id, correlation_id);
            let ids = field(leg, "prompt_token_ids"@);
            let encoded = field(leg, "prompt_token_ids_b64"@);
            match prompt {
                PromptView::Ids(numbers) => ids == Some(int_array(numbers)) && encoded is None,
                PromptView::Base64(text) => encoded == Some(Json::Text(text)) && ids is None,
            }
        }),
{
    lemma_names_differ();
}

/// The generation leg relays the context request id, the first tokens and both
/// protected fields as they were handed over, and leaves out what was not. So
/// every field that a signature covers is on the leg.
pub proof fn law_generation_leg_relays_the_handoff(
    handoff: HandoffView,
    conversation_id: Seq<char>,
    correlation_id: i64,
)
    ensures
        ({
            let params = generation_params(handoff, conversation_id, correlation_id);
            &&& field(params, "ctx_request_id"@) == (match handoff.ctx_request_id {
                Some(id) => Some(Json::Int(id as int)),
                None => None,
            })
            &&& field(params, "first_gen_tokens"@) == (match handoff.first_gen_tokens {
                Some(tokens) => Some(int_array(tokens)),
                None => None,
            })
            &&& field(params, "encoded_opaque_state"@) == (match handoff.encoded_opaque_state {
                Some(state) => Some(Json::Text(state)),
                None => None,
            })
            &&& field(params, "ctx_info_endpoint"@) == (match handoff.ctx_info_endpoint {
                Some(endpoint) => Some(Json::Text(endpoint)),
                None => None,
            })
        }),
{
    lemma_names_differ();
}

/// Where the context leg has given the whole answer, no generation leg is built,
/// whatever the handoff holds besides.
pub proof fn law_finished_context_has_no_generation(
    body: Seq<u8>,
    handoff: HandoffView,
    fallback_id: i64,
    conversation_id: Seq<char>,
    auth_key: Option<Seq<u8>>,
)
    requires
        !handoff.pending(),
        object_in(body) is Ok,
    ensures
        prepared_generation(body, handoff, fallback_id, conversation_id, auth_key) == Ok::<
            GenerationView,
            RequestErrorView,
        >(no_generation(fallback_id)),
{
}

/// A generation leg is signed exactly when there is a key and the handoff
/// carries a protected field.
pub proof fn law_protected_handoffs_are_signed(handoff: HandoffView, auth_key: Option<Seq<u8>>)
    ensures
        generation_header(handoff, auth_key) is Some <==> auth_key is Some && (
        handoff.encoded_opaque_state is Some || handoff.ctx_info_endpoint is Some),
{
}

/// Both legs of one request carry the same id, unless the context worker reports
/// another: the generation leg then carries that one.
pub proof fn law_both_legs_share_the_id(
    fields: Map<Seq<char>, Json>,
    handoff: HandoffView,
    prompt: PromptView,
    conversation_id: Seq<char>,
    minted_id: i64,
)
    ensures
        names_id(context_fields(fields, conversation_id, minted_id), minted_id),
        names_id(
            generation_fields(
                fields,
                handoff,
                prompt,
                conversation_id,
                resolved_id(handoff, minted_id),
            ),
            resolved_id(handoff, minted_id),
        ),
        handoff.disagg_request_id is None ==> resolved_id(handoff, minted_id) == minted_id,
        handoff.disagg_request_id is Some ==> resolved_id(handoff, minted_id)
            == handoff.disagg_request_id->Some_0,
{
    lemma_names_differ();
}

/// What is accepted of a client is what it sent, member for member: the body is no
/// longer than the limit and holds that very object, which sets no field of the
/// gateway and asks for no stream.
pub proof fn law_accepted_clients_are_as_they_were_sent(
    body: Seq<u8>,
    limit: usize,
    fields: Map<Seq<char>, Json>,
)
    requires
        client_object(body, limit) == Ok::<Map<Seq<char>, Json>, RequestErrorView>(fields),
    ensures
        json_parse(body) == Ok::<Json, Seq<char>>(Json::Object(fields)),
        body.len() <= limit,
        forall|i: int|
            0 <= i < 4 ==> {
                let name = (#[trigger] CLIENT_FORBIDDEN_FIELDS[i])@;
                !fields.dom().contains(name) || fields[name] == Json::Null
            },
        fields.dom().contains("disaggregated_params"@) ==> fields["disaggregated_params"@]
            == Json::Null,
        fields.dom().contains("prompt_token_ids_b64"@) ==> fields["prompt_token_ids_b64"@]
            == Json::Null,
        fields.dom().contains("ctx_info_endpoint"@) ==> fields["ctx_info_endpoint"@] == Json::Null,
        fields.dom().contains("encoded_opaque_state"@) ==> fields["encoded_opaque_state"@]
            == Json::Null,
        fields.dom().contains("stream"@) ==> fields["stream"@] != Json::Bool(true),
{
}

/// A client is accepted wherever its body is short enough and holds an object that
/// sets no field of the gateway and asks for no stream.
pub proof fn law_ordinary_clients_are_accepted(
    body: Seq<u8>,
    limit: usize,
    fields: Map<Seq<char>, Json>,
)
    requires
        json_parse(body) == Ok::<Json, Seq<char>>(Json::Object(fields)),
        body.len() <= limit,
        forall|i: int|
            0 <= i < 4 ==> {
                let name = (#[trigger] CLIENT_FORBIDDEN_FIELDS[i])@;
                !fields.dom().contains(name) || fields[name] == Json::Null
            },
        !fields.dom().contains("stream"@) || fields["stream"@] != Json::Bool(true),
    ensures
        client_object(body, limit) == Ok::<Map<Seq<char>, Json>, RequestErrorView>(fields),
{
    let first = CLIENT_FORBIDDEN_FIELDS[0];
    let second = CLIENT_FORBIDDEN_FIELDS[1];
    let third = CLIENT_FORBIDDEN_FIELDS[2];
    let fourth = CLIENT_FORBIDDEN_FIELDS[3];
    assert(first@ == "disaggregated_params"@ && second@ == "prompt_token_ids_b64"@);
    assert(third@ == "ctx_info_endpoint"@ && fourth@ == "encoded_opaque_state"@);
}

/// Why a client is refused: its body is too long, is no JSON or no object, sets a
/// field of the gateway, of which the first in their order is named, or asks for a
/// stream; the reasons are looked at in this order.
pub proof fn law_refused_clients_have_their_reason(
    body: Seq<u8>,
    limit: usize,
    fields: Map<Seq<char>, Json>,
    i: int,
)
    ensures
        body.len() > limit ==> client_object(body, limit)->Err_0 == (
        RequestErrorView::BodyTooLarge { limit }),
        body.len() <= limit ==> {
            &&& json_parse(body) is Err ==> client_object(body, limit)->Err_0 == (
            RequestErrorView::MalformedJson { source: json_parse(body)->Err_0 })
            &&& json_parse(body) is Ok && !(json_parse(body)->Ok_0 is Object) ==> client_object(
                body,
                limit,
            )->Err_0 == RequestErrorView::NotAnObject
        },
        body.len() <= limit && json_parse(body) == Ok::<Json, Seq<char>>(Json::Object(fields)) && 0
            <= i < 4 && present(fields, CLIENT_FORBIDDEN_FIELDS[i]@) && (forall|j: int|
            0 <= j < i ==> !present(fields, (#[trigger] CLIENT_FORBIDDEN_FIELDS[j])@))
            ==> client_object(body, limit)->Err_0 == (RequestErrorView::ForbiddenField {
            field: CLIENT_FORBIDDEN_FIELDS[i]@,
        }),
        body.len() <= limit && json_parse(body) == Ok::<Json, Seq<char>>(Json::Object(fields)) && (
        forall|j: int| 0 <= j < 4 ==> !present(fields, (#[trigger] CLIENT_FORBIDDEN_FIELDS[j])@))
            && field(fields, "stream"@) == Some(Json::Bool(true)) ==> client_object(
            body,
            limit,
        )->Err_0 == RequestErrorView::UnsupportedStreaming,
{
    if 0 <= i < 4 && present(fields, CLIENT_FORBIDDEN_FIELDS[i]@) && (forall|j: int|
        0 <= j < i ==> !present(fields, (#[trigger] CLIENT_FORBIDDEN_FIELDS[j])@)) {
        lemma_forbidden_field(fields, i);
    }
    let first = CLIENT_FORBIDDEN_FIELDS[0];
    let second = CLIENT_FORBIDDEN_FIELDS[1];
    let third = CLIENT_FORBIDDEN_FIELDS[2];
    let fourth = CLIENT_FORBIDDEN_FIELDS[3];
    assert(first@ == "disaggregated_params"@ && second@ == "prompt_token_ids_b64"@);
    assert(third@ == "ctx_info_endpoint"@ && fourth@ == "encoded_opaque_state"@);
}

/// What the worker reads from the context leg is what the client sent, member for
/// member, but for the stream, which is off, the stream options, which are `null`,
/// and the parameters, which hold the type, the id and the conversation and nothing
/// else.
pub proof fn law_context_leg_reads_as_the_client_sent_it(
    body: Seq<u8>,
    limit: usize,
    client: Map<Seq<char>, Json>,
    conversation_id: Seq<char>,
    correlation_id: i64,
    sent: Seq<u8>,
    read: Map<Seq<char>, Json>,
)
    requires
        client_object(body, limit) is Ok,
        json_parse(body) == Ok::<Json, Seq<char>>(Json::Object(client)),
        reads_as_context(
            sent,
            client_object(body, limit)->Ok_0,
            conversation_id,
            correlation_id,
        ),
        json_parse(sent) == Ok::<Json, Seq<char>>(Json::Object(read)),
    ensures
        forall|name: Seq<char>|
            name != "stream"@ && name != "stream_options"@ && name != "disaggregated_params"@ ==> (
            #[trigger] read.dom().contains(name) <==> client.dom().contains(name)) && (
            client.dom().contains(name) ==> read[name] == client[name]),
        read.dom().contains("stream"@) && read["stream"@] == Json::Bool(false),
        read.dom().contains("stream_options"@) && read["stream_options"@] == Json::Null,
        read.dom().contains("disaggregated_params"@),
        read["disaggregated_params"@] matches Json::Object(params) && {
            &&& forall|name: Seq<char>| #[trigger]
                params.dom().contains(name) <==> name == "request_type"@ || name
                    == "disagg_request_id"@ || name == "conversation_id"@
            &&& params["request_type"@] == Json::Text("context_only"@)
            &&& params["disagg_request_id"@] == Json::Int(correlation_id as int)
            &&& params["conversation_id"@] == Json::Text(conversation_id)
        },
        correlation_in(sent) == Some(correlation_id),
{
    lemma_names_differ();
    assert(client_object(body, limit)->Ok_0 == client);
    assert(read == context_fields(client, conversation_id, correlation_id));
}

/// What the worker reads from the generation leg is what the client sent, member for
/// member, but for the prompt, which is there in the one form that was handed over
/// and as it was handed over, and the parameters, which hold the type, the id, the
/// conversation and what was handed over, each as it was, and nothing else. The id is
/// the one that the context worker reported, or else the fallback.
pub proof fn law_generation_leg_reads_as_the_client_sent_it(
    body: Seq<u8>,
    client: Map<Seq<char>, Json>,
    handoff: HandoffView,
    fallback_id: i64,
    conversation_id: Seq<char>,
    sent: Seq<u8>,
    read: Map<Seq<char>, Json>,
)
    requires
        json_parse(body) == Ok::<Json, Seq<char>>(Json::Object(client)),
        reads_as_generation(
            sent,
            object_in(body)->Ok_0,
            handoff,
            fallback_id,
            conversation_id,
        ),
        json_parse(sent) == Ok::<Json, Seq<char>>(Json::Object(read)),
    ensures
        forall|name: Seq<char>|
            name != "prompt_token_ids"@ && name != "prompt_token_ids_b64"@ && name
                != "disaggregated_params"@ ==> (#[trigger] read.dom().contains(name)
                <==> client.dom().contains(name)) && (client.dom().contains(name) ==> read[name]
                == client[name]),
        read.dom().contains("prompt_token_ids"@) <==> handoff.prompt_token_ids is Some,
        read.dom().contains("prompt_token_ids_b64"@) <==> handoff.prompt_token_ids_b64 is Some,
        handoff.prompt_token_ids matches Some(ids) ==> read["prompt_token_ids"@] == int_array(ids),
        handoff.prompt_token_ids_b64 matches Some(text) ==> read["prompt_token_ids_b64"@]
            == Json::Text(text),
        read.dom().contains("disaggregated_params"@),
        read["disaggregated_params"@] matches Json::Object(params) && {
            &&& forall|name: Seq<char>| #[trigger]
                params.dom().contains(name) <==> name == "request_type"@ || name
                    == "disagg_request_id"@ || name == "conversation_id"@ || (name
                    == "ctx_request_id"@ && handoff.ctx_request_id is Some) || (name
                    == "first_gen_tokens"@ && handoff.first_gen_tokens is Some) || (name
                    == "encoded_opaque_state"@ && handoff.encoded_opaque_state is Some) || (name
                    == "ctx_info_endpoint"@ && handoff.ctx_info_endpoint is Some)
            &&& params["request_type"@] == Json::Text("generation_only"@)
            &&& params["conversation_id"@] == Json::Text(conversation_id)
            &&& params["disagg_request_id"@] == Json::Int(
                (if handoff.disagg_request_id is Some {
                    handoff.disagg_request_id->Some_0
                } else {
                    fallback_id
                }) as int,
            )
            &&& handoff.ctx_request_id matches Some(id) ==> params["ctx_request_id"@] == Json::Int(
                id as int,
            )
            &&& handoff.first_gen_tokens matches Some(tokens) ==> params["first_gen_tokens"@]
                == int_array(tokens)
            &&& handoff.encoded_opaque_state matches Some(state)
                ==> params["encoded_opaque_state"@] == Json::Text(state)
            &&& handoff.ctx_info_endpoint matches Some(endpoint) ==> params["ctx_info_endpoint"@]
                == Json::Text(endpoint)
        },
{
    lemma_names_differ();
    assert(object_in(body)->Ok_0 == client);
    assert(read == generation_fields(
        client,
        handoff,
        handoff.prompt()->Ok_0,
        conversation_id,
        resolved_id(handoff, fallback_id),
    ));
}

/// The text in a member of an object, where there is one.
pub open spec fn text_in(params: Map<Seq<char>, Json>, name: Seq<char>) -> Option<Seq<char>> {
    if params.dom().contains(name) && params[name] is Text {
        Some(params[name]->Text_0)
    } else {
        None
    }
}

/// The header of a generation leg signs what that leg carries: the code is that of
/// the key over the opaque state and the endpoint in the leg's own parameters, and
/// there is a header exactly where there is a key and one of the two is there.
pub proof fn law_header_signs_what_the_leg_carries(
    body: Seq<u8>,
    client: Map<Seq<char>, Json>,
    handoff: HandoffView,
    fallback_id: i64,
    conversation_id: Seq<char>,
    auth_key: Option<Seq<u8>>,
    generation: GenerationView,
    read: Map<Seq<char>, Json>,
    params: Map<Seq<char>, Json>,
)
    requires
        json_parse(body) == Ok::<Json, Seq<char>>(Json::Object(client)),
        handoff.pending(),
        prepared_generation(body, handoff, fallback_id, conversation_id, auth_key) == Ok::<
            GenerationView,
            RequestErrorView,
        >(generation),
        reads_as_generation(
            generation.leg.body,
            object_in(body)->Ok_0,
            handoff,
            fallback_id,
            conversation_id,
        ),
        json_parse(generation.leg.body) == Ok::<Json, Seq<char>>(Json::Object(read)),
        read["disaggregated_params"@] == Json::Object(params),
    ensures
        generation.leg.auth_header is Some <==> auth_key is Some && (params.dom().contains(
            "encoded_opaque_state"@,
        ) || params.dom().contains("ctx_info_endpoint"@)),
        generation.leg.auth_header matches Some(header) ==> header.0 == "x-trtllm-disagg-auth"@
            && header.1 == "sha256="@ + hex(
            hmac_code(
                auth_key->Some_0,
                signed_bytes(
                    text_in(params, "encoded_opaque_state"@),
                    text_in(params, "ctx_info_endpoint"@),
                ),
            ),
        ),
{
    law_generation_leg_reads_as_the_client_sent_it(
        body,
        client,
        handoff,
        fallback_id,
        conversation_id,
        generation.leg.body,
        read,
    );
    lemma_names_differ();
    assert(text_in(params, "encoded_opaque_state"@) == handoff.encoded_opaque_state);
    assert(text_in(params, "ctx_info_endpoint"@) == handoff.ctx_info_endpoint);
}

/// Both legs go to the path of chat completions. The context leg is sent under the
/// id that was minted and without a header. The generation leg is sent under the id
/// that the context worker reported, or else the fallback; where nothing is left to
/// generate it has no id, no header and not one byte.
pub proof fn law_legs_are_sent_under_their_ids(
    body: Seq<u8>,
    limit: usize,
    handoff: HandoffView,
    id: i64,
    conversation_id: Seq<char>,
    auth_key: Option<Seq<u8>>,
)
    ensures
        prepared_context(body, limit, conversation_id, id) matches Ok(leg) ==> leg.path
            == "v1/chat/completions"@ && leg.correlation_id == id && leg.auth_header is None,
        prepared_generation(body, handoff, id, conversation_id, auth_key) matches Ok(generation)
            ==> {
            &&& generation.leg.path == "v1/chat/completions"@
            &&& generation.correlation_id is Some <==> handoff.pending()
            &&& handoff.pending() ==> generation.correlation_id == Some(
                generation.leg.correlation_id,
            )
            &&& handoff.pending() && handoff.disagg_request_id is Some
                ==> generation.correlation_id == handoff.disagg_request_id
            &&& handoff.pending() && handoff.disagg_request_id is None
                ==> generation.correlation_id == Some(id)
            &&& !handoff.pending() ==> generation.leg.body.len() == 0
                && generation.leg.auth_header is None && generation.leg.correlation_id == id
        },
{
}

/// A generation leg is built wherever the client body holds an object and either
/// nothing is left to generate or the prompt was handed over in one form. Otherwise
/// the reason is the body's, or else the handoff's.
pub proof fn law_generation_is_prepared_where_it_can_be(
    body: Seq<u8>,
    handoff: HandoffView,
    id: i64,
    conversation_id: Seq<char>,
    auth_key: Option<Seq<u8>>,
)
    ensures
        ({
            let outcome = prepared_generation(body, handoff, id, conversation_id, auth_key);
            match json_parse(body) {
                Err(source) => outcome == Err::<GenerationView, RequestErrorView>(
                    RequestErrorView::MalformedJson { source },
                ),
                Ok(Json::Object(_)) => {
                    &&& outcome is Ok <==> !handoff.pending() || (
                    handoff.prompt_token_ids is Some) != (handoff.prompt_token_ids_b64 is Some)
                    &&& outcome is Err && handoff.prompt_token_ids is Some ==> outcome->Err_0 == (
                    RequestErrorView::Handoff {
                        source: HandoffErrorView::ConflictingPromptTokenForms,
                    })
                    &&& outcome is Err && handoff.prompt_token_ids is None ==> outcome->Err_0 == (
                    RequestErrorView::Handoff { source: HandoffErrorView::MissingPromptTokens })
                },
                Ok(_) => outcome == Err::<GenerationView, RequestErrorView>(
                    RequestErrorView::NotAnObject,
                ),
            }
        }),
{
}

/// The id that a document carries is the integer in its parameters, with every bit,
/// and a document without such an integer carries none.
pub proof fn law_correlation_is_the_integer_in_the_params(document: Json, params: Json, id: i64)
    requires
        member(document, "disaggregated_params"@) == Some(params),
    ensures
        correlation_of(document) == Some(id) <==> member(params, "disagg_request_id"@) == Some(
            Json::Int(id as int),
        ),
{
}

/// The text of an error holds what it is about: the limit as a number, and the
/// field, the source or the handoff's error as they are.
pub proof fn law_request_errors_say_what_is_wrong(error: RequestErrorView)
    ensures
        exists|k: int, n: int|
            0 <= k <= n <= error.text().len() && {
                let part = #[trigger] error.text().subrange(k, n);
                match error {
                    RequestErrorView::BodyTooLarge { limit } => unsigned_value(part) == Some(
                        limit as nat,
                    ),
                    RequestErrorView::MalformedJson { source } => part == source,
                    RequestErrorView::ForbiddenField { field } => part == field,
                    RequestErrorView::Handoff { source } => part == source.text(),
                    _ => true,
                }
            },
{
    let (head, part) = match error {
        RequestErrorView::BodyTooLarge { limit } => (
            "request body exceeds the configured limit of "@,
            decimal(limit as nat),
        ),
        RequestErrorView::MalformedJson { source } => ("request body is not valid JSON: "@, source),
        RequestErrorView::ForbiddenField { field } => ("client-supplied "@, field),
        RequestErrorView::Handoff { source } => ("handoff rejected: "@, source.text()),
        _ => (Seq::<char>::empty(), Seq::<char>::empty()),
    };
    if error is BodyTooLarge {
        law_decimal_reads_back(error->limit as nat);
    }
    let k = head.len() as int;
    let n = k + part.len();
    assert(error.text().subrange(k, n) =~= part);
}

/// No two names of members are alike.
proof fn lemma_names_differ()
    ensures
        "stream"@.len() == 6,
        "stream_options"@.len() == 14,
        "request_type"@.len() == 12,
        "conversation_id"@.len() == 15,
        "ctx_request_id"@.len() == 14,
        "prompt_token_ids"@.len() == 16,
        "disagg_request_id"@.len() == 17,
        "ctx_info_endpoint"@.len() == 17,
        "disaggregated_params"@.len() == 20,
        "prompt_token_ids_b64"@.len() == 20,
        "encoded_opaque_state"@.len() == 20,
        "first_gen_tokens"@.len() == 16,
        "stream_options"@[0] == 's',
        "ctx_request_id"@[0] == 'c',
        "prompt_token_ids"@[0] == 'p',
        "first_gen_tokens"@[0] == 'f',
        "disagg_request_id"@[0] == 'd',
        "ctx_info_endpoint"@[0] == 'c',
        "disaggregated_params"@[0] == 'd',
        "prompt_token_ids_b64"@[0] == 'p',
        "encoded_opaque_state"@[0] == 'e',
{
    reveal_strlit("stream");
    reveal_strlit("stream_options");
    reveal_strlit("request_type");
    reveal_strlit("conversation_id");
    reveal_strlit("ctx_request_id");
    reveal_strlit("prompt_token_ids");
    reveal_strlit("disagg_request_id");
    reveal_strlit("ctx_info_endpoint");
    reveal_strlit("disaggregated_params");
    reveal_strlit("prompt_token_ids_b64");
    reveal_strlit("encoded_opaque_state");
    reveal_strlit("first_gen_tokens");
}

/// The view of a leg keeps every part of it.
pub proof fn law_leg_views_keep_every_part(leg: PreparedLeg)
    ensures
        leg@.path == leg.path@,
        leg@.correlation_id == leg.correlation_id,
        leg@.body == bytes_of(leg.body),
        leg@.auth_header is Some <==> leg.auth_header is Some,
        leg.auth_header matches Some(header) ==> leg@.auth_header == Some((header.0@, header.1@)),
{
}

/// A member and the id are read from the document that the bytes hold, and from
/// bytes that hold none nothing is read.
pub proof fn law_members_are_read_from_the_bytes(body: Seq<u8>, document: Json, name: Seq<char>)
    ensures
        json_parse(body) == Ok::<Json, Seq<char>>(document) ==> member_in(body, name) == member(
            document,
            name,
        ) && correlation_in(body) == correlation_of(document),
        json_parse(body) is Err ==> member_in(body, name) is None && correlation_in(body) is None,
{
}

} // verus!
