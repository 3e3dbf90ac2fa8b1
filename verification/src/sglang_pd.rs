//! The two legs of a request in an SGLang deployment that splits prefill from
//! decode.
//!
//! Both legs carry the client request with one trusted bootstrap tuple: the host
//! and the port where the engines meet, and the room that they meet in. The
//! bootstrap port is not the HTTP port of a worker, so the tuple is an input of
//! its own and never taken from an HTTP address or from a client.

use crate::buffer::{buffer_bytes, bytes_of, freeze};
use crate::error::{SidecarError, SidecarErrorView};
use crate::json::{
    as_int, field, fields_of, get_field, get_member, int_value, into_object, json_of, json_parse,
    json_text, lemma_insert_keeps_nesting, max_nesting, member, nested_within, parse_json, present,
    reads_as, set_field, text_value, write_object, Json,
};
use crate::text::{
    decimal, decimal_text, has_char, join_three, join_two, law_decimal_is_digits,
    law_decimal_reads_back, law_trimmed_is_whole, text_eq, trim_text, trimmed, unsigned_value,
    white_space,
};
use bytes::Bytes;
use serde_json::Value;
use vstd::prelude::*;

verus! {

/// The revision of the request contract.
pub const PROTOCOL_REVISION: &'static str = "sglang-pd-v1";

/// The engine revision that the fields were taken from.
pub const VERIFIED_ENGINE_REVISION: &'static str =
    "sglang f4e0ac382e4e5d644f2fbe4a15c20da53500bbca (2026-07-29)";

/// The fields of the bootstrap tuple, which replace whatever a client sent.
pub const BOOTSTRAP_FIELDS: [&'static str; 3] = [
    "bootstrap_host",
    "bootstrap_port",
    "bootstrap_room",
];

/// The fields that steer an engine to one of its workers. They are refused, since
/// they could go past the worker that the gateway has selected.
pub const RANK_ROUTING_FIELDS: [&'static str; 2] = ["routed_dp_rank", "disagg_prefill_dp_rank"];

/// The largest room.
pub const MAX_ROOM: i64 = 0x7fff_ffff_ffff_ffff;

/// The smallest room. Zero stands for no room.
pub const MIN_ROOM: i64 = 1;

/// The path that both legs are sent to.
pub const LEG_PATH: &'static str = "/v1/chat/completions";

/// Why a revision was refused.
#[derive(Debug, Clone, PartialEq, Eq)]
pub enum ContractError {
    UnsupportedRevision { revision: String },
}

impl ContractError {
    /// Writes the error out.
    pub fn message(&self) -> (message: String)
        ensures
            message@ == "unsupported SGLang P/D protocol revision: "@ + self->revision@,
    {
        match self {
            ContractError::UnsupportedRevision { revision } => join_two(
                "unsupported SGLang P/D protocol revision: ",
                revision.as_str(),
            ),
        }
    }
}

/// Why a bootstrap tuple was refused.
#[derive(Debug, Clone, Copy, PartialEq, Eq, Structural)]
pub enum TrustError {
    EmptyBootstrapHost,
    MalformedBootstrapHost,
    ZeroBootstrapPort,
    BootstrapRoomOutOfRange,
}

impl TrustError {
    /// The text of the error.
    pub open spec fn text(self) -> Seq<char> {
        match self {
            TrustError::EmptyBootstrapHost => "trusted bootstrap host is empty"@,
            TrustError::MalformedBootstrapHost =>
                "trusted bootstrap host contains a scheme, path, port or permission separator"@,
            TrustError::ZeroBootstrapPort => "trusted bootstrap port must be greater than zero"@,
            TrustError::BootstrapRoomOutOfRange =>
                "trusted bootstrap room must be between 1 and i64::MAX"@,
        }
    }

    /// Writes the error out.
    pub fn message(&self) -> (message: String)
        ensures
            message@ == self.text(),
    {
        match self {
            TrustError::EmptyBootstrapHost => "trusted bootstrap host is empty".to_string(),
            TrustError::MalformedBootstrapHost =>
                "trusted bootstrap host contains a scheme, path, port or permission separator".to_string(),
            TrustError::ZeroBootstrapPort =>
                "trusted bootstrap port must be greater than zero".to_string(),
            TrustError::BootstrapRoomOutOfRange =>
                "trusted bootstrap room must be between 1 and i64::MAX".to_string(),
        }
    }
}

/// Why no legs could be built.
#[derive(Debug)]
pub enum RequestError {
    BodyTooLarge { limit: usize },
    MalformedJson { source: String },
    NotAnObject,
    RankRoutingField { field: &'static str },
    Bootstrap { source: TrustError },
    UnsupportedRevision { revision: String },
    Serialize { leg: &'static str, source: String },
}

/// What a [`RequestError`] holds.
#[verifier::ext_equal]
pub enum PdErrorView {
    BodyTooLarge { limit: usize },
    MalformedJson { source: Seq<char> },
    NotAnObject,
    RankRoutingField { field: Seq<char> },
    Bootstrap { source: TrustError },
    UnsupportedRevision { revision: Seq<char> },
    Serialize { leg: Seq<char>, source: Seq<char> },
}

impl View for RequestError {
    type V = PdErrorView;

    open spec fn view(&self) -> PdErrorView {
        match self {
            RequestError::BodyTooLarge { limit } => PdErrorView::BodyTooLarge { limit: *limit },
            RequestError::MalformedJson { source } => PdErrorView::MalformedJson {
                source: source@,
            },
            RequestError::NotAnObject => PdErrorView::NotAnObject,
            RequestError::RankRoutingField { field } => PdErrorView::RankRoutingField {
                field: field@,
            },
            RequestError::Bootstrap { source } => PdErrorView::Bootstrap { source: *source },
            RequestError::UnsupportedRevision { revision } => PdErrorView::UnsupportedRevision {
                revision: revision@,
            },
            RequestError::Serialize { leg, source } => PdErrorView::Serialize {
                leg: leg@,
                source: source@,
            },
        }
    }
}

impl PdErrorView {
    /// The text of the error.
    pub open spec fn text(self) -> Seq<char> {
        match self {
            PdErrorView::BodyTooLarge { limit } => "request body exceeds the configured limit of "@
                + decimal(limit as nat) + " bytes"@,
            PdErrorView::MalformedJson { source } => "request body is not valid JSON: "@ + source,
            PdErrorView::NotAnObject => "request body must be a JSON object"@,
            PdErrorView::RankRoutingField { field } => "client-supplied "@ + field
                + " is not allowed; the gateway assigns rank routing"@,
            PdErrorView::Bootstrap { source } => "trusted bootstrap rejected: "@ + source.text(),
            PdErrorView::UnsupportedRevision { revision } =>
                "unsupported SGLang P/D protocol revision: "@ + revision,
            PdErrorView::Serialize { leg, source } => "failed to serialize the "@ + leg
                + " request body: "@ + source,
        }
    }

    /// Whether the client is to blame.
    pub open spec fn is_client_error(self) -> bool {
        match self {
            PdErrorView::BodyTooLarge { .. } => true,
            PdErrorView::MalformedJson { .. } => true,
            PdErrorView::NotAnObject => true,
            PdErrorView::RankRoutingField { .. } => true,
            _ => false,
        }
    }

    /// The answer to the client.
    pub open spec fn answer(self) -> SidecarErrorView {
        if self.is_client_error() {
            SidecarErrorView { status: 400, code: "invalid_request"@, message: self.text() }
        } else {
            SidecarErrorView { status: 500, code: "pd_contract_error"@, message: self.text() }
        }
    }
}

impl RequestError {
    /// Writes the error out.
    pub fn message(&self) -> (message: String)
        ensures
            message@ == self@.text(),
    {
        match self {
            RequestError::BodyTooLarge { limit } => join_three(
                "request body exceeds the configured limit of ",
                decimal_text(*limit as u64).as_str(),
                " bytes",
            ),
            RequestError::MalformedJson { source } => join_two(
                "request body is not valid JSON: ",
                source.as_str(),
            ),
            RequestError::NotAnObject => "request body must be a JSON object".to_string(),
            RequestError::RankRoutingField { field } => join_three(
                "client-supplied ",
                *field,
                " is not allowed; the gateway assigns rank routing",
            ),
            RequestError::Bootstrap { source } => join_two(
                "trusted bootstrap rejected: ",
                source.message().as_str(),
            ),
            RequestError::UnsupportedRevision { revision } => join_two(
                "unsupported SGLang P/D protocol revision: ",
                revision.as_str(),
            ),
            RequestError::Serialize { leg, source } => {
                let mut message = join_three("failed to serialize the ", *leg, " request body: ");
                message.append(source.as_str());
                message
            },
        }
    }
}

impl From<TrustError> for RequestError {
    fn from(source: TrustError) -> (error: Self) {
        RequestError::Bootstrap { source }
    }
}

impl vstd::std_specs::convert::FromSpecImpl<TrustError> for RequestError {
    open spec fn obeys_from_spec() -> bool {
        true
    }

    open spec fn from_spec(source: TrustError) -> RequestError {
        RequestError::Bootstrap { source }
    }
}

impl From<RequestError> for SidecarError {
    /// A body that the client got wrong is answered as a bad request, and
    /// everything else as a fault of the sidecar.
    fn from(error: RequestError) -> (answer: Self)
        ensures
            answer@ == error@.answer(),
    {
        let message = error.message();
        match error {
            RequestError::BodyTooLarge { .. }
            | RequestError::MalformedJson { .. }
            | RequestError::NotAnObject
            | RequestError::RankRoutingField { .. } => SidecarError::adapter(
                400,
                "invalid_request",
                message,
            ),
            _ => SidecarError::adapter(500, "pd_contract_error", message),
        }
    }
}

impl vstd::std_specs::convert::FromSpecImpl<RequestError> for SidecarError {
    open spec fn obeys_from_spec() -> bool {
        false
    }

    open spec fn from_spec(error: RequestError) -> SidecarError {
        arbitrary()
    }
}

/// The revisions, as a value that can be logged.
#[derive(Debug, Clone, Copy, PartialEq, Eq)]
pub struct SglangPdContract {
    pub revision: &'static str,
    pub engine_revision: &'static str,
}

impl SglangPdContract {
    /// The revisions that this library is written for.
    pub fn pinned() -> (contract: Self)
        ensures
            contract.revision@ == "sglang-pd-v1"@,
            contract.engine_revision@
                == "sglang f4e0ac382e4e5d644f2fbe4a15c20da53500bbca (2026-07-29)"@,
    {
        SglangPdContract { revision: PROTOCOL_REVISION, engine_revision: VERIFIED_ENGINE_REVISION }
    }

    /// Accepts only the revision of the contract, spelled exactly so.
    pub fn validate_revision(self, declared: &str) -> (outcome: Result<Self, ContractError>)
        ensures
            outcome is Ok <==> declared@ == self.revision@,
            outcome is Ok ==> outcome->Ok_0 == self,
            outcome is Err ==> outcome->Err_0->revision@ == declared@,
    {
        if text_eq(declared, self.revision) {
            Ok(self)
        } else {
            Err(ContractError::UnsupportedRevision { revision: declared.to_string() })
        }
    }
}

/// Whether `host` is a bare host: no scheme, path, port, user or list, and no
/// white space around it.
pub open spec fn bare_host(host: Seq<char>) -> bool {
    &&& !host.contains('/')
    &&& !host.contains('@')
    &&& !host.contains(':')
    &&& !host.contains(',')
    &&& trimmed(host) == host
}

/// What is wrong with a bootstrap tuple, the host being looked at first and the
/// room last.
pub open spec fn distrusted(host: Seq<char>, port: u16, room: i64) -> Option<TrustError> {
    if host.len() == 0 {
        Some(TrustError::EmptyBootstrapHost)
    } else if !bare_host(host) {
        Some(TrustError::MalformedBootstrapHost)
    } else if port == 0 {
        Some(TrustError::ZeroBootstrapPort)
    } else if room < MIN_ROOM {
        Some(TrustError::BootstrapRoomOutOfRange)
    } else {
        None
    }
}

/// A bootstrap tuple that comes from the gateway and never from a client.
#[derive(Debug, PartialEq, Eq)]
pub struct TrustedBootstrap {
    host: String,
    port: u16,
    room: i64,
}

/// What a [`TrustedBootstrap`] holds.
#[verifier::ext_equal]
pub struct BootstrapView {
    pub host: Seq<char>,
    pub port: u16,
    pub room: i64,
}

impl TrustedBootstrap {
    /// Nothing is wrong with the tuple.
    #[verifier::type_invariant]
    pub closed spec fn well_formed(self) -> bool {
        distrusted(self.host@, self.port, self.room) is None
    }

    /// What the tuple holds.
    pub closed spec fn view(self) -> BootstrapView {
        BootstrapView { host: self.host@, port: self.port, room: self.room }
    }

    /// Takes a tuple that engines can meet at.
    pub fn new(host: &str, port: u16, room: i64) -> (outcome: Result<Self, TrustError>)
        ensures
            match distrusted(host@, port, room) {
                Some(error) => outcome == Err::<Self, TrustError>(error),
                None => outcome is Ok && outcome->Ok_0@ == (BootstrapView {
                    host: host@,
                    port,
                    room,
                }),
            },
    {
        proof {
            reveal_strlit("");
            assert(host@.len() == 0 <==> host@ =~= ""@);
        }
        let host = host.to_string();
        if text_eq(host.as_str(), "") {
            return Err(TrustError::EmptyBootstrapHost);
        }
        if has_char(host.as_str(), '/') || has_char(host.as_str(), '@') || has_char(
            host.as_str(),
            ':',
        ) || has_char(host.as_str(), ',') || !text_eq(trim_text(host.as_str()), host.as_str()) {
            return Err(TrustError::MalformedBootstrapHost);
        }
        if port == 0 {
            return Err(TrustError::ZeroBootstrapPort);
        }
        if room < MIN_ROOM || room > MAX_ROOM {
            return Err(TrustError::BootstrapRoomOutOfRange);
        }
        Ok(TrustedBootstrap { host, port, room })
    }

    pub fn host(&self) -> (host: &str)
        ensures
            host@ == self@.host,
            host@.len() > 0 && bare_host(host@),
    {
        proof {
            use_type_invariant(self);
        }
        self.host.as_str()
    }

    pub fn port(&self) -> (port: u16)
        ensures
            port == self@.port,
            port > 0,
    {
        proof {
            use_type_invariant(self);
        }
        self.port
    }

    pub fn room(&self) -> (room: i64)
        ensures
            room == self@.room,
            room >= MIN_ROOM,
    {
        proof {
            use_type_invariant(self);
        }
        self.room
    }
}

impl Clone for TrustedBootstrap {
    fn clone(&self) -> (copy: Self)
        ensures
            copy@ == self@,
    {
        proof {
            use_type_invariant(self);
        }
        TrustedBootstrap { host: self.host.clone(), port: self.port, room: self.room }
    }
}

/// Draws the rooms that requests meet in.
pub trait RoomGenerator: Send + Sync {
    /// Whether the generator may draw a room. One that says nothing of its rooms
    /// may draw any.
    open spec fn may_draw(&self, room: i64) -> bool {
        true
    }

    fn next_room(&self) -> (room: i64)
        ensures
            self.may_draw(room),
    ;
}

/// Draws rooms at random.
///
/// Two gateways may draw the same room. A room only tells apart the handoffs
/// that are under way between one pair of workers.
#[derive(Debug, Default, Clone, Copy)]
pub struct RandomRoomGenerator;

/// `rand::random` for a `u64`: any of its values.
#[verifier::external_body]
fn random_draw() -> (drawn: u64) {
    rand::random::<u64>()
}

/// Whether a random draw gave this number.
pub closed spec fn was_drawn(drawn: u64) -> bool {
    call_ensures(random_draw, (), drawn)
}

/// The room for a random draw: its low 63 bits, the lowest of them set.
pub open spec fn drawn_room(drawn: u64) -> int {
    let low = drawn as int % 0x8000_0000_0000_0000;
    if low % 2 == 0 {
        low + 1
    } else {
        low
    }
}

/// Turns a random draw into a room that is never zero and never negative.
pub fn room_from_draw(drawn: u64) -> (room: i64)
    ensures
        room == drawn_room(drawn),
        MIN_ROOM <= room <= MAX_ROOM,
{
    let room: u64 = (drawn & 0x7fff_ffff_ffff_ffff) | 1;
    let ghost low: u64 = drawn % 0x8000_0000_0000_0000;
    assert(low % 2 == 0 ==> room == low + 1) by (bit_vector)
        requires
            low == drawn % 0x8000_0000_0000_0000,
            room == (drawn & 0x7fff_ffff_ffff_ffff) | 1,
    ;
    assert(low % 2 != 0 ==> room == low) by (bit_vector)
        requires
            low == drawn % 0x8000_0000_0000_0000,
            room == (drawn & 0x7fff_ffff_ffff_ffff) | 1,
    ;
    room as i64
}

impl RoomGenerator for RandomRoomGenerator {
    /// Any room that a random draw gives.
    open spec fn may_draw(&self, room: i64) -> bool {
        MIN_ROOM <= room <= MAX_ROOM && exists|drawn: u64|
            was_drawn(drawn) && room == #[trigger] drawn_room(drawn)
    }

    fn next_room(&self) -> (room: i64) {
        room_from_draw(random_draw())
    }
}

/// One leg: the authority and the path that it is sent to, and its body.
#[derive(Debug, Clone, PartialEq, Eq)]
pub struct PreparedLeg {
    pub authority: String,
    pub path: &'static str,
    pub body: Bytes,
}

/// What a [`PreparedLeg`] holds.
#[verifier::ext_equal]
pub struct PdLegView {
    pub authority: Seq<char>,
    pub path: Seq<char>,
    pub body: Seq<u8>,
}

impl View for PreparedLeg {
    type V = PdLegView;

    open spec fn view(&self) -> PdLegView {
        PdLegView { authority: self.authority@, path: self.path@, body: bytes_of(self.body) }
    }
}

/// The room that a document names.
pub open spec fn room_of(document: Json) -> Option<i64> {
    match member(document, "bootstrap_room"@) {
        Some(room) => as_int(room),
        None => None,
    }
}

/// The room in a body: an error where the body is no JSON, and nothing where it
/// names no room.
pub open spec fn room_in(body: Seq<u8>) -> Result<Option<i64>, PdErrorView> {
    match json_parse(body) {
        Ok(document) => Ok(room_of(document)),
        Err(source) => Err(PdErrorView::MalformedJson { source }),
    }
}

/// Reads the room that a document names.
pub fn document_room(document: &Value) -> (room: Option<i64>)
    ensures
        room == room_of(json_of(*document)),
{
    match get_member(document, "bootstrap_room") {
        Some(room) => room.as_i64(),
        None => None,
    }
}

impl PreparedLeg {
    /// Reads the room back from the bytes of the leg.
    pub fn room(&self) -> (outcome: Result<i64, RequestError>)
        requires
            room_in(self@.body) != Ok::<Option<i64>, PdErrorView>(None),
        ensures
            match room_in(self@.body) {
                Ok(room) => outcome == Ok::<i64, RequestError>(room->Some_0),
                Err(error) => outcome is Err && outcome->Err_0@ == error,
            },
    {
        match self.find_room() {
            Ok(Some(room)) => Ok(room),
            Ok(None) => vstd::pervasive::unreached(),
            Err(error) => Err(error),
        }
    }

    /// Reads the room back from the bytes of the leg, and gives nothing where they
    /// are JSON and name none.
    pub fn checked_room(&self) -> (outcome: Option<Result<i64, RequestError>>)
        ensures
            match room_in(self@.body) {
                Ok(Some(room)) => outcome == Some(Ok::<i64, RequestError>(room)),
                Ok(None) => outcome is None,
                Err(error) => outcome matches Some(Err(found)) && found@ == error,
            },
    {
        match self.find_room() {
            Ok(None) => None,
            _ => Some(self.room()),
        }
    }

    /// Looks for the room in the bytes of the leg.
    fn find_room(&self) -> (outcome: Result<Option<i64>, RequestError>)
        ensures
            match outcome {
                Ok(room) => room_in(self@.body) == Ok::<Option<i64>, PdErrorView>(room),
                Err(error) => room_in(self@.body) == Err::<Option<i64>, PdErrorView>(error@),
            },
    {
        match parse_json(buffer_bytes(&self.body)) {
            Ok(document) => Ok(document_room(&document)),
            Err(source) => Err(RequestError::MalformedJson { source }),
        }
    }
}

/// The two legs of one request. What an engine does with its leg is up to the
/// engine's mode, not to the leg.
#[derive(Debug, Clone, PartialEq, Eq)]
pub struct PreparedSglangRequests {
    pub prefill: PreparedLeg,
    pub decode: PreparedLeg,
}

/// Refuses a body above the limit, before anything is parsed.
pub fn enforce_body_limit(len: usize, limit: usize) -> (outcome: Result<(), RequestError>)
    ensures
        outcome is Ok <==> len <= limit,
        outcome is Err ==> outcome->Err_0@ == (PdErrorView::BodyTooLarge { limit }),
{
    if len > limit {
        Err(RequestError::BodyTooLarge { limit })
    } else {
        Ok(())
    }
}

/// The first field, in the order of [`RANK_ROUTING_FIELDS`], with which a client
/// steers past the gateway.
pub open spec fn rank_field(fields: Map<Seq<char>, Json>) -> Option<Seq<char>> {
    if present(fields, "routed_dp_rank"@) {
        Some("routed_dp_rank"@)
    } else if present(fields, "disagg_prefill_dp_rank"@) {
        Some("disagg_prefill_dp_rank"@)
    } else {
        None
    }
}

/// Refuses a request that steers past the gateway. A field that is `null` counts
/// as not set.
fn reject_rank_routing(object: &serde_json::Map<String, Value>) -> (outcome: Result<
    (),
    RequestError,
>)
    ensures
        outcome is Ok <==> rank_field(fields_of(*object)) is None,
        outcome is Err ==> outcome->Err_0@ == (PdErrorView::RankRoutingField {
            field: rank_field(fields_of(*object))->Some_0,
        }),
{
    let mut i: usize = 0;
    while i < 2
        invariant
            i <= 2,
            i > 0 ==> !present(fields_of(*object), RANK_ROUTING_FIELDS[0]@),
            i > 1 ==> !present(fields_of(*object), RANK_ROUTING_FIELDS[1]@),
        decreases 2 - i,
    {
        let field: &'static str = RANK_ROUTING_FIELDS[i];
        let set = match get_field(object, field) {
            Some(value) => !value.is_null(),
            None => false,
        };
        if set {
            return Err(RequestError::RankRoutingField { field });
        }
        i += 1;
    }
    Ok(())
}

/// The members of a client request that may be sent under a declared revision.
pub open spec fn accepted_fields(
    revision: Seq<char>,
    declared: Seq<char>,
    body: Seq<u8>,
) -> Result<Map<Seq<char>, Json>, PdErrorView> {
    if declared != revision {
        Err(PdErrorView::UnsupportedRevision { revision: declared })
    } else {
        match json_parse(body) {
            Err(source) => Err(PdErrorView::MalformedJson { source }),
            Ok(document) => accepted_document(document),
        }
    }
}

/// The members of a client request that may be sent: an object that does not
/// steer past the gateway.
pub open spec fn accepted_document(document: Json) -> Result<
    Map<Seq<char>, Json>,
    PdErrorView,
> {
    match document {
        Json::Object(fields) => match rank_field(fields) {
            Some(field) => Err(PdErrorView::RankRoutingField { field }),
            None => Ok(fields),
        },
        _ => Err(PdErrorView::NotAnObject),
    }
}

/// The members of both legs: those of the client under the bootstrap tuple.
pub open spec fn leg_fields(
    fields: Map<Seq<char>, Json>,
    host: Seq<char>,
    port: u16,
    room: i64,
) -> Map<Seq<char>, Json> {
    fields.insert("bootstrap_host"@, Json::Text(host)).insert(
        "bootstrap_port"@,
        Json::Int(port as int),
    ).insert("bootstrap_room"@, Json::Int(room as int))
}

/// Either leg of these members.
pub open spec fn leg_of(
    fields: Map<Seq<char>, Json>,
    host: Seq<char>,
    port: u16,
    room: i64,
) -> PdLegView {
    PdLegView {
        authority: host + ":"@ + decimal(port as nat),
        path: LEG_PATH@,
        body: json_text(Json::Object(leg_fields(fields, host, port, room))),
    }
}

/// The legs of a client request in a room: twice the same leg.
pub open spec fn legs_in_room(
    revision: Seq<char>,
    declared: Seq<char>,
    body: Seq<u8>,
    host: Seq<char>,
    port: u16,
    room: i64,
) -> Result<PdLegView, PdErrorView> {
    match accepted_fields(revision, declared, body) {
        Err(error) => Err(error),
        Ok(fields) => if room < MIN_ROOM {
            Err(PdErrorView::Bootstrap { source: TrustError::BootstrapRoomOutOfRange })
        } else {
            Ok(leg_of(fields, host, port, room))
        },
    }
}

/// Whether an outcome holds this leg twice, or this error.
pub open spec fn prepares(
    outcome: Result<PreparedSglangRequests, RequestError>,
    expected: Result<PdLegView, PdErrorView>,
) -> bool {
    match outcome {
        Ok(legs) => expected == Ok::<PdLegView, PdErrorView>(legs.prefill@) && expected == Ok::<
            PdLegView,
            PdErrorView,
        >(legs.decode@),
        Err(error) => expected == Err::<PdLegView, PdErrorView>(error@),
    }
}

/// What an acceptance of a client request holds.
pub open spec fn accept_outcome(
    outcome: Result<serde_json::Map<String, Value>, RequestError>,
) -> Result<Map<Seq<char>, Json>, PdErrorView> {
    match outcome {
        Ok(object) => Ok(fields_of(object)),
        Err(error) => Err(error@),
    }
}

/// Reads a client request that may be sent under a declared revision.
pub fn accept_request(contract: SglangPdContract, declared_revision: &str, body: &[u8]) -> (outcome:
    Result<serde_json::Map<String, Value>, RequestError>)
    ensures
        accept_outcome(outcome) == accepted_fields(
            contract.revision@,
            declared_revision@,
            body@,
        ),
        outcome is Ok ==> nested_within(Json::Object(fields_of(outcome->Ok_0)), max_nesting()),
{
    match contract.validate_revision(declared_revision) {
        Ok(_) => {},
        Err(ContractError::UnsupportedRevision { revision }) => {
            return Err(RequestError::UnsupportedRevision { revision });
        },
    }
    match parse_json(body) {
        Ok(document) => accept_document(document),
        Err(source) => Err(RequestError::MalformedJson { source }),
    }
}

/// Takes a document for a client request that may be sent.
pub fn accept_document(document: Value) -> (outcome: Result<
    serde_json::Map<String, Value>,
    RequestError,
>)
    ensures
        accept_outcome(outcome) == accepted_document(json_of(document)),
{
    match into_object(document) {
        Some(object) => match reject_rank_routing(&object) {
            Ok(()) => Ok(object),
            Err(error) => Err(error),
        },
        None => Err(RequestError::NotAnObject),
    }
}

fn serialize_leg(
    object: &serde_json::Map<String, Value>,
    authority: &str,
    leg: &'static str,
) -> (outcome: Result<PreparedLeg, RequestError>)
    requires
        nested_within(Json::Object(fields_of(*object)), max_nesting()),
    ensures
        outcome is Ok,
        outcome->Ok_0@ == (PdLegView {
            authority: authority@,
            path: LEG_PATH@,
            body: json_text(Json::Object(fields_of(*object))),
        }),
        reads_as(outcome->Ok_0@.body, Json::Object(fields_of(*object))),
{
    match write_object(object) {
        Ok(text) => Ok(
            PreparedLeg { authority: authority.to_string(), path: LEG_PATH, body: freeze(text) },
        ),
        Err(source) => Err(RequestError::Serialize { leg, source }),
    }
}

/// Whether both legs can be read back as the members of a client under a
/// bootstrap tuple, each naming the room.
pub open spec fn legs_read_back(
    legs: PreparedSglangRequests,
    fields: Map<Seq<char>, Json>,
    bootstrap: BootstrapView,
    room: i64,
) -> bool {
    let sent = Json::Object(leg_fields(fields, bootstrap.host, bootstrap.port, room));
    &&& reads_as(legs.prefill@.body, sent)
    &&& reads_as(legs.decode@.body, sent)
    &&& room_in(legs.prefill@.body) == Ok::<Option<i64>, PdErrorView>(Some(room))
    &&& room_in(legs.decode@.body) == Ok::<Option<i64>, PdErrorView>(Some(room))
}

/// Builds both legs of an accepted client request in a given room.
///
/// The room goes through the checks of the bootstrap tuple again, so that a
/// generator that draws an unusable room shows.
pub fn build_legs(
    client: serde_json::Map<String, Value>,
    bootstrap: &TrustedBootstrap,
    room: i64,
) -> (outcome: Result<PreparedSglangRequests, RequestError>)
    requires
        nested_within(Json::Object(fields_of(client)), max_nesting()),
    ensures
        prepares_in_room(outcome, fields_of(client), bootstrap@, room),
{
    let met = match TrustedBootstrap::new(bootstrap.host(), bootstrap.port(), room) {
        Ok(met) => met,
        Err(source) => {
            return Err(RequestError::from(source));
        },
    };
    let ghost fields = fields_of(client);
    let mut object = client;
    set_field(&mut object, BOOTSTRAP_FIELDS[0], text_value(met.host()));
    set_field(&mut object, BOOTSTRAP_FIELDS[1], int_value(met.port() as i64));
    set_field(&mut object, BOOTSTRAP_FIELDS[2], int_value(met.room()));
    proof {
        assert(fields_of(object) == leg_fields(fields, bootstrap@.host, bootstrap@.port, room));
        lemma_leg_fields_nest(fields, bootstrap@.host, bootstrap@.port, room);
    }
    let authority = join_three(met.host(), ":", decimal_text(met.port() as u64).as_str());
    let prefill = match serialize_leg(&object, authority.as_str(), "prefill") {
        Ok(leg) => leg,
        Err(error) => {
            return Err(error);
        },
    };
    let decode = match serialize_leg(&object, authority.as_str(), "decode") {
        Ok(leg) => leg,
        Err(error) => {
            return Err(error);
        },
    };
    Ok(PreparedSglangRequests { prefill, decode })
}

proof fn lemma_leg_fields_nest(
    fields: Map<Seq<char>, Json>,
    host: Seq<char>,
    port: u16,
    room: i64,
)
    requires
        nested_within(Json::Object(fields), max_nesting()),
    ensures
        nested_within(Json::Object(leg_fields(fields, host, port, room)), max_nesting()),
{
    let hosted = fields.insert("bootstrap_host"@, Json::Text(host));
    let ported = hosted.insert("bootstrap_port"@, Json::Int(port as int));
    lemma_insert_keeps_nesting(fields, "bootstrap_host"@, Json::Text(host), 127);
    lemma_insert_keeps_nesting(hosted, "bootstrap_port"@, Json::Int(port as int), 127);
    lemma_insert_keeps_nesting(ported, "bootstrap_room"@, Json::Int(room as int), 127);
}

/// Builds both legs of a client request in a given room.
pub fn prepare_pd_requests_in_room(
    contract: SglangPdContract,
    declared_revision: &str,
    body: &[u8],
    bootstrap: &TrustedBootstrap,
    room: i64,
) -> (outcome: Result<PreparedSglangRequests, RequestError>)
    ensures
        prepares(
            outcome,
            legs_in_room(
                contract.revision@,
                declared_revision@,
                body@,
                bootstrap@.host,
                bootstrap@.port,
                room,
            ),
        ),
        outcome is Ok ==> legs_read_back(
            outcome->Ok_0,
            accepted_fields(contract.revision@, declared_revision@, body@)->Ok_0,
            bootstrap@,
            room,
        ),
{
    match accept_request(contract, declared_revision, body) {
        Ok(client) => build_legs(client, bootstrap, room),
        Err(error) => Err(error),
    }
}

/// Whether an outcome is what a room gives, both legs reading back in that room.
pub open spec fn prepares_in_room(
    outcome: Result<PreparedSglangRequests, RequestError>,
    fields: Map<Seq<char>, Json>,
    bootstrap: BootstrapView,
    room: i64,
) -> bool {
    &&& prepares(
        outcome,
        if room < MIN_ROOM {
            Err(PdErrorView::Bootstrap { source: TrustError::BootstrapRoomOutOfRange })
        } else {
            Ok(leg_of(fields, bootstrap.host, bootstrap.port, room))
        },
    )
    &&& outcome is Ok ==> legs_read_back(outcome->Ok_0, fields, bootstrap, room)
}

/// Builds both legs of a client request in a room that the generator draws once
/// the request has been accepted.
pub fn prepare_pd_requests(
    contract: SglangPdContract,
    declared_revision: &str,
    body: &[u8],
    bootstrap: &TrustedBootstrap,
    room_generator: &dyn RoomGenerator,
) -> (outcome: Result<PreparedSglangRequests, RequestError>)
    ensures
        match accepted_fields(contract.revision@, declared_revision@, body@) {
            Err(error) => outcome is Err && outcome->Err_0@ == error,
            Ok(fields) => exists|room: i64|
                room_generator.may_draw(room) && #[trigger] prepares_in_room(
                    outcome,
                    fields,
                    bootstrap@,
                    room,
                ),
        },
{
    match accept_request(contract, declared_revision, body) {
        Ok(client) => {
            let ghost fields = accepted_fields(
                contract.revision@,
                declared_revision@,
                body@,
            )->Ok_0;
            assert(fields == fields_of(client));
            let room: i64 = room_generator.next_room();
            let outcome = build_legs(client, bootstrap, room);
            assert(prepares_in_room(outcome, fields, bootstrap@, room));
            outcome
        },
        Err(error) => Err(error),
    }
}

/// Builds both legs of a client request in a random room. A request that is
/// accepted is never without a usable room.
pub fn prepare_pd_requests_with_random_room(
    contract: SglangPdContract,
    declared_revision: &str,
    body: &[u8],
    bootstrap: &TrustedBootstrap,
) -> (outcome: Result<PreparedSglangRequests, RequestError>)
    ensures
        match accepted_fields(contract.revision@, declared_revision@, body@) {
            Err(error) => outcome is Err && outcome->Err_0@ == error,
            Ok(fields) => outcome is Ok && exists|room: i64|
                RandomRoomGenerator.may_draw(room) && #[trigger] prepares_in_room(
                    outcome,
                    fields,
                    bootstrap@,
                    room,
                ),
        },
{
    match accept_request(contract, declared_revision, body) {
        Ok(client) => {
            let ghost fields = accepted_fields(
                contract.revision@,
                declared_revision@,
                body@,
            )->Ok_0;
            assert(fields == fields_of(client));
            let generator = RandomRoomGenerator;
            let room: i64 = generator.next_room();
            let outcome = build_legs(client, bootstrap, room);
            assert(prepares_in_room(outcome, fields, bootstrap@, room));
            outcome
        },
        Err(error) => Err(error),
    }
}

/// Both legs carry the bootstrap tuple, whatever the client sent in its fields.
pub proof fn law_legs_carry_the_trusted_tuple(
    fields: Map<Seq<char>, Json>,
    host: Seq<char>,
    port: u16,
    room: i64,
)
    ensures
        field(leg_fields(fields, host, port, room), "bootstrap_host"@) == Some(Json::Text(host)),
        field(leg_fields(fields, host, port, room), "bootstrap_port"@) == Some(
            Json::Int(port as int),
        ),
        field(leg_fields(fields, host, port, room), "bootstrap_room"@) == Some(
            Json::Int(room as int),
        ),
{
    lemma_tuple_names_differ();
}

proof fn lemma_tuple_names_differ()
    ensures
        "bootstrap_host"@ != "bootstrap_port"@,
        "bootstrap_host"@ != "bootstrap_room"@,
        "bootstrap_port"@ != "bootstrap_room"@,
{
    reveal_strlit("bootstrap_host");
    reveal_strlit("bootstrap_port");
    reveal_strlit("bootstrap_room");
    assert("bootstrap_host"@[10] == 'h');
    assert("bootstrap_port"@[10] == 'p');
    assert("bootstrap_room"@[10] == 'r');
}

/// Every other field stays as the client sent it.
pub proof fn law_legs_keep_the_rest(
    fields: Map<Seq<char>, Json>,
    host: Seq<char>,
    port: u16,
    room: i64,
    name: Seq<char>,
)
    requires
        name != "bootstrap_host"@ && name != "bootstrap_port"@ && name != "bootstrap_room"@,
    ensures
        field(leg_fields(fields, host, port, room), name) == field(fields, name),
{
}

/// What a client sends in the fields of the bootstrap tuple has no effect.
pub proof fn law_forged_tuples_have_no_effect(
    fields: Map<Seq<char>, Json>,
    forged_host: Json,
    forged_port: Json,
    forged_room: Json,
    host: Seq<char>,
    port: u16,
    room: i64,
)
    ensures
        leg_fields(
            fields.insert("bootstrap_host"@, forged_host).insert("bootstrap_port"@, forged_port).insert(
                "bootstrap_room"@,
                forged_room,
            ),
            host,
            port,
            room,
        ) == leg_fields(fields, host, port, room),
{
    lemma_tuple_names_differ();
    assert(leg_fields(
        fields.insert("bootstrap_host"@, forged_host).insert("bootstrap_port"@, forged_port).insert(
            "bootstrap_room"@,
            forged_room,
        ),
        host,
        port,
        room,
    ) =~= leg_fields(fields, host, port, room));
}

/// A rank field that is `null` is as good as none, and with any other value the
/// request is refused.
pub proof fn law_rank_fields_are_refused_unless_null(
    revision: Seq<char>,
    body: Seq<u8>,
    fields: Map<Seq<char>, Json>,
)
    requires
        json_parse(body) == Ok::<Json, Seq<char>>(Json::Object(fields)),
    ensures
        accepted_fields(revision, revision, body) is Ok <==> (field(fields, "routed_dp_rank"@)
            == None::<Json> || field(fields, "routed_dp_rank"@) == Some(Json::Null)) && (field(
            fields,
            "disagg_prefill_dp_rank"@,
        ) == None::<Json> || field(fields, "disagg_prefill_dp_rank"@) == Some(Json::Null)),
{
}

/// Requests that are sent in different rooms differ in both legs.
pub proof fn law_rooms_tell_requests_apart(
    fields: Map<Seq<char>, Json>,
    host: Seq<char>,
    port: u16,
    first: i64,
    second: i64,
)
    requires
        first != second,
    ensures
        room_of(Json::Object(leg_fields(fields, host, port, first))) != room_of(
            Json::Object(leg_fields(fields, host, port, second)),
        ),
{
}

/// The authority of a leg is the host, a colon and the port in decimal: up to its
/// last colon it is the host of the bootstrap tuple, and behind it the number is the
/// port of the tuple.
pub proof fn law_authority_is_the_host_and_the_port(
    fields: Map<Seq<char>, Json>,
    host: Seq<char>,
    port: u16,
    room: i64,
)
    ensures
        ({
            let authority = leg_of(fields, host, port, room).authority;
            let colon = host.len() as int;
            &&& authority.len() > colon + 1
            &&& authority.take(colon) == host
            &&& authority[colon] == ':'
            &&& unsigned_value(authority.skip(colon + 1)) == Some(port as nat)
            &&& forall|i: int| colon < i < authority.len() ==> #[trigger] authority[i] != ':'
        }),
{
    reveal_strlit(":");
    let authority = leg_of(fields, host, port, room).authority;
    let colon = host.len() as int;
    let digits = decimal(port as nat);
    law_decimal_reads_back(port as nat);
    law_decimal_is_digits(port as nat);
    assert(authority.take(colon) =~= host);
    assert(authority.skip(colon + 1) =~= digits);
    assert forall|i: int| colon < i < authority.len() implies #[trigger] authority[i] != ':' by {
        assert(authority[i] == digits[i - colon - 1]);
    }
}

/// Legs of different bootstrap hosts or ports go to different authorities.
pub proof fn law_authorities_tell_tuples_apart(
    fields: Map<Seq<char>, Json>,
    first: (Seq<char>, u16, i64),
    second: (Seq<char>, u16, i64),
)
    requires
        !first.0.contains(':') && !second.0.contains(':'),
        leg_of(fields, first.0, first.1, first.2).authority == leg_of(
            fields,
            second.0,
            second.1,
            second.2,
        ).authority,
    ensures
        first.0 == second.0,
        first.1 == second.1,
{
    law_authority_is_the_host_and_the_port(fields, first.0, first.1, first.2);
    law_authority_is_the_host_and_the_port(fields, second.0, second.1, second.2);
    let authority = leg_of(fields, first.0, first.1, first.2).authority;
    let (m, n) = (first.0.len() as int, second.0.len() as int);
    assert(authority[m] == ':' && authority[n] == ':');
    assert(m == n);
}

/// What is accepted of a client is what it sent, member for member, under the very
/// revision of the contract and without a rank.
pub proof fn law_accepted_requests_are_as_they_were_sent(
    revision: Seq<char>,
    declared: Seq<char>,
    body: Seq<u8>,
    fields: Map<Seq<char>, Json>,
)
    ensures
        accepted_fields(revision, declared, body) == Ok::<Map<Seq<char>, Json>, PdErrorView>(fields)
            <==> {
            &&& declared == revision
            &&& json_parse(body) == Ok::<Json, Seq<char>>(Json::Object(fields))
            &&& fields.dom().contains("routed_dp_rank"@) ==> fields["routed_dp_rank"@] == Json::Null
            &&& fields.dom().contains("disagg_prefill_dp_rank"@)
                ==> fields["disagg_prefill_dp_rank"@] == Json::Null
        },
{
}

/// Why a request is refused: another revision, which is named, a body that is no
/// JSON or no object, or a rank, which is named; the reasons are looked at in this
/// order.
pub proof fn law_refused_requests_have_their_reason(
    revision: Seq<char>,
    declared: Seq<char>,
    body: Seq<u8>,
)
    ensures
        ({
            let outcome = accepted_fields(revision, declared, body);
            &&& declared != revision ==> outcome == Err::<Map<Seq<char>, Json>, PdErrorView>(
                PdErrorView::UnsupportedRevision { revision: declared },
            )
            &&& declared == revision ==> match json_parse(body) {
                Err(source) => outcome == Err::<Map<Seq<char>, Json>, PdErrorView>(
                    PdErrorView::MalformedJson { source },
                ),
                Ok(Json::Object(fields)) => {
                    &&& present(fields, "routed_dp_rank"@) ==> outcome->Err_0 == (
                    PdErrorView::RankRoutingField { field: "routed_dp_rank"@ })
                    &&& !present(fields, "routed_dp_rank"@) && present(
                        fields,
                        "disagg_prefill_dp_rank"@,
                    ) ==> outcome->Err_0 == (PdErrorView::RankRoutingField {
                        field: "disagg_prefill_dp_rank"@,
                    })
                },
                Ok(_) => outcome == Err::<Map<Seq<char>, Json>, PdErrorView>(
                    PdErrorView::NotAnObject,
                ),
            }
        }),
{
}

/// What both workers read is what the client sent, member for member, but for the
/// bootstrap tuple, which is the trusted one, and both read the same.
pub proof fn law_legs_read_as_the_client_sent_them(
    revision: Seq<char>,
    body: Seq<u8>,
    client: Map<Seq<char>, Json>,
    legs: PreparedSglangRequests,
    bootstrap: BootstrapView,
    room: i64,
    prefill: Map<Seq<char>, Json>,
    decode: Map<Seq<char>, Json>,
)
    requires
        accepted_fields(revision, revision, body) is Ok,
        json_parse(body) == Ok::<Json, Seq<char>>(Json::Object(client)),
        legs_read_back(legs, accepted_fields(revision, revision, body)->Ok_0, bootstrap, room),
        json_parse(legs.prefill@.body) == Ok::<Json, Seq<char>>(Json::Object(prefill)),
        json_parse(legs.decode@.body) == Ok::<Json, Seq<char>>(Json::Object(decode)),
    ensures
        prefill == decode,
        forall|name: Seq<char>|
            name != "bootstrap_host"@ && name != "bootstrap_port"@ && name != "bootstrap_room"@ ==> (
            #[trigger] decode.dom().contains(name) <==> client.dom().contains(name)) && (
            client.dom().contains(name) ==> decode[name] == client[name]),
        decode.dom().contains("bootstrap_host"@) && decode["bootstrap_host"@] == Json::Text(
            bootstrap.host,
        ),
        decode.dom().contains("bootstrap_port"@) && decode["bootstrap_port"@] == Json::Int(
            bootstrap.port as int,
        ),
        decode.dom().contains("bootstrap_room"@) && decode["bootstrap_room"@] == Json::Int(
            room as int,
        ),
        room_in(legs.prefill@.body) == Ok::<Option<i64>, PdErrorView>(Some(room)),
        room_in(legs.decode@.body) == Ok::<Option<i64>, PdErrorView>(Some(room)),
{
    lemma_tuple_names_differ();
    assert(accepted_fields(revision, revision, body)->Ok_0 == client);
    assert(decode == leg_fields(client, bootstrap.host, bootstrap.port, room));
}

/// Both legs are there exactly where the request is accepted and the room is usable,
/// and both go to the path of chat completions.
pub proof fn law_legs_are_there_for_usable_rooms(
    outcome: Result<PreparedSglangRequests, RequestError>,
    fields: Map<Seq<char>, Json>,
    bootstrap: BootstrapView,
    room: i64,
)
    requires
        prepares_in_room(outcome, fields, bootstrap, room),
    ensures
        outcome is Ok <==> room >= 1,
        outcome is Err ==> outcome->Err_0@ == (PdErrorView::Bootstrap {
            source: TrustError::BootstrapRoomOutOfRange,
        }),
        outcome is Ok ==> outcome->Ok_0.prefill@ == outcome->Ok_0.decode@
            && outcome->Ok_0.decode@.path == "/v1/chat/completions"@ && legs_read_back(
            outcome->Ok_0,
            fields,
            bootstrap,
            room,
        ) && outcome->Ok_0.decode@.authority == leg_of(
            fields,
            bootstrap.host,
            bootstrap.port,
            room,
        ).authority,
{
}

/// The room that a document names is the integer in that member, with every bit.
pub proof fn law_room_is_the_integer_in_the_document(document: Json, room: i64)
    ensures
        room_of(document) == Some(room) <==> member(document, "bootstrap_room"@) == Some(
            Json::Int(room as int),
        ),
{
}

/// A tuple is trusted exactly where the host is there, bare and untrimmed, and the
/// port and the room are usable. The host is looked at first and the room last.
pub proof fn law_trusted_tuples_are_usable(host: Seq<char>, port: u16, room: i64)
    ensures
        distrusted(host, port, room) is None <==> {
            &&& host.len() > 0
            &&& forall|i: int|
                0 <= i < host.len() ==> #[trigger] host[i] != '/' && host[i] != '@' && host[i]
                    != ':' && host[i] != ','
            &&& !white_space(host.first()) && !white_space(host.last())
            &&& port > 0
            &&& room > 0
        },
        distrusted(host, port, room) == Some(TrustError::EmptyBootstrapHost) <==> host.len() == 0,
        distrusted(host, port, room) == Some(TrustError::BootstrapRoomOutOfRange) ==> room <= 0
            && port > 0,
        distrusted(host, port, room) == Some(TrustError::ZeroBootstrapPort) ==> port == 0,
        port > 0 && room > 0 && host.len() > 0 && distrusted(host, port, room) is Some
            ==> distrusted(host, port, room) == Some(TrustError::MalformedBootstrapHost),
{
    law_trimmed_is_whole(host);
    if host.len() > 0 && !bare_host(host) && trimmed(host) == host {
        assert(exists|i: int|
            0 <= i < host.len() && (#[trigger] host[i] == '/' || host[i] == '@' || host[i] == ':'
                || host[i] == ','));
    }
}

/// The room of a draw keeps the draw's low 63 bits but for the lowest, which is set.
pub proof fn law_rooms_keep_their_draws(drawn: u64)
    ensures
        drawn_room(drawn) % 2 == 1,
        drawn_room(drawn) / 2 == drawn as int % 0x8000_0000_0000_0000 / 2,
        1 <= drawn_room(drawn) <= i64::MAX,
{
}

/// A client is told of its own mistakes with 400 and of the sidecar's faults with
/// 500, in the words of the error.
pub proof fn law_answers_blame_the_right_side(error: PdErrorView)
    ensures
        error.answer().message == error.text(),
        error.answer().status == 400 <==> error is BodyTooLarge || error is MalformedJson
            || error is NotAnObject || error is RankRoutingField,
        error.answer().status == 500 <==> error is Bootstrap || error is UnsupportedRevision
            || error is Serialize,
        error.answer().status == 400 ==> error.answer().code == "invalid_request"@,
        error.answer().status == 500 ==> error.answer().code == "pd_contract_error"@,
{
}

/// The text of an error holds what it is about: the limit as a number, and the
/// field, the revision or the source as they are.
pub proof fn law_pd_errors_say_what_is_wrong(error: PdErrorView)
    ensures
        exists|k: int, n: int|
            0 <= k <= n <= error.text().len() && {
                let part = #[trigger] error.text().subrange(k, n);
                match error {
                    PdErrorView::BodyTooLarge { limit } => unsigned_value(part) == Some(
                        limit as nat,
                    ),
                    PdErrorView::MalformedJson { source } => part == source,
                    PdErrorView::RankRoutingField { field } => part == field,
                    PdErrorView::Bootstrap { source } => part == source.text(),
                    PdErrorView::UnsupportedRevision { revision } => part == revision,
                    PdErrorView::Serialize { source, .. } => part == source,
                    PdErrorView::NotAnObject => true,
                }
            },
{
    let (head, part) = match error {
        PdErrorView::BodyTooLarge { limit } => (
            "request body exceeds the configured limit of "@,
            decimal(limit as nat),
        ),
        PdErrorView::MalformedJson { source } => ("request body is not valid JSON: "@, source),
        PdErrorView::RankRoutingField { field } => ("client-supplied "@, field),
        PdErrorView::Bootstrap { source } => ("trusted bootstrap rejected: "@, source.text()),
        PdErrorView::UnsupportedRevision { revision } => (
            "unsupported SGLang P/D protocol revision: "@,
            revision,
        ),
        PdErrorView::Serialize { leg, source } => (
            "failed to serialize the "@ + leg + " request body: "@,
            source,
        ),
        PdErrorView::NotAnObject => (Seq::<char>::empty(), Seq::<char>::empty()),
    };
    if error is BodyTooLarge {
        law_decimal_reads_back(error->limit as nat);
    }
    let k = head.len() as int;
    let n = k + part.len();
    assert(error.text().subrange(k, n) =~= part);
}

/// The view of a leg keeps every part of it, and the room is read from the document
/// that the bytes hold.
pub proof fn law_pd_leg_views_keep_every_part(leg: PreparedLeg, document: Json)
    ensures
        leg@.authority == leg.authority@,
        leg@.path == leg.path@,
        leg@.body == bytes_of(leg.body),
        json_parse(leg@.body) == Ok::<Json, Seq<char>>(document) ==> room_in(leg@.body) == Ok::<
            Option<i64>,
            PdErrorView,
        >(room_of(document)),
        json_parse(leg@.body) matches Err(source) ==> room_in(leg@.body) == Err::<
            Option<i64>,
            PdErrorView,
        >(PdErrorView::MalformedJson { source }),
{
}

/// A number counts as drawn at random where the random source gave it.
proof fn law_draws_are_random(drawn: u64)
    ensures
        was_drawn(drawn) ==> call_ensures(random_draw, (), drawn),
{
}

} // verus!
