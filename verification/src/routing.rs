//! Which way a request goes: to the decode engine, or through the adapter.

use crate::error::{SidecarError, SidecarErrorView};
use crate::text::{has_char, text_of};
use axum::http::uri::Authority;
use vstd::prelude::*;

verus! {

/// The header that names the selected prefill worker.
pub const PREFILLER_HOST_PORT: &'static str = "x-prefiller-host-port";

#[verifier::external_type_specification]
#[verifier::external_body]
pub struct ExAuthority(axum::http::uri::Authority);

/// The text of an `axum::http::uri::Authority`.
pub uninterp spec fn authority_text(authority: axum::http::uri::Authority) -> Seq<char>;

/// Whether `axum::http::uri::Authority::try_from` reads an authority from a text.
pub uninterp spec fn is_authority(text: Seq<char>) -> bool;

/// The port that `axum::http::uri::Authority::port_u16` finds in the authority
/// with this text.
pub uninterp spec fn authority_port(text: Seq<char>) -> Option<u16>;

/// `axum::http::uri::Authority::try_from` on a text, its error dropped: an
/// authority with that very text.
#[verifier::external_body]
fn read_authority(text: &str) -> (authority: Option<Authority>)
    ensures
        authority is Some <==> is_authority(text@),
        authority is Some ==> authority_text(authority->Some_0) == text@,
{
    Authority::try_from(text).ok()
}

/// `axum::http::uri::Authority::port_u16`: the port behind the host, where there
/// is one.
pub assume_specification[ axum::http::uri::Authority::port_u16 ](authority: &Authority) -> (port:
    Option<u16>)
    ensures
        port == authority_port(authority_text(*authority)),
;

/// The port in a text that is an authority with one.
pub open spec fn port_in_text(text: Seq<char>) -> Option<u16> {
    if is_authority(text) {
        authority_port(text)
    } else {
        None
    }
}

/// Reads the port in a text that is an authority with one.
fn read_authority_port(text: &str) -> (port: Option<u16>)
    ensures
        port == port_in_text(text@),
{
    match read_authority(text) {
        Some(authority) => authority.port_u16(),
        None => None,
    }
}

/// The way of a request.
#[derive(Debug, Clone, PartialEq, Eq)]
pub enum Route {
    /// To the decode engine, as it is.
    Decode,
    /// Through the adapter, with this prefill worker selected.
    Adapter { endpoint: String },
}

/// What a [`Route`] holds: the selected prefill worker, where there is one.
pub open spec fn endpoint_of(route: Route) -> Option<Seq<char>> {
    match route {
        Route::Decode => None,
        Route::Adapter { endpoint } => Some(endpoint@),
    }
}

/// Whether a text names one prefill worker by host and port, the port being what
/// the authority gives.
pub open spec fn names_worker(text: Seq<char>, port: Option<u16>) -> bool {
    !text.contains(',') && !text.contains('@') && port is Some
}

/// The answer to a request whose routing metadata is unusable.
pub open spec fn metadata_answer() -> SidecarErrorView {
    SidecarErrorView {
        status: 502,
        code: "invalid_epp_metadata"@,
        message: "x-prefiller-host-port must name exactly one host and port"@,
    }
}

/// The selected prefill worker in the values of the header, of which those that
/// are no text are missing here.
pub open spec fn endpoint_in(values: Seq<Option<Seq<char>>>) -> Result<
    Option<Seq<char>>,
    SidecarErrorView,
> {
    if values.len() == 0 {
        Ok(None)
    } else if values.len() == 1 && values[0] is Some && names_worker(
        values[0]->Some_0,
        port_in_text(values[0]->Some_0),
    ) {
        Ok(values[0])
    } else {
        Err(metadata_answer())
    }
}

/// The texts of header values.
pub open spec fn values_of(values: Seq<Option<String>>) -> Seq<Option<Seq<char>>> {
    values.map_values(|value: Option<String>| text_of(value))
}

/// Checks the text of a prefill worker against the port of its authority.
pub fn accept_endpoint(text: &str, port: Option<u16>) -> (accepted: bool)
    ensures
        accepted == names_worker(text@, port),
{
    !has_char(text, ',') && !has_char(text, '@') && port.is_some()
}

/// Chooses the way of a request by the values of the header.
pub fn select_route(values: &Vec<Option<String>>) -> (outcome: Result<Route, SidecarError>)
    ensures
        match endpoint_in(values_of(values@)) {
            Ok(endpoint) => outcome is Ok && endpoint_of(outcome->Ok_0) == endpoint,
            Err(answer) => outcome is Err && outcome->Err_0@ == answer,
        },
{
    if values.len() == 0 {
        return Ok(Route::Decode);
    }
    if values.len() == 1 {
        assert(values_of(values@)[0] == text_of(values@[0]));
        match &values[0] {
            Some(text) => {
                if accept_endpoint(text.as_str(), read_authority_port(text.as_str())) {
                    return Ok(Route::Adapter { endpoint: text.clone() });
                }
            },
            None => {},
        }
    }
    Err(
        SidecarError::adapter(
            502,
            "invalid_epp_metadata",
            "x-prefiller-host-port must name exactly one host and port".to_string(),
        ),
    )
}

/// A request goes through the adapter exactly where the header has one value that
/// names one worker by host and port, and then with that very text. It goes to the
/// decode engine exactly where there is no value. Two values are never taken for one.
pub proof fn law_one_worker_selects_the_adapter(
    values: Seq<Option<Seq<char>>>,
    endpoint: Seq<char>,
)
    ensures
        endpoint_in(values) == Ok::<Option<Seq<char>>, SidecarErrorView>(None) <==> values.len()
            == 0,
        endpoint_in(values) == Ok::<Option<Seq<char>>, SidecarErrorView>(Some(endpoint)) <==> {
            &&& values == seq![Some(endpoint)]
            &&& is_authority(endpoint)
            &&& authority_port(endpoint) is Some
            &&& forall|i: int|
                0 <= i < endpoint.len() ==> #[trigger] endpoint[i] != ',' && endpoint[i] != '@'
        },
        endpoint_in(values) is Err ==> endpoint_in(values)->Err_0.status == 502
            && endpoint_in(values)->Err_0.code == "invalid_epp_metadata"@,
{
    if endpoint_in(values) == Ok::<Option<Seq<char>>, SidecarErrorView>(Some(endpoint)) {
        assert(values =~= seq![Some(endpoint)]);
        assert forall|i: int| 0 <= i < endpoint.len() implies #[trigger] endpoint[i] != ','
            && endpoint[i] != '@' by {
            assert(endpoint.contains(endpoint[i]));
        }
    }
}

} // verus!
