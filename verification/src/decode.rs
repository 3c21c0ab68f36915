//! Reading of the JSON responses the vault API returns.
//!
//! Each response is read by one trusted call into serde_json whose result
//! bears a name: a spec function of the body text alone. The contracts of
//! everything downstream — what a login stores, what a read hands back —
//! are stated over those names, so a decoder that dropped or invented a
//! field could not meet them.

use vstd::prelude::*;

use crate::CredentialView;

verus! {

/// What a successful login or renew response carries inside its `auth`
/// object: the issued token, its validity in seconds, and whether the lease
/// can be extended.
pub struct AuthInfo {
    /// The token for further requests under the new session.
    pub client_token: String,
    /// The duration in seconds for which the session is valid.
    pub lease_duration: u64,
    /// Whether the session's lease can be extended.
    pub renewable: bool,
}

/// The `auth` object of a login or renew response, as one mathematical
/// value.
pub struct AuthView {
    pub client_token: Seq<char>,
    pub lease_duration: u64,
    pub renewable: bool,
}

/// The `auth` object serde_json reads out of a login or renew response
/// body: `None` when the body is not JSON or its `client_token`,
/// `lease_duration` or `renewable` field is missing or of the wrong type.
/// The result depends on the body text alone.
pub uninterp spec fn spec_auth_response(body: Seq<char>) -> Option<AuthView>;

/// Reads the `auth` object of a login or renew response body.
///
/// Relies on serde_json to parse the body and select `auth.client_token`,
/// `auth.lease_duration` and `auth.renewable`; what that selection returns
/// is exactly what `spec_auth_response` names.
#[verifier::external_body]
pub fn decode_auth_response(body: &str) -> (r: Option<AuthInfo>)
    ensures
        r is Some <==> spec_auth_response(body@) is Some,
        r matches Some(info) ==> (spec_auth_response(body@) matches Some(v)
            && info.client_token@ == v.client_token && info.lease_duration == v.lease_duration
            && info.renewable == v.renewable),
{
    let parsed: serde_json::Value = serde_json::from_str(body).ok()?;
    let auth = parsed.get("auth")?;
    Some(
        AuthInfo {
            client_token: auth.get("client_token")?.as_str()?.to_owned(),
            lease_duration: auth.get("lease_duration")?.as_u64()?,
            renewable: auth.get("renewable")?.as_bool()?,
        },
    )
}

/// Some response body decodes to an `auth` object whose fields are exactly
/// the credential's token, validity duration and renewable flag: the
/// credential was issued wholesale by a decoded auth response.
pub open spec fn spec_issued_by_auth_response(c: CredentialView) -> bool {
    exists|body: Seq<char>|
        {
            &&& #[trigger] spec_auth_response(body) matches Some(v)
            &&& c.token == v.client_token
            &&& c.duration == v.lease_duration
            &&& c.renewable == v.renewable
        }
}

/// Some response body decodes to an `auth` object whose lease duration and
/// renewable flag are exactly the credential's validity window: the window
/// was refreshed from a decoded auth response.
pub open spec fn spec_window_from_auth_response(c: CredentialView) -> bool {
    exists|body: Seq<char>|
        {
            &&& #[trigger] spec_auth_response(body) matches Some(v)
            &&& c.duration == v.lease_duration
            &&& c.renewable == v.renewable
        }
}

} // verus!
