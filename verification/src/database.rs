//! Interactions with the database backend in vault: fetching short-lived
//! database credentials.

use vstd::prelude::*;

use crate::client::spec_sent_one;
use crate::client::Client;
use crate::errors::Error;
use crate::Auth;

verus! {

/// Database credentials returned by vault.
#[derive(Debug)]
pub struct DatabaseCreds {
    /// The username to use when logging in to the database.
    pub username: String,
    /// The password to use when logging in to the database.
    pub password: String,
    /// The duration in seconds for which these credentials are valid.
    pub duration: u64,
}

impl PartialEq for DatabaseCreds {
    fn eq(&self, other: &Self) -> (r: bool) {
        self.username == other.username && self.password == other.password && self.duration
            == other.duration
    }
}

impl vstd::std_specs::cmp::PartialEqSpecImpl for DatabaseCreds {
    open spec fn obeys_eq_spec() -> bool {
        true
    }

    open spec fn eq_spec(&self, other: &DatabaseCreds) -> bool {
        &&& self.username@ == other.username@
        &&& self.password@ == other.password@
        &&& self.duration == other.duration
    }
}

/// Loads database credentials from vault: one GET of the named role's
/// creds endpoint, whose response carries the username and password under
/// `data` and the lease duration beside it.
pub fn get_credentials<T: Auth>(client: &mut Client<T>, name: &str) -> (r: Result<
    DatabaseCreds,
    Error,
>)
    ensures
        final(client).wf() == old(client).wf(),
        final(client).policy() == old(client).policy(),
        final(client).backend().renews() == old(client).backend().renews(),
        old(client).backend().logins() <= final(client).backend().logins() <= old(
            client,
        ).backend().logins() + 1,
        final(client).requests() == old(client).requests() || spec_sent_one(
            old(client).requests(),
            final(client).requests(),
            "GET"@,
            "database/creds/"@ + name@,
            final(client).backend().credential().token,
            None,
        ),
        r is Ok ==> spec_sent_one(
            old(client).requests(),
            final(client).requests(),
            "GET"@,
            "database/creds/"@ + name@,
            final(client).backend().credential().token,
            None,
        ),
        r matches Ok(creds) ==> spec_decoded_credentials(creds),
{
    let mut path = String::from_str("database/creds/");
    path.append(name);
    let response = match client.vault_request("GET", path.as_str(), None) {
        Err(e) => return Err(e),
        Ok(resp) => resp,
    };
    match decode_credentials(response.body.as_str()) {
        None => Err(Error::Other),
        Some(creds) => {
            proof {
                assert(spec_credentials_response(response.body@) matches Some(v)
                    && creds.username@ == v.username && creds.password@ == v.password
                    && creds.duration == v.duration);
            }
            Ok(creds)
        },
    }
}

/// A database creds response, as one mathematical value: the username and
/// password under `data`, and the lease duration beside them.
pub struct DatabaseCredsView {
    pub username: Seq<char>,
    pub password: Seq<char>,
    pub duration: u64,
}

/// The credentials serde_json reads out of a database creds response body:
/// `None` when the body is not JSON or the `lease_duration`,
/// `data.username` or `data.password` field is missing or of the wrong
/// type. The result depends on the body text alone.
pub uninterp spec fn spec_credentials_response(body: Seq<char>) -> Option<DatabaseCredsView>;

/// Reads the credentials out of a database creds response body.
///
/// Relies on serde_json to parse the body and select `lease_duration`,
/// `data.username` and `data.password`; what that selection returns is
/// exactly what `spec_credentials_response` names.
#[verifier::external_body]
pub fn decode_credentials(body: &str) -> (r: Option<DatabaseCreds>)
    ensures
        r is Some <==> spec_credentials_response(body@) is Some,
        r matches Some(creds) ==> (spec_credentials_response(body@) matches Some(v)
            && creds.username@ == v.username && creds.password@ == v.password && creds.duration
            == v.duration),
{
    let parsed: serde_json::Value = serde_json::from_str(body).ok()?;
    let duration = parsed.get("lease_duration")?.as_u64()?;
    let data = parsed.get("data")?;
    Some(
        DatabaseCreds {
            username: data.get("username")?.as_str()?.to_owned(),
            password: data.get("password")?.as_str()?.to_owned(),
            duration,
        },
    )
}

/// Some response body decodes to credentials with exactly these fields.
pub open spec fn spec_decoded_credentials(creds: DatabaseCreds) -> bool {
    exists|body: Seq<char>|
        {
            &&& #[trigger] spec_credentials_response(body) matches Some(v)
            &&& creds.username@ == v.username
            &&& creds.password@ == v.password
            &&& creds.duration == v.duration
        }
}

} // verus!
