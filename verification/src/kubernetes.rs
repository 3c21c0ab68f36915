//! The kubernetes auth backend: logs in with a role and a service-account
//! JWT and keeps the issued session credential.

use vstd::prelude::*;

use crate::decode::decode_auth_response;
use crate::decode::spec_auth_response;
use crate::decode::spec_issued_by_auth_response;
use crate::decode::spec_window_from_auth_response;
use crate::encode::json_field;
use crate::encode::json_object;
use crate::encode::json_string;
use crate::encode::spec_json_field;
use crate::encode::spec_json_object;
use crate::encode::spec_json_string;
use crate::errors::Error;
use crate::internals::token_container::TokenContainer;
use crate::internals::utils::now_timestamp;
use crate::transport::http_send;
use crate::transport::BackendRequestView;
use crate::transport::spec_url_ok;
use crate::transport::HttpResponse;
use crate::transport::url_join;
use crate::transport::url_parse;
use crate::Auth as AuthTrait;
use crate::CredentialView;

verus! {

/// The config for kubernetes login.
#[derive(Clone)]
pub struct KubernetesLogin {
    /// The role to log in as.
    pub role: String,
    /// The JWT token to use for authentication.
    pub jwt: String,
}

/// The JSON body posted to the kubernetes login endpoint: the role and the
/// JWT as one object.
pub open spec fn spec_login_body(role: Seq<char>, jwt: Seq<char>) -> Seq<char> {
    spec_json_object(
        seq![
            spec_json_field("role"@, spec_json_string(role)),
            spec_json_field("jwt"@, spec_json_string(jwt)),
        ],
    )
}

/// Renders the JSON body for the kubernetes login request.
pub fn login_body(kubernetes: &KubernetesLogin) -> (r: String)
    ensures
        r@ == spec_login_body(kubernetes.role@, kubernetes.jwt@),
{
    let mut fields: Vec<String> = Vec::new();
    let role = json_string(kubernetes.role.as_str());
    fields.push(json_field("role", role.as_str()));
    let jwt = json_string(kubernetes.jwt.as_str());
    fields.push(json_field("jwt", jwt.as_str()));
    proof {
        assert(fields.deep_view() =~= seq![
            spec_json_field("role"@, spec_json_string(kubernetes.role@)),
            spec_json_field("jwt"@, spec_json_string(kubernetes.jwt@)),
        ]);
    }
    json_object(&fields)
}

/// The auth session for the kubernetes backend, used by the vault client to
/// authenticate requests.
pub struct Session {
    kubernetes: KubernetesLogin,
    token: TokenContainer,
    login_trips: Ghost<nat>,
    renew_trips: Ghost<nat>,
    auth_results: Ghost<Seq<bool>>,
    renew_results: Ghost<Seq<bool>>,
    transport_log: Ghost<Seq<BackendRequestView>>,
}

impl Session {
    /// The credential snapshots this session has published so far, in
    /// order.
    pub closed spec fn published(&self) -> Seq<CredentialView> {
        self.token.published()
    }

    /// The requests this session has handed to the transport so far, in
    /// order.
    pub closed spec fn sent(&self) -> Seq<BackendRequestView> {
        self.transport_log@
    }

    /// The configured role.
    pub closed spec fn role(&self) -> Seq<char> {
        self.kubernetes.role@
    }

    /// The configured JWT.
    pub closed spec fn jwt(&self) -> Seq<char> {
        self.kubernetes.jwt@
    }

    /// The one request a login hands to the transport: the rendered login
    /// body posted to the kubernetes login endpoint under the base URL, with
    /// no token header.
    pub open spec fn spec_login_request(&self, base: Seq<char>) -> BackendRequestView {
        BackendRequestView {
            base,
            endpoint: "v1/auth/kubernetes/login"@,
            token: None,
            body: Some(spec_login_body(self.role(), self.jwt())),
        }
    }

    /// The one request a renew hands to the transport: an empty post to the
    /// token renew endpoint under the base URL, carrying the current token.
    pub open spec fn spec_renew_request(&self, base: Seq<char>) -> BackendRequestView {
        BackendRequestView {
            base,
            endpoint: "v1/auth/token/renew-self"@,
            token: Some(self.credential().token),
            body: None,
        }
    }

    /// Applies one login response to the session: only a success status
    /// with a decodable auth object replaces the credential — wholesale, as
    /// exactly one published snapshot, issued at the clock reading taken
    /// during the call; every other response maps to its error and leaves
    /// the credential untouched.
    pub fn apply_login_response(&mut self, response: HttpResponse) -> (r: Result<(), Error>)
        ensures
            final(self).sent() == old(self).sent(),
            final(self).role() == old(self).role(),
            final(self).jwt() == old(self).jwt(),
            final(self).logins() == old(self).logins(),
            final(self).renews() == old(self).renews(),
            final(self).auth_outcomes() == old(self).auth_outcomes(),
            final(self).renew_outcomes() == old(self).renew_outcomes(),
            !(response.status == 200 || response.status == 204) ==> r == Err::<(), Error>(
                Error::spec_from_status(response.status),
            ) && final(self).credential() == old(self).credential() && final(self).published()
                == old(self).published(),
            (response.status == 200 || response.status == 204) && spec_auth_response(
                response.body@,
            ) is None ==> (r matches Err(e) && e is Other) && final(self).credential() == old(self).credential() && final(self).published() == old(self).published(),
            response.status == 200 || response.status == 204 ==> (spec_auth_response(
                response.body@,
            ) matches Some(v) ==> (r is Ok && final(self).credential().token == v.client_token
                && final(self).credential().duration == v.lease_duration
                && final(self).credential().renewable == v.renewable && final(self).published()
                == old(self).published().push(final(self).credential()))),
    {
        if response.status != 200 && response.status != 204 {
            return Err(Error::from_status_code(response.status));
        }
        let data = match decode_auth_response(response.body.as_str()) {
            None => return Err(Error::Other),
            Some(d) => d,
        };
        let current_time = now_timestamp();
        // The whole credential is replaced as one transaction: no reader can
        // see the new validity window with the old token or the reverse.
        self.token.write(data.client_token, current_time, data.lease_duration, data.renewable);
        Ok(())
    }

    /// Applies one renew response to the session: only a success status
    /// with a decodable auth object refreshes the validity window and
    /// renewable flag — as exactly one published snapshot that preserves
    /// the token value, since the renewed lease belongs to the token the
    /// call was made with; every other response maps to its error and
    /// leaves the credential untouched.
    pub fn apply_renew_response(&mut self, response: HttpResponse) -> (r: Result<(), Error>)
        ensures
            final(self).sent() == old(self).sent(),
            final(self).role() == old(self).role(),
            final(self).jwt() == old(self).jwt(),
            final(self).logins() == old(self).logins(),
            final(self).renews() == old(self).renews(),
            final(self).auth_outcomes() == old(self).auth_outcomes(),
            final(self).renew_outcomes() == old(self).renew_outcomes(),
            !(response.status == 200 || response.status == 204) ==> r == Err::<(), Error>(
                Error::spec_from_status(response.status),
            ) && final(self).credential() == old(self).credential() && final(self).published()
                == old(self).published(),
            (response.status == 200 || response.status == 204) && spec_auth_response(
                response.body@,
            ) is None ==> (r matches Err(e) && e is Other) && final(self).credential() == old(self).credential() && final(self).published() == old(self).published(),
            response.status == 200 || response.status == 204 ==> (spec_auth_response(
                response.body@,
            ) matches Some(v) ==> (r is Ok && final(self).credential().token == old(self).credential().token && final(self).credential().duration == v.lease_duration
                && final(self).credential().renewable == v.renewable && final(self).published()
                == old(self).published().push(final(self).credential()))),
    {
        if response.status != 200 && response.status != 204 {
            return Err(Error::from_status_code(response.status));
        }
        let data = match decode_auth_response(response.body.as_str()) {
            None => return Err(Error::Other),
            Some(d) => d,
        };
        let kept_token = match self.token.get_token() {
            None => String::new(),
            Some(t) => t,
        };
        let current_time = now_timestamp();
        // The renew endpoint extends the lease of the token it was called
        // with, so the token value is preserved while the validity window
        // and renewable flag are refreshed as one transaction.
        self.token.write(kept_token, current_time, data.lease_duration, data.renewable);
        Ok(())
    }

    /// One login round trip: builds the login body, posts it to the kubernetes
    /// login endpoint under the base URL, and applies the response.
    fn login(&mut self, vault_url: &str) -> (r: Result<(), Error>)
        ensures
            final(self).role() == old(self).role(),
            final(self).jwt() == old(self).jwt(),
            final(self).sent() == old(self).sent() || final(self).sent() == old(self).sent().push(
                old(self).spec_login_request(vault_url@),
            ),
            r is Ok ==> final(self).sent() == old(self).sent().push(
                old(self).spec_login_request(vault_url@),
            ),
            final(self).auth_outcomes() == old(self).auth_outcomes(),
            final(self).renew_outcomes() == old(self).renew_outcomes(),
            old(self).logins() <= final(self).logins() <= old(self).logins() + 1,
            final(self).renews() == old(self).renews(),
            r is Err ==> final(self).credential() == old(self).credential(),
            r is Ok ==> final(self).logins() == old(self).logins() + 1
                && spec_issued_by_auth_response(final(self).credential()),
            !spec_url_ok(vault_url@) ==> (r matches Err(e) && e is ParseError),
    {
        let base = match url_parse(vault_url) {
            Err(e) => return Err(Error::ParseError(e)),
            Ok(u) => u,
        };
        let login_url = match url_join(&base, "v1/auth/kubernetes/login") {
            Err(e) => return Err(Error::ParseError(e)),
            Ok(u) => u,
        };

        let body = login_body(&self.kubernetes);
        let mut headers: Vec<(String, String)> = Vec::new();
        headers.push((String::from_str("Content-Type"), String::from_str("application/json")));

        self.login_trips = Ghost(self.login_trips@ + 1);
        self.transport_log = Ghost(
            self.transport_log@.push(
                BackendRequestView {
                    base: vault_url@,
                    endpoint: "v1/auth/kubernetes/login"@,
                    token: None,
                    body: Some(body@),
                },
            ),
        );
        let response = match http_send("POST", &login_url, &headers, Some(body)) {
            Err(e) => return Err(Error::ReqwestError(e)),
            Ok(resp) => resp,
        };

        let ghost response_body = response.body@;
        let result = self.apply_login_response(response);
        proof {
            if result is Ok {
                assert(spec_auth_response(response_body) matches Some(v)
                    && self.credential().token == v.client_token
                    && self.credential().duration == v.lease_duration
                    && self.credential().renewable == v.renewable);
            }
        }
        result
    }

    /// One renew round trip: posts to the token renew endpoint under the
    /// base URL, carrying the current token, and applies the response.
    fn extend_lease(&mut self, vault_url: &str) -> (r: Result<(), Error>)
        ensures
            final(self).role() == old(self).role(),
            final(self).jwt() == old(self).jwt(),
            final(self).sent() == old(self).sent() || final(self).sent() == old(self).sent().push(
                old(self).spec_renew_request(vault_url@),
            ),
            r is Ok ==> final(self).sent() == old(self).sent().push(
                old(self).spec_renew_request(vault_url@),
            ),
            final(self).auth_outcomes() == old(self).auth_outcomes(),
            final(self).renew_outcomes() == old(self).renew_outcomes(),
            old(self).renews() <= final(self).renews() <= old(self).renews() + 1,
            final(self).logins() == old(self).logins(),
            r is Err ==> final(self).credential() == old(self).credential(),
            r is Ok ==> final(self).renews() == old(self).renews() + 1 && final(self).credential().token == old(self).credential().token
                && spec_window_from_auth_response(final(self).credential()),
            !spec_url_ok(vault_url@) ==> (r matches Err(e) && e is ParseError),
    {
        let base = match url_parse(vault_url) {
            Err(e) => return Err(Error::ParseError(e)),
            Ok(u) => u,
        };
        let renew_url = match url_join(&base, "v1/auth/token/renew-self") {
            Err(e) => return Err(Error::ParseError(e)),
            Ok(u) => u,
        };

        let current_token = match self.token.get_token() {
            None => String::new(),
            Some(t) => t,
        };
        let mut headers: Vec<(String, String)> = Vec::new();
        headers.push((String::from_str("X-Vault-Token"), current_token));

        self.renew_trips = Ghost(self.renew_trips@ + 1);
        self.transport_log = Ghost(
            self.transport_log@.push(
                BackendRequestView {
                    base: vault_url@,
                    endpoint: "v1/auth/token/renew-self"@,
                    token: Some(self.token@.token),
                    body: None,
                },
            ),
        );
        let response = match http_send("POST", &renew_url, &headers, None) {
            Err(e) => return Err(Error::ReqwestError(e)),
            Ok(resp) => resp,
        };

        let ghost response_body = response.body@;
        let result = self.apply_renew_response(response);
        proof {
            if result is Ok {
                assert(spec_auth_response(response_body) matches Some(v)
                    && self.credential().duration == v.lease_duration
                    && self.credential().renewable == v.renewable);
            }
        }
        result
    }
}

impl AuthTrait for Session {
    closed spec fn credential(&self) -> CredentialView {
        self.token@
    }

    closed spec fn logins(&self) -> nat {
        self.login_trips@
    }

    closed spec fn renews(&self) -> nat {
        self.renew_trips@
    }

    closed spec fn auth_outcomes(&self) -> Seq<bool> {
        self.auth_results@
    }

    closed spec fn renew_outcomes(&self) -> Seq<bool> {
        self.renew_results@
    }

    fn expired_at(&self, now: u64) -> (r: bool) {
        let start = self.token.get_start();
        let duration = self.token.get_duration();
        now >= start && now - start >= duration
    }

    fn is_expired(&self) -> bool {
        let now = now_timestamp();
        self.expired_at(now)
    }

    fn auth(&mut self, vault_url: &str) -> (r: Result<(), Error>)
        ensures
            r is Ok ==> final(self).logins() == old(self).logins() + 1,
            r is Ok ==> spec_issued_by_auth_response(final(self).credential()),
            !spec_url_ok(vault_url@) ==> (r matches Err(e) && e is ParseError),
            final(self).sent() == old(self).sent() || final(self).sent() == old(self).sent().push(
                old(self).spec_login_request(vault_url@),
            ),
            r is Ok ==> final(self).sent() == old(self).sent().push(
                old(self).spec_login_request(vault_url@),
            ),
    {
        let result = self.login(vault_url);
        self.auth_results = Ghost(self.auth_results@.push(result.is_ok()));
        result
    }

    fn get_token(&self) -> (r: String) {
        match self.token.get_token() {
            None => String::new(),
            Some(s) => s,
        }
    }

    fn is_renewable(&self) -> (r: bool) {
        self.token.get_renewable()
    }

    fn get_total_duration(&self) -> (r: u64) {
        self.token.get_duration()
    }

    fn renew(&mut self, vault_url: &str) -> (r: Result<(), Error>)
        ensures
            r is Ok ==> final(self).renews() == old(self).renews() + 1,
            r is Ok ==> spec_window_from_auth_response(final(self).credential()),
            !spec_url_ok(vault_url@) ==> (r matches Err(e) && e is ParseError),
            final(self).sent() == old(self).sent() || final(self).sent() == old(self).sent().push(
                old(self).spec_renew_request(vault_url@),
            ),
            r is Ok ==> final(self).sent() == old(self).sent().push(
                old(self).spec_renew_request(vault_url@),
            ),
    {
        let result = self.extend_lease(vault_url);
        self.renew_results = Ghost(self.renew_results@.push(result.is_ok()));
        result
    }
}

impl Session {
    /// Used to obtain a new auth session for the kubernetes auth backend.
    /// No login has happened yet, so the session starts expired, with an
    /// empty token.
    pub fn new(role: String, jwt: String) -> (r: Result<Session, Error>)
        ensures
            r matches Ok(s) && s.credential() == (CredentialView {
                token: Seq::<char>::empty(),
                start: 0,
                duration: 0,
                renewable: false,
            }) && s.logins() == 0 && s.renews() == 0 && s.auth_outcomes() == Seq::<
                bool,
            >::empty() && s.renew_outcomes() == Seq::<bool>::empty() && s.sent() == Seq::<
                BackendRequestView,
            >::empty() && s.role() == role@ && s.jwt() == jwt@,
    {
        Ok(
            Session {
                kubernetes: KubernetesLogin { role, jwt },
                token: TokenContainer::new(),
                login_trips: Ghost(0),
                renew_trips: Ghost(0),
                auth_results: Ghost(Seq::empty()),
                renew_results: Ghost(Seq::empty()),
                transport_log: Ghost(Seq::empty()),
            },
        )
    }
}

} // verus!
