//! The approle auth backend: logs in with a role id and secret id pair and
//! keeps the issued session credential.

use vstd::prelude::*;

use crate::client::spec_sent_one;
use crate::client::Client;
use crate::decode::decode_auth_response;
use crate::decode::spec_auth_response;
use crate::decode::spec_issued_by_auth_response;
use crate::decode::spec_window_from_auth_response;
use crate::encode::json_array_string;
use crate::encode::json_bool;
use crate::encode::json_field;
use crate::encode::json_object;
use crate::encode::json_string;
use crate::encode::json_u64;
use crate::encode::push_opt_field;
use crate::encode::spec_dec;
use crate::encode::spec_json_bool;
use crate::encode::spec_json_field;
use crate::encode::spec_json_object;
use crate::encode::spec_json_string;
use crate::encode::spec_opt_field;
use crate::encode::spec_string_array;
use crate::errors::Error;
use crate::internals::token_container::TokenContainer;
use crate::internals::utils::now_timestamp;
use crate::transport::http_send;
use crate::transport::BackendRequestView;
use crate::transport::spec_url_ok;
use crate::transport::HttpResponse;
use crate::transport::url_join;
use crate::transport::url_parse;
use crate::Auth as AuthTrait;
use crate::CredentialView;

verus! {

/// The config for approle login.
#[derive(Clone)]
pub struct ApproleLogin {
    /// The role id for the role to use.
    pub role_id: String,
    /// The secret id for the role.
    pub secret_id: String,
}

/// The JSON body posted to the approle login endpoint: the role id and
/// secret id as one object.
pub open spec fn spec_login_body(role_id: Seq<char>, secret_id: Seq<char>) -> Seq<char> {
    spec_json_object(
        seq![
            spec_json_field("role_id"@, spec_json_string(role_id)),
            spec_json_field("secret_id"@, spec_json_string(secret_id)),
        ],
    )
}

/// Renders the JSON body for the approle login request.
pub fn login_body(approle: &ApproleLogin) -> (r: String)
    ensures
        r@ == spec_login_body(approle.role_id@, approle.secret_id@),
{
    let mut fields: Vec<String> = Vec::new();
    let role = json_string(approle.role_id.as_str());
    fields.push(json_field("role_id", role.as_str()));
    let secret = json_string(approle.secret_id.as_str());
    fields.push(json_field("secret_id", secret.as_str()));
    proof {
        assert(fields.deep_view() =~= seq![
            spec_json_field("role_id"@, spec_json_string(approle.role_id@)),
            spec_json_field("secret_id"@, spec_json_string(approle.secret_id@)),
        ]);
    }
    json_object(&fields)
}

/// The auth session for the approle backend, used by the vault client to
/// authenticate using approle.
pub struct Session {
    approle: ApproleLogin,
    token: TokenContainer,
    login_trips: Ghost<nat>,
    renew_trips: Ghost<nat>,
    auth_results: Ghost<Seq<bool>>,
    renew_results: Ghost<Seq<bool>>,
    transport_log: Ghost<Seq<BackendRequestView>>,
}

impl Session {
    /// The credential snapshots this session has published so far, in
    /// order.
    pub closed spec fn published(&self) -> Seq<CredentialView> {
        self.token.published()
    }

    /// The requests this session has handed to the transport so far, in
    /// order.
    pub closed spec fn sent(&self) -> Seq<BackendRequestView> {
        self.transport_log@
    }

    /// The configured role id.
    pub closed spec fn role_id(&self) -> Seq<char> {
        self.approle.role_id@
    }

    /// The configured secret id.
    pub closed spec fn secret_id(&self) -> Seq<char> {
        self.approle.secret_id@
    }

    /// The one request a login hands to the transport: the rendered login
    /// body posted to the approle login endpoint under the base URL, with
    /// no token header.
    pub open spec fn spec_login_request(&self, base: Seq<char>) -> BackendRequestView {
        BackendRequestView {
            base,
            endpoint: "v1/auth/approle/login"@,
            token: None,
            body: Some(spec_login_body(self.role_id(), self.secret_id())),
        }
    }

    /// The one request a renew hands to the transport: an empty post to the
    /// token renew endpoint under the base URL, carrying the current token.
    pub open spec fn spec_renew_request(&self, base: Seq<char>) -> BackendRequestView {
        BackendRequestView {
            base,
            endpoint: "v1/auth/token/renew-self"@,
            token: Some(self.credential().token),
            body: None,
        }
    }

    /// Applies one login response to the session: only a success status
    /// with a decodable auth object replaces the credential — wholesale, as
    /// exactly one published snapshot, issued at the clock reading taken
    /// during the call; every other response maps to its error and leaves
    /// the credential untouched.
    pub fn apply_login_response(&mut self, response: HttpResponse) -> (r: Result<(), Error>)
        ensures
            final(self).sent() == old(self).sent(),
            final(self).role_id() == old(self).role_id(),
            final(self).secret_id() == old(self).secret_id(),
            final(self).logins() == old(self).logins(),
            final(self).renews() == old(self).renews(),
            final(self).auth_outcomes() == old(self).auth_outcomes(),
            final(self).renew_outcomes() == old(self).renew_outcomes(),
            !(response.status == 200 || response.status == 204) ==> r == Err::<(), Error>(
                Error::spec_from_status(response.status),
            ) && final(self).credential() == old(self).credential() && final(self).published()
                == old(self).published(),
            (response.status == 200 || response.status == 204) && spec_auth_response(
                response.body@,
            ) is None ==> (r matches Err(e) && e is Other) && final(self).credential() == old(self).credential() && final(self).published() == old(self).published(),
            response.status == 200 || response.status == 204 ==> (spec_auth_response(
                response.body@,
            ) matches Some(v) ==> (r is Ok && final(self).credential().token == v.client_token
                && final(self).credential().duration == v.lease_duration
                && final(self).credential().renewable == v.renewable && final(self).published()
                == old(self).published().push(final(self).credential()))),
    {
        if response.status != 200 && response.status != 204 {
            return Err(Error::from_status_code(response.status));
        }
        let data = match decode_auth_response(response.body.as_str()) {
            None => return Err(Error::Other),
            Some(d) => d,
        };
        let current_time = now_timestamp();
        // The whole credential is replaced as one transaction: no reader can
        // see the new validity window with the old token or the reverse.
        self.token.write(data.client_token, current_time, data.lease_duration, data.renewable);
        Ok(())
    }

    /// Applies one renew response to the session: only a success status
    /// with a decodable auth object refreshes the validity window and
    /// renewable flag — as exactly one published snapshot that preserves
    /// the token value, since the renewed lease belongs to the token the
    /// call was made with; every other response maps to its error and
    /// leaves the credential untouched.
    pub fn apply_renew_response(&mut self, response: HttpResponse) -> (r: Result<(), Error>)
        ensures
            final(self).sent() == old(self).sent(),
            final(self).role_id() == old(self).role_id(),
            final(self).secret_id() == old(self).secret_id(),
            final(self).logins() == old(self).logins(),
            final(self).renews() == old(self).renews(),
            final(self).auth_outcomes() == old(self).auth_outcomes(),
            final(self).renew_outcomes() == old(self).renew_outcomes(),
            !(response.status == 200 || response.status == 204) ==> r == Err::<(), Error>(
                Error::spec_from_status(response.status),
            ) && final(self).credential() == old(self).credential() && final(self).published()
                == old(self).published(),
            (response.status == 200 || response.status == 204) && spec_auth_response(
                response.body@,
            ) is None ==> (r matches Err(e) && e is Other) && final(self).credential() == old(self).credential() && final(self).published() == old(self).published(),
            response.status == 200 || response.status == 204 ==> (spec_auth_response(
                response.body@,
            ) matches Some(v) ==> (r is Ok && final(self).credential().token == old(self).credential().token && final(self).credential().duration == v.lease_duration
                && final(self).credential().renewable == v.renewable && final(self).published()
                == old(self).published().push(final(self).credential()))),
    {
        if response.status != 200 && response.status != 204 {
            return Err(Error::from_status_code(response.status));
        }
        let data = match decode_auth_response(response.body.as_str()) {
            None => return Err(Error::Other),
            Some(d) => d,
        };
        let kept_token = match self.token.get_token() {
            None => String::new(),
            Some(t) => t,
        };
        let current_time = now_timestamp();
        // The renew endpoint extends the lease of the token it was called
        // with, so the token value is preserved while the validity window
        // and renewable flag are refreshed as one transaction.
        self.token.write(kept_token, current_time, data.lease_duration, data.renewable);
        Ok(())
    }

    /// One login round trip: builds the login body, posts it to the approle
    /// login endpoint under the base URL, and applies the response.
    fn login(&mut self, vault_url: &str) -> (r: Result<(), Error>)
        ensures
            final(self).role_id() == old(self).role_id(),
            final(self).secret_id() == old(self).secret_id(),
            final(self).sent() == old(self).sent() || final(self).sent() == old(self).sent().push(
                old(self).spec_login_request(vault_url@),
            ),
            r is Ok ==> final(self).sent() == old(self).sent().push(
                old(self).spec_login_request(vault_url@),
            ),
            final(self).auth_outcomes() == old(self).auth_outcomes(),
            final(self).renew_outcomes() == old(self).renew_outcomes(),
            old(self).logins() <= final(self).logins() <= old(self).logins() + 1,
            final(self).renews() == old(self).renews(),
            r is Err ==> final(self).credential() == old(self).credential(),
            r is Ok ==> final(self).logins() == old(self).logins() + 1
                && spec_issued_by_auth_response(final(self).credential()),
            !spec_url_ok(vault_url@) ==> (r matches Err(e) && e is ParseError),
    {
        let base = match url_parse(vault_url) {
            Err(e) => return Err(Error::ParseError(e)),
            Ok(u) => u,
        };
        let login_url = match url_join(&base, "v1/auth/approle/login") {
            Err(e) => return Err(Error::ParseError(e)),
            Ok(u) => u,
        };

        let body = login_body(&self.approle);
        let mut headers: Vec<(String, String)> = Vec::new();
        headers.push((String::from_str("Content-Type"), String::from_str("application/json")));

        self.login_trips = Ghost(self.login_trips@ + 1);
        self.transport_log = Ghost(
            self.transport_log@.push(
                BackendRequestView {
                    base: vault_url@,
                    endpoint: "v1/auth/approle/login"@,
                    token: None,
                    body: Some(body@),
                },
            ),
        );
        let response = match http_send("POST", &login_url, &headers, Some(body)) {
            Err(e) => return Err(Error::ReqwestError(e)),
            Ok(resp) => resp,
        };

        let ghost response_body = response.body@;
        let result = self.apply_login_response(response);
        proof {
            if result is Ok {
                assert(spec_auth_response(response_body) matches Some(v)
                    && self.credential().token == v.client_token
                    && self.credential().duration == v.lease_duration
                    && self.credential().renewable == v.renewable);
            }
        }
        result
    }

    /// One renew round trip: posts to the token renew endpoint under the
    /// base URL, carrying the current token, and applies the response.
    fn extend_lease(&mut self, vault_url: &str) -> (r: Result<(), Error>)
        ensures
            final(self).role_id() == old(self).role_id(),
            final(self).secret_id() == old(self).secret_id(),
            final(self).sent() == old(self).sent() || final(self).sent() == old(self).sent().push(
                old(self).spec_renew_request(vault_url@),
            ),
            r is Ok ==> final(self).sent() == old(self).sent().push(
                old(self).spec_renew_request(vault_url@),
            ),
            final(self).auth_outcomes() == old(self).auth_outcomes(),
            final(self).renew_outcomes() == old(self).renew_outcomes(),
            old(self).renews() <= final(self).renews() <= old(self).renews() + 1,
            final(self).logins() == old(self).logins(),
            r is Err ==> final(self).credential() == old(self).credential(),
            r is Ok ==> final(self).renews() == old(self).renews() + 1 && final(self).credential().token == old(self).credential().token
                && spec_window_from_auth_response(final(self).credential()),
            !spec_url_ok(vault_url@) ==> (r matches Err(e) && e is ParseError),
    {
        let base = match url_parse(vault_url) {
            Err(e) => return Err(Error::ParseError(e)),
            Ok(u) => u,
        };
        let renew_url = match url_join(&base, "v1/auth/token/renew-self") {
            Err(e) => return Err(Error::ParseError(e)),
            Ok(u) => u,
        };

        let current_token = match self.token.get_token() {
            None => String::new(),
            Some(t) => t,
        };
        let mut headers: Vec<(String, String)> = Vec::new();
        headers.push((String::from_str("X-Vault-Token"), current_token));

        self.renew_trips = Ghost(self.renew_trips@ + 1);
        self.transport_log = Ghost(
            self.transport_log@.push(
                BackendRequestView {
                    base: vault_url@,
                    endpoint: "v1/auth/token/renew-self"@,
                    token: Some(self.token@.token),
                    body: None,
                },
            ),
        );
        let response = match http_send("POST", &renew_url, &headers, None) {
            Err(e) => return Err(Error::ReqwestError(e)),
            Ok(resp) => resp,
        };

        let ghost response_body = response.body@;
        let result = self.apply_renew_response(response);
        proof {
            if result is Ok {
                assert(spec_auth_response(response_body) matches Some(v)
                    && self.credential().duration == v.lease_duration
                    && self.credential().renewable == v.renewable);
            }
        }
        result
    }
}

impl AuthTrait for Session {
    closed spec fn credential(&self) -> CredentialView {
        self.token@
    }

    closed spec fn logins(&self) -> nat {
        self.login_trips@
    }

    closed spec fn renews(&self) -> nat {
        self.renew_trips@
    }

    closed spec fn auth_outcomes(&self) -> Seq<bool> {
        self.auth_results@
    }

    closed spec fn renew_outcomes(&self) -> Seq<bool> {
        self.renew_results@
    }

    fn expired_at(&self, now: u64) -> (r: bool) {
        let start = self.token.get_start();
        let duration = self.token.get_duration();
        now >= start && now - start >= duration
    }

    fn is_expired(&self) -> bool {
        let now = now_timestamp();
        self.expired_at(now)
    }

    fn auth(&mut self, vault_url: &str) -> (r: Result<(), Error>)
        ensures
            r is Ok ==> final(self).logins() == old(self).logins() + 1,
            r is Ok ==> spec_issued_by_auth_response(final(self).credential()),
            !spec_url_ok(vault_url@) ==> (r matches Err(e) && e is ParseError),
            final(self).sent() == old(self).sent() || final(self).sent() == old(self).sent().push(
                old(self).spec_login_request(vault_url@),
            ),
            r is Ok ==> final(self).sent() == old(self).sent().push(
                old(self).spec_login_request(vault_url@),
            ),
    {
        let result = self.login(vault_url);
        self.auth_results = Ghost(self.auth_results@.push(result.is_ok()));
        result
    }

    fn get_token(&self) -> (r: String) {
        match self.token.get_token() {
            None => String::new(),
            Some(s) => s,
        }
    }

    fn is_renewable(&self) -> (r: bool) {
        self.token.get_renewable()
    }

    fn get_total_duration(&self) -> (r: u64) {
        self.token.get_duration()
    }

    fn renew(&mut self, vault_url: &str) -> (r: Result<(), Error>)
        ensures
            r is Ok ==> final(self).renews() == old(self).renews() + 1,
            r is Ok ==> spec_window_from_auth_response(final(self).credential()),
            !spec_url_ok(vault_url@) ==> (r matches Err(e) && e is ParseError),
            final(self).sent() == old(self).sent() || final(self).sent() == old(self).sent().push(
                old(self).spec_renew_request(vault_url@),
            ),
            r is Ok ==> final(self).sent() == old(self).sent().push(
                old(self).spec_renew_request(vault_url@),
            ),
    {
        let result = self.extend_lease(vault_url);
        self.renew_results = Ghost(self.renew_results@.push(result.is_ok()));
        result
    }
}

impl Session {
    /// Returns a new approle auth session that can be used as an
    /// authenticator for the vault client itself. No login has happened
    /// yet, so the session starts expired, with an empty token.
    pub fn new(role_id: String, secret_id: String) -> (r: Result<Session, Error>)
        ensures
            r matches Ok(s) && s.credential() == (CredentialView {
                token: Seq::<char>::empty(),
                start: 0,
                duration: 0,
                renewable: false,
            }) && s.logins() == 0 && s.renews() == 0 && s.auth_outcomes() == Seq::<
                bool,
            >::empty() && s.renew_outcomes() == Seq::<bool>::empty() && s.sent() == Seq::<
                BackendRequestView,
            >::empty() && s.role_id() == role_id@ && s.secret_id() == secret_id@,
    {
        let approle = ApproleLogin { role_id, secret_id };
        Ok(
            Session {
                approle,
                token: TokenContainer::new(),
                login_trips: Ghost(0),
                renew_trips: Ghost(0),
                auth_results: Ghost(Seq::empty()),
                renew_results: Ghost(Seq::empty()),
                transport_log: Ghost(Seq::empty()),
            },
        )
    }
}

/// The options that can be set on an approle role.
pub struct ApproleOptions {
    /// Whether the secret id is required to be present when logging in.
    pub bind_secret_id: Option<bool>,
    /// Blocks of IP addresses that can use this role.
    pub secret_id_bound_cidrs: Option<Vec<String>>,
    /// The number of times a single secret id can be used for login;
    /// zero means unlimited.
    pub secret_id_num_uses: Option<u64>,
    /// The time to live of a secret id, for example `30m`.
    pub secret_id_ttl: Option<String>,
    /// Whether the secret ids generated for this role are cluster local;
    /// cannot be changed after the role has been created.
    pub enable_local_secret_ids: Option<bool>,
    /// The time to live of the generated tokens, in seconds.
    pub token_ttl: Option<u64>,
    /// The maximum time to live of generated tokens, in seconds.
    pub token_max_ttl: Option<u64>,
    /// The policies assigned to the generated tokens.
    pub token_policies: Option<Vec<String>>,
    /// Blocks of IP addresses that can authenticate using this role, which
    /// the tokens are tied to as well.
    pub token_bound_cidrs: Option<Vec<String>>,
    /// An explicit maximum time to live after which every token expires,
    /// even if it was renewed before.
    pub token_explicit_max_ttl: Option<u64>,
    /// Whether the `default` policy should be left off generated tokens.
    pub token_no_default_policy: Option<bool>,
    /// The maximum number of uses per generated token, in its lifetime.
    pub token_num_uses: Option<u64>,
    /// The period, if any, of the tokens.
    pub token_period: Option<u64>,
    /// The type of token that should be generated.
    pub token_type: Option<String>,
}

/// The fields of the JSON body that creates or updates an approle role:
/// each option appears exactly when it is set, in a fixed order.
pub open spec fn spec_approle_options_fields(o: &ApproleOptions) -> Seq<Seq<char>> {
    spec_opt_field("bind_secret_id"@, spec_opt_bool(o.bind_secret_id))
        + spec_opt_field("secret_id_bound_cidrs"@, spec_opt_strings(o.secret_id_bound_cidrs.deep_view()))
        + spec_opt_field("secret_id_num_uses"@, spec_opt_u64(o.secret_id_num_uses))
        + spec_opt_field("secret_id_ttl"@, spec_opt_string(o.secret_id_ttl.deep_view()))
        + spec_opt_field("enable_local_secret_ids"@, spec_opt_bool(o.enable_local_secret_ids))
        + spec_opt_field("token_ttl"@, spec_opt_u64(o.token_ttl))
        + spec_opt_field("token_max_ttl"@, spec_opt_u64(o.token_max_ttl))
        + spec_opt_field("token_policies"@, spec_opt_strings(o.token_policies.deep_view()))
        + spec_opt_field("token_bound_cidrs"@, spec_opt_strings(o.token_bound_cidrs.deep_view()))
        + spec_opt_field("token_explicit_max_ttl"@, spec_opt_u64(o.token_explicit_max_ttl))
        + spec_opt_field("token_no_default_policy"@, spec_opt_bool(o.token_no_default_policy))
        + spec_opt_field("token_num_uses"@, spec_opt_u64(o.token_num_uses))
        + spec_opt_field("token_period"@, spec_opt_u64(o.token_period))
        + spec_opt_field("token_type"@, spec_opt_string(o.token_type.deep_view()))
}

/// An optional boolean, rendered.
pub open spec fn spec_opt_bool(v: Option<bool>) -> Option<Seq<char>> {
    match v {
        Some(b) => Some(spec_json_bool(b)),
        None => None,
    }
}

/// An optional number, rendered.
pub open spec fn spec_opt_u64(v: Option<u64>) -> Option<Seq<char>> {
    match v {
        Some(n) => Some(spec_dec(n as nat)),
        None => None,
    }
}

/// An optional string, rendered as a JSON string literal.
pub open spec fn spec_opt_string(v: Option<Seq<char>>) -> Option<Seq<char>> {
    match v {
        Some(s) => Some(spec_json_string(s)),
        None => None,
    }
}

/// An optional list of strings, rendered as a JSON array.
pub open spec fn spec_opt_strings(v: Option<Seq<Seq<char>>>) -> Option<Seq<char>> {
    match v {
        Some(items) => Some(spec_string_array(items)),
        None => None,
    }
}

/// Renders the JSON body that creates or updates an approle role.
#[verifier::rlimit(80)]
pub fn options_body(opts: &ApproleOptions) -> (r: String)
    ensures
        r@ == spec_json_object(spec_approle_options_fields(opts)),
{
    let mut fields: Vec<String> = Vec::new();
    assert(fields.deep_view() =~= Seq::<Seq<char>>::empty());
    push_opt_field(&mut fields, "bind_secret_id", match &opts.bind_secret_id {
        Some(b) => Some(json_bool(*b)),
        None => None,
    });
    push_opt_field(&mut fields, "secret_id_bound_cidrs", match &opts.secret_id_bound_cidrs {
        Some(v) => Some(json_array_string(v)),
        None => None,
    });
    push_opt_field(&mut fields, "secret_id_num_uses", match &opts.secret_id_num_uses {
        Some(n) => Some(json_u64(*n)),
        None => None,
    });
    push_opt_field(&mut fields, "secret_id_ttl", match &opts.secret_id_ttl {
        Some(s) => Some(json_string(s.as_str())),
        None => None,
    });
    push_opt_field(&mut fields, "enable_local_secret_ids", match &opts.enable_local_secret_ids {
        Some(b) => Some(json_bool(*b)),
        None => None,
    });
    push_opt_field(&mut fields, "token_ttl", match &opts.token_ttl {
        Some(n) => Some(json_u64(*n)),
        None => None,
    });
    push_opt_field(&mut fields, "token_max_ttl", match &opts.token_max_ttl {
        Some(n) => Some(json_u64(*n)),
        None => None,
    });
    push_opt_field(&mut fields, "token_policies", match &opts.token_policies {
        Some(v) => Some(json_array_string(v)),
        None => None,
    });
    push_opt_field(&mut fields, "token_bound_cidrs", match &opts.token_bound_cidrs {
        Some(v) => Some(json_array_string(v)),
        None => None,
    });
    push_opt_field(&mut fields, "token_explicit_max_ttl", match &opts.token_explicit_max_ttl {
        Some(n) => Some(json_u64(*n)),
        None => None,
    });
    push_opt_field(&mut fields, "token_no_default_policy", match &opts.token_no_default_policy {
        Some(b) => Some(json_bool(*b)),
        None => None,
    });
    push_opt_field(&mut fields, "token_num_uses", match &opts.token_num_uses {
        Some(n) => Some(json_u64(*n)),
        None => None,
    });
    push_opt_field(&mut fields, "token_period", match &opts.token_period {
        Some(n) => Some(json_u64(*n)),
        None => None,
    });
    push_opt_field(&mut fields, "token_type", match &opts.token_type {
        Some(s) => Some(json_string(s.as_str())),
        None => None,
    });
    proof {
        assert(fields.deep_view() =~= spec_approle_options_fields(opts));
    }
    json_object(&fields)
}

/// Creates or updates an approle role with the given options: one POST of
/// the rendered options to the role's endpoint.
pub fn create_update<T: AuthTrait>(client: &mut Client<T>, name: &str, opts: ApproleOptions) -> (r:
    Result<(), Error>)
    ensures
        final(client).wf() == old(client).wf(),
        final(client).policy() == old(client).policy(),
        final(client).backend().renews() == old(client).backend().renews(),
        old(client).backend().logins() <= final(client).backend().logins() <= old(
            client,
        ).backend().logins() + 1,
        final(client).requests() == old(client).requests() || spec_sent_one(
            old(client).requests(),
            final(client).requests(),
            "POST"@,
            "auth/approle/role/"@ + name@,
            final(client).backend().credential().token,
            Some(spec_json_object(spec_approle_options_fields(&opts))),
        ),
        r is Ok ==> spec_sent_one(
            old(client).requests(),
            final(client).requests(),
            "POST"@,
            "auth/approle/role/"@ + name@,
            final(client).backend().credential().token,
            Some(spec_json_object(spec_approle_options_fields(&opts))),
        ),
{
    let mut path = String::from_str("auth/approle/role/");
    path.append(name);
    let body = options_body(&opts);
    match client.vault_request("POST", path.as_str(), Some(body)) {
        Err(e) => Err(e),
        Ok(_) => Ok(()),
    }
}

} // verus!
