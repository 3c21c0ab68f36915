//! The vault client: it owns one auth backend, decides per request whether
//! the session may be used, re-establishes it when the policy allows, and
//! dispatches authenticated requests.

use vstd::prelude::*;

use crate::errors::Error;
use crate::errors::RenewError;
use crate::internals::utils::now_timestamp;
use crate::decode::spec_issued_by_auth_response;
use crate::decode::spec_window_from_auth_response;
use crate::transport::http_send;
use crate::transport::spec_url_ok;
use crate::transport::url_join;
use crate::transport::url_parse;
use crate::transport::HttpResponse;
use crate::Auth;
use crate::Config;
use crate::RenewPolicy;
use crate::spec_expired;

verus! {

/// One authenticated request as it was handed to the transport: the method,
/// the path relative to the vault API root, the token it carried, and its
/// body.
pub struct RequestView {
    pub method: Seq<char>,
    pub path: Seq<char>,
    pub token: Seq<char>,
    pub body: Option<Seq<char>>,
}

/// Whether `post` extends `pre` by exactly one request with the given
/// method, path, token and body.
pub open spec fn spec_sent_one(
    pre: Seq<RequestView>,
    post: Seq<RequestView>,
    method: Seq<char>,
    path: Seq<char>,
    token: Seq<char>,
    body: Option<Seq<char>>,
) -> bool {
    post == pre.push(RequestView { method, path, token, body })
}

/// The number of seconds the renewal loop waits before renewing: the share
/// of the credential's total validity that may pass while the configured
/// percentage still remains.
pub open spec fn spec_renew_wait(total: u64, threshold: u8) -> int {
    total * (100 - threshold) / 100
}

/// The number of seconds the renewal loop waits before renewing a
/// credential with the given total validity: the wait leaves `threshold`
/// percent of the validity still remaining when the renew happens.
pub fn renew_wait_seconds(total: u64, threshold: u8) -> (r: u64)
    requires
        threshold <= 100,
    ensures
        r == spec_renew_wait(total, threshold),
{
    let keep: u8 = 100 - threshold;
    proof {
        assert((total as int) * (keep as int) <= (u64::MAX as int) * 100) by (nonlinear_arith)
            requires
                total <= u64::MAX,
                keep <= 100,
        ;
    }
    let scaled: u128 = (total as u128) * (keep as u128);
    proof {
        assert(scaled / 100 <= total as u128) by (nonlinear_arith)
            requires
                scaled == (total as u128) * (keep as u128),
                keep <= 100,
        ;
    }
    (scaled / 100) as u64
}

/// The headers every managed request carries: the current token and the
/// marker that this is a managed vault request; a JSON body adds its
/// content type.
pub fn request_headers(token: &str, with_body: bool) -> (r: Vec<(String, String)>)
    ensures
        r@.len() == (if with_body { 3int } else { 2int }),
        r@[0].0@ == "X-Vault-Token"@ && r@[0].1@ == token@,
        r@[1].0@ == "X-Vault-Request"@ && r@[1].1@ == "true"@,
        with_body ==> r@[2].0@ == "Content-Type"@ && r@[2].1@ == "application/json"@,
{
    let mut headers: Vec<(String, String)> = Vec::new();
    headers.push((String::from_str("X-Vault-Token"), String::from_str(token)));
    headers.push((String::from_str("X-Vault-Request"), String::from_str("true")));
    if with_body {
        headers.push((String::from_str("Content-Type"), String::from_str("application/json")));
    }
    headers
}

/// Joins the path onto the base URL under the vault API root, without
/// touching the transport: an unparseable base URL or a failed join is a
/// `ParseError`, and nothing is sent.
fn resolve_request_url(base_url: &str, path: &str) -> (r: Result<url::Url, Error>)
    ensures
        r matches Err(e) ==> e is ParseError,
        !spec_url_ok(base_url@) ==> r is Err,
        r is Ok ==> spec_url_ok(base_url@),
{
    let base = match url_parse(base_url) {
        Err(e) => return Err(Error::ParseError(e)),
        Ok(u) => u,
    };
    let api_root = match url_join(&base, "v1/") {
        Err(e) => return Err(Error::ParseError(e)),
        Ok(u) => u,
    };
    match url_join(&api_root, path) {
        Err(e) => Err(Error::ParseError(e)),
        Ok(u) => Ok(u),
    }
}

/// Sends one resolved request, attaching the token and the managed-request
/// marker per `request_headers`, and hands the response back only when its
/// status reports success, mapping every other status to its error as
/// `Error::from_status_code` states.
fn send_resolved(full_url: &url::Url, token: &str, method: &str, body: Option<String>) -> (r:
    Result<HttpResponse, Error>)
    ensures
        r matches Ok(resp) ==> resp.status == 200 || resp.status == 204,
        r matches Err(e) ==> !(e is SessionExpired) && !(e is ParseError),
{
    let headers = request_headers(token, body.is_some());
    let response = match http_send(method, full_url, &headers, body) {
        Err(e) => return Err(Error::ReqwestError(e)),
        Ok(resp) => resp,
    };

    if response.status == 200 || response.status == 204 {
        Ok(response)
    } else {
        Err(Error::from_status_code(response.status))
    }
}

/// The dispatch half of a managed request, which never touches the
/// session: resolves the URL, sends, and maps the status.
pub(crate) fn dispatch_request(
    base_url: &str,
    token: &str,
    method: &str,
    path: &str,
    body: Option<String>,
) -> (r: Result<HttpResponse, Error>)
    ensures
        r matches Ok(resp) ==> resp.status == 200 || resp.status == 204,
        r matches Err(e) ==> !(e is SessionExpired),
        !spec_url_ok(base_url@) ==> (r matches Err(e) && e is ParseError),
        r is Ok ==> spec_url_ok(base_url@),
{
    let full_url = match resolve_request_url(base_url, path) {
        Err(e) => return Err(e),
        Ok(u) => u,
    };
    send_resolved(&full_url, token, method, body)
}

/// The client represents a single vault connection and session that can be
/// used for further requests to vault.
///
/// Writes to the session go through `&mut self`, so one writer at a time is
/// enforced by ownership; to share a client across threads, wrap it in
/// [`crate::SharedClient`], which serializes only the slow path.
pub struct Client<T: Auth> {
    config: Config,
    auth: T,
    requests: Ghost<Seq<RequestView>>,
}

impl<T: Auth> Client<T> {
    /// The auth backend this client owns.
    pub closed spec fn backend(&self) -> T {
        self.auth
    }

    /// The configured renew policy.
    pub closed spec fn policy(&self) -> RenewPolicy {
        self.config.renew_policy
    }

    /// The configured vault base URL.
    pub closed spec fn base_url(&self) -> Seq<char> {
        self.config.vault_url@
    }

    /// The authenticated requests handed to the transport so far, oldest
    /// first. Login and renew round trips are counted by the backend
    /// instead.
    pub closed spec fn requests(&self) -> Seq<RequestView> {
        self.requests@
    }

    /// A client is well formed when its configuration is.
    pub closed spec fn wf(&self) -> bool {
        self.config.wf()
    }

    /// Obtains a new vault session with the given config and auth settings:
    /// one login is performed, and only a client whose login succeeded is
    /// handed out.
    pub fn new(conf: Config, auth_opts: T) -> (r: Result<Client<T>, Error>)
        requires
            conf.wf(),
        ensures
            r matches Ok(c) ==> c.wf() && c.policy() == conf.renew_policy && c.base_url()
                == conf.vault_url@ && c.requests() == Seq::<RequestView>::empty()
                && c.backend().logins() <= auth_opts.logins() + 1 && c.backend().renews()
                == auth_opts.renews() && c.backend().auth_outcomes()
                == auth_opts.auth_outcomes().push(true) && c.backend().renew_outcomes()
                == auth_opts.renew_outcomes() && (c.backend().credential()
                == auth_opts.credential() || spec_issued_by_auth_response(
                c.backend().credential(),
            )),
    {
        let mut auth_opts = auth_opts;
        match auth_opts.auth(conf.vault_url.as_str()) {
            Err(e) => Err(e),
            Ok(()) => Ok(
                Client { config: conf, auth: auth_opts, requests: Ghost(Seq::empty()) },
            ),
        }
    }

    /// A simple method to get the underlying session token for the current
    /// vault session.
    pub fn get_token(&self) -> (r: String)
        ensures
            r@ == self.backend().credential().token,
    {
        self.auth.get_token()
    }

    /// Checks whether the session is still valid as of time `now`, and if
    /// not recovers it as the policy directs.
    ///
    /// A session that is not expired is used as is: no round trip of any
    /// kind is made, which is what makes one recovery per expiry enough for
    /// any number of callers. An expired session is re-established by one
    /// login under the `Reauth` policy, and reported as `SessionExpired`
    /// without any round trip under the other policies.
    pub fn check_session_at(&mut self, now: u64) -> (r: Result<(), Error>)
        ensures
            final(self).wf() == old(self).wf(),
            final(self).policy() == old(self).policy(),
            final(self).base_url() == old(self).base_url(),
            final(self).requests() == old(self).requests(),
            final(self).backend().renews() == old(self).backend().renews(),
            final(self).backend().renew_outcomes() == old(self).backend().renew_outcomes(),
            !spec_expired(old(self).backend().credential(), now) ==> r is Ok && final(self).backend() == old(self).backend(),
            spec_expired(old(self).backend().credential(), now) && !(old(self).policy()
                is Reauth) ==> (r matches Err(e) && e is SessionExpired && final(self).backend()
                == old(self).backend()),
            spec_expired(old(self).backend().credential(), now) && old(self).policy()
                is Reauth ==> old(self).backend().logins() <= final(self).backend().logins()
                <= old(self).backend().logins() + 1 && final(self).backend().auth_outcomes()
                == old(self).backend().auth_outcomes().push(r is Ok),
            r is Ok ==> final(self).backend().credential() == old(self).backend().credential()
                || spec_issued_by_auth_response(final(self).backend().credential()),
            r is Err ==> final(self).backend().credential() == old(self).backend().credential(),
    {
        if !self.auth.expired_at(now) {
            return Ok(());
        }
        match self.config.renew_policy {
            RenewPolicy::Reauth => self.auth.auth(self.config.vault_url.as_str()),
            RenewPolicy::Nothing | RenewPolicy::Renew(_) => Err(Error::SessionExpired),
        }
    }

    /// Checks whether the session is still valid right now, and if not
    /// recovers it as the policy directs; `check_session_at` carries the
    /// exact contract.
    pub fn check_session(&mut self) -> (r: Result<(), Error>)
        ensures
            final(self).wf() == old(self).wf(),
            final(self).policy() == old(self).policy(),
            final(self).base_url() == old(self).base_url(),
            final(self).requests() == old(self).requests(),
            final(self).backend().renews() == old(self).backend().renews(),
            final(self).backend().renew_outcomes() == old(self).backend().renew_outcomes(),
            old(self).backend().logins() <= final(self).backend().logins() <= old(self).backend().logins() + 1,
            final(self).backend().auth_outcomes() == old(self).backend().auth_outcomes() || final(self).backend().auth_outcomes() == old(self).backend().auth_outcomes().push(r is Ok),
            !(old(self).policy() is Reauth) ==> final(self).backend().logins() == old(self).backend().logins(),
            r is Ok ==> final(self).backend().credential() == old(self).backend().credential()
                || spec_issued_by_auth_response(final(self).backend().credential()),
            r is Err ==> final(self).backend().credential() == old(self).backend().credential(),
    {
        let now = now_timestamp();
        self.check_session_at(now)
    }

    /// A general way to make authenticated requests to vault with the
    /// current session, for mounts not directly covered elsewhere.
    ///
    /// The session is checked (and recovered, as the policy directs) first;
    /// the request then carries the current token and the managed-request
    /// marker, per `request_headers`. A response is handed back only when
    /// its status reports success, and every other status maps to its error
    /// as `Error::from_status_code` states.
    pub fn vault_request(&mut self, method: &str, path: &str, body: Option<String>) -> (r: Result<
        HttpResponse,
        Error,
    >)
        ensures
            final(self).wf() == old(self).wf(),
            final(self).policy() == old(self).policy(),
            final(self).base_url() == old(self).base_url(),
            final(self).backend().renews() == old(self).backend().renews(),
            final(self).backend().renew_outcomes() == old(self).backend().renew_outcomes(),
            old(self).backend().logins() <= final(self).backend().logins() <= old(self).backend().logins() + 1,
            !(old(self).policy() is Reauth) ==> final(self).backend().logins() == old(self).backend().logins(),
            r matches Ok(resp) ==> resp.status == 200 || resp.status == 204,
            r is Ok ==> spec_url_ok(old(self).base_url()),
            r matches Err(e) && e is SessionExpired ==> final(self).requests() == old(self).requests(),
            r matches Err(e) && e is ParseError ==> final(self).requests() == old(self).requests(),
            final(self).requests() == old(self).requests() || final(self).requests() == old(self).requests().push(
                (RequestView {
                    method: method@,
                    path: path@,
                    token: final(self).backend().credential().token,
                    body: body.deep_view(),
                }),
            ),
            r is Ok ==> final(self).requests() == old(self).requests().push(
                (RequestView {
                    method: method@,
                    path: path@,
                    token: final(self).backend().credential().token,
                    body: body.deep_view(),
                }),
            ),
    {
        match self.check_session() {
            Err(e) => return Err(e),
            Ok(()) => (),
        }

        let full_url = match resolve_request_url(self.config.vault_url.as_str(), path) {
            Err(e) => return Err(e),
            Ok(u) => u,
        };
        let token = self.auth.get_token();
        self.requests = Ghost(
            self.requests@.push(
                RequestView {
                    method: method@,
                    path: path@,
                    token: token@,
                    body: body.deep_view(),
                },
            ),
        );
        send_resolved(&full_url, token.as_str(), method, body)
    }

    /// Whether the session is expired at time `now`.
    pub fn expired_at(&self, now: u64) -> (r: bool)
        ensures
            r == spec_expired(self.backend().credential(), now),
    {
        self.auth.expired_at(now)
    }

    /// Whether the session is expired at the current time; `expired_at`
    /// carries the exact contract.
    pub fn is_expired(&self) -> bool {
        self.auth.is_expired()
    }

    /// The vault base URL this client was configured with.
    pub fn get_vault_url(&self) -> (r: String)
        ensures
            r@ == self.base_url(),
    {
        self.config.vault_url.clone()
    }

    /// Decides the renewal loop's next step: how many seconds to wait
    /// before the next renew. Without the `Renew` policy the loop is not
    /// enabled; a session that cannot be renewed ends it as `NotRenewable`;
    /// otherwise the wait leaves the configured percentage of the
    /// credential's validity still remaining when the renew happens.
    pub fn renew_wait(&self) -> (r: Result<u64, RenewError>)
        requires
            self.wf(),
        ensures
            !(self.policy() is Renew) ==> (r matches Err(e) && e is NotEnabled),
            self.policy() is Renew && !self.backend().credential().renewable ==> (r matches Err(
                e,
            ) && e is NotRenewable),
            self.policy() matches RenewPolicy::Renew(threshold) ==> (
            self.backend().credential().renewable ==> (r matches Ok(wait) && wait
                == spec_renew_wait(self.backend().credential().duration, threshold))),
    {
        let threshold = match self.config.renew_policy {
            RenewPolicy::Renew(t) => t,
            _ => {
                return Err(RenewError::NotEnabled);
            },
        };
        if !self.auth.is_renewable() {
            return Err(RenewError::NotRenewable);
        }
        let total = self.auth.get_total_duration();
        Ok(renew_wait_seconds(total, threshold))
    }

    /// Performs one renew round trip through the auth backend, wrapping its
    /// error for the renewal loop.
    pub fn renew_now(&mut self) -> (r: Result<(), RenewError>)
        ensures
            final(self).wf() == old(self).wf(),
            final(self).policy() == old(self).policy(),
            final(self).base_url() == old(self).base_url(),
            final(self).requests() == old(self).requests(),
            final(self).backend().logins() == old(self).backend().logins(),
            final(self).backend().auth_outcomes() == old(self).backend().auth_outcomes(),
            final(self).backend().renew_outcomes() == old(self).backend().renew_outcomes().push(
                r is Ok,
            ),
            old(self).backend().renews() <= final(self).backend().renews() <= old(self).backend().renews() + 1,
            r matches Err(e) ==> e is AuthError && final(self).backend().credential() == old(self).backend().credential(),
            r is Ok ==> final(self).backend().credential().token == old(self).backend().credential().token && (final(self).backend().credential() == old(self).backend().credential()
                || spec_window_from_auth_response(final(self).backend().credential())),
    {
        match self.auth.renew(self.config.vault_url.as_str()) {
            Ok(()) => Ok(()),
            Err(e) => Err(RenewError::AuthError(e)),
        }
    }
}

} // verus!
