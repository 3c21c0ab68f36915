//! A client-side session manager for a HashiCorp Vault server.
//!
//! The crate holds a bearer credential, knows when that credential expires,
//! and keeps it usable by re-authenticating or renewing it. Three auth
//! backends (approle, kubernetes, plain token) implement one [`Auth`]
//! contract; a [`Client`] decides per request whether the session may be
//! used as is, must be re-established, or must be reported as expired.
#![allow(unused_imports)]

use vstd::prelude::*;

pub mod approle;
pub mod database;
pub mod kubernetes;
pub mod kv2;
pub mod token;

mod client;
pub mod decode;
pub mod encode;
mod errors;
mod shared;
pub mod internals;
mod transport;

pub use client::Client;
pub use client::RequestView;
pub use client::spec_sent_one;
pub use client::request_headers;
pub use client::renew_wait_seconds;
pub use client::spec_renew_wait;
pub use decode::spec_issued_by_auth_response;
pub use decode::spec_window_from_auth_response;
pub use errors::Error;
pub use shared::SharedClient;
pub use errors::RenewError;
pub use transport::BackendRequestView;
pub use transport::HttpResponse;

verus! {

/// One complete credential snapshot, as a single mathematical value: the
/// bearer token together with its issue time (seconds since the Unix epoch),
/// validity duration (seconds) and renewable flag.
pub struct CredentialView {
    pub token: Seq<char>,
    pub start: u64,
    pub duration: u64,
    pub renewable: bool,
}

/// Whether a credential is expired at time `now`: the elapsed time since its
/// issue reached or passed its validity duration.
pub open spec fn spec_expired(cred: CredentialView, now: u64) -> bool {
    now - cred.start >= cred.duration
}

/// A credential is expired exactly when the time elapsed since its issue has
/// reached its validity duration: strictly less elapsed time leaves it
/// valid, equal or more elapsed time expires it.
pub proof fn lemma_expired_iff_elapsed_reaches_duration(cred: CredentialView, now: u64)
    requires
        now >= cred.start,
    ensures
        spec_expired(cred, now) <==> now - cred.start >= cred.duration,
        now - cred.start == cred.duration - 1 ==> !spec_expired(cred, now),
        now - cred.start == cred.duration ==> spec_expired(cred, now),
{
}

/// This trait needs to be implemented by all auth backends to be used for
/// authenticating with that backend.
///
/// Reads (`get_token`, `is_expired`, the duration getters) always observe
/// one complete published credential. Writes (`auth`, `renew`) take the
/// backend exclusively and replace the credential as a single transaction.
pub trait Auth: Sized {
    /// The currently published credential, as one complete snapshot.
    spec fn credential(&self) -> CredentialView;

    /// How many login round trips this backend has performed.
    spec fn logins(&self) -> nat;

    /// How many renew round trips this backend has performed.
    spec fn renews(&self) -> nat;

    /// The outcome of every `auth` call made on this backend, oldest
    /// first: each call appends exactly whether it returned success. A
    /// caller's contract can thereby require a dispatch and tie its own
    /// result to that dispatch's.
    spec fn auth_outcomes(&self) -> Seq<bool>;

    /// The outcome of every `renew` call made on this backend, oldest
    /// first, as for `auth_outcomes`.
    spec fn renew_outcomes(&self) -> Seq<bool>;

    /// Whether the session held by this backend is expired at time `now`
    /// (seconds since the Unix epoch).
    fn expired_at(&self, now: u64) -> (r: bool)
        ensures
            r == spec_expired(self.credential(), now),
    ;

    /// Whether the session held by this backend is expired at the current
    /// time, and needs to be renewed or dropped. The result depends on the
    /// clock; `expired_at` carries the exact contract.
    fn is_expired(&self) -> bool;

    /// Authenticates with the backend to obtain a new valid session for
    /// further requests to vault. At most one login round trip is made; a
    /// failed login leaves the published credential unchanged, and a
    /// successful one either leaves it in place (a backend with nothing to
    /// obtain) or replaces it wholesale by a decoded auth response.
    fn auth(&mut self, vault_url: &str) -> (r: Result<(), Error>)
        ensures
            final(self).auth_outcomes() == old(self).auth_outcomes().push(r is Ok),
            final(self).renew_outcomes() == old(self).renew_outcomes(),
            old(self).logins() <= final(self).logins() <= old(self).logins() + 1,
            final(self).renews() == old(self).renews(),
            r is Err ==> final(self).credential() == old(self).credential(),
            r is Ok ==> final(self).credential() == old(self).credential()
                || spec_issued_by_auth_response(final(self).credential()),
    ;

    /// Returns the vault token of the current session; empty when no
    /// credential has ever been issued.
    fn get_token(&self) -> (r: String)
        ensures
            r@ == self.credential().token,
    ;

    /// Whether the current session can be renewed, used to decide between
    /// renewing the session before it expires and obtaining a new one.
    fn is_renewable(&self) -> (r: bool)
        ensures
            r == self.credential().renewable,
    ;

    /// The total duration in seconds for which the current session is valid.
    fn get_total_duration(&self) -> (r: u64)
        ensures
            r == self.credential().duration,
    ;

    /// Renews the current session's lease. At most one renew round trip is
    /// made; a failed renew leaves the published credential unchanged, and a
    /// successful one preserves the token value while it either leaves the
    /// credential in place or refreshes its validity window and renewable
    /// flag from a decoded auth response, as one transaction.
    fn renew(&mut self, vault_url: &str) -> (r: Result<(), Error>)
        ensures
            final(self).renew_outcomes() == old(self).renew_outcomes().push(r is Ok),
            final(self).auth_outcomes() == old(self).auth_outcomes(),
            old(self).renews() <= final(self).renews() <= old(self).renews() + 1,
            final(self).logins() == old(self).logins(),
            r is Err ==> final(self).credential() == old(self).credential(),
            r is Ok ==> final(self).credential().token == old(self).credential().token
                && (final(self).credential() == old(self).credential()
                || spec_window_from_auth_response(final(self).credential())),
    ;
}

/// The policy describing how the vault client deals with expired sessions.
pub enum RenewPolicy {
    /// Lazily acquire a completely new session via the configured auth
    /// backend once the old one has expired, checked before each request.
    Reauth,
    /// Renew the session in the background before it expires. The value is
    /// the percentage (0 to 100) of a credential's validity that should
    /// still remain when the background loop renews it: with 25 and a total
    /// duration of 60 minutes, the credential is renewed after 45 minutes,
    /// when 15 minutes are left.
    Renew(u8),
    /// Do nothing when the session expires: every later request returns a
    /// `SessionExpired` error.
    Nothing,
}

impl RenewPolicy {
    /// A renew threshold is a percentage, so it never exceeds 100.
    pub open spec fn wf(&self) -> bool {
        match *self {
            RenewPolicy::Renew(threshold) => threshold <= 100,
            _ => true,
        }
    }
}

/// The configuration for the vault client.
pub struct Config {
    /// The URL the client uses to connect to the vault instance.
    pub vault_url: String,
    /// The policy the client applies when the session expires.
    pub renew_policy: RenewPolicy,
}

impl Config {
    /// A configuration is well formed when its renew threshold is a
    /// percentage.
    pub open spec fn wf(&self) -> bool {
        self.renew_policy.wf()
    }
}

impl Default for Config {
    /// The default configuration: a local vault instance and lazy
    /// re-authentication.
    fn default() -> (c: Config)
        ensures
            c.vault_url@ == "http://localhost:8200"@,
            c.renew_policy is Reauth,
            c.wf(),
    {
        Config {
            vault_url: String::from_str("http://localhost:8200"),
            renew_policy: RenewPolicy::Reauth,
        }
    }
}

} // verus!
