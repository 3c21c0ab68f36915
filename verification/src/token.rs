//! The plain token auth backend: a caller-supplied token with a fixed
//! validity window, with no login or renew round trips of its own.

use vstd::prelude::*;

use crate::errors::Error;
use crate::internals::utils::now_timestamp;
use crate::Auth as AuthTrait;
use crate::CredentialView;

verus! {

/// The token auth session that can be used to authenticate with vault: a
/// fixed token valid for a fixed window from its creation.
pub struct Session {
    token: String,
    token_start: u64,
    token_duration: u64,
    auth_results: Ghost<Seq<bool>>,
    renew_results: Ghost<Seq<bool>>,
}

impl AuthTrait for Session {
    closed spec fn credential(&self) -> CredentialView {
        CredentialView {
            token: self.token@,
            start: self.token_start,
            duration: self.token_duration,
            renewable: false,
        }
    }

    closed spec fn logins(&self) -> nat {
        0
    }

    closed spec fn renews(&self) -> nat {
        0
    }

    closed spec fn auth_outcomes(&self) -> Seq<bool> {
        self.auth_results@
    }

    closed spec fn renew_outcomes(&self) -> Seq<bool> {
        self.renew_results@
    }

    fn expired_at(&self, now: u64) -> (r: bool) {
        now >= self.token_start && now - self.token_start >= self.token_duration
    }

    fn is_expired(&self) -> bool {
        let now = now_timestamp();
        self.expired_at(now)
    }

    /// Authenticating is a no-op: the token was supplied by the caller and
    /// there is nothing to obtain, so the credential stays as it is.
    fn auth(&mut self, vault_url: &str) -> (r: Result<(), Error>)
        ensures
            r is Ok,
            final(self).credential() == old(self).credential(),
    {
        self.auth_results = Ghost(self.auth_results@.push(true));
        Ok(())
    }

    fn get_token(&self) -> (r: String) {
        self.token.clone()
    }

    /// A caller-supplied token cannot be extended beyond its fixed window,
    /// so it is never renewable.
    fn is_renewable(&self) -> (r: bool) {
        false
    }

    fn get_total_duration(&self) -> (r: u64) {
        self.token_duration
    }

    /// Renewing is a no-op: the fixed window cannot be extended, so the
    /// credential stays as it is.
    fn renew(&mut self, vault_url: &str) -> (r: Result<(), Error>)
        ensures
            r is Ok,
            final(self).credential() == old(self).credential(),
    {
        self.renew_results = Ghost(self.renew_results@.push(true));
        Ok(())
    }
}

impl Session {
    /// Used to obtain a new auth session around a caller-supplied token
    /// that stays valid for `token_duration` seconds from now.
    pub fn new(token: String, token_duration: u64) -> (r: Result<Session, Error>)
        ensures
            r matches Ok(s) && s.credential().token == token@ && s.credential().duration
                == token_duration && !s.credential().renewable && s.logins() == 0 && s.renews()
                == 0 && s.auth_outcomes() == Seq::<bool>::empty() && s.renew_outcomes()
                == Seq::<bool>::empty(),
    {
        let token_start = now_timestamp();
        Ok(
            Session {
                token,
                token_start,
                token_duration,
                auth_results: Ghost(Seq::empty()),
                renew_results: Ghost(Seq::empty()),
            },
        )
    }
}

} // verus!
