//! Sharing one vault client across threads: unbounded concurrent readers,
//! one writer at a time, and a single-flight slow path.

use vstd::prelude::*;
use vstd::rwlock::RwLock;

use crate::client::dispatch_request;
use crate::client::Client;
use crate::errors::Error;
use crate::errors::RenewError;
use crate::transport::HttpResponse;
use crate::Auth;

verus! {

/// A vault client that any number of threads can use at once.
///
/// The client sits behind a reader-writer lock whose invariant is the
/// client's own well-formedness. Reads of the published credential (the
/// token, the expiry check) take only a shared read lock and never block
/// each other; the exclusive side of the lock serializes
/// the decision to re-authenticate, and it is never held across the
/// network round trip of an ordinary request.
#[verifier::reject_recursive_types(T)]
pub struct SharedClient<T: Auth> {
    lock: RwLock<Client<T>, spec_fn(Client<T>) -> bool>,
}

impl<T: Auth> SharedClient<T> {
    /// The lock's invariant is fixed at construction: every client value
    /// it stores is well formed.
    pub closed spec fn wf(&self) -> bool {
        self.lock.pred() == (|c: Client<T>| c.wf())
    }

    /// Wraps a well-formed client for shared use.
    pub fn new(client: Client<T>) -> (s: SharedClient<T>)
        requires
            client.wf(),
        ensures
            s.wf(),
    {
        let ghost pred = |c: Client<T>| c.wf();
        SharedClient { lock: RwLock::new(client, Ghost(pred)) }
    }

    /// Returns the current session token, under a shared read lock: any
    /// number of threads can read it at once, and each observes one
    /// complete published credential.
    pub fn get_token(&self) -> String {
        let read_handle = self.lock.acquire_read();
        let token = read_handle.borrow().get_token();
        read_handle.release_read();
        token
    }

    /// Whether the session is expired right now, under a shared read lock.
    pub fn is_expired(&self) -> bool {
        let read_handle = self.lock.acquire_read();
        let expired = read_handle.borrow().is_expired();
        read_handle.release_read();
        expired
    }

    /// Checks the session and recovers it if needed, with the
    /// double-checked single-flight pattern.
    ///
    /// The fast path reads the expiry under a shared read lock and returns
    /// at once for a valid session, serializing nothing. Only when the
    /// session looks expired is the exclusive lock taken; the inner
    /// `check_session` then re-checks the expiry under that lock, so of
    /// several callers racing one expiry, the first to take it
    /// recovers the session and the others find it valid and make no
    /// further round trip.
    pub fn check_session(&self) -> (r: Result<(), Error>)
        requires
            self.wf(),
    {
        let read_handle = self.lock.acquire_read();
        let expired = read_handle.borrow().is_expired();
        read_handle.release_read();
        if !expired {
            return Ok(());
        }
        let (mut client, write_handle) = self.lock.acquire_write();
        let result = client.check_session();
        write_handle.release_write(client);
        result
    }

    /// A managed request through the shared client: the session is checked
    /// (and recovered single-flight) first; the round trip itself runs
    /// outside the lock, so a slow response blocks no other caller. The
    /// exact request contract lives on [`Client::vault_request`].
    pub fn vault_request(&self, method: &str, path: &str, body: Option<String>) -> (r: Result<
        HttpResponse,
        Error,
    >)
        requires
            self.wf(),
        ensures
            r matches Ok(resp) ==> resp.status == 200 || resp.status == 204,
    {
        match self.check_session() {
            Err(e) => return Err(e),
            Ok(()) => (),
        }
        let read_handle = self.lock.acquire_read();
        let token = read_handle.borrow().get_token();
        let base_url = read_handle.borrow().get_vault_url();
        read_handle.release_read();
        dispatch_request(base_url.as_str(), token.as_str(), method, path, body)
    }

    /// Decides the renewal loop's next step under a shared read lock; the
    /// exact contract lives on [`Client::renew_wait`].
    pub fn renew_wait(&self) -> (r: Result<u64, RenewError>)
        requires
            self.wf(),
    {
        let read_handle = self.lock.acquire_read();
        let result = read_handle.borrow().renew_wait();
        read_handle.release_read();
        result
    }

    /// Performs one renew round trip under the exclusive lock; the exact
    /// contract lives on [`Client::renew_now`].
    pub fn renew_now(&self) -> (r: Result<(), RenewError>)
        requires
            self.wf(),
    {
        let (mut client, write_handle) = self.lock.acquire_write();
        let result = client.renew_now();
        write_handle.release_write(client);
        result
    }
}

} // verus!
