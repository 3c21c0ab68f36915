use vstd::prelude::*;

use crate::CredentialView;

verus! {

/// The container for a credential that can be read at any time and updated
/// by an exclusive writer.
///
/// Every update publishes one complete snapshot: a reader always observes a
/// token, start time, duration and renewable flag that were written
/// together, never a mix of two different writes. The ghost publication
/// history records each snapshot in the order it was published, and the
/// container always equals the most recently published one.
pub struct TokenContainer {
    token: String,
    start: u64,
    duration: u64,
    renewable: bool,
    log: Ghost<Seq<CredentialView>>,
}

impl View for TokenContainer {
    type V = CredentialView;

    closed spec fn view(&self) -> CredentialView {
        CredentialView {
            token: self.token@,
            start: self.start,
            duration: self.duration,
            renewable: self.renewable,
        }
    }
}

impl TokenContainer {
    /// The snapshots published so far, in order.
    pub closed spec fn published(&self) -> Seq<CredentialView> {
        self.log@
    }

    /// At least one snapshot has been published, and the container holds
    /// exactly the most recent one.
    pub open spec fn wf(&self) -> bool {
        &&& self.published().len() > 0
        &&& self.published().last() == self@
    }

    /// Used to obtain a new container with empty values: no token, zero
    /// start and duration, not renewable. With both times zero, the initial
    /// credential counts as expired at any time.
    pub fn new() -> (c: TokenContainer)
        ensures
            c@ == (CredentialView { token: Seq::<char>::empty(), start: 0, duration: 0, renewable: false }),
            c.published() =~= seq![c@],
            c.wf(),
    {
        let token = String::new();
        let ghost snapshot = CredentialView { token: token@, start: 0, duration: 0, renewable: false };
        let ghost log_init: Seq<CredentialView> = seq![snapshot];
        TokenContainer { token, start: 0, duration: 0, renewable: false, log: Ghost(log_init) }
    }

    /// Returns the start time of the current credential.
    pub fn get_start(&self) -> (r: u64)
        ensures
            r == self@.start,
    {
        self.start
    }

    /// Returns the validity duration of the current credential.
    pub fn get_duration(&self) -> (r: u64)
        ensures
            r == self@.duration,
    {
        self.duration
    }

    /// Returns the renewable flag of the current credential.
    pub fn get_renewable(&self) -> (r: bool)
        ensures
            r == self@.renewable,
    {
        self.renewable
    }

    /// Returns the token of the current credential.
    pub fn get_token(&self) -> (r: Option<String>)
        ensures
            r matches Some(t) && t@ == self@.token,
    {
        Some(self.token.clone())
    }

    /// Updates the start time, publishing a new snapshot that keeps every
    /// other field.
    pub fn set_start(&mut self, new_start: u64)
        ensures
            final(self)@ == (CredentialView { start: new_start, ..old(self)@ }),
            final(self).published() == old(self).published().push(final(self)@),
            final(self).wf(),
    {
        self.start = new_start;
        self.log = Ghost(self.log@.push(self@));
    }

    /// Updates the validity duration, publishing a new snapshot that keeps
    /// every other field.
    pub fn set_duration(&mut self, new_duration: u64)
        ensures
            final(self)@ == (CredentialView { duration: new_duration, ..old(self)@ }),
            final(self).published() == old(self).published().push(final(self)@),
            final(self).wf(),
    {
        self.duration = new_duration;
        self.log = Ghost(self.log@.push(self@));
    }

    /// Updates the renewable flag, publishing a new snapshot that keeps
    /// every other field.
    pub fn set_renewable(&mut self, new_renewable: bool)
        ensures
            final(self)@ == (CredentialView { renewable: new_renewable, ..old(self)@ }),
            final(self).published() == old(self).published().push(final(self)@),
            final(self).wf(),
    {
        self.renewable = new_renewable;
        self.log = Ghost(self.log@.push(self@));
    }

    /// Updates the token itself, publishing a new snapshot that keeps every
    /// other field.
    pub fn set_token(&mut self, token: String)
        ensures
            final(self)@ == (CredentialView { token: token@, ..old(self)@ }),
            final(self).published() == old(self).published().push(final(self)@),
            final(self).wf(),
    {
        self.token = token;
        self.log = Ghost(self.log@.push(self@));
    }

    /// Replaces the whole credential as one transaction: all four fields
    /// change together, publishing exactly one new snapshot.
    pub fn write(&mut self, token: String, start: u64, duration: u64, renewable: bool)
        ensures
            final(self)@ == (CredentialView { token: token@, start, duration, renewable }),
            final(self).published() == old(self).published().push(final(self)@),
            final(self).wf(),
    {
        self.token = token;
        self.start = start;
        self.duration = duration;
        self.renewable = renewable;
        self.log = Ghost(self.log@.push(self@));
    }
}

/// A reader of the container never observes a torn credential: the snapshot
/// it reads is one that was published as a whole, so the token, start time,
/// duration and renewable flag it sees all come from the same write, never
/// from a combination of two different writes.
pub proof fn lemma_read_is_one_published_snapshot(c: &TokenContainer)
    requires
        c.wf(),
    ensures
        exists|i: int| 0 <= i < c.published().len() && c@ == c.published()[i],
{
    assert(c@ == c.published()[c.published().len() - 1]);
}

} // verus!
