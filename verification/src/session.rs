//! The session capability that every strategy is layered on.

use vstd::prelude::*;
use crate::time::Instant;

verus! {

/// One session as the backend recorded it: what it was created from and when
/// it lapses.
pub struct SessionRecord<D> {
    pub data: D,
    pub expires_at: Instant,
}

/// Storage that turns session data and an expiry into a session.
pub trait SessionBackend {
    /// What a caller holds once a session exists.
    type Session;

    /// What a session is created from.
    type SessionData;

    /// How the storage fails.
    type Error;

    /// Whether the backend is in a state that its operations may start from.
    spec fn wf(&self) -> bool;

    /// Every session created so far, oldest first.
    spec fn sessions(&self) -> Seq<SessionRecord<Self::SessionData>>;

    /// Creates a session from `data` that lapses at `expires_at`.
    fn new_session(&mut self, data: Self::SessionData, expires_at: Instant) -> (r: Result<
        Self::Session,
        Self::Error,
    >)
        requires
            old(self).wf(),
            expires_at.wf(),
        ensures
            final(self).wf(),
            r is Ok ==> final(self).sessions() == old(self).sessions().push(
                SessionRecord { data, expires_at },
            ),
            r is Err ==> final(self).sessions() == old(self).sessions(),
    ;
}

} // verus!
