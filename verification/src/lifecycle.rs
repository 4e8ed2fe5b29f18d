//! The life of a magic-link token, as a state machine over plain values.
//!
//! A token is *issued* with some data and a deadline, may be *verified* any
//! number of times, and ends by being *consumed* or by outliving its
//! deadline. Everything a backend may answer is a function of the pending
//! links and of the moment at which it is asked; those functions are defined
//! here, and the laws of the lifecycle are proved of them.

use vstd::prelude::*;
use crate::time::Duration;
use crate::time::Instant;

verus! {

/// What a backend holds for one pending link.
pub struct LinkRecord<D> {
    /// The data the link was issued for.
    pub data: D,
    /// The moment from which the link is no longer honoured.
    pub expires_at: Instant,
}

/// The pending links of a backend, by token.
pub type Links<D> = Map<Seq<char>, LinkRecord<D>>;

/// Whether `token` is pending in `links` and its deadline lies after `now`.
pub open spec fn live<D>(links: Links<D>, token: Seq<char>, now: Instant) -> bool {
    links.contains_key(token) && now.as_nanos() < links[token].expires_at.as_nanos()
}

/// The links after `token` was issued for `data` until `expires_at`.
pub open spec fn issue<D>(links: Links<D>, token: Seq<char>, data: D, expires_at: Instant) -> Links<
    D,
> {
    links.insert(token, LinkRecord { data, expires_at })
}

/// What a look at `token` at the moment `now` yields: its data while it is
/// live, nothing otherwise.
pub open spec fn peek<D>(links: Links<D>, token: Seq<char>, now: Instant) -> Option<D> {
    if live(links, token, now) {
        Some(links[token].data)
    } else {
        None
    }
}

/// The links after `token` was consumed.
pub open spec fn take<D>(links: Links<D>, token: Seq<char>) -> Links<D> {
    links.remove(token)
}

/// One request to a backend.
pub enum LinkOp<D> {
    /// Issue `token` for `data` until `expires_at`.
    Issue { token: Seq<char>, data: D, expires_at: Instant },
    /// Look at `token` at the moment `now`.
    Verify { token: Seq<char>, now: Instant },
    /// Consume `token` at the moment `now`.
    Consume { token: Seq<char>, now: Instant },
}

impl<D> LinkOp<D> {
    /// Whether this request issues `token`.
    pub open spec fn issues(self, token: Seq<char>) -> bool {
        self matches LinkOp::Issue { token: issued, .. } && issued == token
    }

    /// Whether this request verifies `token` at a moment before `deadline`.
    pub open spec fn verifies_before(self, token: Seq<char>, deadline: Instant) -> bool {
        match self {
            LinkOp::Verify { token: looked, now } => looked == token && now.as_nanos()
                < deadline.as_nanos(),
            _ => false,
        }
    }

    /// The links after this request.
    pub open spec fn apply(self, links: Links<D>) -> Links<D> {
        match self {
            LinkOp::Issue { token, data, expires_at } => issue(links, token, data, expires_at),
            LinkOp::Verify { .. } => links,
            LinkOp::Consume { token, .. } => take(links, token),
        }
    }

    /// What this request is answered with: the data of the token it names,
    /// or nothing where the token is not found.
    pub open spec fn answer(self, links: Links<D>) -> Option<D> {
        match self {
            LinkOp::Issue { data, .. } => Some(data),
            LinkOp::Verify { token, now } => peek(links, token, now),
            LinkOp::Consume { token, now } => peek(links, token, now),
        }
    }
}

/// The links after the requests `ops`, made in order.
pub open spec fn replay<D>(links: Links<D>, ops: Seq<LinkOp<D>>) -> Links<D>
    decreases ops.len(),
{
    if ops.len() == 0 {
        links
    } else {
        ops.last().apply(replay(links, ops.drop_last()))
    }
}

/// A token that is not pending stays so under any requests that do not issue
/// it again.
pub proof fn lemma_absent_stays_absent<D>(links: Links<D>, token: Seq<char>, ops: Seq<LinkOp<D>>)
    requires
        !links.contains_key(token),
        forall|i: int| 0 <= i < ops.len() ==> !(#[trigger] ops[i]).issues(token),
    ensures
        !replay(links, ops).contains_key(token),
    decreases ops.len(),
{
    if ops.len() > 0 {
        let earlier = ops.drop_last();
        assert forall|i: int| 0 <= i < earlier.len() implies !(#[trigger] earlier[i]).issues(
            token,
        ) by {
            assert(earlier[i] == ops[i]);
        }
        lemma_absent_stays_absent(links, token, earlier);
        assert(!ops[ops.len() - 1].issues(token));
    }
}

/// Requests that only verify leave every link as it was.
pub proof fn lemma_verifying_changes_nothing<D>(links: Links<D>, ops: Seq<LinkOp<D>>)
    requires
        forall|i: int| 0 <= i < ops.len() ==> (#[trigger] ops[i]) is Verify,
    ensures
        replay(links, ops) == links,
    decreases ops.len(),
{
    if ops.len() > 0 {
        let earlier = ops.drop_last();
        assert forall|i: int| 0 <= i < earlier.len() implies (#[trigger] earlier[i]) is Verify by {
            assert(earlier[i] == ops[i]);
        }
        lemma_verifying_changes_nothing(links, earlier);
        assert(ops[ops.len() - 1] is Verify);
    }
}

/// Single use: once `token` has been consumed, every later verification or
/// consumption of it finds nothing, whatever was requested in between, as
/// long as the token was not issued anew.
pub proof fn law_single_use<D>(
    links: Links<D>,
    token: Seq<char>,
    between: Seq<LinkOp<D>>,
    later: Instant,
)
    requires
        forall|i: int| 0 <= i < between.len() ==> !(#[trigger] between[i]).issues(token),
    ensures
        ({
            let after = replay(take(links, token), between);
            &&& (LinkOp::Verify { token, now: later }).answer(after) is None
            &&& (LinkOp::Consume { token, now: later }).answer(after) is None
        }),
{
    lemma_absent_stays_absent(take(links, token), token, between);
}

/// Non-destructive read: a live token may be verified any number of times;
/// each verification before its deadline yields its data, and afterwards the
/// token is consumed with the same data as if it had never been looked at.
pub proof fn law_verification_is_repeatable<D>(
    links: Links<D>,
    token: Seq<char>,
    looks: Seq<LinkOp<D>>,
    at: Instant,
)
    requires
        links.contains_key(token),
        at.as_nanos() < links[token].expires_at.as_nanos(),
        forall|i: int|
            0 <= i < looks.len() ==> (#[trigger] looks[i]).verifies_before(
                token,
                links[token].expires_at,
            ),
    ensures
        forall|i: int|
            0 <= i < looks.len() ==> (#[trigger] looks[i]).answer(
                replay(links, looks.subrange(0, i)),
            ) == Some(links[token].data),
        replay(links, looks) == links,
        (LinkOp::Consume { token, now: at }).answer(replay(links, looks)) == Some(
            links[token].data,
        ),
{
    lemma_verifying_changes_nothing(links, looks);
    assert forall|i: int| 0 <= i < looks.len() implies (#[trigger] looks[i]).answer(
        replay(links, looks.subrange(0, i)),
    ) == Some(links[token].data) by {
        let before = looks.subrange(0, i);
        assert forall|j: int| 0 <= j < before.len() implies (#[trigger] before[j]) is Verify by {
            assert(before[j] == looks[j]);
        }
        lemma_verifying_changes_nothing(links, before);
    }
}

/// Expiry: a token issued at `issued_at` to last for `lifetime` is not found
/// at any moment after `issued_at + lifetime`, whether or not it was
/// verified in between.
pub proof fn law_expiry_is_enforced<D>(
    links: Links<D>,
    token: Seq<char>,
    data: D,
    issued_at: Instant,
    lifetime: Duration,
    looks: Seq<LinkOp<D>>,
    now: Instant,
)
    requires
        issued_at.wf(),
        lifetime.wf(),
        issued_at.can_add(lifetime),
        now.as_nanos() > issued_at.as_nanos() + lifetime.as_nanos(),
        forall|i: int| 0 <= i < looks.len() ==> (#[trigger] looks[i]) is Verify,
    ensures
        ({
            let after = replay(issue(links, token, data, issued_at.spec_plus(lifetime)), looks);
            &&& (LinkOp::Verify { token, now }).answer(after) is None
            &&& (LinkOp::Consume { token, now }).answer(after) is None
        }),
{
    lemma_verifying_changes_nothing(
        issue(links, token, data, issued_at.spec_plus(lifetime)),
        looks,
    );
    Instant::lemma_plus_adds(issued_at, lifetime);
}

/// One winner: of two consumptions of a live token, made one after the other
/// in either order, the first yields its data and the second finds nothing.
pub proof fn law_one_consumer_wins<D>(
    links: Links<D>,
    token: Seq<char>,
    first: Instant,
    second: Instant,
)
    requires
        live(links, token, first),
    ensures
        (LinkOp::Consume { token, now: first }).answer(links) == Some(links[token].data),
        (LinkOp::Consume { token, now: second }).answer(
            (LinkOp::Consume { token, now: first }).apply(links),
        ) is None,
{
}

/// The links that are live at the moment `now`, and no others.
pub open spec fn purged<D>(links: Links<D>, now: Instant) -> Links<D> {
    Map::new(|token: Seq<char>| live(links, token, now), |token: Seq<char>| links[token])
}

/// Taking out a token that is not live leaves the live links as they were.
pub proof fn lemma_purging_the_dead<D>(links: Links<D>, token: Seq<char>, now: Instant)
    requires
        !live(links, token, now),
    ensures
        purged(take(links, token), now) == purged(links, now),
{
    assert(purged(take(links, token), now) =~= purged(links, now));
}

/// An expired token is as good as one that was never issued: at the moment
/// `now` and at any later one, every token is answered from the live links
/// alone as it is from all of them.
pub proof fn law_expired_is_absent<D>(
    links: Links<D>,
    token: Seq<char>,
    now: Instant,
    later: Instant,
)
    requires
        now.as_nanos() <= later.as_nanos(),
    ensures
        peek(purged(links, now), token, later) == peek(links, token, later),
        !live(links, token, now) ==> !purged(links, now).contains_key(token),
{
}

} // verus!
