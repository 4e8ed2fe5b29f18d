//! The state that a ceremony leaves between its start and its finish.
//!
//! A ceremony of one kind is, for each user, either absent or pending.
//! Starting one clears what was pending for that user and puts the new state
//! in its place; finishing one takes the state out. Nothing that is done for
//! one user touches the state of another.

use vstd::prelude::*;
use crate::keyed::distinct;
use crate::keyed::lemma_absent;
use crate::keyed::lemma_found;
use crate::keyed::lemma_pushed;
use crate::keyed::lemma_removed;
use crate::keyed::lemma_updated;
use crate::keyed::table;

verus! {

/// The pending states of one kind of ceremony, by user.
pub type States<S> = Map<u128, S>;

/// The states after what was pending for `user_id` was cleared.
pub open spec fn cleared<S>(states: States<S>, user_id: u128) -> States<S> {
    states.remove(user_id)
}

/// The states after a ceremony was started for `user_id` and left `state`:
/// what was pending for that user is cleared first.
pub open spec fn begun<S>(states: States<S>, user_id: u128, state: S) -> States<S> {
    cleared(states, user_id).insert(user_id, state)
}

/// Ceremony state isolation: starting a ceremony for one user replaces what
/// was pending for that user, and clearing takes it away; neither adds,
/// removes nor changes what is pending for any other user.
pub proof fn law_ceremonies_are_isolated<S>(
    states: States<S>,
    user_id: u128,
    state: S,
    other: u128,
)
    requires
        other != user_id,
    ensures
        begun(states, user_id, state).contains_key(user_id),
        begun(states, user_id, state)[user_id] == state,
        !cleared(states, user_id).contains_key(user_id),
        begun(states, user_id, state).contains_key(other) == states.contains_key(other),
        cleared(states, user_id).contains_key(other) == states.contains_key(other),
        states.contains_key(other) ==> begun(states, user_id, state)[other] == states[other]
            && cleared(states, user_id)[other] == states[other],
{
}

/// The state that is pending for one user.
pub struct Pending<S> {
    pub user_id: u128,
    pub state: S,
}

/// The users of `pending`, in order.
pub open spec fn users_of<S>(pending: Seq<Pending<S>>) -> Seq<u128> {
    pending.map_values(|p: Pending<S>| p.user_id)
}

/// The states of `pending`, in order.
pub open spec fn states_of<S>(pending: Seq<Pending<S>>) -> Seq<S> {
    pending.map_values(|p: Pending<S>| p.state)
}

/// The pending states of one kind of ceremony, kept in memory.
pub struct Ceremonies<S> {
    pending: Vec<Pending<S>>,
}

impl<S> Ceremonies<S> {
    /// No user occurs twice.
    pub closed spec fn wf(&self) -> bool {
        distinct(users_of(self.pending@))
    }

    /// What is pending, by user.
    pub closed spec fn states(&self) -> States<S> {
        table(users_of(self.pending@), states_of(self.pending@))
    }

    /// Nothing pending.
    pub fn new() -> (ceremonies: Ceremonies<S>)
        ensures
            ceremonies.wf(),
            ceremonies.states() == Map::<u128, S>::empty(),
    {
        let ceremonies = Ceremonies { pending: Vec::new() };
        assert(ceremonies.states() =~= Map::<u128, S>::empty());
        ceremonies
    }

    /// The place of the state that is pending for `user_id`, if there is
    /// one.
    fn find(&self, user_id: u128) -> (place: Option<usize>)
        requires
            self.wf(),
        ensures
            match place {
                Some(i) => i < self.pending@.len() && self.pending@[i as int].user_id == user_id,
                None => !users_of(self.pending@).contains(user_id),
            },
            place is Some <==> self.states().contains_key(user_id),
    {
        let mut i: usize = 0;
        while i < self.pending.len()
            invariant
                self.wf(),
                i <= self.pending.len(),
                forall|k: int| 0 <= k < i ==> (#[trigger] self.pending@[k]).user_id != user_id,
            decreases self.pending.len() - i,
        {
            if self.pending[i].user_id == user_id {
                proof {
                    assert(users_of(self.pending@)[i as int] == user_id);
                    lemma_found(users_of(self.pending@), states_of(self.pending@), i as int);
                }
                return Some(i);
            }
            i = i + 1;
        }
        proof {
            let users = users_of(self.pending@);
            if users.contains(user_id) {
                let k = choose|k: int| 0 <= k < users.len() && users[k] == user_id;
                assert(self.pending@[k].user_id == user_id);
            }
        }
        None
    }

    /// Whether a state is pending for `user_id`.
    pub fn is_pending(&self, user_id: u128) -> (b: bool)
        requires
            self.wf(),
        ensures
            b == self.states().contains_key(user_id),
    {
        self.find(user_id).is_some()
    }

    /// Clears what is pending for `user_id`.
    pub fn remove(&mut self, user_id: u128)
        requires
            old(self).wf(),
        ensures
            final(self).wf(),
            final(self).states() == cleared(old(self).states(), user_id),
    {
        let _ = self.consume(user_id);
    }

    /// Makes `state` what is pending for `user_id`, in place of what was.
    pub fn set(&mut self, user_id: u128, state: S)
        requires
            old(self).wf(),
        ensures
            final(self).wf(),
            final(self).states() == old(self).states().insert(user_id, state),
    {
        let ghost users = users_of(self.pending@);
        let ghost states = states_of(self.pending@);
        match self.find(user_id) {
            Some(i) => {
                self.pending.set(i, Pending { user_id, state });
                proof {
                    lemma_updated(users, states, i as int, state);
                    assert(users_of(self.pending@) =~= users);
                    assert(states_of(self.pending@) =~= states.update(i as int, state));
                }
            },
            None => {
                self.pending.push(Pending { user_id, state });
                proof {
                    lemma_pushed(users, states, user_id, state);
                    assert(users_of(self.pending@) =~= users.push(user_id));
                    assert(states_of(self.pending@) =~= states.push(state));
                }
            },
        }
    }

    /// Takes out what is pending for `user_id`.
    pub fn consume(&mut self, user_id: u128) -> (state: Option<S>)
        requires
            old(self).wf(),
        ensures
            final(self).wf(),
            final(self).states() == cleared(old(self).states(), user_id),
            state == if old(self).states().contains_key(user_id) {
                Some(old(self).states()[user_id])
            } else {
                None::<S>
            },
    {
        let ghost users = users_of(self.pending@);
        let ghost states = states_of(self.pending@);
        match self.find(user_id) {
            Some(i) => {
                let taken = self.pending.remove(i);
                proof {
                    lemma_found(users, states, i as int);
                    lemma_removed(users, states, i as int);
                    assert(users_of(self.pending@) =~= users.remove(i as int));
                    assert(states_of(self.pending@) =~= states.remove(i as int));
                }
                Some(taken.state)
            },
            None => {
                proof {
                    lemma_absent(users, states, user_id);
                }
                None
            },
        }
    }
}

} // verus!
