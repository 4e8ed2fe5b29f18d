//! Capabilities held in memory: a bounded backend and a bounded outbox.
//!
//! [`MemoryBackend`] keeps its pending links in a vector in which no token
//! occurs twice. It answers every request from that vector and from the
//! moment it is asked at, exactly as [`crate::lifecycle`] describes, and it
//! consumes a token by taking its entry out of the vector in the same step
//! that reads it.

use vstd::prelude::*;
use vstd::string::StringExecFns;
use webauthn_rs::prelude::PasskeyAuthentication;
use webauthn_rs::prelude::PasskeyRegistration;
use crate::ceremony::Ceremonies;
use crate::ceremony::States;
use crate::keyed::distinct;
use crate::keyed::lemma_absent;
use crate::keyed::lemma_found;
use crate::keyed::lemma_pushed;
use crate::keyed::lemma_removed;
use crate::keyed::lemma_updated;
use crate::keyed::table;
use crate::lifecycle::issue;
use crate::lifecycle::lemma_purging_the_dead;
use crate::lifecycle::live;
use crate::lifecycle::peek;
use crate::lifecycle::purged;
use crate::lifecycle::take;
use crate::lifecycle::LinkRecord;
use crate::lifecycle::Links;
use crate::session::SessionBackend;
use crate::session::SessionRecord;
use crate::strategy::magic_link::is_token;
use crate::strategy::magic_link::Attempt;
use crate::strategy::magic_link::MagicLink;
use crate::strategy::magic_link::MagicLinkSession;
use crate::strategy::magic_link::SendEmail;
use crate::strategy::passkey::PasskeySession;
use crate::time::Instant;

verus! {

/// A pending link as the backend stores it.
pub struct StoredLink {
    pub token: String,
    pub data: String,
    pub expires_at: Instant,
}

/// What the lifecycle knows of a stored link.
pub open spec fn record_of(entry: StoredLink) -> LinkRecord<String> {
    LinkRecord { data: entry.data, expires_at: entry.expires_at }
}

/// The tokens of `entries`, in order.
pub open spec fn tokens_of(entries: Seq<StoredLink>) -> Seq<Seq<char>> {
    entries.map_values(|entry: StoredLink| entry.token@)
}

/// The records of `entries`, in order.
pub open spec fn records_of(entries: Seq<StoredLink>) -> Seq<LinkRecord<String>> {
    entries.map_values(|entry: StoredLink| record_of(entry))
}

/// The pending links that `entries` stand for.
pub open spec fn links_of(entries: Seq<StoredLink>) -> Links<String> {
    table(tokens_of(entries), records_of(entries))
}

/// A session as the memory backend hands it out.
#[derive(Debug)]
pub struct Session {
    /// The number of the session: how many were created before it.
    pub id: usize,
    /// What the session was created from.
    pub data: String,
    /// When the session lapses.
    pub expires_at: Instant,
}

/// How the memory backend fails.
#[derive(Clone, Copy, Debug, PartialEq, Eq, Structural)]
pub enum MemoryError {
    /// The token is not pending, or its deadline has passed.
    NotFound,
    /// The backend holds as many links as it was made for.
    Full,
}

/// A session backend that keeps everything in memory.
pub struct MemoryBackend {
    links: Vec<StoredLink>,
    capacity: usize,
    sessions: Vec<Session>,
    registrations: Ceremonies<PasskeyRegistration>,
    authentications: Ceremonies<PasskeyAuthentication>,
    refused: Ghost<Seq<MemoryError>>,
}

impl MemoryBackend {
    /// Every refusal to issue a link so far, oldest first.
    pub closed spec fn issue_refusals(&self) -> Seq<MemoryError> {
        self.refused@
    }

    /// The stored links, oldest first.
    pub closed spec fn entries(&self) -> Seq<StoredLink> {
        self.links@
    }

    /// How many links the backend holds at most.
    pub closed spec fn limit(&self) -> nat {
        self.capacity as nat
    }

    /// The sessions handed out so far, oldest first.
    pub closed spec fn handed_out(&self) -> Seq<Session> {
        self.sessions@
    }

    /// The links that were issued and not consumed since.
    pub closed spec fn pending_links(&self) -> Links<String> {
        links_of(self.links@)
    }

    /// The registrations that were started and not finished since.
    pub closed spec fn pending_registrations(&self) -> States<PasskeyRegistration> {
        self.registrations.states()
    }

    /// The authentications that were started and not finished since.
    pub closed spec fn pending_authentications(&self) -> States<PasskeyAuthentication> {
        self.authentications.states()
    }

    /// Whether `after` differs from this backend in pending links at most.
    pub open spec fn same_but_links(&self, after: &Self) -> bool {
        &&& after.limit() == self.limit()
        &&& after.handed_out() == self.handed_out()
        &&& after.sessions() == self.sessions()
        &&& after.pending_registrations() == self.pending_registrations()
        &&& after.pending_authentications() == self.pending_authentications()
    }

    /// An empty backend that holds up to `capacity` links.
    pub fn new(capacity: usize) -> (backend: MemoryBackend)
        ensures
            backend.wf(),
            backend.limit() == capacity,
            backend.entries().len() == 0,
            backend.handed_out().len() == 0,
            backend.pending_links() == Map::<Seq<char>, LinkRecord<String>>::empty(),
            backend.sessions() == Seq::<SessionRecord<String>>::empty(),
            backend.pending_registrations() == Map::<u128, PasskeyRegistration>::empty(),
            backend.pending_authentications() == Map::<u128, PasskeyAuthentication>::empty(),
            backend.issue_refusals() == Seq::<MemoryError>::empty(),
    {
        let backend = MemoryBackend {
            links: Vec::new(),
            capacity,
            sessions: Vec::new(),
            registrations: Ceremonies::new(),
            authentications: Ceremonies::new(),
            refused: Ghost(Seq::empty()),
        };
        assert(backend.pending_links() =~= Map::<Seq<char>, LinkRecord<String>>::empty());
        assert(backend.sessions() =~= Seq::<SessionRecord<String>>::empty());
        backend
    }

    /// How many links are stored, those past their deadline included.
    pub fn stored(&self) -> (n: usize)
        ensures
            n == self.entries().len(),
    {
        self.links.len()
    }

    /// The sessions handed out so far, oldest first.
    pub fn created_sessions(&self) -> (sessions: &Vec<Session>)
        ensures
            sessions@ == self.handed_out(),
    {
        &self.sessions
    }

    /// Whether a registration is pending for `user_id`.
    pub fn has_registration(&self, user_id: u128) -> (b: bool)
        requires
            self.wf(),
        ensures
            b == self.pending_registrations().contains_key(user_id),
    {
        self.registrations.is_pending(user_id)
    }

    /// Whether an authentication is pending for `user_id`.
    pub fn has_authentication(&self, user_id: u128) -> (b: bool)
        requires
            self.wf(),
        ensures
            b == self.pending_authentications().contains_key(user_id),
    {
        self.authentications.is_pending(user_id)
    }

    /// The place of the entry that carries `token`, if there is one.
    fn find(&self, token: &str) -> (place: Option<usize>)
        requires
            self.wf(),
        ensures
            match place {
                Some(i) => i < self.entries().len() && self.entries()[i as int].token@ == token@,
                None => !tokens_of(self.entries()).contains(token@),
            },
            place is Some <==> self.pending_links().contains_key(token@),
            place matches Some(i) ==> self.pending_links()[token@] == record_of(
                self.entries()[i as int],
            ),
    {
        let wanted = String::from_str(token);
        let mut i: usize = 0;
        while i < self.links.len()
            invariant
                self.wf(),
                i <= self.links.len(),
                wanted@ == token@,
                forall|k: int| 0 <= k < i ==> (#[trigger] self.links@[k]).token@ != token@,
            decreases self.links.len() - i,
        {
            if self.links[i].token == wanted {
                proof {
                    assert(tokens_of(self.links@)[i as int] == token@);
                    lemma_found(tokens_of(self.links@), records_of(self.links@), i as int);
                }
                return Some(i);
            }
            i = i + 1;
        }
        proof {
            let tokens = tokens_of(self.links@);
            if tokens.contains(token@) {
                let k = choose|k: int| 0 <= k < tokens.len() && tokens[k] == token@;
                assert(self.links@[k].token@ == token@);
            }
        }
        None
    }

    /// Issues `token` for `data` until `expires_at`.
    ///
    /// A token that is stored already is issued anew in its place. A new
    /// token is refused with `Full` where the backend holds as many links as
    /// it was made for.
    pub fn issue(&mut self, token: &str, data: &String, expires_at: Instant) -> (r: Result<
        (),
        MemoryError,
    >)
        requires
            old(self).wf(),
            expires_at.wf(),
        ensures
            final(self).wf(),
            old(self).same_but_links(final(self)),
            r == if old(self).pending_links().contains_key(token@) || old(self).entries().len()
                < old(self).limit() {
                Ok::<(), MemoryError>(())
            } else {
                Err::<(), MemoryError>(MemoryError::Full)
            },
            r is Ok ==> final(self).pending_links() == issue(
                old(self).pending_links(),
                token@,
                *data,
                expires_at,
            ),
            r is Ok ==> final(self).issue_refusals() == old(self).issue_refusals(),
            r is Err ==> final(self).entries() == old(self).entries(),
            r is Err ==> final(self).pending_links() == old(self).pending_links(),
            r is Err ==> final(self).issue_refusals() == old(self).issue_refusals().push(
                MemoryError::Full,
            ),
    {
        let ghost tokens = tokens_of(self.links@);
        let ghost records = records_of(self.links@);
        let entry = StoredLink { token: String::from_str(token), data: data.clone(), expires_at };
        match self.find(token) {
            Some(i) => {
                self.links.set(i, entry);
                proof {
                    lemma_updated(tokens, records, i as int, record_of(entry));
                    assert(tokens_of(self.links@) =~= tokens);
                    assert(records_of(self.links@) =~= records.update(i as int, record_of(entry)));
                }
                Ok(())
            },
            None => {
                if self.links.len() < self.capacity {
                    self.links.push(entry);
                    proof {
                        lemma_pushed(tokens, records, token@, record_of(entry));
                        assert(tokens_of(self.links@) =~= tokens.push(token@));
                        assert(records_of(self.links@) =~= records.push(record_of(entry)));
                    }
                    Ok(())
                } else {
                    proof {
                        self.refused@ = self.refused@.push(MemoryError::Full);
                    }
                    Err(MemoryError::Full)
                }
            },
        }
    }

    /// Drops every link whose deadline has passed at the moment `now`.
    ///
    /// No answer at `now` or later depends on whether this was done.
    pub fn purge_expired(&mut self, now: Instant)
        requires
            old(self).wf(),
            now.wf(),
        ensures
            final(self).wf(),
            old(self).same_but_links(final(self)),
            final(self).issue_refusals() == old(self).issue_refusals(),
            final(self).pending_links() == purged(old(self).pending_links(), now),
            final(self).entries().len() <= old(self).entries().len(),
    {
        let mut i: usize = 0;
        while i < self.links.len()
            invariant
                self.wf(),
                now.wf(),
                old(self).same_but_links(self),
                self.issue_refusals() == old(self).issue_refusals(),
                i <= self.links.len(),
                self.links.len() <= old(self).links.len(),
                purged(self.pending_links(), now) == purged(old(self).pending_links(), now),
                forall|k: int|
                    0 <= k < i ==> now.as_nanos() < (
                    #[trigger] self.links@[k]).expires_at.as_nanos(),
            decreases self.links.len() - i,
        {
            let ghost tokens = tokens_of(self.links@);
            let ghost records = records_of(self.links@);
            let ghost before = self.pending_links();
            proof {
                lemma_found(tokens, records, i as int);
            }
            if now.is_before(&self.links[i].expires_at) {
                i = i + 1;
            } else {
                let ghost gone = self.links@[i as int].token@;
                let _ = self.links.remove(i);
                proof {
                    lemma_removed(tokens, records, i as int);
                    assert(tokens_of(self.links@) =~= tokens.remove(i as int));
                    assert(records_of(self.links@) =~= records.remove(i as int));
                    lemma_purging_the_dead(before, gone, now);
                }
            }
        }
        proof {
            let tokens = tokens_of(self.links@);
            let records = records_of(self.links@);
            assert forall|token: Seq<char>| self.pending_links().contains_key(token) implies live(
                self.pending_links(),
                token,
                now,
            ) by {
                let k = choose|k: int| 0 <= k < tokens.len() && tokens[k] == token;
                lemma_found(tokens, records, k);
            }
            assert(purged(self.pending_links(), now) =~= self.pending_links());
        }
    }

    /// Creates a session from `data` that lapses at `expires_at`.
    fn open_session(&mut self, data: String, expires_at: Instant) -> (r: Result<
        Session,
        MemoryError,
    >)
        requires
            old(self).wf(),
            expires_at.wf(),
        ensures
            final(self).wf(),
            final(self).limit() == old(self).limit(),
            final(self).entries() == old(self).entries(),
            final(self).pending_links() == old(self).pending_links(),
            final(self).pending_registrations() == old(self).pending_registrations(),
            final(self).pending_authentications() == old(self).pending_authentications(),
            final(self).issue_refusals() == old(self).issue_refusals(),
            r == Ok::<Session, MemoryError>(
                Session { id: old(self).handed_out().len() as usize, data, expires_at },
            ),
            final(self).handed_out() == old(self).handed_out().push(
                Session { id: old(self).handed_out().len() as usize, data, expires_at },
            ),
            final(self).sessions() == old(self).sessions().push(SessionRecord { data, expires_at }),
    {
        let id = self.sessions.len();
        let session = Session { id, data: data.clone(), expires_at };
        self.sessions.push(Session { id, data, expires_at });
        assert(self.sessions() =~= old(self).sessions().push(SessionRecord { data, expires_at }));
        Ok(session)
    }
}

impl SessionBackend for MemoryBackend {
    type Session = Session;

    type SessionData = String;

    type Error = MemoryError;

    closed spec fn wf(&self) -> bool {
        &&& distinct(tokens_of(self.links@))
        &&& self.links@.len() <= self.capacity
        &&& forall|i: int|
            0 <= i < self.links@.len() ==> (#[trigger] self.links@[i]).expires_at.wf()
        &&& forall|i: int| 0 <= i < self.sessions@.len() ==> (#[trigger] self.sessions@[i]).id == i
        &&& self.registrations.wf()
        &&& self.authentications.wf()
    }

    closed spec fn sessions(&self) -> Seq<SessionRecord<String>> {
        self.sessions@.map_values(
            |s: Session| SessionRecord { data: s.data, expires_at: s.expires_at },
        )
    }

    fn new_session(&mut self, data: String, expires_at: Instant) -> (r: Result<
        Session,
        MemoryError,
    >)
        ensures
            final(self).pending_links() == old(self).pending_links(),
            final(self).pending_registrations() == old(self).pending_registrations(),
            final(self).pending_authentications() == old(self).pending_authentications(),
            r == Ok::<Session, MemoryError>(
                Session { id: old(self).handed_out().len() as usize, data, expires_at },
            ),
    {
        self.open_session(data, expires_at)
    }
}

impl MagicLinkSession for MemoryBackend {
    type MagicLinkData = String;

    open spec fn links(&self) -> Links<String> {
        self.pending_links()
    }

    open spec fn refusals(&self) -> Seq<MemoryError> {
        self.issue_refusals()
    }

    open spec fn is_not_found(e: MemoryError) -> bool {
        e is NotFound
    }

    /// Creating a session in memory never fails.
    open spec fn is_session_failure(e: MemoryError) -> bool {
        false
    }

    open spec fn session_data(data: String) -> String {
        data
    }

    fn generate_magic_link(&mut self, data: &String, expires_at: Instant) -> (r: Result<
        MagicLink,
        MemoryError,
    >)
        ensures
            old(self).same_but_links(final(self)),
            r matches Ok(link) ==> is_token(link.token@),
            r is Err ==> r->Err_0 == MemoryError::Full && old(self).entries().len() >= old(
                self,
            ).limit(),
            old(self).entries().len() < old(self).limit() ==> r is Ok,
    {
        let link = MagicLink::new();
        match self.issue(link.token.as_str(), data, expires_at) {
            Ok(()) => Ok(link),
            Err(e) => Err(e),
        }
    }

    fn verify_magic_link(&self, token: &str, now: Instant) -> (r: Result<String, MemoryError>)
        ensures
            r == match peek(self.pending_links(), token@, now) {
                Some(data) => Ok::<String, MemoryError>(data),
                None => Err::<String, MemoryError>(MemoryError::NotFound),
            },
    {
        match self.find(token) {
            None => Err(MemoryError::NotFound),
            Some(i) => {
                if now.is_before(&self.links[i].expires_at) {
                    Ok(self.links[i].data.clone())
                } else {
                    Err(MemoryError::NotFound)
                }
            },
        }
    }

    fn consume_magic_link(&mut self, token: &str, session_expires_at: Instant, now: Instant) -> (r:
        Result<Session, MemoryError>)
        ensures
            final(self).limit() == old(self).limit(),
            final(self).pending_registrations() == old(self).pending_registrations(),
            final(self).pending_authentications() == old(self).pending_authentications(),
            final(self).pending_links() == take(old(self).pending_links(), token@),
            match peek(old(self).pending_links(), token@, now) {
                Some(data) => {
                    &&& r == Ok::<Session, MemoryError>(
                        Session {
                            id: old(self).handed_out().len() as usize,
                            data,
                            expires_at: session_expires_at,
                        },
                    )
                    &&& final(self).sessions() == old(self).sessions().push(
                        SessionRecord { data, expires_at: session_expires_at },
                    )
                },
                None => {
                    &&& r == Err::<Session, MemoryError>(MemoryError::NotFound)
                    &&& final(self).sessions() == old(self).sessions()
                    &&& final(self).handed_out() == old(self).handed_out()
                },
            },
    {
        let ghost tokens = tokens_of(self.links@);
        let ghost records = records_of(self.links@);
        match self.find(token) {
            None => {
                proof {
                    lemma_absent(tokens, records, token@);
                }
                Err(MemoryError::NotFound)
            },
            Some(i) => {
                let entry = self.links.remove(i);
                proof {
                    lemma_removed(tokens, records, i as int);
                    assert(tokens_of(self.links@) =~= tokens.remove(i as int));
                    assert(records_of(self.links@) =~= records.remove(i as int));
                }
                if now.is_before(&entry.expires_at) {
                    self.open_session(entry.data, session_expires_at)
                } else {
                    Err(MemoryError::NotFound)
                }
            },
        }
    }
}

impl PasskeySession for MemoryBackend {
    open spec fn registrations(&self) -> States<PasskeyRegistration> {
        self.pending_registrations()
    }

    open spec fn authentications(&self) -> States<PasskeyAuthentication> {
        self.pending_authentications()
    }

    fn remove_registration_state(&mut self, user_id: u128)
        ensures
            final(self).pending_links() == old(self).pending_links(),
    {
        self.registrations.remove(user_id);
    }

    fn set_registration_state(&mut self, user_id: u128, state: PasskeyRegistration)
        ensures
            final(self).pending_links() == old(self).pending_links(),
    {
        self.registrations.set(user_id, state);
    }

    fn consume_registration_state(&mut self, user_id: u128) -> (state: Option<
        PasskeyRegistration,
    >)
        ensures
            final(self).pending_links() == old(self).pending_links(),
            old(self).pending_registrations().contains_key(user_id) ==> state is Some,
    {
        self.registrations.consume(user_id)
    }

    fn remove_auth_state(&mut self, user_id: u128)
        ensures
            final(self).pending_links() == old(self).pending_links(),
    {
        self.authentications.remove(user_id);
    }

    fn set_auth_state(&mut self, user_id: u128, state: PasskeyAuthentication)
        ensures
            final(self).pending_links() == old(self).pending_links(),
    {
        self.authentications.set(user_id, state);
    }

    fn consume_auth_state(&mut self, user_id: u128) -> (state: Option<PasskeyAuthentication>)
        ensures
            final(self).pending_links() == old(self).pending_links(),
            old(self).pending_authentications().contains_key(user_id) ==> state is Some,
    {
        self.authentications.consume(user_id)
    }
}

/// A notification that an outbox took.
pub struct Message {
    pub to: String,
    pub url: String,
}

/// The one way an outbox fails: it holds as many messages as it was made
/// for.
#[derive(Clone, Copy, Debug, PartialEq, Eq, Structural)]
pub struct OutboxFull;

/// A mailer that keeps what it is given, up to a number of messages.
pub struct Outbox {
    messages: Vec<Message>,
    capacity: usize,
    history: Ghost<Seq<Attempt<OutboxFull>>>,
}

impl Outbox {
    /// The messages taken so far, oldest first.
    pub closed spec fn taken(&self) -> Seq<Message> {
        self.messages@
    }

    /// How many messages the outbox holds at most.
    pub closed spec fn limit(&self) -> nat {
        self.capacity as nat
    }

    /// An empty outbox that takes up to `capacity` messages.
    pub fn new(capacity: usize) -> (outbox: Outbox)
        ensures
            outbox.wf(),
            outbox.limit() == capacity,
            outbox.taken() == Seq::<Message>::empty(),
            outbox.attempts() == Seq::<Attempt<OutboxFull>>::empty(),
    {
        Outbox { messages: Vec::new(), capacity, history: Ghost(Seq::empty()) }
    }

    /// The messages taken so far, oldest first.
    pub fn messages(&self) -> (messages: &Vec<Message>)
        ensures
            messages@ == self.taken(),
    {
        &self.messages
    }
}

impl SendEmail for Outbox {
    type Error = OutboxFull;

    closed spec fn wf(&self) -> bool {
        self.messages@.len() <= self.capacity
    }

    closed spec fn attempts(&self) -> Seq<Attempt<OutboxFull>> {
        self.history@
    }

    fn send_email(&mut self, to_email: &str, url: &str) -> (r: Result<(), OutboxFull>)
        ensures
            final(self).limit() == old(self).limit(),
            r is Ok <==> old(self).taken().len() < old(self).limit(),
            r is Ok ==> final(self).taken().len() == old(self).taken().len() + 1
                && final(self).taken().last().to@ == to_email@
                && final(self).taken().last().url@ == url@
                && final(self).taken().drop_last() == old(self).taken(),
            r is Err ==> final(self).taken() == old(self).taken(),
    {
        let delivered = self.messages.len() < self.capacity;
        proof {
            let refusal = if delivered {
                None
            } else {
                Some(OutboxFull)
            };
            self.history@ = self.history@.push(Attempt { to: to_email@, url: url@, refusal });
        }
        if delivered {
            self.messages.push(
                Message { to: String::from_str(to_email), url: String::from_str(url) },
            );
            assert(self.messages@.drop_last() == old(self).messages@);
            Ok(())
        } else {
            Err(OutboxFull)
        }
    }
}

} // verus!
