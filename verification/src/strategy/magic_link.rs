//! Magic links: single-use tokens, sent as a URL, redeemed for a session.
//!
//! [`MagicLinkStrategy`] holds no state of its own. It asks a
//! [`MagicLinkSession`] backend to issue, verify and consume tokens, and a
//! [`SendEmail`] mailer to deliver the link. Each capability describes what it
//! has done so far by a mathematical model ([`MagicLinkSession::links`],
//! [`MagicLinkSession::refusals`], [`SessionBackend::sessions`],
//! [`SendEmail::attempts`]), and the contracts of the strategy say how each
//! operation moves those models.

use vstd::prelude::*;
use vstd::string::StrSliceExecFns;
use vstd::string::StringExecFns;
use crate::lifecycle::issue;
use crate::lifecycle::live;
use crate::lifecycle::peek;
use crate::lifecycle::take;
use crate::lifecycle::Links;
use crate::session::SessionBackend;
use crate::session::SessionRecord;
use crate::time::Duration;
use crate::time::Instant;

verus! {

/// The character that a nibble is written as: `0` to `9`, then `a` to `f`.
pub open spec fn hex_digit(nibble: u8) -> char {
    if nibble < 10 {
        (nibble + 48) as char
    } else {
        (nibble + 87) as char
    }
}

/// Whether `c` is one of `0` to `9` or `a` to `f`.
pub open spec fn is_lower_hex_digit(c: char) -> bool {
    ('0' <= c && c <= '9') || ('a' <= c && c <= 'f')
}

/// The bytes written in lowercase hexadecimal, two characters a byte, the
/// high nibble first, with nothing in between.
pub open spec fn lower_hex(bytes: Seq<u8>) -> Seq<char> {
    Seq::new(
        2 * bytes.len(),
        |i: int|
            if i % 2 == 0 {
                hex_digit(bytes[i / 2] >> 4)
            } else {
                hex_digit(bytes[i / 2] & 0x0f)
            },
    )
}

/// Whether `token` has the shape of a freshly drawn token: 32 lowercase
/// hexadecimal characters that spell a random (version 4) identifier.
pub open spec fn is_token(token: Seq<char>) -> bool {
    &&& token.len() == 32
    &&& forall|i: int| 0 <= i < 32 ==> is_lower_hex_digit(#[trigger] token[i])
    &&& token[12] == '4'
    &&& (token[16] == '8' || token[16] == '9' || token[16] == 'a' || token[16] == 'b')
}

/// Every nibble is written as a lowercase hexadecimal character.
pub proof fn lemma_hex_digit_is_lower_hex(nibble: u8)
    requires
        nibble < 16,
    ensures
        is_lower_hex_digit(hex_digit(nibble)),
{
}

/// Sixteen bytes that carry the marks of a random identifier are written as
/// a token.
pub proof fn lemma_lower_hex_is_token(bytes: Seq<u8>)
    requires
        bytes.len() == 16,
        bytes[6] >> 4 == 4,
        bytes[8] >> 6 == 2,
    ensures
        is_token(lower_hex(bytes)),
{
    let token = lower_hex(bytes);
    assert forall|i: int| 0 <= i < 32 implies is_lower_hex_digit(#[trigger] token[i]) by {
        let b = bytes[i / 2];
        assert(b >> 4 < 16) by (bit_vector);
        assert(b & 0x0f < 16) by (bit_vector);
        lemma_hex_digit_is_lower_hex(b >> 4);
        lemma_hex_digit_is_lower_hex(b & 0x0f);
    }
    let variant = bytes[8];
    assert(variant >> 6 == 2 ==> 8 <= variant >> 4 < 12) by (bit_vector);
    assert(token[12] == hex_digit(bytes[6] >> 4));
    assert(token[16] == hex_digit(bytes[8] >> 4));
}

/// Draws sixteen random bytes with `uuid::Uuid::new_v4`.
///
/// Which bytes come back is left open. What is claimed is what `uuid` sets in
/// every identifier it draws: the version nibble is 4 and the two variant
/// bits are `10`.
///
/// `uuid` takes the bytes from the random source of the operating system and
/// panics where that source fails.
#[verifier::external_body]
fn random_v4_bytes() -> (bytes: [u8; 16])
    ensures
        bytes@[6] >> 4 == 4,
        bytes@[8] >> 6 == 2,
{
    uuid::Uuid::new_v4().into_bytes()
}

/// Writes sixteen bytes as `uuid` writes an identifier in its simple form,
/// `Uuid::as_simple` followed by `to_string`: 32 lowercase hexadecimal
/// characters without hyphens.
#[verifier::external_body]
fn simple_hex(bytes: [u8; 16]) -> (text: String)
    ensures
        text@ == lower_hex(bytes@),
{
    uuid::Uuid::from_bytes(bytes).as_simple().to_string()
}

/// A magic link: the token that stands for it.
pub struct MagicLink {
    pub token: String,
}

impl MagicLink {
    /// A link with a freshly drawn random token.
    pub fn new() -> (link: MagicLink)
        ensures
            is_token(link.token@),
    {
        let bytes = random_v4_bytes();
        proof {
            lemma_lower_hex_is_token(bytes@);
        }
        MagicLink::from_bytes(bytes)
    }

    /// The link whose token spells `bytes`.
    pub fn from_bytes(bytes: [u8; 16]) -> (link: MagicLink)
        ensures
            link.token@ == lower_hex(bytes@),
    {
        MagicLink { token: simple_hex(bytes) }
    }
}

impl Default for MagicLink {
    fn default() -> (link: MagicLink)
        ensures
            is_token(link.token@),
    {
        MagicLink::new()
    }
}

/// One attempt to notify a recipient.
pub struct Attempt<E> {
    /// The address the notification was meant for.
    pub to: Seq<char>,
    /// The URL it carried.
    pub url: Seq<char>,
    /// Why the mailer did not take the notification, where it did not.
    pub refusal: Option<E>,
}

/// The cause that a failed answer carries, and nothing for a success.
pub open spec fn cause_of<T, E>(answer: Result<T, E>) -> Option<E> {
    match answer {
        Ok(_) => None,
        Err(cause) => Some(cause),
    }
}

/// The notification capability: something that can send a URL to an address.
pub trait SendEmail {
    /// How sending fails.
    type Error;

    /// Whether the mailer is in a state that it may send from.
    spec fn wf(&self) -> bool;

    /// Every attempt made through this mailer so far, oldest first.
    spec fn attempts(&self) -> Seq<Attempt<Self::Error>>;

    /// Attempts once to send `url` to `to_email`.
    fn send_email(&mut self, to_email: &str, url: &str) -> (r: Result<(), Self::Error>)
        requires
            old(self).wf(),
        ensures
            final(self).wf(),
            final(self).attempts() == old(self).attempts().push(
                Attempt { to: to_email@, url: url@, refusal: cause_of(r) },
            ),
    ;
}

/// The magic-link capability of a session backend: issue, verify, consume.
pub trait MagicLinkSession: SessionBackend {
    /// What a link is issued for.
    type MagicLinkData;

    /// The links that were issued and not consumed since.
    spec fn links(&self) -> Links<Self::MagicLinkData>;

    /// Every refusal to issue a link so far, oldest first, each by its
    /// cause.
    spec fn refusals(&self) -> Seq<Self::Error>;

    /// Whether `e` says that a token was not found.
    spec fn is_not_found(e: Self::Error) -> bool;

    /// Whether `e` says that a session could not be created.
    spec fn is_session_failure(e: Self::Error) -> bool;

    /// What the session of a redeemed link is created from.
    spec fn session_data(data: Self::MagicLinkData) -> Self::SessionData;

    /// Issues a link for `data` under a fresh token, to be honoured until
    /// `expires_at`.
    fn generate_magic_link(&mut self, data: &Self::MagicLinkData, expires_at: Instant) -> (r:
        Result<MagicLink, Self::Error>)
        requires
            old(self).wf(),
            expires_at.wf(),
        ensures
            final(self).wf(),
            final(self).sessions() == old(self).sessions(),
            match r {
                Ok(link) => {
                    &&& final(self).links() == issue(
                        old(self).links(),
                        link.token@,
                        *data,
                        expires_at,
                    )
                    &&& final(self).refusals() == old(self).refusals()
                },
                Err(cause) => {
                    &&& final(self).links() == old(self).links()
                    &&& final(self).refusals() == old(self).refusals().push(cause)
                },
            },
    ;

    /// Looks at `token` at the moment `now`, without spending it.
    ///
    /// Only a live token is answered with its data. A token that is not
    /// live is refused as not found, and a live token never is: where a look
    /// at a live token fails, it fails for another reason.
    fn verify_magic_link(&self, token: &str, now: Instant) -> (r: Result<
        Self::MagicLinkData,
        Self::Error,
    >)
        requires
            self.wf(),
            now.wf(),
        ensures
            r matches Ok(data) ==> peek(self.links(), token@, now) == Some(data),
            peek(self.links(), token@, now) is None ==> r is Err && Self::is_not_found(r->Err_0),
            peek(self.links(), token@, now) is Some ==> r is Ok || !Self::is_not_found(r->Err_0),
    ;

    /// Takes `token` out of the pending links at the moment `now` and, in
    /// the same step, creates from its data a session that lapses at
    /// `session_expires_at`.
    ///
    /// Only a live token is redeemed. A token that is not live is refused
    /// as not found, and a live token never is: where the redemption of a
    /// live token fails, it fails for another reason. The token is taken
    /// out before the session is created, so that a failure to create the
    /// session leaves the token spent. Whatever the outcome, no other token
    /// is touched.
    fn consume_magic_link(&mut self, token: &str, session_expires_at: Instant, now: Instant) -> (r:
        Result<Self::Session, Self::Error>)
        requires
            old(self).wf(),
            session_expires_at.wf(),
            now.wf(),
        ensures
            final(self).wf(),
            final(self).refusals() == old(self).refusals(),
            r is Ok ==> {
                &&& live(old(self).links(), token@, now)
                &&& final(self).links() == take(old(self).links(), token@)
                &&& final(self).sessions() == old(self).sessions().push(
                    SessionRecord {
                        data: Self::session_data(old(self).links()[token@].data),
                        expires_at: session_expires_at,
                    },
                )
            },
            r is Err ==> {
                &&& final(self).sessions() == old(self).sessions()
                &&& (final(self).links() == old(self).links() || final(self).links() == take(
                    old(self).links(),
                    token@,
                ))
            },
            !live(old(self).links(), token@, now) ==> r is Err && Self::is_not_found(r->Err_0),
            live(old(self).links(), token@, now) ==> r is Ok || !Self::is_not_found(r->Err_0),
            r matches Err(e) && Self::is_session_failure(e) ==> final(self).links() == take(
                old(self).links(),
                token@,
            ),
    ;
}

/// What a strategy is built from.
pub struct Config<M: SendEmail, S: MagicLinkSession> {
    pub mailer: M,
    pub session_backend: S,
    pub url_prefix: String,
    pub link_expiry: Duration,
    pub session_expiry: Duration,
}

/// Issues magic links by mail and redeems them for sessions.
pub struct MagicLinkStrategy<M: SendEmail, S: MagicLinkSession> {
    mailer: M,
    session_backend: S,
    url_prefix: String,
    link_expiry: Duration,
    session_expiry: Duration,
}

/// Why sending a magic link failed, by the capability that failed, with the
/// cause that the capability gave: `ME` is how the mailer fails, `SE` how the
/// backend does.
pub enum Error<ME, SE> {
    /// The mailer failed; the link had been issued.
    Email(ME),
    /// The backend failed; nothing was sent.
    SessionBackend(SE),
}

impl<ME, SE> Error<ME, SE> {
    /// The cause that the mailer gave where sending a link ended in `r`:
    /// the one that an `Email` error carries, and none otherwise.
    pub open spec fn email_cause(r: Result<(), Error<ME, SE>>) -> Option<ME> {
        match r {
            Err(Error::Email(cause)) => Some(cause),
            _ => None,
        }
    }

    /// The sentence that describes this error.
    pub open spec fn spec_message(self) -> Seq<char> {
        match self {
            Error::Email(_) => "An error occurred sending magic link email"@,
            Error::SessionBackend(_) => "An error occurred with the session backend"@,
        }
    }

    /// The sentence that describes this error.
    pub fn message(&self) -> (text: String)
        ensures
            text@ == self.spec_message(),
    {
        match self {
            Error::Email(_) => String::from_str("An error occurred sending magic link email"),
            Error::SessionBackend(_) => String::from_str(
                "An error occurred with the session backend",
            ),
        }
    }
}

/// `s` without the separators `/` at its end.
pub open spec fn trim_separators(s: Seq<char>) -> Seq<char>
    decreases s.len(),
{
    if s.len() > 0 && s.last() == '/' {
        trim_separators(s.drop_last())
    } else {
        s
    }
}

/// The prefix that a strategy keeps for `prefix`: the same text, ending in
/// exactly one separator.
pub open spec fn normalized(prefix: Seq<char>) -> Seq<char> {
    trim_separators(prefix).push('/')
}

/// What `trim_separators` returns does not end in a separator, and is what
/// it was given up to there.
pub proof fn lemma_trim_separators(s: Seq<char>)
    ensures
        trim_separators(s).len() <= s.len(),
        trim_separators(s) == s.subrange(0, trim_separators(s).len() as int),
        trim_separators(s).len() > 0 ==> trim_separators(s).last() != '/',
        forall|i: int| trim_separators(s).len() <= i < s.len() ==> s[i] == '/',
    decreases s.len(),
{
    if s.len() > 0 && s.last() == '/' {
        lemma_trim_separators(s.drop_last());
        let t = trim_separators(s);
        assert(t == s.drop_last().subrange(0, t.len() as int));
        assert(s.drop_last().subrange(0, t.len() as int) == s.subrange(0, t.len() as int));
        assert forall|i: int| t.len() <= i < s.len() implies s[i] == '/' by {
            if i < s.len() - 1 {
                assert(s.drop_last()[i] == s[i]);
            }
        }
    } else {
        assert(s == s.subrange(0, s.len() as int));
    }
}

/// URL normalisation: a normalised prefix ends in one separator and one
/// only, and a prefix given with a separator at its end is kept as the same
/// prefix given without.
pub proof fn law_one_trailing_separator(prefix: Seq<char>)
    ensures
        normalized(prefix).last() == '/',
        normalized(prefix).len() >= 2 ==> normalized(prefix)[normalized(prefix).len() - 2] != '/',
        normalized(prefix.push('/')) == normalized(prefix),
        normalized(normalized(prefix)) == normalized(prefix),
        prefix.len() == 0 || prefix.last() != '/' ==> normalized(prefix) == prefix.push('/'),
{
    lemma_trim_separators(prefix);
    let kept = trim_separators(prefix);
    assert(prefix.push('/').drop_last() == prefix);
    assert(kept.push('/').drop_last() == kept);
    assert(trim_separators(kept.push('/')) == trim_separators(kept));
    assert(trim_separators(kept) == kept);
}

/// The text of `prefix` up to the separators at its end, followed by one
/// separator.
pub fn normalize_prefix(prefix: &str) -> (out: String)
    ensures
        out@ == normalized(prefix@),
{
    let len = prefix.unicode_len();
    let mut end = len;
    assert(prefix@.subrange(0, len as int) == prefix@);
    while end > 0 && prefix.get_char(end - 1) == '/'
        invariant
            end <= len,
            len == prefix@.len(),
            trim_separators(prefix@) == trim_separators(prefix@.subrange(0, end as int)),
        decreases end,
    {
        proof {
            let head = prefix@.subrange(0, end as int);
            assert(head.last() == '/');
            assert(head.drop_last() == prefix@.subrange(0, end - 1));
        }
        end = end - 1;
    }
    proof {
        reveal_strlit("/");
    }
    let mut out = String::from_str(prefix.substring_char(0, end));
    out.append("/");
    proof {
        assert("/"@ == seq!['/']);
        assert(out@ == prefix@.subrange(0, end as int) + seq!['/']);
        assert(prefix@.subrange(0, end as int) + seq!['/'] == prefix@.subrange(
            0,
            end as int,
        ).push('/'));
    }
    out
}

/// The URL at which `token` is redeemed under `prefix`: the prefix followed
/// by the token, with nothing in between.
pub fn redemption_url(prefix: &str, token: &str) -> (url: String)
    ensures
        url@ == prefix@ + token@,
{
    let mut url = String::from_str(prefix);
    url.append(token);
    url
}

/// What follows from the answer of the backend to a request for a link:
/// the URL to send, which is `prefix` followed by the token of the link, or
/// a `SessionBackend` error with the cause that the backend gave.
pub fn link_issued<ME, SE>(prefix: &str, generated: Result<MagicLink, SE>) -> (r: Result<
    String,
    Error<ME, SE>,
>)
    ensures
        match generated {
            Ok(link) => r is Ok && r->Ok_0@ == prefix@ + link.token@,
            Err(cause) => r == Err::<String, Error<ME, SE>>(Error::SessionBackend(cause)),
        },
{
    match generated {
        Ok(link) => Ok(redemption_url(prefix, link.token.as_str())),
        Err(cause) => Err(Error::SessionBackend(cause)),
    }
}

/// What follows from the answer of the mailer to the one attempt to send a
/// link: success, or an `Email` error with the cause that the mailer gave.
pub fn link_sent<ME, SE>(answer: Result<(), ME>) -> (r: Result<(), Error<ME, SE>>)
    ensures
        match answer {
            Ok(_) => r is Ok,
            Err(cause) => r == Err::<(), Error<ME, SE>>(Error::Email(cause)),
        },
{
    match answer {
        Ok(()) => Ok(()),
        Err(cause) => Err(Error::Email(cause)),
    }
}

impl<M: SendEmail, S: MagicLinkSession> MagicLinkStrategy<M, S> {
    /// The mailer as it stands.
    pub closed spec fn mailer_state(&self) -> M {
        self.mailer
    }

    /// The backend as it stands.
    pub closed spec fn backend_state(&self) -> S {
        self.session_backend
    }

    /// The prefix that every redemption URL starts with.
    pub closed spec fn prefix(&self) -> Seq<char> {
        self.url_prefix@
    }

    /// How long an issued link is honoured.
    pub closed spec fn link_lifetime(&self) -> Duration {
        self.link_expiry
    }

    /// How long a session lives that a link was redeemed for.
    pub closed spec fn session_lifetime(&self) -> Duration {
        self.session_expiry
    }

    /// Both capabilities are ready and both lifetimes are well-formed
    /// durations.
    pub open spec fn wf(&self) -> bool {
        &&& self.mailer_state().wf()
        &&& self.backend_state().wf()
        &&& self.link_lifetime().wf()
        &&& self.session_lifetime().wf()
    }

    /// Whether `other` has the settings of this strategy: prefix and
    /// lifetimes.
    pub open spec fn same_settings(&self, other: &Self) -> bool {
        &&& self.prefix() == other.prefix()
        &&& self.link_lifetime() == other.link_lifetime()
        &&& self.session_lifetime() == other.session_lifetime()
    }

    /// The URL at which `token` is redeemed.
    pub open spec fn spec_link_url(&self, token: Seq<char>) -> Seq<char> {
        self.prefix() + token
    }

    /// What `send_email`, run at the moment `now`, may leave behind and
    /// return.
    ///
    /// No session is ever created. Where the backend refuses to issue a
    /// link, the error is `SessionBackend` with the cause of that refusal,
    /// and nothing else happens. Otherwise one link was issued for `data`, to
    /// be honoured for the link lifetime from `now`, and one attempt was made
    /// to send its URL to `to_email`: the answer of the mailer decides
    /// between success and an `Email` error with the cause that the mailer
    /// gave, and changes nothing about the link.
    pub open spec fn sent(
        before: &Self,
        after: &Self,
        data: S::MagicLinkData,
        to_email: Seq<char>,
        now: Instant,
        r: Result<(), Error<M::Error, S::Error>>,
    ) -> bool {
        let backend = before.backend_state();
        let mailer = before.mailer_state();
        &&& after.same_settings(before)
        &&& after.backend_state().sessions() == backend.sessions()
        &&& match r {
            Err(Error::SessionBackend(cause)) => {
                &&& after.backend_state().links() == backend.links()
                &&& after.backend_state().refusals() == backend.refusals().push(cause)
                &&& after.mailer_state().attempts() == mailer.attempts()
            },
            _ => exists|token: Seq<char>|
                {
                    &&& after.backend_state().links() == issue(
                        backend.links(),
                        token,
                        data,
                        now.spec_plus(before.link_lifetime()),
                    )
                    &&& after.backend_state().refusals() == backend.refusals()
                    &&& after.mailer_state().attempts() == mailer.attempts().push(
                        Attempt {
                            to: to_email,
                            url: #[trigger] before.spec_link_url(token),
                            refusal: Error::email_cause(r),
                        },
                    )
                },
        }
    }

    /// A notification that fails forges no session: where `send_email` ends
    /// in an `Email` error, no session was created, and the link that was
    /// issued is pending with the data and the deadline it would have after
    /// a delivery, so that it is found at every moment before that deadline.
    pub proof fn law_failed_notification_forges_nothing(
        before: &Self,
        after: &Self,
        data: S::MagicLinkData,
        to_email: Seq<char>,
        now: Instant,
        cause: M::Error,
    )
        requires
            now.wf(),
            before.link_lifetime().wf(),
            now.can_add(before.link_lifetime()),
            Self::sent(before, after, data, to_email, now, Err(Error::Email(cause))),
        ensures
            after.backend_state().sessions() == before.backend_state().sessions(),
            exists|token: Seq<char>|
                {
                    &&& #[trigger] after.backend_state().links().contains_key(token)
                    &&& after.backend_state().links() == issue(
                        before.backend_state().links(),
                        token,
                        data,
                        now.spec_plus(before.link_lifetime()),
                    )
                    &&& forall|at: Instant|
                        at.as_nanos() < now.as_nanos() + before.link_lifetime().as_nanos()
                            ==> #[trigger] peek(after.backend_state().links(), token, at) == Some(
                            data,
                        )
                },
    {
        Instant::lemma_plus_adds(now, before.link_lifetime());
        let token = choose|token: Seq<char>|
            {
                &&& after.backend_state().links() == issue(
                    before.backend_state().links(),
                    token,
                    data,
                    now.spec_plus(before.link_lifetime()),
                )
                &&& after.backend_state().refusals() == before.backend_state().refusals()
                &&& after.mailer_state().attempts() == before.mailer_state().attempts().push(
                    Attempt {
                        to: to_email,
                        url: #[trigger] before.spec_link_url(token),
                        refusal: Some(cause),
                    },
                )
            };
        assert(after.backend_state().links().contains_key(token));
    }

    /// What `create_session`, run at the moment `now`, may leave behind and
    /// return.
    ///
    /// The mailer is not touched. On success `token` was live at `now`, is
    /// pending no more, and one session was created from its data, to lapse
    /// after the session lifetime from `now`. On failure no session was
    /// created and no other token was touched; where it was the session
    /// that could not be created, the token is spent all the same. A token
    /// that is not live at `now` is refused as not found, and a live token
    /// never is.
    pub open spec fn redeemed(
        before: &Self,
        after: &Self,
        token: Seq<char>,
        now: Instant,
        r: Result<S::Session, S::Error>,
    ) -> bool {
        let backend = before.backend_state();
        &&& after.same_settings(before)
        &&& after.mailer_state() == before.mailer_state()
        &&& after.backend_state().refusals() == backend.refusals()
        &&& r is Ok ==> {
            &&& live(backend.links(), token, now)
            &&& after.backend_state().links() == take(backend.links(), token)
            &&& after.backend_state().sessions() == backend.sessions().push(
                SessionRecord {
                    data: S::session_data(backend.links()[token].data),
                    expires_at: now.spec_plus(before.session_lifetime()),
                },
            )
        }
        &&& r is Err ==> {
            &&& after.backend_state().sessions() == backend.sessions()
            &&& (after.backend_state().links() == backend.links()
                || after.backend_state().links() == take(backend.links(), token))
        }
        &&& !live(backend.links(), token, now) ==> r is Err && S::is_not_found(r->Err_0)
        &&& live(backend.links(), token, now) ==> r is Ok || !S::is_not_found(r->Err_0)
        &&& r is Err && S::is_session_failure(r->Err_0) ==> after.backend_state().links() == take(
            backend.links(),
            token,
        )
    }

    /// What `verify_token`, run at the moment `now`, may return.
    ///
    /// Only a live token is answered with its data. A token that is not
    /// live at `now` is refused as not found, and a live token never is.
    pub open spec fn looked(
        &self,
        token: Seq<char>,
        now: Instant,
        r: Result<S::MagicLinkData, S::Error>,
    ) -> bool {
        let links = self.backend_state().links();
        &&& r matches Ok(data) ==> peek(links, token, now) == Some(data)
        &&& peek(links, token, now) is None ==> r is Err && S::is_not_found(r->Err_0)
        &&& peek(links, token, now) is Some ==> r is Ok || !S::is_not_found(r->Err_0)
    }

    /// A live link is honoured: `verify_token` and `create_session` never
    /// refuse a live token as not found. Where they answer, a look yields
    /// the data of the link, and a redemption creates the session from that
    /// data; where they fail, the cause is another one.
    pub proof fn law_live_link_is_honoured(
        strategy: &Self,
        token: Seq<char>,
        now: Instant,
        seen: Result<S::MagicLinkData, S::Error>,
        after: &Self,
        redeemed: Result<S::Session, S::Error>,
    )
        requires
            live(strategy.backend_state().links(), token, now),
            strategy.looked(token, now, seen),
            Self::redeemed(strategy, after, token, now, redeemed),
        ensures
            seen is Ok || !S::is_not_found(seen->Err_0),
            seen matches Ok(data) ==> data == strategy.backend_state().links()[token].data,
            redeemed is Ok || !S::is_not_found(redeemed->Err_0),
            redeemed is Ok ==> after.backend_state().sessions().last().data == S::session_data(
                strategy.backend_state().links()[token].data,
            ),
    {
    }

    /// A redeemed link is spent: after `create_session` has succeeded for
    /// `token`, `verify_token` and `create_session` refuse it as not found,
    /// at whatever moment they are asked.
    pub proof fn law_redeemed_link_is_spent(
        before: &Self,
        after: &Self,
        token: Seq<char>,
        now: Instant,
        session: S::Session,
        later: Instant,
        seen: Result<S::MagicLinkData, S::Error>,
        last: &Self,
        again: Result<S::Session, S::Error>,
    )
        requires
            Self::redeemed(before, after, token, now, Ok(session)),
            after.looked(token, later, seen),
            Self::redeemed(after, last, token, later, again),
        ensures
            seen is Err && S::is_not_found(seen->Err_0),
            again is Err && S::is_not_found(again->Err_0),
            last.backend_state().sessions() == after.backend_state().sessions(),
    {
    }

    /// An expired link is refused: a link that was issued at `issued_at` is
    /// refused as not found by `verify_token` and by `create_session` at
    /// every moment after `issued_at` plus the link lifetime, and no session
    /// is created for it.
    pub proof fn law_expired_link_is_refused(
        issued: &Self,
        token: Seq<char>,
        issued_at: Instant,
        now: Instant,
        seen: Result<S::MagicLinkData, S::Error>,
        after: &Self,
        redeemed: Result<S::Session, S::Error>,
    )
        requires
            issued_at.wf(),
            issued.link_lifetime().wf(),
            issued_at.can_add(issued.link_lifetime()),
            issued.backend_state().links().contains_key(token) ==> ({
                let record = issued.backend_state().links()[token];
                record.expires_at == issued_at.spec_plus(issued.link_lifetime())
            }),
            now.as_nanos() > issued_at.as_nanos() + issued.link_lifetime().as_nanos(),
            issued.looked(token, now, seen),
            Self::redeemed(issued, after, token, now, redeemed),
        ensures
            seen is Err && S::is_not_found(seen->Err_0),
            redeemed is Err && S::is_not_found(redeemed->Err_0),
            after.backend_state().sessions() == issued.backend_state().sessions(),
    {
        Instant::lemma_plus_adds(issued_at, issued.link_lifetime());
    }

    /// Builds a strategy from `config`, with the URL prefix normalised to
    /// end in exactly one separator.
    pub fn new(config: Config<M, S>) -> (strategy: Self)
        requires
            config.mailer.wf(),
            config.session_backend.wf(),
            config.link_expiry.wf(),
            config.session_expiry.wf(),
        ensures
            strategy.wf(),
            strategy.mailer_state() == config.mailer,
            strategy.backend_state() == config.session_backend,
            strategy.prefix() == normalized(config.url_prefix@),
            strategy.link_lifetime() == config.link_expiry,
            strategy.session_lifetime() == config.session_expiry,
    {
        let Config { mailer, session_backend, url_prefix, link_expiry, session_expiry } = config;
        let url_prefix = normalize_prefix(url_prefix.as_str());
        MagicLinkStrategy { mailer, session_backend, url_prefix, link_expiry, session_expiry }
    }

    /// The mailer.
    pub fn mailer(&self) -> (mailer: &M)
        ensures
            *mailer == self.mailer_state(),
    {
        &self.mailer
    }

    /// The backend.
    pub fn session_backend(&self) -> (backend: &S)
        ensures
            *backend == self.backend_state(),
    {
        &self.session_backend
    }

    /// The prefix that every redemption URL starts with.
    pub fn url_prefix(&self) -> (prefix: &str)
        ensures
            prefix@ == self.prefix(),
    {
        self.url_prefix.as_str()
    }

    /// The URL at which `token` is redeemed: the prefix followed by the
    /// token.
    pub fn link_url(&self, token: &str) -> (url: String)
        ensures
            url@ == self.spec_link_url(token@),
    {
        redemption_url(self.url_prefix.as_str(), token)
    }

    /// Issues a link for `data` and sends its URL to `to_email`, taking
    /// `now` for the present moment.
    pub fn send_email_at(&mut self, data: &S::MagicLinkData, to_email: &str, now: Instant) -> (r:
        Result<(), Error<M::Error, S::Error>>)
        requires
            old(self).wf(),
            now.wf(),
            now.can_add(old(self).link_lifetime()),
        ensures
            final(self).wf(),
            Self::sent(old(self), final(self), *data, to_email@, now, r),
    {
        let link_expires_at = now.plus(self.link_expiry);
        let generated = self.session_backend.generate_magic_link(data, link_expires_at);
        let ghost issued = generated;
        match link_issued(self.url_prefix.as_str(), generated) {
            Err(e) => Err(e),
            Ok(url) => {
                let answer = self.mailer.send_email(to_email, url.as_str());
                let ghost answered = answer;
                let r = link_sent(answer);
                proof {
                    assert(url@ == old(self).spec_link_url(issued->Ok_0.token@));
                    assert(Error::<M::Error, S::Error>::email_cause(r) == cause_of(answered));
                }
                r
            },
        }
    }

    /// Issues a link for `data` and sends its URL to `to_email`.
    pub fn send_email(&mut self, data: &S::MagicLinkData, to_email: &str) -> (r: Result<
        (),
        Error<M::Error, S::Error>,
    >)
        requires
            old(self).wf(),
        ensures
            final(self).wf(),
            exists|now: Instant|
                now.is_clock_reading() && #[trigger] Self::sent(
                    old(self),
                    final(self),
                    *data,
                    to_email@,
                    now,
                    r,
                ),
    {
        let now = Instant::now();
        self.send_email_at(data, to_email, now)
    }

    /// Looks at `token` without spending it, taking `now` for the present
    /// moment.
    pub fn verify_token_at(&self, token: &str, now: Instant) -> (r: Result<
        S::MagicLinkData,
        S::Error,
    >)
        requires
            self.wf(),
            now.wf(),
        ensures
            self.looked(token@, now, r),
    {
        self.session_backend.verify_magic_link(token, now)
    }

    /// Looks at `token` without spending it.
    pub fn verify_token(&self, token: &str) -> (r: Result<S::MagicLinkData, S::Error>)
        requires
            self.wf(),
        ensures
            exists|now: Instant| now.is_clock_reading() && #[trigger] self.looked(token@, now, r),
    {
        let now = Instant::now();
        self.verify_token_at(token, now)
    }

    /// Redeems `token` for a session, taking `now` for the present moment.
    pub fn create_session_at(&mut self, token: &str, now: Instant) -> (r: Result<
        S::Session,
        S::Error,
    >)
        requires
            old(self).wf(),
            now.wf(),
            now.can_add(old(self).session_lifetime()),
        ensures
            final(self).wf(),
            Self::redeemed(old(self), final(self), token@, now, r),
    {
        let session_expires_at = now.plus(self.session_expiry);
        self.session_backend.consume_magic_link(token, session_expires_at, now)
    }

    /// Redeems `token` for a session.
    pub fn create_session(&mut self, token: &str) -> (r: Result<S::Session, S::Error>)
        requires
            old(self).wf(),
        ensures
            final(self).wf(),
            exists|now: Instant|
                now.is_clock_reading() && #[trigger] Self::redeemed(
                    old(self),
                    final(self),
                    token@,
                    now,
                    r,
                ),
    {
        let now = Instant::now();
        self.create_session_at(token, now)
    }
}

} // verus!
