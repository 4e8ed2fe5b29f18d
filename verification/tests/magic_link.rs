use passwordless::memory::{MemoryBackend, MemoryError, Outbox, OutboxFull};
use passwordless::strategy::magic_link::{
    link_issued, link_sent, normalize_prefix, redemption_url, Config, Error, MagicLink,
    MagicLinkSession, MagicLinkStrategy,
};
use passwordless::time::{Duration, Instant};

const PREFIX: &str = "https://example.com/auth/";

fn strategy(prefix: &str, links: usize, mails: usize) -> MagicLinkStrategy<Outbox, MemoryBackend> {
    MagicLinkStrategy::new(Config {
        mailer: Outbox::new(mails),
        session_backend: MemoryBackend::new(links),
        url_prefix: prefix.to_string(),
        link_expiry: Duration::seconds(900),
        session_expiry: Duration::seconds(3600),
    })
}

fn at(secs: i64) -> Instant {
    Instant { secs, nanos: 0 }
}

/// Sends a link at the second `secs` and returns its token, read from the URL
/// that the outbox took.
fn send(
    s: &mut MagicLinkStrategy<Outbox, MemoryBackend>,
    data: &str,
    to: &str,
    secs: i64,
) -> String {
    let before = s.mailer().messages().len();
    assert!(s.send_email_at(&data.to_string(), to, at(secs)).is_ok());
    let sent = &s.mailer().messages()[before];
    assert_eq!(sent.to, to);
    assert!(sent.url.starts_with(s.url_prefix()));
    sent.url[s.url_prefix().len()..].to_string()
}

fn is_token(token: &str) -> bool {
    let chars: Vec<char> = token.chars().collect();
    chars.len() == 32
        && chars.iter().all(|c| c.is_ascii_digit() || ('a'..='f').contains(c))
        && chars[12] == '4'
        && matches!(chars[16], '8' | '9' | 'a' | 'b')
}

#[test]
fn url_prefix_gains_a_separator() {
    let mut s = strategy("https://example.com/auth", 4, 4);
    assert_eq!(s.url_prefix(), "https://example.com/auth/");
    let token = send(&mut s, "alice", "alice@example.com", 1_000);
    assert!(is_token(&token));
    assert_eq!(s.mailer().messages()[0].url, format!("https://example.com/auth/{token}"));
}

#[test]
fn url_prefix_with_a_separator_is_kept() {
    let mut s = strategy("https://example.com/auth/", 4, 4);
    assert_eq!(s.url_prefix(), "https://example.com/auth/");
    let token = send(&mut s, "alice", "alice@example.com", 1_000);
    assert_eq!(s.mailer().messages()[0].url, format!("https://example.com/auth/{token}"));
    assert!(!s.mailer().messages()[0].url.contains("auth//"));
}

#[test]
fn normalize_prefix_leaves_one_separator() {
    assert_eq!(normalize_prefix("https://example.com/auth"), "https://example.com/auth/");
    assert_eq!(normalize_prefix("https://example.com/auth/"), "https://example.com/auth/");
    assert_eq!(normalize_prefix("https://example.com/auth///"), "https://example.com/auth/");
    assert_eq!(normalize_prefix(""), "/");
    assert_eq!(normalize_prefix("/"), "/");
    assert_eq!(normalize_prefix("//"), "/");
    assert_eq!(normalize_prefix("a/b"), "a/b/");
    assert_eq!(normalize_prefix("h\u{e9}llo/\u{1f511}"), "h\u{e9}llo/\u{1f511}/");
    assert_eq!(normalize_prefix("\u{1f511}//"), "\u{1f511}/");
}

#[test]
fn normalize_prefix_is_idempotent() {
    for prefix in ["", "/", "x", "x/", "x//", "https://example.com"] {
        let once = normalize_prefix(prefix);
        assert_eq!(normalize_prefix(&once), once);
        assert_eq!(normalize_prefix(&format!("{prefix}/")), once);
    }
}

#[test]
fn link_url_is_prefix_then_token() {
    let s = strategy("https://example.com/auth", 1, 1);
    assert_eq!(s.link_url("abc"), "https://example.com/auth/abc");
    assert_eq!(s.link_url(""), "https://example.com/auth/");
    assert_eq!(s.link_url("/x"), "https://example.com/auth//x");
}

#[test]
fn token_bytes_are_written_in_hex() {
    let link = MagicLink::from_bytes([
        0x00, 0x01, 0x9a, 0xbc, 0xde, 0xf0, 0x4f, 0x10, 0x80, 0x7f, 0xff, 0x12, 0x34, 0x56, 0x78,
        0x90,
    ]);
    assert_eq!(link.token, "00019abcdef04f10807fff1234567890");
    assert_eq!(MagicLink::from_bytes([0xff; 16]).token, "ffffffffffffffffffffffffffffffff");
    assert_eq!(MagicLink::from_bytes([0x0a; 16]).token, "0a0a0a0a0a0a0a0a0a0a0a0a0a0a0a0a");
}

#[test]
fn new_tokens_are_random_identifiers() {
    let a = MagicLink::new();
    let b = MagicLink::new();
    let c = MagicLink::default();
    assert!(is_token(&a.token));
    assert!(is_token(&b.token));
    assert!(is_token(&c.token));
    assert_ne!(a.token, b.token);
    assert_ne!(a.token, c.token);
}

#[test]
fn send_email_issues_one_link_and_sends_it_once() {
    let mut s = strategy(PREFIX, 4, 4);
    let token = send(&mut s, "alice", "alice@example.com", 1_000);
    assert_eq!(s.mailer().messages().len(), 1);
    assert_eq!(s.session_backend().stored(), 1);
    assert_eq!(s.session_backend().created_sessions().len(), 0);
    assert_eq!(s.session_backend().verify_magic_link(&token, at(1_000)), Ok("alice".to_string()));
}

#[test]
fn link_expires_after_the_link_lifetime() {
    let mut s = strategy(PREFIX, 4, 4);
    let token = send(&mut s, "alice", "alice@example.com", 1_000);
    // Issued at 1000 for 900 seconds: found until just before 1900.
    assert_eq!(
        s.session_backend().verify_magic_link(&token, Instant { secs: 1_899, nanos: 999_999_999 }),
        Ok("alice".to_string())
    );
    assert_eq!(s.session_backend().verify_magic_link(&token, at(1_900)), Err(MemoryError::NotFound));
    assert_eq!(s.session_backend().verify_magic_link(&token, at(1_901)), Err(MemoryError::NotFound));
}

#[test]
fn verify_token_does_not_spend_the_token() {
    let mut s = strategy(PREFIX, 4, 4);
    assert!(s.send_email(&"alice".to_string(), "alice@example.com").is_ok());
    let token = s.mailer().messages()[0].url[PREFIX.len()..].to_string();
    for _ in 0..5 {
        assert_eq!(s.verify_token(&token), Ok("alice".to_string()));
    }
    assert_eq!(s.session_backend().stored(), 1);
    let session = s.create_session(&token).unwrap();
    assert_eq!(session.data, "alice");
}

#[test]
fn token_is_single_use() {
    let mut s = strategy(PREFIX, 4, 4);
    assert!(s.send_email(&"alice".to_string(), "alice@example.com").is_ok());
    let token = s.mailer().messages()[0].url[PREFIX.len()..].to_string();
    let session = s.create_session(&token).unwrap();
    assert_eq!(session.id, 0);
    assert_eq!(session.data, "alice");
    assert_eq!(s.verify_token(&token), Err(MemoryError::NotFound));
    assert_eq!(s.create_session(&token).unwrap_err(), MemoryError::NotFound);
    assert_eq!(s.create_session(&token).unwrap_err(), MemoryError::NotFound);
    assert_eq!(s.session_backend().created_sessions().len(), 1);
}

#[test]
fn consumed_token_stays_dead_while_others_come_and_go() {
    let mut s = strategy(PREFIX, 4, 4);
    let first = send(&mut s, "alice", "alice@example.com", 1_000);
    assert!(s.create_session_at(&first, at(1_001)).is_ok());
    let second = send(&mut s, "bob", "bob@example.com", 1_002);
    assert_eq!(s.verify_token_at(&second, at(1_002)), Ok("bob".to_string()));
    assert!(s.create_session_at(&second, at(1_003)).is_ok());
    assert_eq!(s.session_backend().verify_magic_link(&first, at(1_004)), Err(MemoryError::NotFound));
    assert_eq!(s.create_session_at(&first, at(1_004)).unwrap_err(), MemoryError::NotFound);
}

#[test]
fn of_two_consumers_one_wins() {
    let mut s = strategy(PREFIX, 4, 4);
    let token = send(&mut s, "alice", "alice@example.com", 1_000);
    let first = s.create_session_at(&token, at(1_010));
    let second = s.create_session_at(&token, at(1_010));
    assert!(first.is_ok());
    assert_eq!(second.unwrap_err(), MemoryError::NotFound);
    assert_eq!(s.session_backend().created_sessions().len(), 1);
}

#[test]
fn expired_token_is_not_redeemed() {
    let mut s = strategy(PREFIX, 4, 4);
    let verified = send(&mut s, "alice", "alice@example.com", 1_000);
    let unverified = send(&mut s, "bob", "bob@example.com", 1_000);
    assert_eq!(s.session_backend().verify_magic_link(&verified, at(1_500)), Ok("alice".to_string()));
    assert_eq!(s.create_session_at(&verified, at(1_901)).unwrap_err(), MemoryError::NotFound);
    assert_eq!(s.create_session_at(&unverified, at(1_901)).unwrap_err(), MemoryError::NotFound);
    assert_eq!(s.session_backend().created_sessions().len(), 0);
    // An expired token that was asked for is gone for good.
    assert_eq!(s.create_session_at(&verified, at(1_100)).unwrap_err(), MemoryError::NotFound);
}

#[test]
fn session_lapses_after_the_session_lifetime() {
    let mut s = strategy(PREFIX, 4, 4);
    let token = send(&mut s, "alice", "alice@example.com", 1_000);
    let session = s
        .create_session_at(&token, Instant { secs: 1_200, nanos: 5 })
        .unwrap();
    assert_eq!(session.expires_at, Instant { secs: 4_800, nanos: 5 });
    assert_eq!(session.data, "alice");
    let kept = &s.session_backend().created_sessions()[0];
    assert_eq!(kept.id, 0);
    assert_eq!(kept.expires_at, Instant { secs: 4_800, nanos: 5 });
}

#[test]
fn unknown_token_is_not_found() {
    let mut s = strategy(PREFIX, 4, 4);
    assert_eq!(s.verify_token("deadbeef"), Err(MemoryError::NotFound));
    assert_eq!(s.create_session("deadbeef").unwrap_err(), MemoryError::NotFound);
    assert_eq!(s.verify_token(""), Err(MemoryError::NotFound));
}

#[test]
fn failed_mail_leaves_the_link_redeemable() {
    let mut s = strategy(PREFIX, 4, 1);
    let first = send(&mut s, "alice", "alice@example.com", 1_000);
    // The outbox is full now: the next link is issued and not delivered.
    let r = s.send_email_at(&"bob".to_string(), "bob@example.com", at(1_000));
    assert!(matches!(r, Err(Error::Email(OutboxFull))));
    assert_eq!(s.mailer().messages().len(), 1);
    assert_eq!(s.session_backend().stored(), 2);
    assert_eq!(s.session_backend().created_sessions().len(), 0);
    assert_eq!(s.session_backend().verify_magic_link(&first, at(1_001)), Ok("alice".to_string()));
}

#[test]
fn failed_backend_sends_nothing() {
    let mut s = strategy(PREFIX, 0, 4);
    let r = s.send_email(&"alice".to_string(), "alice@example.com");
    assert!(matches!(r, Err(Error::SessionBackend(MemoryError::Full))));
    assert_eq!(s.mailer().messages().len(), 0);
    assert_eq!(s.session_backend().stored(), 0);
    assert_eq!(s.session_backend().created_sessions().len(), 0);
}

#[test]
fn errors_describe_their_origin() {
    let email: Error<OutboxFull, MemoryError> = Error::Email(OutboxFull);
    let backend: Error<OutboxFull, MemoryError> = Error::SessionBackend(MemoryError::Full);
    assert_eq!(email.message(), "An error occurred sending magic link email");
    assert_eq!(backend.message(), "An error occurred with the session backend");
}

#[test]
fn an_issued_link_gives_the_url_to_send() {
    let link = MagicLink::from_bytes([0xab; 16]);
    let issued: Result<String, Error<OutboxFull, MemoryError>> =
        link_issued("https://example.com/auth/", Ok(link));
    assert!(matches!(
        issued,
        Ok(url) if url == "https://example.com/auth/abababababababababababababababab"
    ));
}

#[test]
fn a_refused_link_is_tagged_with_its_cause() {
    let refused: Result<String, Error<OutboxFull, MemoryError>> =
        link_issued("https://example.com/auth/", Err(MemoryError::Full));
    assert!(matches!(refused, Err(Error::SessionBackend(MemoryError::Full))));
    let refused: Result<String, Error<OutboxFull, &str>> = link_issued("p/", Err("down"));
    assert!(matches!(refused, Err(Error::SessionBackend("down"))));
}

#[test]
fn the_answer_of_the_mailer_is_tagged_with_its_cause() {
    let sent: Result<(), Error<&str, MemoryError>> = link_sent(Ok(()));
    assert!(sent.is_ok());
    let failed: Result<(), Error<&str, MemoryError>> = link_sent(Err("bounced"));
    assert!(matches!(failed, Err(Error::Email("bounced"))));
}

#[test]
fn each_link_has_its_own_token() {
    let mut s = strategy(PREFIX, 8, 8);
    let a = send(&mut s, "alice", "alice@example.com", 1_000);
    let b = send(&mut s, "alice", "alice@example.com", 1_000);
    assert_ne!(a, b);
    assert_eq!(s.session_backend().stored(), 2);
    assert!(s.create_session_at(&a, at(1_001)).is_ok());
    assert_eq!(s.session_backend().verify_magic_link(&b, at(1_001)), Ok("alice".to_string()));
}

#[test]
fn redemption_url_joins_prefix_and_token() {
    assert_eq!(redemption_url("https://example.com/auth/", "abc"), "https://example.com/auth/abc");
    assert_eq!(redemption_url("", "abc"), "abc");
    assert_eq!(redemption_url("p/", ""), "p/");
}
