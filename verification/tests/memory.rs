use passwordless::memory::{MemoryBackend, MemoryError, Outbox, OutboxFull};
use passwordless::session::SessionBackend;
use passwordless::strategy::magic_link::{MagicLinkSession, SendEmail};
use passwordless::time::Instant;

fn at(secs: i64) -> Instant {
    Instant { secs, nanos: 0 }
}

#[test]
fn issue_then_verify_then_consume() {
    let mut b = MemoryBackend::new(2);
    assert_eq!(b.issue("t1", &"alice".to_string(), at(100)), Ok(()));
    assert_eq!(b.stored(), 1);
    assert_eq!(b.verify_magic_link("t1", at(99)), Ok("alice".to_string()));
    assert_eq!(b.verify_magic_link("t1", at(99)), Ok("alice".to_string()));
    let session = b.consume_magic_link("t1", at(500), at(99)).unwrap();
    assert_eq!(session.id, 0);
    assert_eq!(session.data, "alice");
    assert_eq!(session.expires_at, at(500));
    assert_eq!(b.stored(), 0);
    assert_eq!(b.verify_magic_link("t1", at(99)), Err(MemoryError::NotFound));
    assert_eq!(b.consume_magic_link("t1", at(500), at(99)).unwrap_err(), MemoryError::NotFound);
}

#[test]
fn deadline_itself_is_too_late() {
    let mut b = MemoryBackend::new(2);
    let deadline = Instant { secs: 100, nanos: 500 };
    assert_eq!(b.issue("t1", &"alice".to_string(), deadline), Ok(()));
    assert_eq!(b.verify_magic_link("t1", Instant { secs: 100, nanos: 499 }), Ok("alice".to_string()));
    assert_eq!(b.verify_magic_link("t1", deadline), Err(MemoryError::NotFound));
    assert_eq!(b.verify_magic_link("t1", Instant { secs: 100, nanos: 501 }), Err(MemoryError::NotFound));
    assert_eq!(b.consume_magic_link("t1", at(900), deadline).unwrap_err(), MemoryError::NotFound);
    assert_eq!(b.created_sessions().len(), 0);
}

#[test]
fn consuming_an_expired_token_takes_it_out() {
    let mut b = MemoryBackend::new(2);
    assert_eq!(b.issue("t1", &"alice".to_string(), at(100)), Ok(()));
    assert_eq!(b.consume_magic_link("t1", at(900), at(200)).unwrap_err(), MemoryError::NotFound);
    assert_eq!(b.stored(), 0);
    assert_eq!(b.verify_magic_link("t1", at(50)), Err(MemoryError::NotFound));
}

#[test]
fn issuing_a_stored_token_replaces_it() {
    let mut b = MemoryBackend::new(1);
    assert_eq!(b.issue("t1", &"alice".to_string(), at(100)), Ok(()));
    assert_eq!(b.issue("t1", &"bob".to_string(), at(200)), Ok(()));
    assert_eq!(b.stored(), 1);
    assert_eq!(b.verify_magic_link("t1", at(150)), Ok("bob".to_string()));
}

#[test]
fn a_full_backend_refuses_new_tokens() {
    let mut b = MemoryBackend::new(2);
    assert_eq!(b.issue("t1", &"a".to_string(), at(100)), Ok(()));
    assert_eq!(b.issue("t2", &"b".to_string(), at(100)), Ok(()));
    assert_eq!(b.issue("t3", &"c".to_string(), at(100)), Err(MemoryError::Full));
    assert_eq!(b.stored(), 2);
    assert_eq!(b.verify_magic_link("t3", at(0)), Err(MemoryError::NotFound));
    assert_eq!(b.verify_magic_link("t1", at(0)), Ok("a".to_string()));
    assert_eq!(b.verify_magic_link("t2", at(0)), Ok("b".to_string()));
    assert!(b.consume_magic_link("t1", at(900), at(0)).is_ok());
    assert_eq!(b.issue("t3", &"c".to_string(), at(100)), Ok(()));
    assert_eq!(MemoryBackend::new(0).issue("t", &"x".to_string(), at(1)), Err(MemoryError::Full));
}

#[test]
fn consuming_one_token_leaves_the_others() {
    let mut b = MemoryBackend::new(3);
    assert_eq!(b.issue("t1", &"a".to_string(), at(100)), Ok(()));
    assert_eq!(b.issue("t2", &"b".to_string(), at(100)), Ok(()));
    assert_eq!(b.issue("t3", &"c".to_string(), at(100)), Ok(()));
    assert_eq!(b.consume_magic_link("t2", at(900), at(0)).unwrap().data, "b");
    assert_eq!(b.verify_magic_link("t1", at(0)), Ok("a".to_string()));
    assert_eq!(b.verify_magic_link("t3", at(0)), Ok("c".to_string()));
    assert_eq!(b.consume_magic_link("t1", at(900), at(0)).unwrap().id, 1);
    assert_eq!(b.consume_magic_link("t3", at(900), at(0)).unwrap().id, 2);
    assert_eq!(b.stored(), 0);
    assert_eq!(b.created_sessions().len(), 3);
    assert_eq!(b.created_sessions()[0].data, "b");
    assert_eq!(b.created_sessions()[1].data, "a");
    assert_eq!(b.created_sessions()[2].data, "c");
}

#[test]
fn purge_drops_the_expired_and_keeps_the_live() {
    let mut b = MemoryBackend::new(4);
    assert_eq!(b.issue("old", &"a".to_string(), at(100)), Ok(()));
    assert_eq!(b.issue("new", &"b".to_string(), at(300)), Ok(()));
    assert_eq!(b.issue("edge", &"c".to_string(), at(200)), Ok(()));
    assert_eq!(b.issue("late", &"d".to_string(), Instant { secs: 200, nanos: 1 }), Ok(()));
    b.purge_expired(at(200));
    assert_eq!(b.stored(), 2);
    assert_eq!(b.verify_magic_link("new", at(200)), Ok("b".to_string()));
    assert_eq!(b.verify_magic_link("late", at(200)), Ok("d".to_string()));
    assert_eq!(b.verify_magic_link("old", at(0)), Err(MemoryError::NotFound));
    assert_eq!(b.verify_magic_link("edge", at(0)), Err(MemoryError::NotFound));
    b.purge_expired(at(200));
    assert_eq!(b.stored(), 2);
    b.purge_expired(at(1_000));
    assert_eq!(b.stored(), 0);
}

#[test]
fn purge_makes_room_in_a_full_backend() {
    let mut b = MemoryBackend::new(1);
    assert_eq!(b.issue("t1", &"a".to_string(), at(100)), Ok(()));
    assert_eq!(b.issue("t2", &"b".to_string(), at(500)), Err(MemoryError::Full));
    b.purge_expired(at(100));
    assert_eq!(b.issue("t2", &"b".to_string(), at(500)), Ok(()));
}

#[test]
fn new_session_numbers_sessions_in_order() {
    let mut b = MemoryBackend::new(0);
    let first = b.new_session("alice".to_string(), at(10)).unwrap();
    let second = b.new_session("bob".to_string(), at(20)).unwrap();
    assert_eq!((first.id, first.data.as_str(), first.expires_at), (0, "alice", at(10)));
    assert_eq!((second.id, second.data.as_str(), second.expires_at), (1, "bob", at(20)));
    assert_eq!(b.created_sessions().len(), 2);
}

#[test]
fn generated_links_are_found_by_their_token() {
    let mut b = MemoryBackend::new(2);
    let link = b.generate_magic_link(&"alice".to_string(), at(100)).unwrap();
    assert_eq!(link.token.len(), 32);
    assert_eq!(b.stored(), 1);
    assert_eq!(b.verify_magic_link(&link.token, at(99)), Ok("alice".to_string()));
    let session = b.consume_magic_link(&link.token, at(500), at(99)).unwrap();
    assert_eq!(session.data, "alice");
    assert_eq!(b.verify_magic_link(&link.token, at(99)), Err(MemoryError::NotFound));
}

#[test]
fn a_full_backend_generates_no_link() {
    let mut b = MemoryBackend::new(1);
    assert!(b.generate_magic_link(&"alice".to_string(), at(100)).is_ok());
    assert!(matches!(b.generate_magic_link(&"bob".to_string(), at(100)), Err(MemoryError::Full)));
    assert_eq!(b.stored(), 1);
}

#[test]
fn outbox_takes_messages_up_to_its_capacity() {
    let mut o = Outbox::new(2);
    assert_eq!(o.send_email("a@example.com", "https://x/1"), Ok(()));
    assert_eq!(o.send_email("b@example.com", "https://x/2"), Ok(()));
    assert_eq!(o.send_email("c@example.com", "https://x/3"), Err(OutboxFull));
    assert_eq!(o.messages().len(), 2);
    assert_eq!(o.messages()[0].to, "a@example.com");
    assert_eq!(o.messages()[0].url, "https://x/1");
    assert_eq!(o.messages()[1].to, "b@example.com");
    assert_eq!(o.messages()[1].url, "https://x/2");
    assert_eq!(Outbox::new(0).send_email("a", "b"), Err(OutboxFull));
}
