//! Pending links in a key-value store whose entries expire.
//!
//! A backend over such a store keeps each pending link as one entry: the key
//! is built from a namespace and the token, the value is the data of the
//! link in serialised form, and the entry expires at the deadline of the
//! link, as closely as the store can be told. A link is consumed by a single
//! command that reads the entry and deletes it in one step, so that of two
//! consumers only one is handed the value. This module decides which command
//! each operation sends and what the reply means; sending it is left to
//! whoever holds the connection.

use vstd::prelude::*;
use vstd::string::StringExecFns;
use crate::time::Instant;

verus! {

/// The key under which the link with `token` is kept in `namespace`:
/// `<namespace>/magic-link/<token>`.
pub open spec fn spec_magic_link_key(namespace: Seq<char>, token: Seq<char>) -> Seq<char> {
    namespace + "/magic-link/"@ + token
}

/// The key under which the link with `token` is kept in `namespace`.
pub fn magic_link_key(namespace: &str, token: &str) -> (key: String)
    ensures
        key@ == spec_magic_link_key(namespace@, token@),
{
    let mut key = String::from_str(namespace);
    key.append("/magic-link/");
    key.append(token);
    key
}

/// Within one namespace, different tokens are kept under different keys.
pub proof fn law_keys_tell_tokens_apart(namespace: Seq<char>, a: Seq<char>, b: Seq<char>)
    ensures
        spec_magic_link_key(namespace, a) == spec_magic_link_key(namespace, b) <==> a == b,
{
    let head = namespace + "/magic-link/"@;
    if spec_magic_link_key(namespace, a) == spec_magic_link_key(namespace, b) {
        assert((head + a).subrange(head.len() as int, (head + a).len() as int) == a);
        assert((head + b).subrange(head.len() as int, (head + b).len() as int) == b);
    }
}

/// The moment at which an entry lapses, as the store is told it.
///
/// The store counts in whole milliseconds since the Unix epoch, or in whole
/// seconds; it is told the milliseconds wherever their count can be held.
#[derive(Clone, Copy, Debug, PartialEq, Eq, Structural)]
pub enum Expiry {
    /// The entry lapses at this millisecond since the Unix epoch.
    Millis(i64),
    /// The entry lapses at this second since the Unix epoch.
    Seconds(i64),
}

/// The whole milliseconds from the Unix epoch to `at`, rounded towards the
/// past.
pub open spec fn millis_of(at: Instant) -> int {
    at.secs * 1000 + at.nanos / 1_000_000
}

/// What the store is told for an entry that is to lapse at `at`: the last
/// whole millisecond that is not after `at`, or the last whole second where
/// the milliseconds cannot be held.
pub open spec fn spec_expiry(at: Instant) -> Expiry {
    if i64::MIN <= millis_of(at) <= i64::MAX {
        Expiry::Millis(millis_of(at) as i64)
    } else {
        Expiry::Seconds(at.secs)
    }
}

/// An entry never outlives its link: the moment that the store is told is
/// not after the deadline, and less than a millisecond before it, or less
/// than a second where the store is told seconds.
pub proof fn law_expiry_is_never_late(at: Instant)
    requires
        at.wf(),
    ensures
        match spec_expiry(at) {
            Expiry::Millis(millis) => millis * 1_000_000 <= at.as_nanos() < (millis + 1)
                * 1_000_000,
            Expiry::Seconds(secs) => secs * 1_000_000_000 <= at.as_nanos() < (secs + 1)
                * 1_000_000_000,
        },
{
}

/// What the store is told for an entry that is to lapse at `at`.
pub fn expiry_of(at: &Instant) -> (expiry: Expiry)
    ensures
        expiry == spec_expiry(*at),
{
    let millis: i128 = (at.secs as i128) * 1000 + ((at.nanos / 1_000_000) as i128);
    if (i64::MIN as i128) <= millis && millis <= (i64::MAX as i128) {
        Expiry::Millis(millis as i64)
    } else {
        Expiry::Seconds(at.secs)
    }
}

/// A command to the store.
pub enum StoreCommand {
    /// Keep `value` under `key` until `expires_at`, in place of what was
    /// kept there.
    Put { key: String, value: String, expires_at: Expiry },
    /// Read what is kept under `key`.
    Get { key: String },
    /// Read what is kept under `key` and delete it, in one step.
    GetDel { key: String },
}

/// The command that issues the link with `token` for the serialised data
/// `payload` until `expires_at`.
pub fn issue_command(namespace: &str, token: &str, payload: &str, expires_at: &Instant) -> (command:
    StoreCommand)
    ensures
        command matches StoreCommand::Put { key, value, expires_at: told } && key@
            == spec_magic_link_key(namespace@, token@) && value@ == payload@ && told
            == spec_expiry(*expires_at),
{
    StoreCommand::Put {
        key: magic_link_key(namespace, token),
        value: String::from_str(payload),
        expires_at: expiry_of(expires_at),
    }
}

/// The command that looks at the link with `token` without spending it.
pub fn verify_command(namespace: &str, token: &str) -> (command: StoreCommand)
    ensures
        command matches StoreCommand::Get { key } && key@ == spec_magic_link_key(
            namespace@,
            token@,
        ),
{
    StoreCommand::Get { key: magic_link_key(namespace, token) }
}

/// The command that consumes the link with `token`.
pub fn consume_command(namespace: &str, token: &str) -> (command: StoreCommand)
    ensures
        command matches StoreCommand::GetDel { key } && key@ == spec_magic_link_key(
            namespace@,
            token@,
        ),
{
    StoreCommand::GetDel { key: magic_link_key(namespace, token) }
}

/// The store held nothing under the key: the token was never issued, was
/// consumed, or has expired.
#[derive(Clone, Copy, Debug, PartialEq, Eq, Structural)]
pub struct NotFound;

/// What the reply to a read means: the serialised data of the link, or that
/// the token was not found.
pub fn found(reply: Option<String>) -> (r: Result<String, NotFound>)
    ensures
        r == match reply {
            Some(payload) => Ok::<String, NotFound>(payload),
            None => Err::<String, NotFound>(NotFound),
        },
{
    match reply {
        Some(payload) => Ok(payload),
        None => Err(NotFound),
    }
}

} // verus!
