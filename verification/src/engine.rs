//! The ceremony engine: `webauthn-rs`, which does all of the cryptography.
//!
//! The values that pass between the engine and a strategy are carried
//! through as they are; nothing in this crate looks inside them. The four
//! calls below are the only places at which the engine is asked anything.

use vstd::prelude::*;
use webauthn_rs::prelude::AuthenticationResult;
use webauthn_rs::prelude::Base64UrlSafeData;
use webauthn_rs::prelude::CreationChallengeResponse;
use webauthn_rs::prelude::Passkey;
use webauthn_rs::prelude::PasskeyAuthentication;
use webauthn_rs::prelude::PasskeyRegistration;
use webauthn_rs::prelude::PublicKeyCredential;
use webauthn_rs::prelude::RegisterPublicKeyCredential;
use webauthn_rs::prelude::RequestChallengeResponse;
use webauthn_rs::prelude::Uuid;
use webauthn_rs::prelude::Webauthn;
use webauthn_rs::prelude::WebauthnError;

verus! {

/// The engine itself, configured for one relying party.
#[verifier::external_type_specification]
#[verifier::external_body]
pub struct ExWebauthn(Webauthn);

/// The challenge that the engine hands out to start a registration.
#[verifier::external_type_specification]
#[verifier::external_body]
pub struct ExCreationChallengeResponse(CreationChallengeResponse);

/// What the engine keeps between the start and the finish of a
/// registration.
#[verifier::external_type_specification]
#[verifier::external_body]
pub struct ExPasskeyRegistration(PasskeyRegistration);

/// The answer of an authenticator to a registration challenge.
#[verifier::external_type_specification]
#[verifier::external_body]
pub struct ExRegisterPublicKeyCredential(RegisterPublicKeyCredential);

/// A registered credential.
#[verifier::external_type_specification]
#[verifier::external_body]
pub struct ExPasskey(Passkey);

/// The challenge that the engine hands out to start an authentication.
#[verifier::external_type_specification]
#[verifier::external_body]
pub struct ExRequestChallengeResponse(RequestChallengeResponse);

/// What the engine keeps between the start and the finish of an
/// authentication.
#[verifier::external_type_specification]
#[verifier::external_body]
pub struct ExPasskeyAuthentication(PasskeyAuthentication);

/// The answer of an authenticator to an authentication challenge.
#[verifier::external_type_specification]
#[verifier::external_body]
pub struct ExPublicKeyCredential(PublicKeyCredential);

/// What the engine reports of an authentication that it accepted.
#[verifier::external_type_specification]
#[verifier::external_body]
pub struct ExAuthenticationResult(AuthenticationResult);

/// Why the engine refused.
#[verifier::external_type_specification]
#[verifier::external_body]
pub struct ExWebauthnError(WebauthnError);

/// The identifier of a credential.
#[verifier::external_type_specification]
#[verifier::external_body]
pub struct ExBase64UrlSafeData(Base64UrlSafeData);

/// Asks the engine to begin a registration, with
/// `Webauthn::start_passkey_registration`.
///
/// The challenge is drawn at random, so nothing is claimed of which
/// challenge and state come back. What is claimed is when the engine
/// accepts: it refuses an empty user name or display name before it draws
/// anything, and it has no other way to fail.
#[verifier::external_body]
pub(crate) fn begin_registration(
    engine: &Webauthn,
    user_id: u128,
    username: &str,
    display_name: &str,
    exclude_credential_ids: Vec<Base64UrlSafeData>,
) -> (outcome: Result<(CreationChallengeResponse, PasskeyRegistration), WebauthnError>)
    ensures
        username@.len() == 0 || display_name@.len() == 0 ==> outcome is Err,
        username@.len() > 0 && display_name@.len() > 0 ==> outcome is Ok,
{
    engine.start_passkey_registration(
        Uuid::from_u128(user_id),
        username,
        display_name,
        Some(exclude_credential_ids),
    )
}

/// Asks the engine to check the answer to a registration challenge against
/// the state of that registration, with
/// `Webauthn::finish_passkey_registration`.
///
/// Nothing is claimed of the verdict, and it has no name: for one kind of
/// attestation the engine reads the clock, so that the same answer may be
/// judged differently at another time.
#[verifier::external_body]
pub(crate) fn complete_registration(
    engine: &Webauthn,
    reg: &RegisterPublicKeyCredential,
    state: &PasskeyRegistration,
) -> (outcome: Result<Passkey, WebauthnError>) {
    engine.finish_passkey_registration(reg, state)
}

/// Asks the engine to begin an authentication over `passkeys`, with
/// `Webauthn::start_passkey_authentication`.
///
/// The challenge is drawn at random, so nothing is claimed of which
/// challenge and state come back. What is claimed is that the engine
/// accepts: this call has no way to fail, whatever the credentials.
#[verifier::external_body]
pub(crate) fn begin_authentication(engine: &Webauthn, passkeys: &[Passkey]) -> (outcome: Result<
    (RequestChallengeResponse, PasskeyAuthentication),
    WebauthnError,
>)
    ensures
        outcome is Ok,
{
    engine.start_passkey_authentication(passkeys)
}

/// The verdict of `Webauthn::finish_passkey_authentication` on the answer
/// `auth` to the challenge whose state is `state`.
///
/// The engine reaches its verdict from its configuration, the answer and
/// the state alone: it reads no clock and draws nothing at random.
pub uninterp spec fn authentication_verdict(
    engine: Webauthn,
    auth: PublicKeyCredential,
    state: PasskeyAuthentication,
) -> Result<AuthenticationResult, WebauthnError>;

/// Asks the engine to check the answer to an authentication challenge
/// against the state of that authentication, with
/// `Webauthn::finish_passkey_authentication`. What comes back is the
/// verdict of the engine on these three, which is all that is claimed of it.
#[verifier::external_body]
pub(crate) fn complete_authentication(
    engine: &Webauthn,
    auth: &PublicKeyCredential,
    state: &PasskeyAuthentication,
) -> (outcome: Result<AuthenticationResult, WebauthnError>)
    ensures
        outcome == authentication_verdict(*engine, *auth, *state),
{
    engine.finish_passkey_authentication(auth, state)
}

} // verus!
