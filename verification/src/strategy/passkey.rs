//! Passkeys: registration and authentication ceremonies.
//!
//! [`PasskeyStrategy`] contributes no cryptography. It keeps the state that
//! the engine leaves between the start and the finish of a ceremony in a
//! [`PasskeySession`] backend, one state per user and kind of ceremony:
//! a start clears what was pending and stores what the engine returned, and a
//! finish takes the state out before the engine is asked for its verdict.

use vstd::prelude::*;
use webauthn_rs::prelude::AuthenticationResult;
use webauthn_rs::prelude::Base64UrlSafeData;
use webauthn_rs::prelude::CreationChallengeResponse;
use webauthn_rs::prelude::Passkey;
use webauthn_rs::prelude::PasskeyAuthentication;
use webauthn_rs::prelude::PasskeyRegistration;
use webauthn_rs::prelude::PublicKeyCredential;
use webauthn_rs::prelude::RegisterPublicKeyCredential;
use webauthn_rs::prelude::RequestChallengeResponse;
use webauthn_rs::prelude::Webauthn;
use webauthn_rs::prelude::WebauthnError;
use crate::ceremony::begun;
use crate::ceremony::cleared;
use crate::ceremony::States;
use crate::engine::authentication_verdict;
use crate::engine::begin_authentication;
use crate::engine::begin_registration;
use crate::engine::complete_authentication;
use crate::engine::complete_registration;
use crate::session::SessionBackend;

verus! {

/// The passkey capability of a session backend: the state of pending
/// ceremonies, by user.
pub trait PasskeySession: SessionBackend {
    /// The registrations that were started and not finished since.
    spec fn registrations(&self) -> States<PasskeyRegistration>;

    /// The authentications that were started and not finished since.
    spec fn authentications(&self) -> States<PasskeyAuthentication>;

    /// Clears the registration that is pending for `user_id`.
    fn remove_registration_state(&mut self, user_id: u128)
        requires
            old(self).wf(),
        ensures
            final(self).wf(),
            final(self).registrations() == cleared(old(self).registrations(), user_id),
            final(self).authentications() == old(self).authentications(),
            final(self).sessions() == old(self).sessions(),
    ;

    /// Makes `state` the registration that is pending for `user_id`.
    fn set_registration_state(&mut self, user_id: u128, state: PasskeyRegistration)
        requires
            old(self).wf(),
        ensures
            final(self).wf(),
            final(self).registrations() == old(self).registrations().insert(user_id, state),
            final(self).authentications() == old(self).authentications(),
            final(self).sessions() == old(self).sessions(),
    ;

    /// Takes out the registration that is pending for `user_id`.
    fn consume_registration_state(&mut self, user_id: u128) -> (state: Option<
        PasskeyRegistration,
    >)
        requires
            old(self).wf(),
        ensures
            final(self).wf(),
            final(self).registrations() == cleared(old(self).registrations(), user_id),
            final(self).authentications() == old(self).authentications(),
            final(self).sessions() == old(self).sessions(),
            state matches Some(s) ==> old(self).registrations().contains_key(user_id) && s == old(
                self,
            ).registrations()[user_id],
            !old(self).registrations().contains_key(user_id) ==> state is None,
            old(self).registrations().contains_key(user_id) ==> state is Some,
    ;

    /// Clears the authentication that is pending for `user_id`.
    fn remove_auth_state(&mut self, user_id: u128)
        requires
            old(self).wf(),
        ensures
            final(self).wf(),
            final(self).authentications() == cleared(old(self).authentications(), user_id),
            final(self).registrations() == old(self).registrations(),
            final(self).sessions() == old(self).sessions(),
    ;

    /// Makes `state` the authentication that is pending for `user_id`.
    fn set_auth_state(&mut self, user_id: u128, state: PasskeyAuthentication)
        requires
            old(self).wf(),
        ensures
            final(self).wf(),
            final(self).authentications() == old(self).authentications().insert(user_id, state),
            final(self).registrations() == old(self).registrations(),
            final(self).sessions() == old(self).sessions(),
    ;

    /// Takes out the authentication that is pending for `user_id`.
    fn consume_auth_state(&mut self, user_id: u128) -> (state: Option<PasskeyAuthentication>)
        requires
            old(self).wf(),
        ensures
            final(self).wf(),
            final(self).authentications() == cleared(old(self).authentications(), user_id),
            final(self).registrations() == old(self).registrations(),
            final(self).sessions() == old(self).sessions(),
            state matches Some(s) ==> old(self).authentications().contains_key(user_id) && s
                == old(self).authentications()[user_id],
            !old(self).authentications().contains_key(user_id) ==> state is None,
            old(self).authentications().contains_key(user_id) ==> state is Some,
    ;
}

/// Why a ceremony failed.
#[derive(Clone, Copy, Debug, PartialEq, Eq, Structural)]
pub enum PasskeyError {
    /// No ceremony of this kind was pending for the user.
    NoCeremony,
    /// The engine refused. What it objected to is not passed on.
    Rejected,
}

/// Runs passkey ceremonies for the users of one relying party.
pub struct PasskeyStrategy<S: PasskeySession> {
    webauthn: Webauthn,
    session_backend: S,
}

/// The name that a user is shown under: the display name where one is given,
/// the user name otherwise.
pub open spec fn shown_name(username: Seq<char>, display_name: Option<Seq<char>>) -> Seq<char> {
    match display_name {
        Some(name) => name,
        None => username,
    }
}

/// The name that a user is shown under.
pub fn name_to_show<'a>(username: &'a str, display_name: Option<&'a str>) -> (name: &'a str)
    ensures
        name@ == shown_name(
            username@,
            match display_name {
                Some(given) => Some(given@),
                None => None,
            },
        ),
{
    match display_name {
        Some(given) => given,
        None => username,
    }
}

/// What the verdict of the engine on a registration is reported as: the
/// credential that it accepted, or a refusal without its reason.
pub fn registration_finished(outcome: Result<Passkey, WebauthnError>) -> (r: Result<
    Passkey,
    PasskeyError,
>)
    ensures
        r == match outcome {
            Ok(passkey) => Ok::<Passkey, PasskeyError>(passkey),
            Err(_) => Err::<Passkey, PasskeyError>(PasskeyError::Rejected),
        },
{
    match outcome {
        Ok(passkey) => Ok(passkey),
        Err(_) => Err(PasskeyError::Rejected),
    }
}

/// What the verdict of the engine on an authentication is reported as:
/// success, or a refusal without its reason.
pub fn authentication_finished(outcome: Result<AuthenticationResult, WebauthnError>) -> (r:
    Result<(), PasskeyError>)
    ensures
        r == match outcome {
            Ok(_) => Ok::<(), PasskeyError>(()),
            Err(_) => Err::<(), PasskeyError>(PasskeyError::Rejected),
        },
{
    match outcome {
        Ok(_) => Ok(()),
        Err(_) => Err(PasskeyError::Rejected),
    }
}

/// What follows from the answer of the engine to the start of a ceremony:
/// the state to keep for the user, if the start was accepted, and what the
/// caller is told, which is the challenge or a refusal without its reason.
pub fn ceremony_started<C, T>(outcome: Result<(C, T), WebauthnError>) -> (r: (
    Option<T>,
    Result<C, PasskeyError>,
))
    ensures
        r == match outcome {
            Ok((challenge, state)) => (Some(state), Ok::<C, PasskeyError>(challenge)),
            Err(_) => (None::<T>, Err::<C, PasskeyError>(PasskeyError::Rejected)),
        },
{
    match outcome {
        Ok((challenge, state)) => (Some(state), Ok(challenge)),
        Err(_) => (None, Err(PasskeyError::Rejected)),
    }
}

/// Asks the engine to start a registration and says what follows from its
/// answer: the state to keep for the user, if the start was accepted, and
/// what the caller is told. The engine accepts unless the user name or the
/// name to show is empty.
pub fn start_registration_with(
    engine: &Webauthn,
    user_id: u128,
    username: &str,
    display_name: Option<&str>,
    exclude_credential_ids: Vec<Base64UrlSafeData>,
) -> (r: (Option<PasskeyRegistration>, Result<CreationChallengeResponse, PasskeyError>))
    ensures
        r.1 is Ok <==> username@.len() > 0 && !(display_name matches Some(given) && given@.len()
            == 0),
        r.0 is Some <==> r.1 is Ok,
        r.1 is Err ==> r.1 == Err::<CreationChallengeResponse, PasskeyError>(
            PasskeyError::Rejected,
        ),
{
    let shown = name_to_show(username, display_name);
    ceremony_started(begin_registration(engine, user_id, username, shown, exclude_credential_ids))
}

/// Asks the engine to start an authentication over `passkeys` and says what
/// follows from its answer: the state to keep for the user and the
/// challenge. The engine always accepts.
pub fn start_authentication_with(engine: &Webauthn, passkeys: &[Passkey]) -> (r: (
    Option<PasskeyAuthentication>,
    Result<RequestChallengeResponse, PasskeyError>,
))
    ensures
        r.0 is Some,
        r.1 is Ok,
{
    ceremony_started(begin_authentication(engine, passkeys))
}

/// Finishes a registration of which `state` was pending, if any, with the
/// answer `reg` of the authenticator. Without a pending state the engine is
/// not asked and the answer is `NoCeremony`; with one, the answer is the
/// verdict of the engine, a credential or `Rejected`.
pub fn finish_registration_with(
    engine: &Webauthn,
    state: Option<PasskeyRegistration>,
    reg: &RegisterPublicKeyCredential,
) -> (r: Result<Passkey, PasskeyError>)
    ensures
        state is None ==> r == Err::<Passkey, PasskeyError>(PasskeyError::NoCeremony),
        state is Some ==> (r is Ok || r == Err::<Passkey, PasskeyError>(PasskeyError::Rejected)),
{
    match state {
        None => Err(PasskeyError::NoCeremony),
        Some(pending) => registration_finished(complete_registration(engine, reg, &pending)),
    }
}

/// What the finish of an authentication reports, of which `state` was
/// pending, if any: `NoCeremony` without a pending state; with one, success
/// where the engine accepts the answer `auth` against that state, and
/// `Rejected` where it does not.
pub open spec fn authentication_report(
    engine: Webauthn,
    state: Option<PasskeyAuthentication>,
    auth: PublicKeyCredential,
) -> Result<(), PasskeyError> {
    match state {
        None => Err(PasskeyError::NoCeremony),
        Some(pending) => match authentication_verdict(engine, auth, pending) {
            Ok(_) => Ok(()),
            Err(_) => Err(PasskeyError::Rejected),
        },
    }
}

/// Finishes an authentication of which `state` was pending, if any, with
/// the answer `auth` of the authenticator. Without a pending state the
/// engine is not asked.
pub fn finish_authentication_with(
    engine: &Webauthn,
    state: Option<PasskeyAuthentication>,
    auth: &PublicKeyCredential,
) -> (r: Result<(), PasskeyError>)
    ensures
        r == authentication_report(*engine, state, *auth),
{
    match state {
        None => Err(PasskeyError::NoCeremony),
        Some(pending) => authentication_finished(complete_authentication(engine, auth, &pending)),
    }
}

impl<S: PasskeySession> PasskeyStrategy<S> {
    /// The engine.
    pub closed spec fn engine(&self) -> Webauthn {
        self.webauthn
    }

    /// The backend as it stands.
    pub closed spec fn backend_state(&self) -> S {
        self.session_backend
    }

    /// The backend is ready.
    pub open spec fn wf(&self) -> bool {
        self.backend_state().wf()
    }

    /// Whether `after` differs from this strategy in pending registrations
    /// at most.
    pub open spec fn same_but_registrations(&self, after: &Self) -> bool {
        &&& after.engine() == self.engine()
        &&& after.backend_state().authentications() == self.backend_state().authentications()
        &&& after.backend_state().sessions() == self.backend_state().sessions()
    }

    /// Whether `after` differs from this strategy in pending authentications
    /// at most.
    pub open spec fn same_but_authentications(&self, after: &Self) -> bool {
        &&& after.engine() == self.engine()
        &&& after.backend_state().registrations() == self.backend_state().registrations()
        &&& after.backend_state().sessions() == self.backend_state().sessions()
    }

    /// A strategy that asks `webauthn` and keeps its state in
    /// `session_backend`.
    pub fn new(webauthn: Webauthn, session_backend: S) -> (strategy: Self)
        requires
            session_backend.wf(),
        ensures
            strategy.wf(),
            strategy.engine() == webauthn,
            strategy.backend_state() == session_backend,
    {
        PasskeyStrategy { webauthn, session_backend }
    }

    /// The backend.
    pub fn session_backend(&self) -> (backend: &S)
        ensures
            *backend == self.backend_state(),
    {
        &self.session_backend
    }

    /// Starts a registration for `user_id`.
    ///
    /// What was pending for the user is cleared before the engine is asked.
    /// Where the engine hands out a challenge, its state is stored for the
    /// user; where it refuses, nothing is stored. The engine refuses an
    /// empty user name and an empty name to show, and nothing else.
    pub fn start_register(
        &mut self,
        user_id: u128,
        username: &str,
        display_name: Option<&str>,
        exclude_credential_ids: Vec<Base64UrlSafeData>,
    ) -> (r: Result<CreationChallengeResponse, PasskeyError>)
        requires
            old(self).wf(),
        ensures
            final(self).wf(),
            old(self).same_but_registrations(final(self)),
            match r {
                Ok(_) => exists|state: PasskeyRegistration|
                    final(self).backend_state().registrations() == begun(
                        old(self).backend_state().registrations(),
                        user_id,
                        state,
                    ),
                Err(e) => e == PasskeyError::Rejected && final(self).backend_state().registrations()
                    == cleared(old(self).backend_state().registrations(), user_id),
            },
            username@.len() == 0 || (display_name matches Some(given) && given@.len() == 0) ==> r
                is Err,
            username@.len() > 0 && !(display_name matches Some(given) && given@.len() == 0) ==> r
                is Ok,
    {
        self.session_backend.remove_registration_state(user_id);
        let shown = name_to_show(username, display_name);
        let outcome = begin_registration(
            &self.webauthn,
            user_id,
            username,
            shown,
            exclude_credential_ids,
        );
        let ghost answered = outcome;
        let r = self.registration_begun(user_id, outcome);
        proof {
            if answered is Ok {
                let state = answered->Ok_0.1;
                assert(final(self).backend_state().registrations() == begun(
                    old(self).backend_state().registrations(),
                    user_id,
                    state,
                ));
            }
        }
        r
    }

    /// Takes in what the engine answered to the start of a registration for
    /// `user_id`: the state of an accepted start is stored for the user and
    /// its challenge handed on; a refusal is reported and stores nothing.
    pub fn registration_begun(
        &mut self,
        user_id: u128,
        outcome: Result<(CreationChallengeResponse, PasskeyRegistration), WebauthnError>,
    ) -> (r: Result<CreationChallengeResponse, PasskeyError>)
        requires
            old(self).wf(),
        ensures
            final(self).wf(),
            old(self).same_but_registrations(final(self)),
            match outcome {
                Ok((challenge, state)) => {
                    &&& r == Ok::<CreationChallengeResponse, PasskeyError>(challenge)
                    &&& final(self).backend_state().registrations() == old(
                        self,
                    ).backend_state().registrations().insert(user_id, state)
                },
                Err(_) => {
                    &&& r == Err::<CreationChallengeResponse, PasskeyError>(PasskeyError::Rejected)
                    &&& final(self).backend_state().registrations() == old(
                        self,
                    ).backend_state().registrations()
                },
            },
    {
        let (kept, told) = ceremony_started(outcome);
        if let Some(state) = kept {
            self.session_backend.set_registration_state(user_id, state);
        }
        told
    }

    /// Finishes the registration that is pending for `user_id` with the
    /// answer `reg` of the authenticator.
    ///
    /// The pending state is taken out whatever the verdict, so that no
    /// answer can be tried against it twice. Without a pending registration
    /// the engine is not asked and the answer is `NoCeremony`; with one, the
    /// answer is the verdict of the engine, a credential or `Rejected`.
    pub fn finish_register(&mut self, user_id: u128, reg: &RegisterPublicKeyCredential) -> (r:
        Result<Passkey, PasskeyError>)
        requires
            old(self).wf(),
        ensures
            final(self).wf(),
            old(self).same_but_registrations(final(self)),
            final(self).backend_state().registrations() == cleared(
                old(self).backend_state().registrations(),
                user_id,
            ),
            !old(self).backend_state().registrations().contains_key(user_id) ==> r == Err::<
                Passkey,
                PasskeyError,
            >(PasskeyError::NoCeremony),
            old(self).backend_state().registrations().contains_key(user_id) ==> (r is Ok || r
                == Err::<Passkey, PasskeyError>(PasskeyError::Rejected)),
    {
        let state = self.session_backend.consume_registration_state(user_id);
        finish_registration_with(&self.webauthn, state, reg)
    }

    /// Starts an authentication for `user_id` over the credentials
    /// `passkeys`.
    ///
    /// What was pending for the user is cleared before the engine is asked.
    /// The engine always hands out a challenge, and its state is stored for
    /// the user.
    pub fn start_authentication(&mut self, user_id: u128, passkeys: &[Passkey]) -> (r: Result<
        RequestChallengeResponse,
        PasskeyError,
    >)
        requires
            old(self).wf(),
        ensures
            final(self).wf(),
            old(self).same_but_authentications(final(self)),
            r is Ok,
            exists|state: PasskeyAuthentication|
                final(self).backend_state().authentications() == begun(
                    old(self).backend_state().authentications(),
                    user_id,
                    state,
                ),
    {
        self.session_backend.remove_auth_state(user_id);
        let outcome = begin_authentication(&self.webauthn, passkeys);
        let ghost answered = outcome;
        let r = self.authentication_begun(user_id, outcome);
        proof {
            if answered is Ok {
                let state = answered->Ok_0.1;
                assert(final(self).backend_state().authentications() == begun(
                    old(self).backend_state().authentications(),
                    user_id,
                    state,
                ));
            }
        }
        r
    }

    /// Takes in what the engine answered to the start of an authentication
    /// for `user_id`: the state of an accepted start is stored for the user
    /// and its challenge handed on; a refusal is reported and stores nothing.
    pub fn authentication_begun(
        &mut self,
        user_id: u128,
        outcome: Result<(RequestChallengeResponse, PasskeyAuthentication), WebauthnError>,
    ) -> (r: Result<RequestChallengeResponse, PasskeyError>)
        requires
            old(self).wf(),
        ensures
            final(self).wf(),
            old(self).same_but_authentications(final(self)),
            match outcome {
                Ok((challenge, state)) => {
                    &&& r == Ok::<RequestChallengeResponse, PasskeyError>(challenge)
                    &&& final(self).backend_state().authentications() == old(
                        self,
                    ).backend_state().authentications().insert(user_id, state)
                },
                Err(_) => {
                    &&& r == Err::<RequestChallengeResponse, PasskeyError>(PasskeyError::Rejected)
                    &&& final(self).backend_state().authentications() == old(
                        self,
                    ).backend_state().authentications()
                },
            },
    {
        let (kept, told) = ceremony_started(outcome);
        if let Some(state) = kept {
            self.session_backend.set_auth_state(user_id, state);
        }
        told
    }

    /// Finishes the authentication that is pending for `user_id` with the
    /// answer `auth` of the authenticator.
    ///
    /// The pending state is taken out whatever the verdict. Without a
    /// pending authentication the engine is not asked and the answer is
    /// `NoCeremony`; with one, the answer is the verdict of the engine on
    /// `auth` against the state that was pending for this user: success
    /// where it accepts, `Rejected` where it does not.
    pub fn finish_authentication(&mut self, user_id: u128, auth: &PublicKeyCredential) -> (r:
        Result<(), PasskeyError>)
        requires
            old(self).wf(),
        ensures
            final(self).wf(),
            old(self).same_but_authentications(final(self)),
            final(self).backend_state().authentications() == cleared(
                old(self).backend_state().authentications(),
                user_id,
            ),
            !old(self).backend_state().authentications().contains_key(user_id) ==> r == Err::<
                (),
                PasskeyError,
            >(PasskeyError::NoCeremony),
            old(self).backend_state().authentications().contains_key(user_id) ==> r
                == authentication_report(
                old(self).engine(),
                Some(old(self).backend_state().authentications()[user_id]),
                *auth,
            ),
    {
        let state = self.session_backend.consume_auth_state(user_id);
        finish_authentication_with(&self.webauthn, state, auth)
    }
}

} // verus!
