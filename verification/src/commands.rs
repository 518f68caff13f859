//! The operations that the presentation layer may invoke, and the start of
//! a session.
//!
//! Towards the presentation layer a failure is one text, and the check for
//! stored credentials gives a plain yes or no.

use crate::credentials::{ApiKeys, Credentials, KeysModel};
use crate::failure::Failure;
use crate::codec::record_text;
use crate::manager::{refusal_text, save_credentials, stored_by_save, CredentialManager};
use crate::secret::is_session_secret;
use crate::supervisor::{start_step, state_after_start, StartStep, Supervisor};
use crate::vault::is_vault_kind;
use vstd::prelude::*;
use vstd::string::*;

verus! {

/// The redirect target registered for the OAuth flow.
pub open spec fn oauth_callback_url() -> Seq<char> {
    "baklog://oauth/callback"@
}

/// Returns the custom-scheme address that the OAuth provider redirects to.
pub fn get_oauth_callback_url() -> (url: String)
    ensures
        url@ == oauth_callback_url(),
{
    String::from_str("baklog://oauth/callback")
}

/// Tells whether an incoming address is an OAuth callback, to be forwarded
/// to the presentation layer: it begins with the callback address.
pub fn is_oauth_callback(uri: &str) -> (forwarded: bool)
    ensures
        forwarded == oauth_callback_url().is_prefix_of(uri@),
{
    let prefix = "baklog://oauth/callback";
    let length: usize = prefix.unicode_len();
    if uri.unicode_len() < length {
        return false;
    }
    let mut at: usize = 0;
    while at < length
        invariant
            at <= length,
            length == prefix@.len(),
            length <= uri@.len(),
            prefix@ == oauth_callback_url(),
            forall|i: int| 0 <= i < at ==> uri@[i] == prefix@[i],
        decreases length - at,
    {
        if uri.get_char(at) != prefix.get_char(at) {
            assert(uri@.subrange(0, length as int)[at as int] != prefix@[at as int]);
            return false;
        }
        at = at + 1;
    }
    assert(uri@.subrange(0, length as int) =~= prefix@);
    true
}

/// What a successful save hands back: the bundle as it was stored, and what
/// the host does next about the server.
#[derive(Debug)]
pub struct Saved {
    /// The stored bundle, session secret included.
    pub credentials: Credentials,
    /// The supervisor's answer to the request to start.
    pub step: StartStep,
}

/// How a session begins.
#[derive(Debug)]
pub enum SessionStart {
    /// Credentials are at hand: the server is asked for.
    Serve { credentials: Credentials, step: StartStep },
    /// No credentials can be had: the user is asked for them first.
    Setup { reason: Failure },
}

/// The four secrets of a call of `save_api_keys`.
pub open spec fn keys_of(
    database_url: Seq<char>,
    openai_api_key: Seq<char>,
    auth_google_id: Seq<char>,
    auth_google_secret: Seq<char>,
) -> KeysModel {
    KeysModel { database_url, openai_api_key, auth_google_id, auth_google_secret }
}

/// Saves the user's secrets in the application's entry of the vault and,
/// once they are saved, asks for the server to be started.
///
/// Secrets with an empty field are refused before the vault is touched,
/// with the text of the refusal. When the save fails the supervisor is left
/// alone.
pub fn save_api_keys(
    supervisor: &mut Supervisor,
    external_server: bool,
    database_url: String,
    openai_api_key: String,
    auth_google_id: String,
    auth_google_secret: String,
) -> (saved: Result<Saved, String>)
    ensures
        match saved {
            Ok(done) => {
                &&& done.credentials@.keys() == keys_of(
                    database_url@,
                    openai_api_key@,
                    auth_google_id@,
                    auth_google_secret@,
                )
                &&& done.credentials@.complete()
                &&& is_session_secret(done.credentials@.auth_secret)
                &&& stored_by_save(done.credentials@.keys(), done.credentials@.auth_secret)
                    == Some(record_text(done.credentials@))
                &&& done.step == start_step(old(supervisor)@, external_server)
                &&& final(supervisor)@ == state_after_start(old(supervisor)@, external_server)
            },
            Err(_) => final(supervisor)@ == old(supervisor)@,
        },
        !keys_of(database_url@, openai_api_key@, auth_google_id@, auth_google_secret@).complete()
            ==> (saved matches Err(message) && message@ == refusal_text()),
{
    let keys = ApiKeys { database_url, openai_api_key, auth_google_id, auth_google_secret };
    match save_credentials(&keys) {
        Ok(credentials) => {
            let step = supervisor.ensure_started(external_server);
            Ok(Saved { credentials, step })
        },
        Err(message) => Err(message),
    }
}

/// Tells whether a complete bundle is stored in the application's entry of
/// the vault. Every failure counts as no.
pub fn check_credentials_exist() -> (found: bool) {
    match CredentialManager::open() {
        Ok(manager) => manager.is_present(),
        Err(_) => false,
    }
}

/// Asks for the server to be started. A server that is starting or running
/// already is a success like any other.
pub fn start_next_server(supervisor: &mut Supervisor, external_server: bool) -> (step: Result<
    StartStep,
    String,
>)
    ensures
        step == Ok::<StartStep, String>(start_step(old(supervisor)@, external_server)),
        final(supervisor)@ == state_after_start(old(supervisor)@, external_server),
{
    Ok(supervisor.ensure_started(external_server))
}

/// Begins a session with what loading the credentials gave: with a bundle
/// the server is asked for, without one the supervisor is left alone and the
/// user is to be asked for the secrets.
pub fn begin_session(
    supervisor: &mut Supervisor,
    loaded: Result<Credentials, Failure>,
    external_server: bool,
) -> (start: SessionStart)
    ensures
        match loaded {
            Ok(bundle) => {
                &&& start == (SessionStart::Serve {
                    credentials: bundle,
                    step: start_step(old(supervisor)@, external_server),
                })
                &&& final(supervisor)@ == state_after_start(old(supervisor)@, external_server)
            },
            Err(failure) => {
                &&& start == (SessionStart::Setup { reason: failure })
                &&& final(supervisor)@ == old(supervisor)@
            },
        },
{
    match loaded {
        Ok(credentials) => {
            let step = supervisor.ensure_started(external_server);
            SessionStart::Serve { credentials, step }
        },
        Err(reason) => SessionStart::Setup { reason },
    }
}

/// Begins a session: loads the credentials from the application's entry of
/// the vault and goes on as `begin_session` says. Where no bundle can be
/// had, the reason is a failure of the vault.
pub fn start_session(supervisor: &mut Supervisor, external_server: bool) -> (start: SessionStart)
    ensures
        match start {
            SessionStart::Serve { credentials, step } => {
                &&& credentials@.complete()
                &&& step == start_step(old(supervisor)@, external_server)
                &&& final(supervisor)@ == state_after_start(old(supervisor)@, external_server)
            },
            SessionStart::Setup { reason } => {
                &&& is_vault_kind(reason.kind)
                &&& final(supervisor)@ == old(supervisor)@
            },
        },
{
    let loaded = match CredentialManager::open() {
        Ok(manager) => manager.load(),
        Err(failure) => Err(failure),
    };
    begin_session(supervisor, loaded, external_server)
}

} // verus!
