//! The credential manager: saves the user's secrets as one bundle in the
//! vault, with a session secret made afresh at every save, and reads the
//! bundle back.

use crate::codec::{decode, decoded, reads_back, record_text, seal, unreadable_text};
use crate::credentials::{ApiKeys, Bundle, Credentials, KeysModel};
use crate::failure::{ErrorKind, Failure};
use crate::secret::{
    fresh_session_secret, hex_text, is_session_secret, lemma_hex_text_injective,
    lemma_session_secret_shape, SECRET_BYTES,
};
use crate::vault::{is_vault_kind, kind_of_fault, SecretStore, VaultFault};
use vstd::prelude::*;
use vstd::string::*;

verus! {

/// The service under which the bundle is kept in the vault.
pub const SERVICE_NAME: &'static str = "com.baklog.app";

/// The account under which the bundle is kept in the vault.
pub const ACCOUNT_NAME: &'static str = "credentials";

/// The text with which an incomplete bundle is refused.
pub open spec fn refusal_text() -> Seq<char> {
    "every credential field must be filled in"@
}

/// What preparing a bundle gives: the bundle, where the four secrets and
/// the session secret are all non-empty.
pub open spec fn prepared(keys: KeysModel, auth_secret: Seq<char>) -> Option<Bundle> {
    if keys.complete() && auth_secret.len() > 0 {
        Some(keys.with_secret(auth_secret))
    } else {
        None
    }
}

/// The bundle that a stored text holds: the text must hold a bundle, and
/// the bundle must be complete.
pub open spec fn loaded_from(text: Seq<char>) -> Option<Bundle> {
    match decoded(text) {
        Some(bundle) => if bundle.complete() {
            Some(bundle)
        } else {
            None
        },
        None => None,
    }
}

/// The bundle that an answer of the vault holds: the answer must be a text
/// that holds one.
pub open spec fn loaded(stored: Result<String, Failure>) -> Option<Bundle> {
    match stored {
        Ok(text) => loaded_from(text@),
        Err(_) => None,
    }
}

/// What a save of the user's secrets with the given session secret puts
/// into the vault: the stored form of the prepared bundle, where there is
/// such a bundle and its stored form reads back.
pub open spec fn stored_by_save(keys: KeysModel, auth_secret: Seq<char>) -> Option<Seq<char>> {
    match prepared(keys, auth_secret) {
        Some(bundle) => if reads_back(bundle) {
            Some(record_text(bundle))
        } else {
            None
        },
        None => None,
    }
}

/// For all complete keys and every seed, the bundle that is prepared for
/// saving carries the four secrets as they were given, together with a
/// session secret that is not empty; and with another seed the session
/// secret is another.
pub proof fn lemma_prepared_bundle(keys: KeysModel, seed: Seq<u8>, other_seed: Seq<u8>)
    requires
        keys.complete(),
        seed.len() == SECRET_BYTES,
        other_seed.len() == SECRET_BYTES,
    ensures
        prepared(keys, hex_text(seed)) == Some(keys.with_secret(hex_text(seed))),
        keys.with_secret(hex_text(seed)).keys() == keys,
        keys.with_secret(hex_text(seed)).complete(),
        keys.with_secret(hex_text(seed)).auth_secret.len() > 0,
        seed != other_seed ==> keys.with_secret(hex_text(seed)).auth_secret != keys.with_secret(
            hex_text(other_seed),
        ).auth_secret,
{
    lemma_session_secret_shape(hex_text(seed));
    if hex_text(seed) == hex_text(other_seed) {
        lemma_hex_text_injective(seed, other_seed);
    }
}

/// Loading what was saved gives what was saved. Where the vault answers
/// with the text that a save has put into it, the bundle that is loaded
/// carries the four secrets as they were given and the session secret of
/// the save, which is not empty.
pub proof fn lemma_load_after_save(keys: KeysModel, auth_secret: Seq<char>, text: String)
    requires
        stored_by_save(keys, auth_secret) == Some(text@),
    ensures
        loaded(Ok(text)) matches Some(bundle) && bundle.keys() == keys && bundle.auth_secret
            == auth_secret && bundle.auth_secret.len() > 0,
{
}

/// Before anything was saved nothing is loaded, and after a save something
/// is. A vault that answers with a failure gives no bundle, and the failure
/// of an entry that was never written is `NotFound`; a vault that answers
/// with the text that a save has put into it gives a bundle.
pub proof fn lemma_present_after_save(
    failure: Failure,
    keys: KeysModel,
    auth_secret: Seq<char>,
    text: String,
)
    requires
        stored_by_save(keys, auth_secret) == Some(text@),
    ensures
        loaded(Err(failure)) is None,
        kind_of_fault(VaultFault::NoEntry) == ErrorKind::NotFound,
        loaded(Ok(text)) is Some,
{
}

/// The failure with which an incomplete bundle is refused.
pub fn refusal() -> (failure: Failure)
    ensures
        failure.kind == ErrorKind::Incomplete,
        failure.detail@ == refusal_text(),
{
    Failure::new(ErrorKind::Incomplete, "every credential field must be filled in")
}

/// Joins the user's secrets and a session secret into a bundle, refusing
/// empty fields.
pub fn prepare(keys: &ApiKeys, auth_secret: String) -> (bundle: Result<Credentials, Failure>)
    ensures
        match bundle {
            Ok(credentials) => prepared(keys@, auth_secret@) == Some(credentials@),
            Err(failure) => prepared(keys@, auth_secret@) is None && failure.kind
                == ErrorKind::Incomplete && failure.detail@ == refusal_text(),
        },
{
    if keys.is_complete() && !auth_secret.as_str().is_empty() {
        Ok(keys.with_secret(auth_secret))
    } else {
        Err(refusal())
    }
}

/// Reads an answer of the vault as a bundle. A failure of the vault is
/// passed on as it is; a text that holds no complete bundle is `Malformed`,
/// which is not the same as nothing being stored.
pub fn interpret(stored: Result<String, Failure>) -> (bundle: Result<Credentials, Failure>)
    ensures
        match bundle {
            Ok(credentials) => loaded(stored) == Some(credentials@),
            Err(failure) => loaded(stored) is None && match stored {
                Ok(_) => failure.kind == ErrorKind::Malformed,
                Err(given) => failure == given,
            },
        },
{
    match stored {
        Ok(text) => match decode(text.as_str()) {
            Ok(credentials) => {
                if credentials.is_complete() {
                    Ok(credentials)
                } else {
                    Err(Failure::new(ErrorKind::Malformed, "the stored record has an empty field"))
                }
            },
            Err(failure) => Err(failure),
        },
        Err(failure) => Err(failure),
    }
}

/// The credential manager, over one entry of the vault.
pub struct CredentialManager {
    store: SecretStore,
}

impl CredentialManager {
    /// The entry of the vault that the manager works on.
    pub closed spec fn vault(&self) -> SecretStore {
        self.store
    }

    /// A manager over the application's own entry of the vault: the one
    /// under `SERVICE_NAME` and `ACCOUNT_NAME`.
    pub fn open() -> (manager: Result<CredentialManager, Failure>)
        ensures
            match manager {
                Ok(opened) => opened.vault().service() == SERVICE_NAME@ && opened.vault().account()
                    == ACCOUNT_NAME@,
                Err(failure) => is_vault_kind(failure.kind),
            },
    {
        match SecretStore::open(SERVICE_NAME, ACCOUNT_NAME) {
            Ok(store) => Ok(CredentialManager { store }),
            Err(failure) => Err(failure),
        }
    }

    /// A manager over an entry that the caller has opened.
    pub fn over(store: SecretStore) -> (manager: CredentialManager)
        ensures
            manager.vault() == store,
    {
        CredentialManager { store }
    }

    /// Gives the entry of the vault back.
    pub fn into_store(self) -> (store: SecretStore)
        ensures
            store == self.vault(),
    {
        self.store
    }

    /// Stores a bundle as it is given. An incomplete bundle is refused
    /// before the vault is touched, and so is one whose stored form does
    /// not read back. What the vault is given is the stored form of the
    /// bundle, as `seal` makes it; after that the vault decides.
    pub fn store(&self, credentials: &Credentials) -> (done: Result<(), Failure>)
        ensures
            match done {
                Ok(_) => credentials@.complete() && reads_back(credentials@),
                Err(failure) => if !credentials@.complete() {
                    failure.kind == ErrorKind::Incomplete && failure.detail@ == refusal_text()
                } else if !reads_back(credentials@) {
                    failure.kind == ErrorKind::Malformed && failure.detail@ == unreadable_text()
                } else {
                    is_vault_kind(failure.kind)
                },
            },
    {
        if !credentials.is_complete() {
            return Err(refusal());
        }
        match seal(credentials) {
            Ok(record) => self.store.put(record.as_str()),
            Err(failure) => Err(failure),
        }
    }

    /// Saves the user's secrets: makes a fresh session secret, joins it to
    /// them and stores the bundle, which is handed back so that the host can
    /// mirror it into the environment.
    ///
    /// Secrets with an empty field are refused, and only those are refused
    /// as incomplete. Of complete ones the save fails where the random
    /// source gives nothing, where the stored form of the bundle does not
    /// read back, or where the vault fails.
    pub fn save(&self, keys: &ApiKeys) -> (saved: Result<Credentials, Failure>)
        ensures
            match saved {
                Ok(credentials) => {
                    &&& keys@.complete()
                    &&& credentials@.keys() == keys@
                    &&& is_session_secret(credentials@.auth_secret)
                    &&& credentials@.complete()
                    &&& stored_by_save(keys@, credentials@.auth_secret) == Some(
                        record_text(credentials@),
                    )
                },
                Err(failure) => if keys@.complete() {
                    failure.kind == ErrorKind::NoEntropy || is_vault_kind(failure.kind)
                } else {
                    failure.kind == ErrorKind::Incomplete && failure.detail@ == refusal_text()
                },
            },
    {
        if !keys.is_complete() {
            return Err(refusal());
        }
        let auth_secret = match fresh_session_secret() {
            Ok(text) => text,
            Err(failure) => {
                return Err(failure);
            },
        };
        proof {
            lemma_session_secret_shape(auth_secret@);
        }
        let credentials = match prepare(keys, auth_secret) {
            Ok(credentials) => credentials,
            Err(failure) => {
                return Err(failure);
            },
        };
        match self.store(&credentials) {
            Ok(()) => Ok(credentials),
            Err(failure) => Err(failure),
        }
    }

    /// Loads the stored bundle. What comes back is complete.
    pub fn load(&self) -> (bundle: Result<Credentials, Failure>)
        ensures
            bundle matches Ok(credentials) ==> credentials@.complete(),
            bundle matches Err(failure) ==> is_vault_kind(failure.kind),
    {
        let stored = self.store.get();
        interpret(stored)
    }

    /// Tells whether a complete bundle can be loaded. Why one cannot is not
    /// told.
    pub fn is_present(&self) -> (found: bool) {
        self.load().is_ok()
    }
}

/// Saves the user's secrets in the application's own entry of the vault,
/// with a session secret made afresh by this save, and hands back the
/// bundle as it was stored. A failure comes back as its text. Secrets with
/// an empty field are refused before the vault is touched, with the text of
/// the refusal.
pub fn save_credentials(keys: &ApiKeys) -> (saved: Result<Credentials, String>)
    ensures
        match saved {
            Ok(credentials) => {
                &&& keys@.complete()
                &&& credentials@.keys() == keys@
                &&& is_session_secret(credentials@.auth_secret)
                &&& credentials@.complete()
                &&& stored_by_save(keys@, credentials@.auth_secret) == Some(
                    record_text(credentials@),
                )
            },
            Err(message) => !keys@.complete() ==> message@ == refusal_text(),
        },
        !keys@.complete() ==> saved is Err,
{
    if !keys.is_complete() {
        return Err(refusal().into_message());
    }
    let manager = match CredentialManager::open() {
        Ok(manager) => manager,
        Err(failure) => {
            return Err(failure.into_message());
        },
    };
    match manager.save(keys) {
        Ok(credentials) => Ok(credentials),
        Err(failure) => Err(failure.into_message()),
    }
}

/// Loads the bundle from the application's own entry of the vault. A failure
/// comes back as its text.
pub fn load_credentials() -> (bundle: Result<Credentials, String>)
    ensures
        bundle matches Ok(credentials) ==> credentials@.complete(),
{
    let manager = match CredentialManager::open() {
        Ok(manager) => manager,
        Err(failure) => {
            return Err(failure.into_message());
        },
    };
    match manager.load() {
        Ok(credentials) => Ok(credentials),
        Err(failure) => Err(failure.into_message()),
    }
}

} // verus!
