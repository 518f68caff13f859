//! The secret store adapter: one entry of the operating system's secret
//! vault, written and read as a text.
//!
//! Nothing is cached. Every call goes to the vault, and what it answers
//! depends on the vault alone: no contract here says what a read returns.

use crate::failure::{ErrorKind, Failure};
use vstd::prelude::*;
use vstd::string::*;

verus! {

/// `keyring::Entry`: the handle of one vault entry. Opaque here.
#[verifier::external_type_specification]
#[verifier::external_body]
pub struct ExEntry(keyring::Entry);

/// `keyring::Error`: what the vault reports when a call fails. Opaque here;
/// `fault_of` and `fault_text` read it.
#[verifier::external_type_specification]
#[verifier::external_body]
pub struct ExVaultError(keyring::Error);

/// `keyring::Entry::new` makes the handle of the entry that a service name
/// and an account name identify, or reports why it cannot. Nothing is
/// claimed of the outcome. The call panics only where the lock around
/// `keyring`'s own default builder is poisoned, which no argument brings
/// about.
pub assume_specification[ keyring::Entry::new ](service: &str, user: &str) -> (entry:
    keyring::Result<keyring::Entry>)
;

/// `keyring::Entry::set_password` stores a text in the entry, or reports why
/// it cannot. Nothing is claimed of the outcome.
pub assume_specification[ keyring::Entry::set_password ](
    entry: &keyring::Entry,
    password: &str,
) -> (done: keyring::Result<()>)
;

/// `keyring::Entry::get_password` reads the text stored in the entry, or
/// reports why it cannot. Nothing is claimed of the outcome.
pub assume_specification[ keyring::Entry::get_password ](entry: &keyring::Entry) -> (text:
    keyring::Result<String>)
;

/// The ways in which the vault can fail, as the vault tells them apart.
#[derive(Clone, Copy, Debug, PartialEq, Eq, Structural)]
pub enum VaultFault {
    /// The platform's storage system failed at run time.
    PlatformFailure,
    /// The storage could not be accessed, for instance because it is locked.
    NoStorageAccess,
    /// Nothing is stored under the entry.
    NoEntry,
    /// What is stored is not a UTF-8 text.
    BadEncoding,
    /// A name of the entry is longer than the platform allows.
    TooLong,
    /// A name of the entry is not valid on the platform.
    Invalid,
    /// More than one stored item matches the entry.
    Ambiguous,
    /// A failure that the vault did not have when this was written.
    Unknown,
}

/// Tells the variants of `keyring::Error` apart, dropping what they carry.
/// Nothing is claimed of the result.
#[verifier::external_body]
fn fault_of(error: &keyring::Error) -> (fault: VaultFault) {
    match error {
        keyring::Error::PlatformFailure(_) => VaultFault::PlatformFailure,
        keyring::Error::NoStorageAccess(_) => VaultFault::NoStorageAccess,
        keyring::Error::NoEntry => VaultFault::NoEntry,
        keyring::Error::BadEncoding(_) => VaultFault::BadEncoding,
        keyring::Error::TooLong(_, _) => VaultFault::TooLong,
        keyring::Error::Invalid(_, _) => VaultFault::Invalid,
        keyring::Error::Ambiguous(_) => VaultFault::Ambiguous,
        _ => VaultFault::Unknown,
    }
}

/// The text that `keyring::Error` displays. Nothing is claimed of it.
#[verifier::external_body]
fn fault_text(error: &keyring::Error) -> (text: String) {
    error.to_string()
}

/// The kind of failure that a fault of the vault amounts to.
///
/// A missing entry is `NotFound`; refused access is `AccessDenied`; a stored
/// value that is no text is `Malformed`; everything else means that the
/// vault cannot serve the entry, `BackendUnavailable`.
pub open spec fn kind_of_fault(fault: VaultFault) -> ErrorKind {
    match fault {
        VaultFault::NoEntry => ErrorKind::NotFound,
        VaultFault::NoStorageAccess => ErrorKind::AccessDenied,
        VaultFault::BadEncoding => ErrorKind::Malformed,
        _ => ErrorKind::BackendUnavailable,
    }
}

/// A failure of the vault is one of these four kinds.
pub open spec fn is_vault_kind(kind: ErrorKind) -> bool {
    kind == ErrorKind::NotFound || kind == ErrorKind::AccessDenied || kind
        == ErrorKind::BackendUnavailable || kind == ErrorKind::Malformed
}

/// Turns a fault of the vault, with the text that came with it, into a failure.
pub fn vault_failure(fault: VaultFault, text: String) -> (failure: Failure)
    ensures
        failure.kind == kind_of_fault(fault),
        failure.detail@ == text@,
        is_vault_kind(failure.kind),
{
    let kind = match fault {
        VaultFault::NoEntry => ErrorKind::NotFound,
        VaultFault::NoStorageAccess => ErrorKind::AccessDenied,
        VaultFault::BadEncoding => ErrorKind::Malformed,
        _ => ErrorKind::BackendUnavailable,
    };
    Failure { kind, detail: text }
}

/// Reads an error of the vault into a failure.
fn failure_of(error: &keyring::Error) -> (failure: Failure)
    ensures
        is_vault_kind(failure.kind),
{
    vault_failure(fault_of(error), fault_text(error))
}

/// One entry of the vault, with the names under which it was opened.
pub struct SecretStore {
    entry: keyring::Entry,
    service: String,
    account: String,
}

impl SecretStore {
    /// The handle through which the store reaches its entry.
    pub closed spec fn entry(&self) -> keyring::Entry {
        self.entry
    }

    /// The service name under which the entry was opened; empty for an
    /// entry of the caller's own making.
    pub closed spec fn service(&self) -> Seq<char> {
        self.service@
    }

    /// The account name under which the entry was opened; empty for an
    /// entry of the caller's own making.
    pub closed spec fn account(&self) -> Seq<char> {
        self.account@
    }

    /// Opens the entry that a service name and an account name identify.
    /// The vault decides whether the names are acceptable; a store that
    /// comes back is the one of these two names.
    pub fn open(service: &str, account: &str) -> (store: Result<SecretStore, Failure>)
        ensures
            match store {
                Ok(opened) => opened.service() == service@ && opened.account() == account@,
                Err(failure) => is_vault_kind(failure.kind),
            },
    {
        match keyring::Entry::new(service, account) {
            Ok(entry) => Ok(
                SecretStore {
                    entry,
                    service: String::from_str(service),
                    account: String::from_str(account),
                },
            ),
            Err(error) => Err(failure_of(&error)),
        }
    }

    /// Takes an entry that the caller has made. Such a store has no names.
    pub fn with_entry(entry: keyring::Entry) -> (store: SecretStore)
        ensures
            store.entry() == entry,
            store.service() == Seq::<char>::empty(),
            store.account() == Seq::<char>::empty(),
    {
        SecretStore { entry, service: String::new(), account: String::new() }
    }

    /// The service name and the account name of the store.
    pub fn names(&self) -> (names: (String, String))
        ensures
            names.0@ == self.service(),
            names.1@ == self.account(),
    {
        (self.service.clone(), self.account.clone())
    }

    /// Stores a text in the entry, in place of what was there.
    pub fn put(&self, blob: &str) -> (done: Result<(), Failure>)
        ensures
            done matches Err(failure) ==> is_vault_kind(failure.kind),
    {
        match self.entry.set_password(blob) {
            Ok(()) => Ok(()),
            Err(error) => Err(failure_of(&error)),
        }
    }

    /// Reads the text stored in the entry.
    pub fn get(&self) -> (blob: Result<String, Failure>)
        ensures
            blob matches Err(failure) ==> is_vault_kind(failure.kind),
    {
        match self.entry.get_password() {
            Ok(text) => Ok(text),
            Err(error) => Err(failure_of(&error)),
        }
    }
}

/// Stores a text under a service name and an account name, in place of
/// what was there.
pub fn put(service: &str, account: &str, blob: &str) -> (done: Result<(), Failure>)
    ensures
        done matches Err(failure) ==> is_vault_kind(failure.kind),
{
    match SecretStore::open(service, account) {
        Ok(store) => store.put(blob),
        Err(failure) => Err(failure),
    }
}

/// Reads the text stored under a service name and an account name.
pub fn get(service: &str, account: &str) -> (blob: Result<String, Failure>)
    ensures
        blob matches Err(failure) ==> is_vault_kind(failure.kind),
{
    match SecretStore::open(service, account) {
        Ok(store) => store.get(),
        Err(failure) => Err(failure),
    }
}

} // verus!
