//! Storing and retrieving the access token in the host's credential
//! facility. Exactly one credential exists per identity; saving overwrites
//! unconditionally, and nothing is cached: every load re-queries the
//! backend. The backend itself is host state outside this process, so the
//! contracts here say what shape each outcome has, never which outcome the
//! host will pick.

use vstd::prelude::*;

use crate::response::GatewayError;

verus! {

/// What the credential backend can answer with, before it is mapped onto
/// the gateway's taxonomy.
pub enum CredentialError {
    /// No credential is stored under the queried identity.
    NotFound,
    /// The backend could not be opened, read or written; the message is the
    /// backend's own description.
    Backend(String),
}

#[verifier::external_type_specification]
#[verifier::external_body]
pub struct ExEntry(keyring_core::Entry);

/// Relies on keyring_core::Entry::new: builds the entry for (service, user)
/// in the process's default credential store. Per its documentation it
/// fails only when no default store is set or the names are unacceptable
/// to the store, never with a missing-credential error; which outcome comes
/// back depends on host state.
#[verifier::external_body]
fn entry_new(service: &str, account: &str) -> (r: Result<keyring_core::Entry, CredentialError>)
    ensures
        r matches Err(e) ==> e is Backend,
{
    keyring_core::Entry::new(service, account).map_err(
        |e| CredentialError::Backend(format!("{}", e)),
    )
}

/// Relies on keyring_core::Entry::set_password: persists the password under
/// the entry's identity, creating or overwriting as needed (no merge, no
/// versioning). Whether it succeeds depends on host state.
#[verifier::external_body]
fn entry_set_password(entry: &keyring_core::Entry, token: &str) -> (r: Result<
    (),
    CredentialError,
>)
    ensures
        r matches Err(e) ==> e is Backend,
{
    entry.set_password(token).map_err(|e| CredentialError::Backend(format!("{}", e)))
}

/// Relies on keyring_core::Entry::get_password: re-queries the backend and
/// returns the stored password. Per its documentation it returns NoEntry
/// when nothing is stored under the identity, which this maps to NotFound;
/// every other failure is a backend failure.
#[verifier::external_body]
fn entry_get_password(entry: &keyring_core::Entry) -> (r: Result<String, CredentialError>)
    ensures
        r matches Err(e) ==> e is NotFound || e is Backend,
{
    entry.get_password().map_err(
        |e| match e {
            keyring_core::Error::NoEntry => CredentialError::NotFound,
            other => CredentialError::Backend(format!("{}", other)),
        },
    )
}

/// A handle on the one credential stored under a (service, account)
/// identity.
pub struct CredentialStore {
    entry: keyring_core::Entry,
}

/// The service name of the gateway's fixed credential identity.
pub fn service_name() -> (r: &'static str)
    ensures
        r@ == "vault-desktop"@,
{
    "vault-desktop"
}

/// The account name of the gateway's fixed credential identity.
pub fn account_name() -> (r: &'static str)
    ensures
        r@ == "default-token"@,
{
    "default-token"
}

impl CredentialStore {
    /// Opens the credential under (service, account). Fails only with a
    /// backend error, mapped onto the gateway taxonomy.
    pub fn open(service: &str, account: &str) -> (r: Result<CredentialStore, GatewayError>)
        ensures
            r matches Err(e) ==> e is CredentialBackend,
    {
        match entry_new(service, account) {
            Ok(entry) => Ok(CredentialStore { entry }),
            Err(CredentialError::Backend(m)) => Err(GatewayError::CredentialBackend(m)),
            Err(CredentialError::NotFound) => Err(GatewayError::CredentialNotFound),
        }
    }

    /// Opens the gateway's fixed credential identity.
    pub fn open_default() -> (r: Result<CredentialStore, GatewayError>)
        ensures
            r matches Err(e) ==> e is CredentialBackend,
    {
        CredentialStore::open(service_name(), account_name())
    }

    /// Persists `token`, overwriting any prior value. An error is always a
    /// backend error: absence of a prior value is no failure of a save.
    pub fn save(&self, token: &str) -> (r: Result<(), GatewayError>)
        ensures
            r matches Err(e) ==> e is CredentialBackend,
    {
        match entry_set_password(&self.entry, token) {
            Ok(()) => Ok(()),
            Err(CredentialError::Backend(m)) => Err(GatewayError::CredentialBackend(m)),
            Err(CredentialError::NotFound) => Err(GatewayError::CredentialNotFound),
        }
    }

    /// Re-queries the backend for the saved token. Fails with
    /// `CredentialNotFound` when no token was ever saved, and with
    /// `CredentialBackend` on backend access failure; nothing else.
    pub fn load(&self) -> (r: Result<String, GatewayError>)
        ensures
            r matches Err(e) ==> e is CredentialNotFound || e is CredentialBackend,
    {
        match entry_get_password(&self.entry) {
            Ok(token) => Ok(token),
            Err(CredentialError::NotFound) => Err(GatewayError::CredentialNotFound),
            Err(CredentialError::Backend(m)) => Err(GatewayError::CredentialBackend(m)),
        }
    }
}

/// Saves `token` under the gateway's fixed identity.
pub fn save_token(token: &str) -> (r: Result<(), GatewayError>)
    ensures
        r matches Err(e) ==> e is CredentialBackend,
{
    match CredentialStore::open_default() {
        Ok(store) => store.save(token),
        Err(e) => Err(e),
    }
}

/// Loads the token saved under the gateway's fixed identity.
pub fn get_token() -> (r: Result<String, GatewayError>)
    ensures
        r matches Err(e) ==> e is CredentialNotFound || e is CredentialBackend,
{
    match CredentialStore::open_default() {
        Ok(store) => store.load(),
        Err(e) => Err(e),
    }
}

} // verus!
