//! The boundary to the secret store of the operating system. What the store
//! holds is outside the program, so these functions promise nothing of their
//! results.

use vstd::prelude::*;

verus! {

/// One entry of the secret store, named by a service and an account.
#[verifier::external_type_specification]
#[verifier::external_body]
pub struct ExEntry(keyring::Entry);

/// A failure of the secret store.
#[verifier::external_type_specification]
#[verifier::external_body]
pub struct ExStoreError(keyring::Error);

/// Calls `keyring::Entry::new` for the service and the account.
#[verifier::external_body]
pub(crate) fn entry_for(service: &str, account: &str) -> (r: Result<keyring::Entry, keyring::Error>) {
    keyring::Entry::new(service, account)
}

/// Calls `keyring::Entry::get_password`.
#[verifier::external_body]
pub(crate) fn entry_secret(entry: &keyring::Entry) -> (r: Result<String, keyring::Error>) {
    entry.get_password()
}

/// Calls `keyring::Entry::set_password`.
#[verifier::external_body]
pub(crate) fn entry_store(entry: &keyring::Entry, secret: &str) -> (r: Result<(), keyring::Error>) {
    entry.set_password(secret)
}

/// Calls `keyring::Entry::delete_password`.
#[verifier::external_body]
pub(crate) fn entry_delete(entry: &keyring::Entry) -> (r: Result<(), keyring::Error>) {
    entry.delete_password()
}

/// Whether the failure is `keyring::Error::NoEntry`: the store holds no
/// entry for the service and the account.
#[verifier::external_body]
pub(crate) fn store_failure_is_no_entry(e: &keyring::Error) -> (r: bool) {
    match e {
        keyring::Error::NoEntry => true,
        _ => false,
    }
}

/// The failure as `keyring::Error` prints itself.
#[verifier::external_body]
pub(crate) fn store_failure_text(e: &keyring::Error) -> (r: String) {
    e.to_string()
}

} // verus!
