use vault_gateway::CredentialStore;
use vault_gateway::GatewayError;
use vault_gateway::get_token;
use vault_gateway::save_token;

// The default credential store is process-wide state, so the whole
// lifecycle runs as one sequence.
#[test]
fn token_lifecycle_against_the_store() {
    // With no store at all, saving and loading fail with a backend error.
    keyring_core::unset_default_store();
    match save_token("hvs.any") {
        Err(GatewayError::CredentialBackend(_)) => {}
        other => panic!("expected a backend error, got {:?}", other),
    }

    // From here on, an in-memory store stands in for the host facility.
    keyring_core::set_default_store(keyring_core::mock::Store::new().unwrap());

    // A load before any save fails with the not-found error.
    assert!(matches!(get_token(), Err(GatewayError::CredentialNotFound)));

    // A save followed by a load returns exactly the saved token.
    save_token("hvs.first").unwrap();
    assert_eq!(get_token().unwrap(), "hvs.first");

    // A second save overwrites: no merge, no versioning.
    save_token("hvs.second").unwrap();
    assert_eq!(get_token().unwrap(), "hvs.second");

    // Distinct identities hold distinct tokens.
    let one = CredentialStore::open("svc", "alpha").unwrap();
    let other = CredentialStore::open("svc", "beta").unwrap();
    one.save("token-a").unwrap();
    other.save("token-b").unwrap();
    assert_eq!(one.load().unwrap(), "token-a");
    assert_eq!(other.load().unwrap(), "token-b");
}
