use baklog_desktop::credentials::{ApiKeys, Credentials};
use baklog_desktop::failure::{ErrorKind, Failure};
use baklog_desktop::manager::{
    interpret, load_credentials, prepare, refusal, save_credentials, CredentialManager,
    ACCOUNT_NAME, SERVICE_NAME,
};
use baklog_desktop::vault::SecretStore;
use keyring::mock::MockCredential;
use keyring::Entry;

fn mock_entry() -> Entry {
    Entry::new_with_credential(Box::new(MockCredential::default()))
}

fn mock_manager() -> CredentialManager {
    CredentialManager::over(SecretStore::with_entry(mock_entry()))
}

fn manager_holding(text: &str) -> CredentialManager {
    let entry = mock_entry();
    entry.set_password(text).unwrap();
    CredentialManager::over(SecretStore::with_entry(entry))
}

fn keys() -> ApiKeys {
    ApiKeys {
        database_url: String::from("postgres://user:pw@host/db?x=\"1\""),
        openai_api_key: String::from("sk-\\key"),
        auth_google_id: String::from("id.apps.example"),
        auth_google_secret: String::from("secret\nwith break"),
    }
}

fn keys_of(database_url: &str, api_key: &str, id: &str, secret: &str) -> ApiKeys {
    ApiKeys {
        database_url: String::from(database_url),
        openai_api_key: String::from(api_key),
        auth_google_id: String::from(id),
        auth_google_secret: String::from(secret),
    }
}

fn is_secret(text: &str) -> bool {
    text.len() == 64 && text.chars().all(|c| "0123456789abcdef".contains(c))
}

#[test]
fn save_then_load_returns_the_four_fields() {
    let manager = mock_manager();
    let saved = manager.save(&keys()).unwrap();
    let loaded = manager.load().unwrap();
    assert_eq!(loaded.database_url, keys().database_url);
    assert_eq!(loaded.openai_api_key, keys().openai_api_key);
    assert_eq!(loaded.auth_google_id, keys().auth_google_id);
    assert_eq!(loaded.auth_google_secret, keys().auth_google_secret);
    assert!(!loaded.auth_secret.is_empty());
    assert!(is_secret(&loaded.auth_secret));
    assert_eq!(loaded.auth_secret, saved.auth_secret);
    assert_eq!(saved.database_url, keys().database_url);
}

#[test]
fn every_save_makes_a_new_session_secret() {
    let manager = mock_manager();
    let first = manager.save(&keys()).unwrap();
    let after_first = manager.load().unwrap();
    let second = manager.save(&keys()).unwrap();
    let after_second = manager.load().unwrap();
    assert_ne!(first.auth_secret, second.auth_secret);
    assert_eq!(after_first.auth_secret, first.auth_secret);
    assert_eq!(after_second.auth_secret, second.auth_secret);
    assert_eq!(after_second.database_url, keys().database_url);
}

#[test]
fn loading_does_not_change_the_session_secret() {
    let manager = mock_manager();
    let saved = manager.save(&keys()).unwrap();
    assert_eq!(manager.load().unwrap().auth_secret, saved.auth_secret);
    assert_eq!(manager.load().unwrap().auth_secret, saved.auth_secret);
}

#[test]
fn credentials_are_present_only_after_a_save() {
    let manager = mock_manager();
    assert!(!manager.is_present());
    manager.save(&keys()).unwrap();
    assert!(manager.is_present());
}

#[test]
fn nothing_stored_is_not_found() {
    assert_eq!(mock_manager().load().unwrap_err().kind, ErrorKind::NotFound);
}

#[test]
fn a_stored_text_that_is_no_record_is_malformed() {
    let manager = manager_holding("certainly not a record");
    assert_eq!(manager.load().unwrap_err().kind, ErrorKind::Malformed);
    assert!(!manager.is_present());
}

#[test]
fn a_stored_record_with_an_empty_field_is_malformed() {
    let manager = manager_holding(
        "{\"database_url\":\"d\",\"openai_api_key\":\"\",\"auth_google_id\":\"i\",\"auth_google_secret\":\"g\",\"auth_secret\":\"s\"}",
    );
    assert_eq!(manager.load().unwrap_err().kind, ErrorKind::Malformed);
    assert!(!manager.is_present());
}

#[test]
fn a_record_written_by_hand_is_loaded() {
    let manager = manager_holding(
        "{\"database_url\":\"d\",\"openai_api_key\":\"k\",\"auth_google_id\":\"i\",\"auth_google_secret\":\"g\",\"auth_secret\":\"s\"}",
    );
    let loaded = manager.load().unwrap();
    assert_eq!(loaded.database_url, "d");
    assert_eq!(loaded.openai_api_key, "k");
    assert_eq!(loaded.auth_google_id, "i");
    assert_eq!(loaded.auth_google_secret, "g");
    assert_eq!(loaded.auth_secret, "s");
    assert!(manager.is_present());
}

#[test]
fn keys_with_an_empty_field_are_not_saved() {
    let manager = mock_manager();
    for incomplete in [
        keys_of("", "k", "i", "g"),
        keys_of("d", "", "i", "g"),
        keys_of("d", "k", "", "g"),
        keys_of("d", "k", "i", ""),
    ] {
        assert_eq!(manager.save(&incomplete).unwrap_err().kind, ErrorKind::Incomplete);
    }
    assert!(!manager.is_present());
}

#[test]
fn a_refusing_vault_fails_the_save() {
    let entry = mock_entry();
    let mock: &MockCredential = entry.get_credential().downcast_ref().unwrap();
    mock.set_error(keyring::Error::NoStorageAccess("declined".into()));
    let manager = CredentialManager::over(SecretStore::with_entry(entry));
    assert_eq!(manager.save(&keys()).unwrap_err().kind, ErrorKind::AccessDenied);
    assert!(!manager.is_present());
}

#[test]
fn store_writes_the_bundle_as_given() {
    let entry = mock_entry();
    let bundle = Credentials {
        database_url: String::from("d"),
        openai_api_key: String::from("k"),
        auth_google_id: String::from("i"),
        auth_google_secret: String::from("g"),
        auth_secret: String::from("given"),
    };
    let manager = CredentialManager::over(SecretStore::with_entry(entry));
    manager.store(&bundle).unwrap();
    assert_eq!(manager.load().unwrap().auth_secret, "given");
}

#[test]
fn store_refuses_an_incomplete_bundle() {
    let bundle = Credentials {
        database_url: String::from("d"),
        openai_api_key: String::from("k"),
        auth_google_id: String::from("i"),
        auth_google_secret: String::from("g"),
        auth_secret: String::new(),
    };
    let manager = mock_manager();
    assert_eq!(manager.store(&bundle).unwrap_err().kind, ErrorKind::Incomplete);
    assert_eq!(manager.load().unwrap_err().kind, ErrorKind::NotFound);
}

#[test]
fn prepare_joins_keys_and_secret() {
    let bundle = prepare(&keys(), String::from("abcd")).unwrap();
    assert_eq!(bundle.database_url, keys().database_url);
    assert_eq!(bundle.openai_api_key, keys().openai_api_key);
    assert_eq!(bundle.auth_google_id, keys().auth_google_id);
    assert_eq!(bundle.auth_google_secret, keys().auth_google_secret);
    assert_eq!(bundle.auth_secret, "abcd");
}

#[test]
fn prepare_refuses_empty_fields() {
    assert_eq!(prepare(&keys(), String::new()).unwrap_err().kind, ErrorKind::Incomplete);
    assert_eq!(
        prepare(&keys_of("d", "", "i", "g"), String::from("abcd")).unwrap_err().kind,
        ErrorKind::Incomplete
    );
}

#[test]
fn interpret_passes_a_failure_of_the_vault_on() {
    let given = Failure { kind: ErrorKind::AccessDenied, detail: String::from("declined") };
    let failure = interpret(Err(given)).unwrap_err();
    assert_eq!(failure.kind, ErrorKind::AccessDenied);
    assert_eq!(failure.detail, "declined");
    let missing = Failure { kind: ErrorKind::NotFound, detail: String::from("none") };
    assert_eq!(interpret(Err(missing)).unwrap_err().kind, ErrorKind::NotFound);
}

#[test]
fn interpret_reads_a_record() {
    let text = String::from(
        "{\"database_url\":\"d\",\"openai_api_key\":\"k\",\"auth_google_id\":\"i\",\"auth_google_secret\":\"g\",\"auth_secret\":\"s\"}",
    );
    assert_eq!(interpret(Ok(text)).unwrap().openai_api_key, "k");
    assert_eq!(interpret(Ok(String::from("{}"))).unwrap_err().kind, ErrorKind::Malformed);
}

#[test]
fn the_application_s_entry_of_a_mock_vault_starts_empty() {
    keyring::set_default_credential_builder(keyring::mock::default_credential_builder());
    assert_eq!(load_credentials().unwrap_err(), "No matching entry found in secure storage");
}

#[test]
fn save_credentials_makes_the_session_secret() {
    keyring::set_default_credential_builder(keyring::mock::default_credential_builder());
    let first = save_credentials(&keys()).unwrap();
    let second = save_credentials(&keys()).unwrap();
    for saved in [&first, &second] {
        assert_eq!(saved.database_url, keys().database_url);
        assert_eq!(saved.openai_api_key, keys().openai_api_key);
        assert_eq!(saved.auth_google_id, keys().auth_google_id);
        assert_eq!(saved.auth_google_secret, keys().auth_google_secret);
        assert!(is_secret(&saved.auth_secret));
    }
    assert_ne!(first.auth_secret, second.auth_secret);
}

#[test]
fn save_credentials_refuses_an_empty_field() {
    keyring::set_default_credential_builder(keyring::mock::default_credential_builder());
    for incomplete in [
        keys_of("", "k", "i", "g"),
        keys_of("d", "", "i", "g"),
        keys_of("d", "k", "", "g"),
        keys_of("d", "k", "i", ""),
    ] {
        assert_eq!(
            save_credentials(&incomplete).unwrap_err(),
            "every credential field must be filled in"
        );
    }
}

#[test]
fn the_record_in_the_vault_has_the_five_names() {
    let entry = mock_entry();
    let bundle = prepare(&keys_of("d", "k", "i", "g"), String::from("abcd")).unwrap();
    let manager = CredentialManager::over(SecretStore::with_entry(entry));
    manager.store(&bundle).unwrap();
    let loaded = manager.load().unwrap();
    assert!(loaded.same_as(&bundle));
}

#[test]
fn what_the_vault_receives_is_the_sealed_record() {
    let manager = mock_manager();
    let bundle = prepare(&keys_of("d\"", "k", "i", "g"), String::from("abcd")).unwrap();
    manager.store(&bundle).unwrap();
    assert_eq!(
        manager.into_store().get().unwrap(),
        "{\"database_url\":\"d\\\"\",\"openai_api_key\":\"k\",\"auth_google_id\":\"i\",\"auth_google_secret\":\"g\",\"auth_secret\":\"abcd\"}"
    );
    let saver = mock_manager();
    let saved = saver.save(&keys_of("d", "k", "i", "g")).unwrap();
    let expected = [
        "{\"database_url\":\"d\",\"openai_api_key\":\"k\",\"auth_google_id\":\"i\",\"auth_google_secret\":\"g\",\"auth_secret\":\"",
        saved.auth_secret.as_str(),
        "\"}",
    ]
    .concat();
    assert_eq!(saver.into_store().get().unwrap(), expected);
}

#[test]
fn a_refusal_says_what_is_missing() {
    let failure = refusal();
    assert_eq!(failure.kind, ErrorKind::Incomplete);
    assert_eq!(failure.detail, "every credential field must be filled in");
    let refused = prepare(&keys_of("d", "k", "i", ""), String::from("abcd")).unwrap_err();
    assert_eq!(refused.detail, "every credential field must be filled in");
    let not_stored = mock_manager().save(&keys_of("", "k", "i", "g")).unwrap_err();
    assert_eq!(not_stored.detail, "every credential field must be filled in");
}

#[test]
fn the_bundle_is_kept_under_fixed_names() {
    assert_eq!(SERVICE_NAME, "com.baklog.app");
    assert_eq!(ACCOUNT_NAME, "credentials");
}
