use ide_backend::credentials::{
    candidate_accounts, clear_result, credential_plan, first_stored, resolve_credentials,
    service_key, url_or_failure, CredentialAttempt, StoreFailure,
};
use ide_backend::error::GitError;

fn describe(plan: &[CredentialAttempt]) -> Vec<String> {
    plan.iter()
        .map(|attempt| match attempt {
            CredentialAttempt::Plaintext { username, password } => {
                format!("plain:{}:{}", username, password)
            }
            CredentialAttempt::Agent { username } => format!("agent:{}", username),
            CredentialAttempt::PlatformDefault => "default".to_string(),
        })
        .collect()
}

#[test]
fn service_key_is_namespace_then_url() {
    assert_eq!(
        service_key("https://example.com/repo.git"),
        "agentic-ide:git:https://example.com/repo.git"
    );
    assert_eq!(service_key(""), "agentic-ide:git:");
}

#[test]
fn candidates_are_probed_in_a_fixed_order() {
    assert_eq!(candidate_accounts(), vec!["git", "github", "oauth", "token"]);
}

#[test]
fn explicit_credentials_win_field_by_field() {
    let stored = Some(("git".to_string(), "stored-secret".to_string()));
    let both = resolve_credentials(Some("alice"), Some("pw"), stored.clone());
    assert_eq!(both.username.as_deref(), Some("alice"));
    assert_eq!(both.password.as_deref(), Some("pw"));

    let user_only = resolve_credentials(Some("alice"), None, stored.clone());
    assert_eq!(user_only.username.as_deref(), Some("alice"));
    assert_eq!(user_only.password.as_deref(), Some("stored-secret"));

    let secret_only = resolve_credentials(None, Some("pw"), stored.clone());
    assert_eq!(secret_only.username.as_deref(), Some("git"));
    assert_eq!(secret_only.password.as_deref(), Some("pw"));

    let neither = resolve_credentials(None, None, stored);
    assert_eq!(neither.username.as_deref(), Some("git"));
    assert_eq!(neither.password.as_deref(), Some("stored-secret"));
}

#[test]
fn nothing_given_and_nothing_stored_resolves_to_nothing() {
    let none = resolve_credentials(None, None, None);
    assert!(none.username.is_none());
    assert!(none.password.is_none());
    let user = resolve_credentials(Some("alice"), None, None);
    assert_eq!(user.username.as_deref(), Some("alice"));
    assert!(user.password.is_none());
}

#[test]
fn plaintext_is_offered_alone_when_accepted_and_known() {
    let plan = credential_plan(true, true, Some("git"), Some("alice"), Some("pw"));
    assert_eq!(describe(&plan), vec!["plain:alice:pw"]);
    let plan = credential_plan(true, false, None, Some("alice"), Some("pw"));
    assert_eq!(describe(&plan), vec!["plain:alice:pw"]);
}

#[test]
fn agent_is_asked_for_the_url_user_then_the_resolved_user() {
    let plan = credential_plan(false, true, Some("git"), Some("alice"), Some("pw"));
    assert_eq!(describe(&plan), vec!["agent:git", "agent:alice", "default"]);
    let plan = credential_plan(false, true, None, Some("alice"), None);
    assert_eq!(describe(&plan), vec!["agent:alice", "default"]);
    let plan = credential_plan(false, true, Some("git"), None, None);
    assert_eq!(describe(&plan), vec!["agent:git", "default"]);
    let plan = credential_plan(true, true, Some("git"), Some("alice"), None);
    assert_eq!(describe(&plan), vec!["agent:git", "agent:alice", "default"]);
    let plan = credential_plan(true, true, Some("git"), None, Some("pw"));
    assert_eq!(describe(&plan), vec!["agent:git", "default"]);
}

#[test]
fn platform_default_is_the_last_resort() {
    let plan = credential_plan(false, false, Some("git"), Some("alice"), Some("pw"));
    assert_eq!(describe(&plan), vec!["default"]);
    let plan = credential_plan(true, false, Some("git"), None, None);
    assert_eq!(describe(&plan), vec!["default"]);
    let plan = credential_plan(false, true, None, None, None);
    assert_eq!(describe(&plan), vec!["default"]);
}

#[test]
fn a_stored_secret_is_offered_and_a_cleared_one_is_not() {
    let stored = Some(("token".to_string(), "s3cret".to_string()));
    let with = resolve_credentials(None, None, stored);
    let plan = credential_plan(
        true,
        true,
        None,
        with.username.as_deref(),
        with.password.as_deref(),
    );
    assert_eq!(describe(&plan), vec!["plain:token:s3cret"]);

    let without = resolve_credentials(None, None, None);
    let plan = credential_plan(
        true,
        true,
        Some("git"),
        without.username.as_deref(),
        without.password.as_deref(),
    );
    assert_eq!(describe(&plan), vec!["agent:git", "default"]);
}

#[test]
fn a_url_that_was_not_read_is_a_failure() {
    assert_eq!(
        url_or_failure(Some("https://example.com/a.git".to_string())).unwrap(),
        "https://example.com/a.git"
    );
    assert_eq!(url_or_failure(Some(String::new())).unwrap(), "");
    match url_or_failure(None) {
        Err(GitError::Backend(text)) => assert_eq!(text, "Remote URL is missing or invalid"),
        other => panic!("unexpected outcome: {:?}", other),
    }
}

#[test]
fn first_candidate_with_a_secret_wins() {
    let accounts = candidate_accounts();
    // The store holds "token" -> "B", "github" -> "A" and an account that is
    // no candidate, which is never asked for.
    let answers = vec![None, Some("A".to_string()), None, Some("B".to_string())];
    assert_eq!(first_stored(&accounts, &answers).unwrap(), ("github".to_string(), "A".to_string()));

    let lazy = vec![None, Some("A".to_string())];
    assert_eq!(first_stored(&accounts, &lazy).unwrap(), ("github".to_string(), "A".to_string()));

    let first = vec![Some("G".to_string()), Some("A".to_string())];
    assert_eq!(first_stored(&accounts, &first).unwrap(), ("git".to_string(), "G".to_string()));

    let last = vec![None, None, None, Some("B".to_string())];
    assert_eq!(first_stored(&accounts, &last).unwrap(), ("token".to_string(), "B".to_string()));
}

#[test]
fn no_stored_secret_is_credential_not_found() {
    let accounts = candidate_accounts();
    assert!(matches!(
        first_stored(&accounts, &vec![None, None, None, None]),
        Err(GitError::CredentialNotFound)
    ));
    assert!(matches!(first_stored(&accounts, &Vec::new()), Err(GitError::CredentialNotFound)));
    // An answer without an account to go with it ends the search.
    let beyond = vec![None, None, None, None, Some("X".to_string())];
    assert!(matches!(first_stored(&accounts, &beyond), Err(GitError::CredentialNotFound)));
    assert!(matches!(
        first_stored(&Vec::new(), &vec![Some("X".to_string())]),
        Err(GitError::CredentialNotFound)
    ));
}

#[test]
fn clearing_excuses_only_the_missing_entry() {
    assert!(clear_result(Ok(())).is_ok());
    let missing = StoreFailure { no_entry: true, text: "No matching entry".to_string() };
    assert!(clear_result(Err(missing)).is_ok());
    let locked = StoreFailure { no_entry: false, text: "store is locked".to_string() };
    match clear_result(Err(locked)) {
        Err(GitError::Backend(text)) => assert_eq!(text, "store is locked"),
        other => panic!("unexpected outcome: {:?}", other),
    }
}
