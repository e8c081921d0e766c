use feishu_sdk::credential::{
    AccessTokenType, Credential, CredentialStore, ResolveAction,
};

#[test]
fn live_credential_is_served_from_the_cache() {
    let mut store = CredentialStore::new();
    store.complete_refresh(
        AccessTokenType::Tenant,
        Some(Credential { token: "tok".to_string(), expires_at: 100 }),
    );
    match store.resolve_step(AccessTokenType::Tenant, 50) {
        ResolveAction::UseToken(t) => assert_eq!(t, "tok"),
        _ => panic!("expected the cached token"),
    }
}

#[test]
fn contending_resolves_trigger_exactly_one_refresh() {
    // Three callers hit the same expired kind: the first begins the one
    // refresh, the others await it.
    let mut store = CredentialStore::new();
    store.complete_refresh(
        AccessTokenType::Tenant,
        Some(Credential { token: "old".to_string(), expires_at: 10 }),
    );
    let mut begins = 0;
    for _ in 0..3 {
        if matches!(
            store.resolve_step(AccessTokenType::Tenant, 99),
            ResolveAction::BeginRefresh
        ) {
            begins += 1;
        }
    }
    assert_eq!(begins, 1);
}

#[test]
fn completed_refresh_serves_the_new_credential() {
    let mut store = CredentialStore::new();
    assert!(matches!(
        store.resolve_step(AccessTokenType::User, 0),
        ResolveAction::BeginRefresh
    ));
    store.complete_refresh(
        AccessTokenType::User,
        Some(Credential { token: "fresh".to_string(), expires_at: 1000 }),
    );
    match store.resolve_step(AccessTokenType::User, 1) {
        ResolveAction::UseToken(t) => assert_eq!(t, "fresh"),
        _ => panic!("expected the fresh token"),
    }
}

#[test]
fn failed_refresh_clears_the_slot_and_allows_a_new_attempt() {
    let mut store = CredentialStore::new();
    assert!(matches!(
        store.resolve_step(AccessTokenType::Tenant, 0),
        ResolveAction::BeginRefresh
    ));
    store.complete_refresh(AccessTokenType::Tenant, None);
    assert!(matches!(
        store.resolve_step(AccessTokenType::Tenant, 0),
        ResolveAction::BeginRefresh
    ));
}

#[test]
fn invalidation_forces_a_refresh_despite_a_live_credential() {
    let mut store = CredentialStore::new();
    store.complete_refresh(
        AccessTokenType::Tenant,
        Some(Credential { token: "tok".to_string(), expires_at: 1000 }),
    );
    store.invalidate(AccessTokenType::Tenant);
    assert!(matches!(
        store.resolve_step(AccessTokenType::Tenant, 0),
        ResolveAction::BeginRefresh
    ));
}

#[test]
fn kinds_are_independent() {
    let mut store = CredentialStore::new();
    store.complete_refresh(
        AccessTokenType::Tenant,
        Some(Credential { token: "t1".to_string(), expires_at: 1000 }),
    );
    // A refresh beginning for the user kind leaves the tenant slot alone.
    assert!(matches!(
        store.resolve_step(AccessTokenType::User, 0),
        ResolveAction::BeginRefresh
    ));
    match store.resolve_step(AccessTokenType::Tenant, 0) {
        ResolveAction::UseToken(t) => assert_eq!(t, "t1"),
        _ => panic!("expected the tenant token"),
    }
}
