use green_gauge::engine::Engine;
use green_gauge::errors::AccountError;
use green_gauge::principal::PrincipalId;
use green_gauge::types::ProfileUpdate;

fn p(raw: u64) -> PrincipalId {
    PrincipalId { raw }
}

#[test]
fn register_grants_defaults() {
    let mut e = Engine::new();
    assert_eq!(e.register_user(p(1), 50), Ok(()));
    let profile = e.get_user_profile(p(1)).unwrap();
    assert_eq!(profile.carbon_allowance, 1000);
    assert_eq!(profile.carbon_emitted, 0);
    assert_eq!(profile.tokens, 100);
    assert!(profile.has_subcontract);
    assert_eq!(profile.join_date, 50);
    assert_eq!(profile.last_activity, 50);
    assert_eq!(profile.username, None);
}

#[test]
fn register_seeds_token_history() {
    let mut e = Engine::new();
    e.register_user(p(1), 50).unwrap();
    let history = e.get_token_balance_history(p(1), 0, u64::MAX);
    assert_eq!(history.len(), 1);
    assert_eq!(history[0].timestamp, 50);
    assert_eq!(history[0].balance, 100);
    assert_eq!(e.get_emission_history(p(1), 0, u64::MAX).len(), 0);
}

#[test]
fn register_rejects_anonymous() {
    let mut e = Engine::new();
    assert_eq!(e.register_user(PrincipalId::anonymous(), 0), Err(AccountError::AnonymousCaller));
    assert!(!e.user_exists(PrincipalId::anonymous()));
}

#[test]
fn register_rejects_duplicate() {
    let mut e = Engine::new();
    e.register_user(p(1), 0).unwrap();
    assert_eq!(e.register_user(p(1), 1), Err(AccountError::AlreadyRegistered));
}

#[test]
fn get_profile_unknown_user() {
    let e = Engine::new();
    assert_eq!(e.get_user_profile(p(9)), Err(AccountError::NotFound));
}

#[test]
fn user_exists_reflects_registration() {
    let mut e = Engine::new();
    assert!(!e.user_exists(p(1)));
    e.register_user(p(1), 0).unwrap();
    assert!(e.user_exists(p(1)));
    assert!(!e.user_exists(p(2)));
}

#[test]
fn record_emission_accumulates() {
    let mut e = Engine::new();
    e.register_user(p(1), 0).unwrap();
    assert_eq!(e.record_emission(p(1), 300), Ok(()));
    assert_eq!(e.record_emission(p(1), 700), Ok(()));
    assert_eq!(e.get_user_profile(p(1)).unwrap().carbon_emitted, 1000);
}

#[test]
fn record_emission_rejected_beyond_allowance_leaves_state() {
    // An amount that would push carbon_emitted above carbon_allowance is
    // rejected and changes nothing.
    let mut e = Engine::new();
    e.register_user(p(1), 0).unwrap();
    e.record_emission(p(1), 900).unwrap();
    assert_eq!(e.record_emission(p(1), 101), Err(AccountError::AllowanceExceeded));
    assert_eq!(e.get_user_profile(p(1)).unwrap().carbon_emitted, 900);
}

#[test]
fn record_emission_unknown_user() {
    let mut e = Engine::new();
    assert_eq!(e.record_emission(p(1), 1), Err(AccountError::NotFound));
}

#[test]
fn reward_tokens_appends_balance_point() {
    let mut e = Engine::new();
    e.register_user(p(1), 10).unwrap();
    assert_eq!(e.reward_tokens(p(1), 40, 20), Ok(()));
    assert_eq!(e.get_user_profile(p(1)).unwrap().tokens, 140);
    let history = e.get_token_balance_history(p(1), 0, u64::MAX);
    assert_eq!(history.len(), 2);
    assert_eq!(history[1].timestamp, 20);
    assert_eq!(history[1].balance, 140);
}

#[test]
fn reward_tokens_overflow_is_reported() {
    let mut e = Engine::new();
    e.register_user(p(1), 0).unwrap();
    assert_eq!(e.reward_tokens(p(1), u64::MAX, 1), Err(AccountError::Overflow));
    assert_eq!(e.get_user_profile(p(1)).unwrap().tokens, 100);
}

#[test]
fn update_profile_merges_present_fields() {
    let mut e = Engine::new();
    e.register_user(p(1), 0).unwrap();
    let first = ProfileUpdate {
        username: Some("greta".to_string()),
        email: Some("greta@example.com".to_string()),
        full_name: None,
        location: None,
    };
    assert_eq!(e.update_user_profile(p(1), first, 5), Ok(()));
    let second = ProfileUpdate {
        username: None,
        email: None,
        full_name: Some("Greta G.".to_string()),
        location: None,
    };
    assert_eq!(e.update_user_profile(p(1), second, 9), Ok(()));
    let profile = e.get_user_profile(p(1)).unwrap();
    assert_eq!(profile.username, Some("greta".to_string()));
    assert_eq!(profile.email, Some("greta@example.com".to_string()));
    assert_eq!(profile.full_name, Some("Greta G.".to_string()));
    assert_eq!(profile.location, None);
    assert_eq!(profile.last_activity, 9);
}

#[test]
fn update_profile_unknown_user() {
    let mut e = Engine::new();
    let request = ProfileUpdate { username: None, email: None, full_name: None, location: None };
    assert_eq!(e.update_user_profile(p(1), request, 0), Err(AccountError::NotFound));
}

#[test]
fn all_users_in_registration_order() {
    let mut e = Engine::new();
    e.register_user(p(3), 0).unwrap();
    e.register_user(p(1), 1).unwrap();
    let users = e.debug_get_all_users();
    assert_eq!(users.len(), 2);
    assert_eq!(users[0].principal, p(3));
    assert_eq!(users[1].principal, p(1));
}

#[test]
fn subcontract_stubs_always_succeed() {
    let e = Engine::new();
    assert_eq!(e.has_subcontract(), Ok(true));
    assert_eq!(e.deploy_subcontract(), Ok(true));
    assert_eq!(e.is_admin(p(7)), Ok(()));
}
