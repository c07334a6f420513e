use green_gauge::credits::parse_certification;
use green_gauge::credits::parse_credit_type;
use green_gauge::engine::Engine;
use green_gauge::errors::CreditError;
use green_gauge::principal::PrincipalId;
use green_gauge::types::Certification;
use green_gauge::types::CreditType;
use green_gauge::types::TxKind;

fn p(raw: u64) -> PrincipalId {
    PrincipalId { raw }
}

fn list_default(e: &mut Engine, seller: PrincipalId, amount: u64, price: u64, now: u64) -> Result<
    u64,
    CreditError,
> {
    e.list_carbon_credit(
        seller,
        amount,
        price,
        "renewable".to_string(),
        "gold".to_string(),
        "Solar Farm".to_string(),
        2023,
        "Rooftop solar".to_string(),
        now,
    )
}

#[test]
fn wire_names_parse_to_enums() {
    assert_eq!(parse_credit_type(&"renewable".to_string()), Some(CreditType::Renewable));
    assert_eq!(parse_credit_type(&"forestry".to_string()), Some(CreditType::Forestry));
    assert_eq!(parse_credit_type(&"methane".to_string()), Some(CreditType::Methane));
    assert_eq!(parse_credit_type(&"efficiency".to_string()), Some(CreditType::Efficiency));
    assert_eq!(parse_credit_type(&"Renewable".to_string()), None);
    assert_eq!(parse_certification(&"gold".to_string()), Some(Certification::Gold));
    assert_eq!(parse_certification(&"verra".to_string()), Some(Certification::Verra));
    assert_eq!(parse_certification(&"american".to_string()), Some(Certification::American));
    assert_eq!(parse_certification(&"climate".to_string()), Some(Certification::Climate));
    assert_eq!(parse_certification(&"".to_string()), None);
}

#[test]
fn listing_validations() {
    let mut e = Engine::new();
    assert_eq!(
        list_default(&mut e, PrincipalId::anonymous(), 10, 5, 0),
        Err(CreditError::AnonymousCaller)
    );
    assert_eq!(list_default(&mut e, p(1), 0, 5, 0), Err(CreditError::InvalidAmount));
    assert_eq!(list_default(&mut e, p(1), 10, 0, 0), Err(CreditError::InvalidPrice));
    let bad_type = e.list_carbon_credit(
        p(1),
        10,
        5,
        "nuclear".to_string(),
        "gold".to_string(),
        "X".to_string(),
        2023,
        "Y".to_string(),
        0,
    );
    assert_eq!(bad_type, Err(CreditError::InvalidCreditType));
    let bad_cert = e.list_carbon_credit(
        p(1),
        10,
        5,
        "methane".to_string(),
        "homemade".to_string(),
        "X".to_string(),
        2023,
        "Y".to_string(),
        0,
    );
    assert_eq!(bad_cert, Err(CreditError::InvalidCertification));
    // None of the rejected listings provisioned the seller.
    assert!(!e.user_exists(p(1)));
}

#[test]
fn listing_provisions_seller_lazily() {
    let mut e = Engine::new();
    let id = list_default(&mut e, p(1), 10, 5, 7).unwrap();
    assert_eq!(id, 0);
    let profile = e.get_user_profile(p(1)).unwrap();
    assert_eq!(profile.carbon_allowance, 1000);
    assert_eq!(profile.tokens, 100);
    assert_eq!(profile.join_date, 7);
    let credits = e.get_carbon_credits();
    assert_eq!(credits.len(), 1);
    assert_eq!(credits[0].id, 0);
    assert_eq!(credits[0].seller, p(1));
    assert_eq!(credits[0].amount, 10);
    assert_eq!(credits[0].price_per_unit, 5);
    assert_eq!(credits[0].credit_type, CreditType::Renewable);
    assert_eq!(credits[0].certification, Certification::Gold);
    assert_eq!(credits[0].project_name, "Solar Farm".to_string());
    assert_eq!(credits[0].vintage_year, 2023);
    assert!(credits[0].is_active);
}

#[test]
fn listing_respects_available_allowance() {
    let mut e = Engine::new();
    // A fresh seller would hold the default allowance of 1000.
    assert_eq!(
        list_default(&mut e, p(1), 1001, 5, 0),
        Err(CreditError::InsufficientAllowance { available: 1000 })
    );
    // The failed listing did not provision the account.
    assert!(!e.user_exists(p(1)));

    e.register_user(p(2), 0).unwrap();
    e.record_emission(p(2), 600).unwrap();
    assert_eq!(
        list_default(&mut e, p(2), 401, 5, 0),
        Err(CreditError::InsufficientAllowance { available: 400 })
    );
    assert_eq!(list_default(&mut e, p(2), 400, 5, 0), Ok(0));
}

#[test]
fn purchase_partial_and_full() {
    let mut e = Engine::new();
    let id = list_default(&mut e, p(1), 100, 5, 0).unwrap();
    e.register_user(p(2), 1).unwrap();

    // Partial purchase reduces the listing.
    assert_eq!(e.purchase_carbon_credit(p(2), id, 30, 10), Ok(0));
    let credits = e.get_carbon_credits();
    assert_eq!(credits.len(), 1);
    assert_eq!(credits[0].amount, 70);
    assert!(credits[0].is_active);

    // Full purchase deactivates the listing but keeps it on record.
    assert_eq!(e.purchase_carbon_credit(p(2), id, 70, 20), Ok(1));
    assert_eq!(e.get_carbon_credits().len(), 0);

    // The ledger recorded both purchases.
    let ledger = e.debug_get_all_transactions();
    assert_eq!(ledger.len(), 2);
    assert_eq!(ledger[0].id, 0);
    assert_eq!(ledger[0].buyer, p(2));
    assert_eq!(ledger[0].seller, p(1));
    assert_eq!(ledger[0].credit_id, id);
    assert_eq!(ledger[0].amount, 30);
    assert_eq!(ledger[0].price_per_unit, 5);
    assert_eq!(ledger[0].project_name, "Solar Farm".to_string());
    assert_eq!(ledger[0].transaction_type, TxKind::Purchase);
    assert_eq!(ledger[0].transaction_time, 10);
    assert_eq!(ledger[1].amount, 70);
}

#[test]
fn purchase_moves_no_tokens() {
    // Unlike allowance trades, a credit purchase records a ledger entry
    // but transfers no token balance.
    let mut e = Engine::new();
    let id = list_default(&mut e, p(1), 50, 5, 0).unwrap();
    e.register_user(p(2), 1).unwrap();
    e.purchase_carbon_credit(p(2), id, 20, 2).unwrap();
    assert_eq!(e.get_user_profile(p(1)).unwrap().tokens, 100);
    assert_eq!(e.get_user_profile(p(2)).unwrap().tokens, 100);
}

#[test]
fn purchase_validations() {
    let mut e = Engine::new();
    let id = list_default(&mut e, p(1), 50, 5, 0).unwrap();
    e.register_user(p(2), 1).unwrap();

    assert_eq!(e.purchase_carbon_credit(p(2), id, 0, 0), Err(CreditError::InvalidAmount));
    assert_eq!(e.purchase_carbon_credit(p(2), 99, 1, 0), Err(CreditError::NotFoundOrInactive));
    assert_eq!(e.purchase_carbon_credit(p(1), id, 1, 0), Err(CreditError::SelfPurchase));
    assert_eq!(
        e.purchase_carbon_credit(p(2), id, 51, 0),
        Err(CreditError::ExceedsAvailable { available: 50 })
    );

    // A fully purchased, deactivated credit reads as absent.
    e.purchase_carbon_credit(p(2), id, 50, 0).unwrap();
    assert_eq!(e.purchase_carbon_credit(p(2), id, 1, 0), Err(CreditError::NotFoundOrInactive));
}

#[test]
fn user_transactions_filter_by_side() {
    let mut e = Engine::new();
    let id1 = list_default(&mut e, p(1), 50, 5, 0).unwrap();
    e.register_user(p(2), 0).unwrap();
    e.register_user(p(3), 0).unwrap();
    e.purchase_carbon_credit(p(2), id1, 10, 1).unwrap();
    e.purchase_carbon_credit(p(3), id1, 10, 2).unwrap();

    let seller_side = e.get_user_transactions(p(1));
    assert_eq!(seller_side.len(), 2);
    let buyer_side = e.get_user_transactions(p(2));
    assert_eq!(buyer_side.len(), 1);
    assert_eq!(buyer_side[0].buyer, p(2));
    assert_eq!(e.get_user_transactions(p(9)).len(), 0);
}
