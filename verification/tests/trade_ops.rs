use green_gauge::engine::Engine;
use green_gauge::errors::TradeError;
use green_gauge::principal::PrincipalId;

fn p(raw: u64) -> PrincipalId {
    PrincipalId { raw }
}

#[test]
fn create_offer_assigns_monotonic_ids() {
    let mut e = Engine::new();
    e.register_user(p(1), 0).unwrap();
    assert_eq!(e.create_trade_offer(p(1), 10, 2), Ok(1));
    assert_eq!(e.create_trade_offer(p(1), 20, 3), Ok(2));
    let offers = e.get_trade_offers();
    assert_eq!(offers.len(), 2);
    assert_eq!(offers[0].id, 1);
    assert_eq!(offers[0].amount, 10);
    assert_eq!(offers[0].price_per_unit, 2);
    assert_eq!(offers[1].id, 2);
}

#[test]
fn create_offer_validations() {
    let mut e = Engine::new();
    e.register_user(p(1), 0).unwrap();
    assert_eq!(e.create_trade_offer(p(1), 0, 5), Err(TradeError::ZeroAmount));
    assert_eq!(e.create_trade_offer(p(1), 5, 0), Err(TradeError::ZeroPrice));
    assert_eq!(e.create_trade_offer(p(2), 5, 5), Err(TradeError::SellerNotRegistered));
    e.record_emission(p(1), 400).unwrap();
    assert_eq!(
        e.create_trade_offer(p(1), 601, 5),
        Err(TradeError::InsufficientAllowance { available: 600 })
    );
    assert_eq!(e.get_trade_offers().len(), 0);
}

#[test]
fn settle_scenario_with_commission() {
    // A registers and offers 100 units at price 5; B registers and buys 40:
    // B's allowance rises by 40, B's tokens fall by 200, A's tokens rise by
    // 190 (200 minus the 5% commission of 10), and the offer keeps 60.
    let mut e = Engine::new();
    e.register_user(p(1), 0).unwrap();
    let id = e.create_trade_offer(p(1), 100, 5).unwrap();
    e.register_user(p(2), 1).unwrap();
    e.reward_tokens(p(2), 200, 2).unwrap();

    assert_eq!(e.buy_carbon(p(2), id, 40), Ok(()));

    let buyer = e.get_user_profile(p(2)).unwrap();
    assert_eq!(buyer.carbon_allowance, 1040);
    assert_eq!(buyer.tokens, 100);
    let seller = e.get_user_profile(p(1)).unwrap();
    assert_eq!(seller.tokens, 290);
    let offers = e.get_trade_offers();
    assert_eq!(offers.len(), 1);
    assert_eq!(offers[0].amount, 60);
}

#[test]
fn settle_full_amount_removes_offer() {
    let mut e = Engine::new();
    e.register_user(p(1), 0).unwrap();
    let id = e.create_trade_offer(p(1), 10, 5).unwrap();
    e.register_user(p(2), 1).unwrap();
    assert_eq!(e.buy_carbon(p(2), id, 10), Ok(()));
    assert_eq!(e.get_trade_offers().len(), 0);
    assert_eq!(e.buy_carbon(p(2), id, 1), Err(TradeError::OfferNotFound));
}

#[test]
fn settle_commission_rounds_down() {
    // Cost 21 tokens: the commission of one twentieth rounds down to 1,
    // so the seller receives 20.
    let mut e = Engine::new();
    e.register_user(p(1), 0).unwrap();
    let id = e.create_trade_offer(p(1), 7, 3).unwrap();
    e.register_user(p(2), 1).unwrap();
    assert_eq!(e.buy_carbon(p(2), id, 7), Ok(()));
    assert_eq!(e.get_user_profile(p(1)).unwrap().tokens, 120);
    assert_eq!(e.get_user_profile(p(2)).unwrap().tokens, 79);
}

#[test]
fn settle_validations() {
    let mut e = Engine::new();
    e.register_user(p(1), 0).unwrap();
    let id = e.create_trade_offer(p(1), 10, 30).unwrap();
    e.register_user(p(2), 1).unwrap();

    assert_eq!(e.buy_carbon(p(2), id, 0), Err(TradeError::ZeroAmount));
    assert_eq!(e.buy_carbon(p(2), 99, 1), Err(TradeError::OfferNotFound));
    assert_eq!(e.buy_carbon(p(1), id, 1), Err(TradeError::SelfTrade));
    assert_eq!(e.buy_carbon(p(2), id, 11), Err(TradeError::ExceedsOfferAmount { available: 10 }));
    assert_eq!(e.buy_carbon(p(3), id, 1), Err(TradeError::BuyerNotRegistered));
    assert_eq!(
        e.buy_carbon(p(2), id, 5),
        Err(TradeError::InsufficientFunds { required: 150, available: 100 })
    );

    // Nothing committed along the way.
    assert_eq!(e.get_user_profile(p(1)).unwrap().tokens, 100);
    assert_eq!(e.get_user_profile(p(2)).unwrap().tokens, 100);
    assert_eq!(e.get_trade_offers()[0].amount, 10);
}

#[test]
fn settle_cost_overflow_is_reported() {
    let mut e = Engine::new();
    e.register_user(p(1), 0).unwrap();
    let id = e.create_trade_offer(p(1), 1000, u64::MAX).unwrap();
    e.register_user(p(2), 1).unwrap();
    assert_eq!(e.buy_carbon(p(2), id, 2), Err(TradeError::Overflow));
}
