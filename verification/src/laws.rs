//! The engine's cross-cutting guarantees, stated and proved as their own
//! theorems over the operation contracts and the well-formedness
//! invariant.

use vstd::prelude::*;

use crate::engine::find_account;
use crate::engine::find_trade;
use crate::engine::lemma_find_first_some;
use crate::engine::Engine;
use crate::principal::PrincipalId;
use crate::telemetry::add_point_applied;
use crate::trades::commission_of;
use crate::trades::settle_applied;
use crate::trades::settle_decision;
use crate::types::Account;
use crate::types::DataPoint;
use crate::types::EmissionHistoryPoint;
use crate::types::TradeOffer;

verus! {

/// For every account, at all times: `0 <= carbon_emitted <=
/// carbon_allowance`.
///
/// Every operation's contract preserves `allowances_ok`, with one
/// deliberate exception it states explicitly: recording a telemetry
/// sample adds its carbon reading without an allowance check, so it
/// preserves the invariant only when the reading stays within the
/// caller's remaining allowance.
pub proof fn lemma_allowance_invariant(e: Engine, p: PrincipalId)
    requires
        e.allowances_ok(),
    ensures
        match find_account(e.users@, p) {
            Some(a) => 0 <= a.profile.carbon_emitted <= a.profile.carbon_allowance,
            None => true,
        },
{
    if find_account(e.users@, p) is Some {
        lemma_find_first_some(e.users@, |a: Account| a.profile.principal == p);
    }
}

/// Every offer the book holds carries a positive amount at a positive
/// price: an offer whose amount reaches zero is absent from the book.
pub proof fn lemma_offers_positive(e: Engine)
    requires
        e.wf(),
    ensures
        forall|i: int|
            0 <= i < e.trades@.len() ==> (#[trigger] e.trades@[i]).amount > 0
                && e.trades@[i].price_per_unit > 0,
        forall|id: u64|
            #[trigger] find_trade(e.trades@, id) is Some ==> (find_trade(e.trades@, id) matches
                Some(t) && t.amount > 0 && t.price_per_unit > 0),
{
    assert forall|id: u64| #[trigger] find_trade(e.trades@, id) is Some implies (find_trade(
        e.trades@,
        id,
    ) matches Some(t) && t.amount > 0 && t.price_per_unit > 0) by {
        lemma_find_first_some(e.trades@, |t: TradeOffer| t.id == id);
    }
}

/// Settling a trade in full removes the offer from the book; settling
/// part of it leaves exactly the remainder, and the book never holds a
/// zero-amount offer afterwards.
pub proof fn lemma_settle_offer_lifecycle(
    pre: Engine,
    post: Engine,
    buyer: PrincipalId,
    trade_id: u64,
    amount: u64,
)
    requires
        pre.wf(),
        post.wf(),
        settle_decision(pre, buyer, trade_id, amount) is Ok,
        settle_applied(pre, post, buyer, trade_id, amount),
    ensures
        find_trade(pre.trades@, trade_id) matches Some(t) && (if amount == t.amount {
            find_trade(post.trades@, trade_id) is None
        } else {
            find_trade(post.trades@, trade_id) matches Some(nt) && nt.amount == t.amount - amount
        }),
        forall|i: int| 0 <= i < post.trades@.len() ==> (#[trigger] post.trades@[i]).amount > 0,
{
}

/// Token conservation on settlement: the buyer pays the full cost, the
/// seller receives the cost less the commission of one twentieth rounded
/// down, the burned difference is exactly that commission, and no other
/// account's balance moves.
pub proof fn lemma_settle_token_conservation(
    pre: Engine,
    post: Engine,
    buyer: PrincipalId,
    trade_id: u64,
    amount: u64,
)
    requires
        pre.wf(),
        settle_decision(pre, buyer, trade_id, amount) is Ok,
        settle_applied(pre, post, buyer, trade_id, amount),
    ensures
        find_trade(pre.trades@, trade_id) matches Some(t) && ({
            let cost = (amount * t.price_per_unit) as u64;
            let fee = commission_of(cost);
            &&& find_account(pre.users@, buyer) matches Some(b)
                && find_account(post.users@, buyer) matches Some(b2) && b2.profile.tokens
                == b.profile.tokens - cost
            &&& find_account(pre.users@, t.seller) matches Some(s)
                && find_account(post.users@, t.seller) matches Some(s2) && s2.profile.tokens
                == s.profile.tokens + (cost - fee)
            &&& fee == cost / 20
            &&& cost - (cost - fee) == fee
            &&& forall|q: PrincipalId|
                q != buyer && q != t.seller ==> find_account(post.users@, q) == find_account(
                    pre.users@,
                    q,
                )
        }),
{
}

/// Appending two samples for the same user extends that user's emission
/// series by exactly one point per call, in submission order.
pub proof fn lemma_emission_history_order(
    pre: Engine,
    mid: Engine,
    post: Engine,
    caller: PrincipalId,
    first_device: String,
    first_energy: u64,
    first_carbon: u64,
    first_time: u64,
    second_device: String,
    second_energy: u64,
    second_carbon: u64,
    second_time: u64,
)
    requires
        add_point_applied(pre, mid, caller, first_device, first_energy, first_carbon, first_time),
        add_point_applied(
            mid,
            post,
            caller,
            second_device,
            second_energy,
            second_carbon,
            second_time,
        ),
    ensures
        find_account(pre.users@, caller) matches Some(a) && find_account(post.users@, caller)
            matches Some(pa) && pa.emission_history@ == a.emission_history@ + seq![
            EmissionHistoryPoint { timestamp: first_time, amount: first_carbon },
            EmissionHistoryPoint { timestamp: second_time, amount: second_carbon },
        ] && pa.emission_history@.len() == a.emission_history@.len() + 2,
{
    let a = find_account(pre.users@, caller)->Some_0;
    let pa = find_account(post.users@, caller)->Some_0;
    assert(pa.emission_history@ =~= a.emission_history@ + seq![
        EmissionHistoryPoint { timestamp: first_time, amount: first_carbon },
        EmissionHistoryPoint { timestamp: second_time, amount: second_carbon },
    ]);
}

} // verus!
