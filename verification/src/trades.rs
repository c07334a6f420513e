//! The peer-to-peer allowance trade book: open offers, their creation and
//! their settlement.
//!
//! Settling a trade moves tokens from the buyer to the seller minus a
//! commission that is burned — credited to nobody — and grants the buyer
//! additional allowance headroom. A fully bought offer leaves the book; a
//! partially bought one stays with its amount reduced, never at zero.

use vstd::prelude::*;

use crate::engine::find_account;
use crate::engine::find_trade;
use crate::engine::keys_below;
use crate::engine::keys_increasing;
use crate::engine::lemma_account_update;
use crate::engine::lemma_find_first_at;
use crate::engine::lemma_find_first_none;
use crate::engine::lemma_find_first_remove_other;
use crate::engine::lemma_find_first_update_other;
use crate::engine::lemma_keys_push;
use crate::engine::reads_as;
use crate::engine::trade_key;
use crate::engine::trades_positive;
use crate::engine::Engine;
use crate::errors::TradeError;
use crate::principal::PrincipalId;
use crate::types::clone_points;
use crate::types::TradeOffer;
use crate::types::UserProfile;
use crate::types::COMMISSION_DIVISOR;

verus! {

/// The commission burned on a settled trade: one twentieth (5%) of the
/// total cost, rounded down.
pub open spec fn commission_of(cost: u64) -> u64 {
    cost / COMMISSION_DIVISOR
}

/// The outcome of settling `amount` units of offer `trade_id` for `buyer`
/// against state `e`: the exact error for every rejected request, `Ok`
/// otherwise.
pub open spec fn settle_decision(
    e: Engine,
    buyer: PrincipalId,
    trade_id: u64,
    amount: u64,
) -> Result<(), TradeError> {
    if amount == 0 {
        Err(TradeError::ZeroAmount)
    } else {
        match find_trade(e.trades@, trade_id) {
            None => Err(TradeError::OfferNotFound),
            Some(t) => if t.seller == buyer {
                Err(TradeError::SelfTrade)
            } else if amount > t.amount {
                Err(TradeError::ExceedsOfferAmount { available: t.amount })
            } else if amount * t.price_per_unit > u64::MAX {
                Err(TradeError::Overflow)
            } else {
                let cost = (amount * t.price_per_unit) as u64;
                match find_account(e.users@, buyer) {
                    None => Err(TradeError::BuyerNotRegistered),
                    Some(b) => if b.profile.tokens < cost {
                        Err(
                            TradeError::InsufficientFunds {
                                required: cost,
                                available: b.profile.tokens,
                            },
                        )
                    } else {
                        match find_account(e.users@, t.seller) {
                            None => Err(TradeError::SellerNotRegistered),
                            Some(s) => if b.profile.carbon_allowance + amount > u64::MAX {
                                Err(TradeError::Overflow)
                            } else if s.profile.tokens + (cost - commission_of(cost)) > u64::MAX {
                                Err(TradeError::Overflow)
                            } else {
                                Ok(())
                            },
                        }
                    },
                }
            },
        }
    }
}

/// How a successful settlement rewrites the state: the buyer pays the full
/// cost and gains allowance, the seller receives the cost less the burned
/// commission, nobody else changes, and the offer shrinks by `amount` or
/// leaves the book when fully bought.
pub open spec fn settle_applied(
    pre: Engine,
    post: Engine,
    buyer: PrincipalId,
    trade_id: u64,
    amount: u64,
) -> bool {
    match (find_trade(pre.trades@, trade_id), find_account(pre.users@, buyer)) {
        (Some(t), Some(b)) => match find_account(pre.users@, t.seller) {
            Some(s) => {
                let cost = (amount * t.price_per_unit) as u64;
                let fee = commission_of(cost);
                &&& reads_as(
                    post.users@,
                    buyer,
                    (UserProfile {
                        tokens: (b.profile.tokens - cost) as u64,
                        carbon_allowance: (b.profile.carbon_allowance + amount) as u64,
                        ..b.profile
                    }),
                    b.emission_history@,
                    b.token_history@,
                )
                &&& reads_as(
                    post.users@,
                    t.seller,
                    (UserProfile { tokens: (s.profile.tokens + (cost - fee)) as u64, ..s.profile }),
                    s.emission_history@,
                    s.token_history@,
                )
                &&& post.users@.len() == pre.users@.len()
                &&& forall|q: PrincipalId|
                    q != buyer && q != t.seller ==> find_account(post.users@, q) == find_account(
                        pre.users@,
                        q,
                    )
                &&& if amount == t.amount {
                    &&& post.trades@.len() == pre.trades@.len() - 1
                    &&& find_trade(post.trades@, trade_id) is None
                } else {
                    &&& post.trades@.len() == pre.trades@.len()
                    &&& find_trade(post.trades@, trade_id) == Some(
                        TradeOffer { amount: (t.amount - amount) as u64, ..t },
                    )
                }
                &&& forall|other: u64|
                    other != trade_id ==> find_trade(post.trades@, other) == find_trade(
                        pre.trades@,
                        other,
                    )
                &&& post.next_trade_id == pre.next_trade_id
            },
            None => false,
        },
        _ => false,
    }
}

impl Engine {
    /// Opens an offer of `amount` allowance units at `price_per_unit`
    /// tokens each.
    ///
    /// Zero amounts and zero prices are rejected, as is an amount above
    /// the seller's available allowance; the seller must be registered. On
    /// success the offer is appended under the next trade id, which is
    /// returned.
    pub fn create_trade_offer(
        &mut self,
        seller: PrincipalId,
        amount: u64,
        price_per_unit: u64,
    ) -> (r: Result<u64, TradeError>)
        requires
            old(self).wf(),
        ensures
            final(self).wf(),
            old(self).accounts_unchanged(*final(self)),
            old(self).credit_market_unchanged(*final(self)),
            old(self).ledger_unchanged(*final(self)),
            old(self).telemetry_unchanged(*final(self)),
            old(self).alerts_unchanged(*final(self)),
            old(self).allowances_ok() ==> final(self).allowances_ok(),
            r is Err ==> *final(self) == *old(self),
            amount == 0 ==> r == Err::<u64, TradeError>(TradeError::ZeroAmount),
            amount > 0 && price_per_unit == 0 ==> r == Err::<u64, TradeError>(
                TradeError::ZeroPrice,
            ),
            amount > 0 && price_per_unit > 0 ==> match find_account(old(self).users@, seller) {
                None => r == Err::<u64, TradeError>(TradeError::SellerNotRegistered),
                Some(a) => {
                    if amount > a.profile.spec_available() {
                        r == Err::<u64, TradeError>(
                            TradeError::InsufficientAllowance {
                                available: a.profile.spec_available(),
                            },
                        )
                    } else if old(self).next_trade_id == u64::MAX {
                        r == Err::<u64, TradeError>(TradeError::Overflow)
                    } else {
                        &&& r == Ok::<u64, TradeError>(old(self).next_trade_id)
                        &&& final(self).trades@ == old(self).trades@.push(
                            TradeOffer {
                                id: old(self).next_trade_id,
                                seller,
                                amount,
                                price_per_unit,
                            },
                        )
                        &&& final(self).next_trade_id == old(self).next_trade_id + 1
                    }
                },
            },
    {
        if amount == 0 {
            return Err(TradeError::ZeroAmount);
        }
        if price_per_unit == 0 {
            return Err(TradeError::ZeroPrice);
        }
        let i = match self.user_index(seller) {
            Some(i) => i,
            None => {
                return Err(TradeError::SellerNotRegistered);
            },
        };
        let allowance = self.users[i].profile.carbon_allowance;
        let emitted = self.users[i].profile.carbon_emitted;
        let available = if emitted > allowance {
            0
        } else {
            allowance - emitted
        };
        if amount > available {
            return Err(TradeError::InsufficientAllowance { available });
        }
        if self.next_trade_id == u64::MAX {
            return Err(TradeError::Overflow);
        }
        let trade_id = self.next_trade_id;
        let offer = TradeOffer { id: trade_id, seller, amount, price_per_unit };
        proof {
            lemma_keys_push(self.trades@, trade_key(), trade_id, offer);
        }
        self.trades.push(offer);
        self.next_trade_id = trade_id + 1;
        Ok(trade_id)
    }

    /// Every open offer, in creation order.
    pub fn get_trade_offers(&self) -> (r: Vec<TradeOffer>)
        ensures
            r@ == self.trades@,
    {
        clone_points(&self.trades)
    }

    /// Settles `amount` units of offer `trade_id` for `buyer`.
    ///
    /// The decision over the prior state is exactly
    /// [`settle_decision`]; on success the state is rewritten exactly as
    /// [`settle_applied`] says, and on any error it is untouched.
    pub fn buy_carbon(&mut self, buyer: PrincipalId, trade_id: u64, amount: u64) -> (r: Result<
        (),
        TradeError,
    >)
        requires
            old(self).wf(),
        ensures
            final(self).wf(),
            old(self).credit_market_unchanged(*final(self)),
            old(self).ledger_unchanged(*final(self)),
            old(self).telemetry_unchanged(*final(self)),
            old(self).alerts_unchanged(*final(self)),
            old(self).allowances_ok() ==> final(self).allowances_ok(),
            r is Err ==> *final(self) == *old(self),
            r == settle_decision(*old(self), buyer, trade_id, amount),
            r is Ok ==> settle_applied(*old(self), *final(self), buyer, trade_id, amount),
    {
        if amount == 0 {
            return Err(TradeError::ZeroAmount);
        }
        let ti = match self.trade_index(trade_id) {
            Some(i) => i,
            None => {
                return Err(TradeError::OfferNotFound);
            },
        };
        let seller = self.trades[ti].seller;
        let offer_amount = self.trades[ti].amount;
        let price = self.trades[ti].price_per_unit;
        if seller == buyer {
            return Err(TradeError::SelfTrade);
        }
        if amount > offer_amount {
            return Err(TradeError::ExceedsOfferAmount { available: offer_amount });
        }
        let cost = match amount.checked_mul(price) {
            Some(c) => c,
            None => {
                return Err(TradeError::Overflow);
            },
        };
        let bi = match self.user_index(buyer) {
            Some(i) => i,
            None => {
                return Err(TradeError::BuyerNotRegistered);
            },
        };
        let buyer_tokens = self.users[bi].profile.tokens;
        if buyer_tokens < cost {
            return Err(TradeError::InsufficientFunds { required: cost, available: buyer_tokens });
        }
        let si = match self.user_index(seller) {
            Some(i) => i,
            None => {
                return Err(TradeError::SellerNotRegistered);
            },
        };
        let buyer_allowance = self.users[bi].profile.carbon_allowance;
        if amount > u64::MAX - buyer_allowance {
            return Err(TradeError::Overflow);
        }
        let fee = cost / COMMISSION_DIVISOR;
        let earnings = cost - fee;
        let seller_tokens = self.users[si].profile.tokens;
        if earnings > u64::MAX - seller_tokens {
            return Err(TradeError::Overflow);
        }

        let ghost pre_trades = self.trades@;
        // The offer: gone when fully bought, reduced otherwise.
        if amount == offer_amount {
            proof {
                assert forall|k: int|
                    0 <= k < pre_trades.len() && k != ti implies (#[trigger] pre_trades[k]).id
                    != trade_id by {
                    if k < ti {
                        assert(trade_key()(pre_trades[k]) < trade_key()(pre_trades[ti as int]));
                    } else {
                        assert(trade_key()(pre_trades[ti as int]) < trade_key()(pre_trades[k]));
                    }
                }
            }
            self.trades.remove(ti);
            proof {
                let post = self.trades@;
                pre_trades.remove_ensures(ti as int);
                assert(post == pre_trades.remove(ti as int));
                assert(keys_increasing(post, trade_key())) by {
                    assert forall|i: int, j: int| 0 <= i < j < post.len() implies trade_key()(
                        #[trigger] post[i],
                    ) < trade_key()(#[trigger] post[j]) by {
                        let pi: int = if i < ti {
                            i
                        } else {
                            i + 1
                        };
                        let pj: int = if j < ti {
                            j
                        } else {
                            j + 1
                        };
                        assert(post[i] == pre_trades[pi]);
                        assert(post[j] == pre_trades[pj]);
                    }
                }
                assert(keys_below(post, trade_key(), self.next_trade_id) && trades_positive(post))
                    by {
                    assert forall|i: int| 0 <= i < post.len() implies trade_key()(#[trigger] post[i])
                        < self.next_trade_id && post[i].amount > 0 && post[i].price_per_unit
                        > 0 by {
                        let pi: int = if i < ti {
                            i
                        } else {
                            i + 1
                        };
                        assert(post[i] == pre_trades[pi]);
                    }
                }
                assert forall|k: int| 0 <= k < post.len() implies (#[trigger] post[k]).id
                    != trade_id by {
                    let pk: int = if k < ti {
                        k
                    } else {
                        k + 1
                    };
                    assert(post[k] == pre_trades[pk]);
                }
                lemma_find_first_none(post, |t: TradeOffer| t.id == trade_id);
                assert forall|other: u64| other != trade_id implies find_trade(post, other)
                    == find_trade(pre_trades, other) by {
                    lemma_find_first_remove_other(pre_trades, |t: TradeOffer| t.id == other, ti as int);
                }
            }
        } else {
            let t = &mut self.trades[ti];
            t.amount = offer_amount - amount;
            proof {
                let post = self.trades@;
                let updated = post[ti as int];
                assert(post == pre_trades.update(ti as int, updated));
                assert(keys_increasing(post, trade_key()) && keys_below(
                    post,
                    trade_key(),
                    self.next_trade_id,
                ) && trades_positive(post)) by {
                    assert(forall|i: int|
                        0 <= i < post.len() ==> #[trigger] post[i] == if i == ti {
                            updated
                        } else {
                            pre_trades[i]
                        });
                }
                lemma_find_first_at(post, |t: TradeOffer| t.id == trade_id, ti as int);
                assert forall|other: u64| other != trade_id implies find_trade(post, other)
                    == find_trade(pre_trades, other) by {
                    lemma_find_first_update_other(
                        pre_trades,
                        |t: TradeOffer| t.id == other,
                        ti as int,
                        updated,
                    );
                }
            }
        }

        // The buyer: pays the cost, gains the allowance headroom.
        let ghost pre_users = self.users@;
        let b = &mut self.users[bi];
        b.profile.tokens = buyer_tokens - cost;
        b.profile.carbon_allowance = buyer_allowance + amount;
        proof {
            lemma_account_update(pre_users, bi as int, self.users@[bi as int]);
        }

        // The seller: receives the cost less the burned commission.
        let ghost mid_users = self.users@;
        let s = &mut self.users[si];
        s.profile.tokens = seller_tokens + earnings;
        proof {
            assert forall|k: int| 0 <= k < si implies (#[trigger] mid_users[k]).profile.principal
                != seller by {
                assert(mid_users[k] == if k == bi {
                    mid_users[bi as int]
                } else {
                    pre_users[k]
                });
            }
            lemma_account_update(mid_users, si as int, self.users@[si as int]);
        }
        Ok(())
    }
}

} // verus!
