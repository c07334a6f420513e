//! The certified carbon-credit marketplace: listings with typed category
//! and certification, and their partial-fill purchase lifecycle.
//!
//! Unlike the allowance trade book, a purchase here records a ledger entry
//! but moves no tokens: the engine reproduces that asymmetry of the ledger
//! design deliberately.

use vstd::prelude::*;
use vstd::string::StringExecFns;

use crate::engine::credit_key;
use crate::engine::credits_positive;
use crate::engine::find_account;
use crate::engine::find_credit;
use crate::engine::keys_below;
use crate::engine::keys_increasing;
use crate::engine::lemma_account_push;
use crate::engine::lemma_find_first_at;
use crate::engine::lemma_find_first_update_other;
use crate::engine::lemma_keys_push;
use crate::engine::reads_as;
use crate::engine::transaction_key;
use crate::engine::Engine;
use crate::errors::CreditError;
use crate::principal::PrincipalId;
use crate::accounts::new_profile;
use crate::types::Account;
use crate::types::CarbonCredit;
use crate::types::Certification;
use crate::types::CreditType;
use crate::types::EmissionHistoryPoint;
use crate::types::TokenBalancePoint;
use crate::types::Transaction;
use crate::types::TxKind;
use crate::types::UserProfile;
use crate::types::DEFAULT_CARBON_ALLOWANCE;
use crate::types::STARTING_TOKENS;

verus! {

/// The accepted credit categories, by their wire names.
pub open spec fn spec_parse_credit_type(s: Seq<char>) -> Option<CreditType> {
    if s == "renewable"@ {
        Some(CreditType::Renewable)
    } else if s == "forestry"@ {
        Some(CreditType::Forestry)
    } else if s == "methane"@ {
        Some(CreditType::Methane)
    } else if s == "efficiency"@ {
        Some(CreditType::Efficiency)
    } else {
        None
    }
}

/// The accepted certification bodies, by their wire names.
pub open spec fn spec_parse_certification(s: Seq<char>) -> Option<Certification> {
    if s == "gold"@ {
        Some(Certification::Gold)
    } else if s == "verra"@ {
        Some(Certification::Verra)
    } else if s == "american"@ {
        Some(Certification::American)
    } else if s == "climate"@ {
        Some(Certification::Climate)
    } else {
        None
    }
}

/// Parses a credit category name; anything but the four accepted names is
/// refused.
pub fn parse_credit_type(s: &String) -> (r: Option<CreditType>)
    ensures
        r == spec_parse_credit_type(s@),
{
    if *s == String::from_str("renewable") {
        Some(CreditType::Renewable)
    } else if *s == String::from_str("forestry") {
        Some(CreditType::Forestry)
    } else if *s == String::from_str("methane") {
        Some(CreditType::Methane)
    } else if *s == String::from_str("efficiency") {
        Some(CreditType::Efficiency)
    } else {
        None
    }
}

/// Parses a certification body name; anything but the four accepted names
/// is refused.
pub fn parse_certification(s: &String) -> (r: Option<Certification>)
    ensures
        r == spec_parse_certification(s@),
{
    if *s == String::from_str("gold") {
        Some(Certification::Gold)
    } else if *s == String::from_str("verra") {
        Some(Certification::Verra)
    } else if *s == String::from_str("american") {
        Some(Certification::American)
    } else if *s == String::from_str("climate") {
        Some(Certification::Climate)
    } else {
        None
    }
}

/// The active listings of `s`, in listing order.
pub open spec fn active_credits(s: Seq<CarbonCredit>) -> Seq<CarbonCredit> {
    s.filter(|c: CarbonCredit| c.is_active)
}

/// The outcome of listing a credit against state `e`.
///
/// A seller without an account is provisioned lazily, so the allowance
/// check for one uses the default allowance a fresh account would hold;
/// the provisioning itself commits only together with the listing.
pub open spec fn listing_decision(
    e: Engine,
    seller: PrincipalId,
    amount: u64,
    price_per_unit: u64,
    credit_type: Seq<char>,
    certification: Seq<char>,
) -> Result<u64, CreditError> {
    if seller.spec_is_anonymous() {
        Err(CreditError::AnonymousCaller)
    } else if amount == 0 {
        Err(CreditError::InvalidAmount)
    } else if price_per_unit == 0 {
        Err(CreditError::InvalidPrice)
    } else if spec_parse_credit_type(credit_type) is None {
        Err(CreditError::InvalidCreditType)
    } else if spec_parse_certification(certification) is None {
        Err(CreditError::InvalidCertification)
    } else {
        let available = match find_account(e.users@, seller) {
            Some(a) => a.profile.spec_available(),
            None => DEFAULT_CARBON_ALLOWANCE,
        };
        if amount > available {
            Err(CreditError::InsufficientAllowance { available })
        } else if e.next_credit_id == u64::MAX {
            Err(CreditError::Overflow)
        } else {
            Ok(e.next_credit_id)
        }
    }
}

/// The outcome of purchasing `amount` units of credit `credit_id`.
pub open spec fn purchase_decision(
    e: Engine,
    buyer: PrincipalId,
    credit_id: u64,
    amount: u64,
) -> Result<u64, CreditError> {
    if amount == 0 {
        Err(CreditError::InvalidAmount)
    } else {
        match find_credit(e.credits@, credit_id) {
            None => Err(CreditError::NotFoundOrInactive),
            Some(c) => if !c.is_active {
                Err(CreditError::NotFoundOrInactive)
            } else if c.seller == buyer {
                Err(CreditError::SelfPurchase)
            } else if c.amount < amount {
                Err(CreditError::ExceedsAvailable { available: c.amount })
            } else if e.next_transaction_id == u64::MAX {
                Err(CreditError::Overflow)
            } else {
                Ok(e.next_transaction_id)
            },
        }
    }
}

/// How a successful purchase rewrites the state: a full purchase
/// deactivates the listing, a partial one reduces its amount; either way
/// one ledger entry is appended under the next transaction id, and no
/// token balance moves.
pub open spec fn purchase_applied(
    pre: Engine,
    post: Engine,
    buyer: PrincipalId,
    credit_id: u64,
    amount: u64,
    now: u64,
) -> bool {
    match find_credit(pre.credits@, credit_id) {
        Some(c) => {
            &&& post.credits@.len() == pre.credits@.len()
            &&& exists|i: int|
                0 <= i < pre.credits@.len() && pre.credits@[i] == c && post.credits@
                    == pre.credits@.update(
                    i,
                    if amount == c.amount {
                        (CarbonCredit { is_active: false, ..c })
                    } else {
                        (CarbonCredit { amount: (c.amount - amount) as u64, ..c })
                    },
                )
            &&& find_credit(post.credits@, credit_id) == Some(
                if amount == c.amount {
                    CarbonCredit { is_active: false, ..c }
                } else {
                    CarbonCredit { amount: (c.amount - amount) as u64, ..c }
                },
            )
            &&& forall|other: u64|
                other != credit_id ==> find_credit(post.credits@, other) == find_credit(
                    pre.credits@,
                    other,
                )
            &&& post.next_credit_id == pre.next_credit_id
            &&& post.transactions@ == pre.transactions@.push(
                Transaction {
                    id: pre.next_transaction_id,
                    buyer,
                    seller: c.seller,
                    credit_id,
                    amount,
                    price_per_unit: c.price_per_unit,
                    project_name: c.project_name,
                    transaction_type: TxKind::Purchase,
                    transaction_time: now,
                },
            )
            &&& post.next_transaction_id == pre.next_transaction_id + 1
        },
        None => false,
    }
}

impl Engine {
    /// Lists a carbon credit for sale.
    ///
    /// Amount and price must be positive, category and certification must
    /// carry accepted names, and the amount may not exceed the seller's
    /// available allowance. A seller without an account is provisioned
    /// lazily, atomically with the listing. Returns the new credit's id.
    pub fn list_carbon_credit(
        &mut self,
        seller: PrincipalId,
        amount: u64,
        price_per_unit: u64,
        credit_type: String,
        certification: String,
        project_name: String,
        vintage_year: u32,
        description: String,
        now: u64,
    ) -> (r: Result<u64, CreditError>)
        requires
            old(self).wf(),
        ensures
            final(self).wf(),
            old(self).trade_book_unchanged(*final(self)),
            old(self).ledger_unchanged(*final(self)),
            old(self).telemetry_unchanged(*final(self)),
            old(self).alerts_unchanged(*final(self)),
            old(self).allowances_ok() ==> final(self).allowances_ok(),
            r is Err ==> *final(self) == *old(self),
            r == listing_decision(
                *old(self),
                seller,
                amount,
                price_per_unit,
                credit_type@,
                certification@,
            ),
            r is Ok ==> match (
                spec_parse_credit_type(credit_type@),
                spec_parse_certification(certification@),
            ) {
                (Some(ct), Some(cb)) => {
                    &&& final(self).credits@ == old(self).credits@.push(
                        CarbonCredit {
                            id: old(self).next_credit_id,
                            seller,
                            amount,
                            price_per_unit,
                            credit_type: ct,
                            certification: cb,
                            project_name,
                            vintage_year,
                            description,
                            creation_time: now,
                            is_active: true,
                        },
                    )
                    &&& final(self).next_credit_id == old(self).next_credit_id + 1
                },
                _ => false,
            },
            r is Ok ==> if find_account(old(self).users@, seller) is Some {
                old(self).accounts_unchanged(*final(self))
            } else {
                &&& final(self).users@.len() == old(self).users@.len() + 1
                &&& reads_as(
                    final(self).users@,
                    seller,
                    new_profile(seller, now),
                    Seq::<EmissionHistoryPoint>::empty(),
                    seq![TokenBalancePoint { timestamp: now, balance: STARTING_TOKENS }],
                )
                &&& forall|q: PrincipalId|
                    q != seller ==> find_account(final(self).users@, q) == find_account(
                        old(self).users@,
                        q,
                    )
            },
    {
        if seller.is_anonymous() {
            return Err(CreditError::AnonymousCaller);
        }
        if amount == 0 {
            return Err(CreditError::InvalidAmount);
        }
        if price_per_unit == 0 {
            return Err(CreditError::InvalidPrice);
        }
        let ct = match parse_credit_type(&credit_type) {
            Some(ct) => ct,
            None => {
                return Err(CreditError::InvalidCreditType);
            },
        };
        let cb = match parse_certification(&certification) {
            Some(cb) => cb,
            None => {
                return Err(CreditError::InvalidCertification);
            },
        };
        let idx = self.user_index(seller);
        let available = match idx {
            Some(i) => {
                let allowance = self.users[i].profile.carbon_allowance;
                let emitted = self.users[i].profile.carbon_emitted;
                if emitted > allowance {
                    0
                } else {
                    allowance - emitted
                }
            },
            None => DEFAULT_CARBON_ALLOWANCE,
        };
        if amount > available {
            return Err(CreditError::InsufficientAllowance { available });
        }
        if self.next_credit_id == u64::MAX {
            return Err(CreditError::Overflow);
        }
        if idx.is_none() {
            let mut token_history: Vec<TokenBalancePoint> = Vec::new();
            token_history.push(TokenBalancePoint { timestamp: now, balance: STARTING_TOKENS });
            let account = Account {
                profile: UserProfile {
                    principal: seller,
                    carbon_allowance: DEFAULT_CARBON_ALLOWANCE,
                    carbon_emitted: 0,
                    tokens: STARTING_TOKENS,
                    has_subcontract: true,
                    username: None,
                    email: None,
                    full_name: None,
                    location: None,
                    join_date: now,
                    last_activity: now,
                },
                emission_history: Vec::new(),
                token_history,
            };
            proof {
                lemma_account_push(self.users@, account);
                assert(account.token_history@ =~= seq![
                    TokenBalancePoint { timestamp: now, balance: STARTING_TOKENS },
                ]);
            }
            self.users.push(account);
        }
        let credit_id = self.next_credit_id;
        let credit = CarbonCredit {
            id: credit_id,
            seller,
            amount,
            price_per_unit,
            credit_type: ct,
            certification: cb,
            project_name,
            vintage_year,
            description,
            creation_time: now,
            is_active: true,
        };
        proof {
            lemma_keys_push(self.credits@, credit_key(), credit_id, credit);
        }
        self.credits.push(credit);
        self.next_credit_id = credit_id + 1;
        Ok(credit_id)
    }

    /// Every active listing, in listing order.
    pub fn get_carbon_credits(&self) -> (r: Vec<CarbonCredit>)
        ensures
            r@ == active_credits(self.credits@),
    {
        let mut r: Vec<CarbonCredit> = Vec::new();
        let n = self.credits.len();
        let mut i: usize = 0;
        proof {
            reveal(Seq::filter);
            assert(self.credits@.take(0) =~= Seq::<CarbonCredit>::empty());
        }
        while i < n
            invariant
                n == self.credits@.len(),
                i <= n,
                r@ == active_credits(self.credits@.take(i as int)),
            decreases n - i,
        {
            proof {
                reveal(Seq::filter);
                assert(self.credits@.take(i + 1).drop_last() =~= self.credits@.take(i as int));
                assert(self.credits@.take(i + 1).last() == self.credits@[i as int]);
            }
            if self.credits[i].is_active {
                r.push(self.credits[i].clone());
            }
            i += 1;
        }
        proof {
            assert(self.credits@.take(n as int) =~= self.credits@);
        }
        r
    }

    /// Purchases `amount` units of the active credit `credit_id`.
    ///
    /// The decision over the prior state is exactly [`purchase_decision`];
    /// on success the state is rewritten exactly as [`purchase_applied`]
    /// says, and on any error it is untouched. Returns the id of the
    /// ledger entry the purchase appends.
    pub fn purchase_carbon_credit(&mut self, buyer: PrincipalId, credit_id: u64, amount: u64, now: u64) -> (r:
        Result<u64, CreditError>)
        requires
            old(self).wf(),
        ensures
            final(self).wf(),
            old(self).accounts_unchanged(*final(self)),
            old(self).trade_book_unchanged(*final(self)),
            old(self).telemetry_unchanged(*final(self)),
            old(self).alerts_unchanged(*final(self)),
            old(self).allowances_ok() ==> final(self).allowances_ok(),
            r is Err ==> *final(self) == *old(self),
            r == purchase_decision(*old(self), buyer, credit_id, amount),
            r is Ok ==> purchase_applied(*old(self), *final(self), buyer, credit_id, amount, now),
    {
        if amount == 0 {
            return Err(CreditError::InvalidAmount);
        }
        let ci = match self.credit_index(credit_id) {
            Some(i) => i,
            None => {
                return Err(CreditError::NotFoundOrInactive);
            },
        };
        if !self.credits[ci].is_active {
            return Err(CreditError::NotFoundOrInactive);
        }
        let seller = self.credits[ci].seller;
        if seller == buyer {
            return Err(CreditError::SelfPurchase);
        }
        let listed = self.credits[ci].amount;
        if listed < amount {
            return Err(CreditError::ExceedsAvailable { available: listed });
        }
        if self.next_transaction_id == u64::MAX {
            return Err(CreditError::Overflow);
        }

        let ghost pre_credits = self.credits@;
        let c = &mut self.credits[ci];
        if listed == amount {
            c.is_active = false;
        } else {
            c.amount = listed - amount;
        }
        let price = self.credits[ci].price_per_unit;
        let project_name = self.credits[ci].project_name.clone();
        proof {
            let post = self.credits@;
            let updated = post[ci as int];
            assert(post == pre_credits.update(ci as int, updated));
            assert(updated == if listed == amount {
                (CarbonCredit { is_active: false, ..pre_credits[ci as int] })
            } else {
                (CarbonCredit { amount: (listed - amount) as u64, ..pre_credits[ci as int] })
            });
            assert(keys_increasing(post, credit_key()) && keys_below(
                post,
                credit_key(),
                self.next_credit_id,
            ) && credits_positive(post)) by {
                assert(forall|i: int|
                    0 <= i < post.len() ==> #[trigger] post[i] == if i == ci {
                        updated
                    } else {
                        pre_credits[i]
                    });
            }
            lemma_find_first_at(post, |c: CarbonCredit| c.id == credit_id, ci as int);
            assert forall|other: u64| other != credit_id implies find_credit(post, other)
                == find_credit(pre_credits, other) by {
                lemma_find_first_update_other(
                    pre_credits,
                    |c: CarbonCredit| c.id == other,
                    ci as int,
                    updated,
                );
            }
        }

        let transaction_id = self.next_transaction_id;
        let entry = Transaction {
            id: transaction_id,
            buyer,
            seller,
            credit_id,
            amount,
            price_per_unit: price,
            project_name,
            transaction_type: TxKind::Purchase,
            transaction_time: now,
        };
        proof {
            lemma_keys_push(self.transactions@, transaction_key(), transaction_id, entry);
        }
        self.transactions.push(entry);
        self.next_transaction_id = transaction_id + 1;
        Ok(transaction_id)
    }
}

} // verus!
