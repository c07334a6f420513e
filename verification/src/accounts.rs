//! The account store: registration, balance reads and the balance-changing
//! operations that act on a single account.

use vstd::prelude::*;

use crate::engine::find_account;
use crate::engine::lemma_account_push;
use crate::engine::lemma_account_update;
use crate::engine::others_unchanged;
use crate::engine::reads_as;
use crate::engine::Engine;
use crate::errors::AccountError;
use crate::principal::PrincipalId;
use crate::types::Account;
use crate::types::EmissionHistoryPoint;
use crate::types::ProfileUpdate;
use crate::types::TokenBalancePoint;
use crate::types::UserProfile;
use crate::types::DEFAULT_CARBON_ALLOWANCE;
use crate::types::STARTING_TOKENS;

verus! {

/// The profile a fresh registration creates: default allowance, nothing
/// emitted, the starting token grant, no metadata.
pub open spec fn new_profile(p: PrincipalId, now: u64) -> UserProfile {
    UserProfile {
        principal: p,
        carbon_allowance: DEFAULT_CARBON_ALLOWANCE,
        carbon_emitted: 0,
        tokens: STARTING_TOKENS,
        has_subcontract: true,
        username: None,
        email: None,
        full_name: None,
        location: None,
        join_date: now,
        last_activity: now,
    }
}

/// `base` with each field present in `request` overwritten and the activity
/// timestamp refreshed.
pub open spec fn merged_profile(base: UserProfile, request: ProfileUpdate, now: u64) -> UserProfile {
    UserProfile {
        username: if request.username is Some {
            request.username
        } else {
            base.username
        },
        email: if request.email is Some {
            request.email
        } else {
            base.email
        },
        full_name: if request.full_name is Some {
            request.full_name
        } else {
            base.full_name
        },
        location: if request.location is Some {
            request.location
        } else {
            base.location
        },
        last_activity: now,
        ..base
    }
}

impl Engine {
    /// Registers the caller.
    ///
    /// The anonymous identity is refused, as is an identity that already
    /// has an account. On success the new account holds the default
    /// allowance and the starting token grant, its emission series is
    /// empty, and its token series is seeded with one point at the grant.
    pub fn register_user(&mut self, caller: PrincipalId, now: u64) -> (r: Result<(), AccountError>)
        requires
            old(self).wf(),
        ensures
            final(self).wf(),
            old(self).trade_book_unchanged(*final(self)),
            old(self).credit_market_unchanged(*final(self)),
            old(self).ledger_unchanged(*final(self)),
            old(self).telemetry_unchanged(*final(self)),
            old(self).alerts_unchanged(*final(self)),
            old(self).allowances_ok() ==> final(self).allowances_ok(),
            r is Err ==> *final(self) == *old(self),
            caller.is_anonymous() ==> r == Err::<(), AccountError>(AccountError::AnonymousCaller),
            !caller.is_anonymous() && find_account(old(self).users@, caller) is Some ==> r == Err::<
                (),
                AccountError,
            >(AccountError::AlreadyRegistered),
            !caller.is_anonymous() && find_account(old(self).users@, caller) is None ==> {
                &&& r is Ok
                &&& final(self).users@.len() == old(self).users@.len() + 1
                &&& reads_as(
                    final(self).users@,
                    caller,
                    new_profile(caller, now),
                    Seq::<EmissionHistoryPoint>::empty(),
                    seq![TokenBalancePoint { timestamp: now, balance: STARTING_TOKENS }],
                )
                &&& forall|q: PrincipalId|
                    q != caller ==> find_account(final(self).users@, q) == find_account(
                        old(self).users@,
                        q,
                    )
            },
    {
        if caller.is_anonymous() {
            return Err(AccountError::AnonymousCaller);
        }
        if self.user_index(caller).is_some() {
            return Err(AccountError::AlreadyRegistered);
        }
        let mut token_history: Vec<TokenBalancePoint> = Vec::new();
        token_history.push(TokenBalancePoint { timestamp: now, balance: STARTING_TOKENS });
        let account = Account {
            profile: UserProfile {
                principal: caller,
                carbon_allowance: DEFAULT_CARBON_ALLOWANCE,
                carbon_emitted: 0,
                tokens: STARTING_TOKENS,
                has_subcontract: true,
                username: None,
                email: None,
                full_name: None,
                location: None,
                join_date: now,
                last_activity: now,
            },
            emission_history: Vec::new(),
            token_history,
        };
        proof {
            lemma_account_push(self.users@, account);
            assert(account.token_history@ =~= seq![
                TokenBalancePoint { timestamp: now, balance: STARTING_TOKENS },
            ]);
        }
        self.users.push(account);
        Ok(())
    }

    /// The caller's profile, or `NotFound` for an unregistered identity.
    pub fn get_user_profile(&self, caller: PrincipalId) -> (r: Result<UserProfile, AccountError>)
        ensures
            match find_account(self.users@, caller) {
                Some(a) => r == Ok::<UserProfile, AccountError>(a.profile),
                None => r == Err::<UserProfile, AccountError>(AccountError::NotFound),
            },
    {
        match self.user_index(caller) {
            Some(i) => Ok(self.users[i].profile.clone()),
            None => Err(AccountError::NotFound),
        }
    }

    /// Whether the caller has an account.
    pub fn user_exists(&self, caller: PrincipalId) -> (r: bool)
        ensures
            r == (find_account(self.users@, caller) is Some),
    {
        self.user_index(caller).is_some()
    }

    /// Records `amount` emission units against the caller's allowance.
    ///
    /// Fails with `AllowanceExceeded`, changing nothing, whenever the new
    /// cumulative emission would pass the allowance; otherwise the
    /// cumulative emission grows by exactly `amount`.
    pub fn record_emission(&mut self, caller: PrincipalId, amount: u64) -> (r: Result<
        (),
        AccountError,
    >)
        requires
            old(self).wf(),
        ensures
            final(self).wf(),
            old(self).trade_book_unchanged(*final(self)),
            old(self).credit_market_unchanged(*final(self)),
            old(self).ledger_unchanged(*final(self)),
            old(self).telemetry_unchanged(*final(self)),
            old(self).alerts_unchanged(*final(self)),
            old(self).allowances_ok() ==> final(self).allowances_ok(),
            r is Err ==> *final(self) == *old(self),
            match find_account(old(self).users@, caller) {
                None => r == Err::<(), AccountError>(AccountError::NotFound),
                Some(a) => {
                    if a.profile.carbon_emitted + amount <= a.profile.carbon_allowance {
                        &&& r is Ok
                        &&& reads_as(
                            final(self).users@,
                            caller,
                            (UserProfile {
                                carbon_emitted: (a.profile.carbon_emitted + amount) as u64,
                                ..a.profile
                            }),
                            a.emission_history@,
                            a.token_history@,
                        )
                        &&& others_unchanged(old(self).users@, final(self).users@, caller)
                    } else {
                        r == Err::<(), AccountError>(AccountError::AllowanceExceeded)
                    }
                },
            },
    {
        let i = match self.user_index(caller) {
            Some(i) => i,
            None => {
                return Err(AccountError::NotFound);
            },
        };
        let allowance = self.users[i].profile.carbon_allowance;
        let emitted = self.users[i].profile.carbon_emitted;
        if emitted > allowance || amount > allowance - emitted {
            return Err(AccountError::AllowanceExceeded);
        }
        let a = &mut self.users[i];
        a.profile.carbon_emitted = emitted + amount;
        proof {
            lemma_account_update(old(self).users@, i as int, self.users@[i as int]);
        }
        Ok(())
    }

    /// Credits `amount` tokens to the caller and appends a token-balance
    /// point at the new balance.
    pub fn reward_tokens(&mut self, caller: PrincipalId, amount: u64, now: u64) -> (r: Result<
        (),
        AccountError,
    >)
        requires
            old(self).wf(),
        ensures
            final(self).wf(),
            old(self).trade_book_unchanged(*final(self)),
            old(self).credit_market_unchanged(*final(self)),
            old(self).ledger_unchanged(*final(self)),
            old(self).telemetry_unchanged(*final(self)),
            old(self).alerts_unchanged(*final(self)),
            old(self).allowances_ok() ==> final(self).allowances_ok(),
            r is Err ==> *final(self) == *old(self),
            match find_account(old(self).users@, caller) {
                None => r == Err::<(), AccountError>(AccountError::NotFound),
                Some(a) => {
                    if a.profile.tokens + amount <= u64::MAX {
                        &&& r is Ok
                        &&& reads_as(
                            final(self).users@,
                            caller,
                            (UserProfile { tokens: (a.profile.tokens + amount) as u64, ..a.profile }),
                            a.emission_history@,
                            a.token_history@.push(
                                TokenBalancePoint {
                                    timestamp: now,
                                    balance: (a.profile.tokens + amount) as u64,
                                },
                            ),
                        )
                        &&& others_unchanged(old(self).users@, final(self).users@, caller)
                    } else {
                        r == Err::<(), AccountError>(AccountError::Overflow)
                    }
                },
            },
    {
        let i = match self.user_index(caller) {
            Some(i) => i,
            None => {
                return Err(AccountError::NotFound);
            },
        };
        let tokens = self.users[i].profile.tokens;
        if amount > u64::MAX - tokens {
            return Err(AccountError::Overflow);
        }
        let new_balance = tokens + amount;
        let a = &mut self.users[i];
        a.profile.tokens = new_balance;
        a.token_history.push(TokenBalancePoint { timestamp: now, balance: new_balance });
        proof {
            lemma_account_update(old(self).users@, i as int, self.users@[i as int]);
        }
        Ok(())
    }

    /// Merges the present fields of `request` into the caller's profile and
    /// refreshes its activity timestamp; absent fields stay untouched.
    pub fn update_user_profile(&mut self, caller: PrincipalId, request: ProfileUpdate, now: u64) -> (r:
        Result<(), AccountError>)
        requires
            old(self).wf(),
        ensures
            final(self).wf(),
            old(self).trade_book_unchanged(*final(self)),
            old(self).credit_market_unchanged(*final(self)),
            old(self).ledger_unchanged(*final(self)),
            old(self).telemetry_unchanged(*final(self)),
            old(self).alerts_unchanged(*final(self)),
            old(self).allowances_ok() ==> final(self).allowances_ok(),
            r is Err ==> *final(self) == *old(self),
            match find_account(old(self).users@, caller) {
                None => r == Err::<(), AccountError>(AccountError::NotFound),
                Some(a) => {
                    &&& r is Ok
                    &&& reads_as(
                        final(self).users@,
                        caller,
                        merged_profile(a.profile, request, now),
                        a.emission_history@,
                        a.token_history@,
                    )
                    &&& others_unchanged(old(self).users@, final(self).users@, caller)
                },
            },
    {
        let i = match self.user_index(caller) {
            Some(i) => i,
            None => {
                return Err(AccountError::NotFound);
            },
        };
        let ProfileUpdate { username, email, full_name, location } = request;
        let a = &mut self.users[i];
        match username {
            Some(v) => {
                a.profile.username = Some(v);
            },
            None => {},
        }
        match email {
            Some(v) => {
                a.profile.email = Some(v);
            },
            None => {},
        }
        match full_name {
            Some(v) => {
                a.profile.full_name = Some(v);
            },
            None => {},
        }
        match location {
            Some(v) => {
                a.profile.location = Some(v);
            },
            None => {},
        }
        a.profile.last_activity = now;
        proof {
            lemma_account_update(old(self).users@, i as int, self.users@[i as int]);
        }
        Ok(())
    }

    /// Every registered profile, in registration order.
    pub fn debug_get_all_users(&self) -> (r: Vec<UserProfile>)
        ensures
            r@ == self.users@.map_values(|a: Account| a.profile),
    {
        let mut r: Vec<UserProfile> = Vec::new();
        let n = self.users.len();
        let mut i: usize = 0;
        while i < n
            invariant
                n == self.users@.len(),
                i <= n,
                r@ == self.users@.take(i as int).map_values(|a: Account| a.profile),
            decreases n - i,
        {
            r.push(self.users[i].profile.clone());
            proof {
                assert(r@ =~= self.users@.take(i + 1).map_values(|a: Account| a.profile));
            }
            i += 1;
        }
        proof {
            assert(self.users@.take(n as int) =~= self.users@);
        }
        r
    }

    /// Every account is set up with a subcontract, so this always holds.
    pub fn has_subcontract(&self) -> (r: Result<bool, AccountError>)
        ensures
            r == Ok::<bool, AccountError>(true),
    {
        Ok(true)
    }

    /// Subcontracts are deployed eagerly at registration; reports success.
    pub fn deploy_subcontract(&self) -> (r: Result<bool, AccountError>)
        ensures
            r == Ok::<bool, AccountError>(true),
    {
        Ok(true)
    }

    /// The administrative guard: every caller is currently accepted.
    pub fn is_admin(&self, _caller: PrincipalId) -> (r: Result<(), AccountError>)
        ensures
            r == Ok::<(), AccountError>(()),
    {
        Ok(())
    }
}

} // verus!
