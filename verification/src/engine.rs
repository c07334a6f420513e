//! The engine: one value owning every store, with its well-formedness
//! invariant and the shared lookup machinery.
//!
//! All records live in plain vectors. Monotonic id counters stand beside
//! each store; well-formedness says that ids grow strictly along each store
//! and stay below the counter, so an id is never reused, and that every open
//! trade offer and every credit listing carries a positive amount and price.

use vstd::prelude::*;

use crate::principal::PrincipalId;
use crate::types::Account;
use crate::types::Alert;
use crate::types::CarbonCredit;
use crate::types::DataPoint;
use crate::types::EmissionHistoryPoint;
use crate::types::TokenBalancePoint;
use crate::types::TradeOffer;
use crate::types::Transaction;
use crate::types::UserProfile;

verus! {

/// The first element of `s` satisfying `pred`, if any.
pub open spec fn find_first<T>(s: Seq<T>, pred: spec_fn(T) -> bool) -> Option<T>
    decreases s.len(),
{
    if s.len() == 0 {
        None
    } else if pred(s[0]) {
        Some(s[0])
    } else {
        find_first(s.drop_first(), pred)
    }
}

/// If `i` is the first index matching `pred`, the search returns `s[i]`.
pub proof fn lemma_find_first_at<T>(s: Seq<T>, pred: spec_fn(T) -> bool, i: int)
    requires
        0 <= i < s.len(),
        pred(s[i]),
        forall|k: int| 0 <= k < i ==> !pred(#[trigger] s[k]),
    ensures
        find_first(s, pred) == Some(s[i]),
    decreases i,
{
    if i > 0 {
        lemma_find_first_at(s.drop_first(), pred, i - 1);
    }
}

/// If nothing in `s` matches `pred`, the search returns `None`.
pub proof fn lemma_find_first_none<T>(s: Seq<T>, pred: spec_fn(T) -> bool)
    requires
        forall|k: int| 0 <= k < s.len() ==> !pred(#[trigger] s[k]),
    ensures
        find_first(s, pred) is None,
    decreases s.len(),
{
    if s.len() > 0 {
        lemma_find_first_none(s.drop_first(), pred);
    }
}

/// Overwriting a non-matching element with a non-matching one leaves the
/// search result unchanged.
pub proof fn lemma_find_first_update_other<T>(s: Seq<T>, pred: spec_fn(T) -> bool, i: int, v: T)
    requires
        0 <= i < s.len(),
        !pred(s[i]),
        !pred(v),
    ensures
        find_first(s.update(i, v), pred) == find_first(s, pred),
    decreases s.len(),
{
    let su = s.update(i, v);
    if i == 0 {
        assert(su.drop_first() =~= s.drop_first());
    } else {
        assert(su.drop_first() =~= s.drop_first().update(i - 1, v));
        lemma_find_first_update_other(s.drop_first(), pred, i - 1, v);
    }
}

/// Removing a non-matching element leaves the search result unchanged.
pub proof fn lemma_find_first_remove_other<T>(s: Seq<T>, pred: spec_fn(T) -> bool, i: int)
    requires
        0 <= i < s.len(),
        !pred(s[i]),
    ensures
        find_first(s.remove(i), pred) == find_first(s, pred),
    decreases s.len(),
{
    let sr = s.remove(i);
    if i == 0 {
        assert(sr =~= s.drop_first());
    } else {
        assert(sr.drop_first() =~= s.drop_first().remove(i - 1));
        assert(sr[0] == s[0]);
        lemma_find_first_remove_other(s.drop_first(), pred, i - 1);
    }
}

/// Appending an element extends the search: an earlier match wins, else the
/// new element is found exactly when it matches.
pub proof fn lemma_find_first_push<T>(s: Seq<T>, pred: spec_fn(T) -> bool, v: T)
    ensures
        find_first(s.push(v), pred) == (if find_first(s, pred) is Some {
            find_first(s, pred)
        } else if pred(v) {
            Some(v)
        } else {
            None::<T>
        }),
    decreases s.len(),
{
    if s.len() == 0 {
        assert(s.push(v)[0] == v);
        if !pred(v) {
            assert(s.push(v).drop_first() =~= Seq::<T>::empty());
            assert(find_first(Seq::<T>::empty(), pred) is None);
            assert(find_first(s.push(v), pred) is None);
        }
    } else {
        assert(s.push(v)[0] == s[0]);
        assert(s.push(v).drop_first() =~= s.drop_first().push(v));
        lemma_find_first_push(s.drop_first(), pred, v);
    }
}

/// A found element stands in the sequence and matches.
pub proof fn lemma_find_first_some<T>(s: Seq<T>, pred: spec_fn(T) -> bool)
    requires
        find_first(s, pred) is Some,
    ensures
        exists|i: int|
            0 <= i < s.len() && pred(#[trigger] s[i]) && find_first(s, pred) == Some(s[i]),
    decreases s.len(),
{
    if pred(s[0]) {
        assert(0 <= 0 < s.len() && pred(s[0]) && find_first(s, pred) == Some(s[0]));
    } else {
        lemma_find_first_some(s.drop_first(), pred);
        let j = choose|j: int|
            0 <= j < s.drop_first().len() && pred(#[trigger] s.drop_first()[j]) && find_first(
                s.drop_first(),
                pred,
            ) == Some(s.drop_first()[j]);
        assert(s[j + 1] == s.drop_first()[j]);
    }
}

/// If the search returns nothing, nothing matches.
pub proof fn lemma_find_first_none_inv<T>(s: Seq<T>, pred: spec_fn(T) -> bool)
    requires
        find_first(s, pred) is None,
    ensures
        forall|k: int| 0 <= k < s.len() ==> !pred(#[trigger] s[k]),
    decreases s.len(),
{
    if s.len() > 0 {
        lemma_find_first_none_inv(s.drop_first(), pred);
        assert forall|k: int| 0 <= k < s.len() implies !pred(s[k]) by {
            if k > 0 {
                assert(s.drop_first()[k - 1] == s[k]);
            }
        }
    }
}

/// The account of identity `p`, if one is registered.
pub open spec fn find_account(s: Seq<Account>, p: PrincipalId) -> Option<Account> {
    find_first(s, |a: Account| a.profile.principal == p)
}

/// The open trade offer with id `id`, if any.
pub open spec fn find_trade(s: Seq<TradeOffer>, id: u64) -> Option<TradeOffer> {
    find_first(s, |t: TradeOffer| t.id == id)
}

/// The credit listing with id `id`, active or not, if any.
pub open spec fn find_credit(s: Seq<CarbonCredit>, id: u64) -> Option<CarbonCredit> {
    find_first(s, |c: CarbonCredit| c.id == id)
}

/// The alert with id `id` owned by `user`, if any.
pub open spec fn find_owned_alert(s: Seq<Alert>, id: u64, user: PrincipalId) -> Option<Alert> {
    find_first(s, |a: Alert| a.id == id && a.user_id == user)
}

/// No two accounts share an identity.
pub open spec fn principals_unique(s: Seq<Account>) -> bool {
    forall|i: int, j: int|
        0 <= i < j < s.len() ==> (#[trigger] s[i]).profile.principal != (#[trigger] s[j]).profile.principal
}

/// Keys grow strictly along the sequence, so they are pairwise distinct.
pub open spec fn keys_increasing<T>(s: Seq<T>, key: spec_fn(T) -> u64) -> bool {
    forall|i: int, j: int| 0 <= i < j < s.len() ==> key(#[trigger] s[i]) < key(#[trigger] s[j])
}

/// Every key lies strictly below `bound`.
pub open spec fn keys_below<T>(s: Seq<T>, key: spec_fn(T) -> u64, bound: u64) -> bool {
    forall|i: int| 0 <= i < s.len() ==> key(#[trigger] s[i]) < bound
}

/// Appending an element keyed exactly at the bound keeps keys increasing
/// and bounds them by the successor.
pub proof fn lemma_keys_push<T>(s: Seq<T>, key: spec_fn(T) -> u64, bound: u64, v: T)
    requires
        keys_increasing(s, key),
        keys_below(s, key, bound),
        key(v) == bound,
        bound < u64::MAX,
    ensures
        keys_increasing(s.push(v), key),
        keys_below(s.push(v), key, (bound + 1) as u64),
{
}

/// The id of a trade offer.
pub open spec fn trade_key() -> spec_fn(TradeOffer) -> u64 {
    |t: TradeOffer| t.id
}

/// The id of a credit listing.
pub open spec fn credit_key() -> spec_fn(CarbonCredit) -> u64 {
    |c: CarbonCredit| c.id
}

/// The id of a ledger entry.
pub open spec fn transaction_key() -> spec_fn(Transaction) -> u64 {
    |t: Transaction| t.id
}

/// The id of a telemetry sample.
pub open spec fn data_point_key() -> spec_fn(DataPoint) -> u64 {
    |p: DataPoint| p.id
}

/// The id of an alert.
pub open spec fn alert_key() -> spec_fn(Alert) -> u64 {
    |a: Alert| a.id
}

/// Every open offer holds a positive amount at a positive price.
pub open spec fn trades_positive(s: Seq<TradeOffer>) -> bool {
    forall|i: int| 0 <= i < s.len() ==> (#[trigger] s[i]).amount > 0 && s[i].price_per_unit > 0
}

/// Every credit listing holds a positive amount at a positive price.
pub open spec fn credits_positive(s: Seq<CarbonCredit>) -> bool {
    forall|i: int| 0 <= i < s.len() ==> (#[trigger] s[i]).amount > 0 && s[i].price_per_unit > 0
}

/// Selected values of the matching samples, summed.
pub open spec fn sum_filtered(
    s: Seq<DataPoint>,
    sel: spec_fn(DataPoint) -> int,
    pred: spec_fn(DataPoint) -> bool,
) -> int
    decreases s.len(),
{
    if s.len() == 0 {
        0
    } else {
        sum_filtered(s.drop_last(), sel, pred) + if pred(s.last()) {
            sel(s.last())
        } else {
            0
        }
    }
}

/// The energy reading of a sample.
pub open spec fn energy_sel() -> spec_fn(DataPoint) -> int {
    |p: DataPoint| p.energy_consumption as int
}

/// The carbon reading of a sample.
pub open spec fn carbon_sel() -> spec_fn(DataPoint) -> int {
    |p: DataPoint| p.carbon_emitted as int
}

/// The predicate matching every sample.
pub open spec fn every_point() -> spec_fn(DataPoint) -> bool {
    |p: DataPoint| true
}

/// The selector counting one per sample: summing it counts the matches.
pub open spec fn one_sel() -> spec_fn(DataPoint) -> int {
    |p: DataPoint| 1
}

/// Energy summed over all samples.
pub open spec fn total_energy_of(s: Seq<DataPoint>) -> int {
    sum_filtered(s, energy_sel(), every_point())
}

/// Carbon summed over all samples.
pub open spec fn total_carbon_of(s: Seq<DataPoint>) -> int {
    sum_filtered(s, carbon_sel(), every_point())
}

/// A filtered sum of non-negative values is non-negative.
pub proof fn lemma_sum_filtered_nonneg(
    s: Seq<DataPoint>,
    sel: spec_fn(DataPoint) -> int,
    pred: spec_fn(DataPoint) -> bool,
)
    requires
        forall|p: DataPoint| #[trigger] sel(p) >= 0,
    ensures
        sum_filtered(s, sel, pred) >= 0,
    decreases s.len(),
{
    if s.len() > 0 {
        lemma_sum_filtered_nonneg(s.drop_last(), sel, pred);
    }
}

/// Widening the predicate cannot shrink a sum of non-negative values.
pub proof fn lemma_sum_filtered_monotone(
    s: Seq<DataPoint>,
    sel: spec_fn(DataPoint) -> int,
    narrow: spec_fn(DataPoint) -> bool,
    wide: spec_fn(DataPoint) -> bool,
)
    requires
        forall|p: DataPoint| #[trigger] sel(p) >= 0,
        forall|p: DataPoint| #[trigger] narrow(p) ==> wide(p),
    ensures
        sum_filtered(s, sel, narrow) <= sum_filtered(s, sel, wide),
    decreases s.len(),
{
    if s.len() > 0 {
        lemma_sum_filtered_monotone(s.drop_last(), sel, narrow, wide);
    }
}

/// A filtered sum over a prefix cannot exceed the sum over the whole
/// sequence when the selected values are non-negative.
pub proof fn lemma_sum_filtered_take_le(
    s: Seq<DataPoint>,
    sel: spec_fn(DataPoint) -> int,
    pred: spec_fn(DataPoint) -> bool,
    k: int,
)
    requires
        forall|p: DataPoint| #[trigger] sel(p) >= 0,
        0 <= k <= s.len(),
    ensures
        sum_filtered(s.take(k), sel, pred) <= sum_filtered(s, sel, pred),
    decreases s.len() - k,
{
    if k == s.len() {
        assert(s.take(k) =~= s);
    } else {
        assert(s.take(k + 1).drop_last() =~= s.take(k));
        assert(s.take(k + 1).last() == s[k]);
        lemma_sum_filtered_take_le(s, sel, pred, k + 1);
    }
}

/// Where the match count is zero, every filtered sum is zero.
pub proof fn lemma_sum_filtered_zero(
    s: Seq<DataPoint>,
    sel: spec_fn(DataPoint) -> int,
    pred: spec_fn(DataPoint) -> bool,
)
    requires
        sum_filtered(s, one_sel(), pred) == 0,
    ensures
        sum_filtered(s, sel, pred) == 0,
    decreases s.len(),
{
    if s.len() > 0 {
        lemma_sum_filtered_nonneg(s.drop_last(), one_sel(), pred);
        lemma_sum_filtered_zero(s.drop_last(), sel, pred);
    }
}

/// Appending a sample adds its selected value exactly when it matches.
pub proof fn lemma_sum_filtered_push(
    s: Seq<DataPoint>,
    sel: spec_fn(DataPoint) -> int,
    pred: spec_fn(DataPoint) -> bool,
    v: DataPoint,
)
    ensures
        sum_filtered(s.push(v), sel, pred) == sum_filtered(s, sel, pred) + if pred(v) {
            sel(v)
        } else {
            0
        },
{
    assert(s.push(v).drop_last() =~= s);
}

/// `post` is `pre` with the account of `p` replaced by `a`: every other
/// account reads unchanged.
pub open spec fn account_replaced(
    pre: Seq<Account>,
    post: Seq<Account>,
    p: PrincipalId,
    a: Account,
) -> bool {
    &&& post.len() == pre.len()
    &&& a.profile.principal == p
    &&& find_account(post, p) == Some(a)
    &&& forall|q: PrincipalId| q != p ==> find_account(post, q) == find_account(pre, q)
}

/// The account of `p` in `s` carries exactly this profile and these two
/// time series.
pub open spec fn reads_as(
    s: Seq<Account>,
    p: PrincipalId,
    profile: UserProfile,
    emission: Seq<EmissionHistoryPoint>,
    tokens: Seq<TokenBalancePoint>,
) -> bool {
    find_account(s, p) matches Some(a) && a.profile == profile && a.emission_history@ == emission
        && a.token_history@ == tokens
}

/// Every account but that of `p` reads unchanged.
pub open spec fn others_unchanged(pre: Seq<Account>, post: Seq<Account>, p: PrincipalId) -> bool {
    post.len() == pre.len() && forall|q: PrincipalId|
        q != p ==> find_account(post, q) == find_account(pre, q)
}

/// Overwriting the account at `i` with one of the same identity keeps
/// identities unique and replaces exactly that account.
pub proof fn lemma_account_update(pre: Seq<Account>, i: int, a: Account)
    requires
        principals_unique(pre),
        0 <= i < pre.len(),
        a.profile.principal == pre[i].profile.principal,
        forall|k: int| 0 <= k < i ==> (#[trigger] pre[k]).profile.principal != a.profile.principal,
    ensures
        principals_unique(pre.update(i, a)),
        account_replaced(pre, pre.update(i, a), a.profile.principal, a),
{
    let post = pre.update(i, a);
    let p = a.profile.principal;
    lemma_find_first_at(post, |acc: Account| acc.profile.principal == p, i);
    assert forall|q: PrincipalId| q != p implies find_account(post, q) == find_account(pre, q) by {
        lemma_find_first_update_other(pre, |acc: Account| acc.profile.principal == q, i, a);
    }
}

/// Appending an account for a fresh identity keeps identities unique, makes
/// that account readable, and leaves every other lookup unchanged.
pub proof fn lemma_account_push(pre: Seq<Account>, a: Account)
    requires
        principals_unique(pre),
        find_account(pre, a.profile.principal) is None,
    ensures
        principals_unique(pre.push(a)),
        find_account(pre.push(a), a.profile.principal) == Some(a),
        forall|q: PrincipalId|
            q != a.profile.principal ==> find_account(pre.push(a), q) == find_account(pre, q),
{
    let p = a.profile.principal;
    lemma_find_first_none_inv(pre, |acc: Account| acc.profile.principal == p);
    lemma_find_first_push(pre, |acc: Account| acc.profile.principal == p, a);
    assert forall|q: PrincipalId| q != p implies find_account(pre.push(a), q) == find_account(
        pre,
        q,
    ) by {
        lemma_find_first_push(pre, |acc: Account| acc.profile.principal == q, a);
    }
}

/// The ledger and marketplace engine: every store and its id counter.
pub struct Engine {
    pub users: Vec<Account>,
    pub trades: Vec<TradeOffer>,
    pub next_trade_id: u64,
    pub credits: Vec<CarbonCredit>,
    pub next_credit_id: u64,
    pub transactions: Vec<Transaction>,
    pub next_transaction_id: u64,
    pub data_points: Vec<DataPoint>,
    pub next_data_point_id: u64,
    pub alerts: Vec<Alert>,
    pub next_alert_id: u64,
    /// Energy summed over all samples ever accepted; kept so that any
    /// partial sum of samples is known to fit the machine word.
    pub total_energy: u64,
    /// Carbon summed over all samples ever accepted.
    pub total_carbon: u64,
}

impl Engine {
    /// Structural well-formedness: identities unique, ids strictly
    /// increasing and below their counters, offers and listings positive,
    /// totals faithful to the sample store.
    pub open spec fn wf(self) -> bool {
        &&& principals_unique(self.users@)
        &&& keys_increasing(self.trades@, trade_key())
        &&& keys_below(self.trades@, trade_key(), self.next_trade_id)
        &&& 1 <= self.next_trade_id
        &&& trades_positive(self.trades@)
        &&& keys_increasing(self.credits@, credit_key())
        &&& keys_below(self.credits@, credit_key(), self.next_credit_id)
        &&& credits_positive(self.credits@)
        &&& keys_increasing(self.transactions@, transaction_key())
        &&& keys_below(self.transactions@, transaction_key(), self.next_transaction_id)
        &&& keys_increasing(self.data_points@, data_point_key())
        &&& keys_below(self.data_points@, data_point_key(), self.next_data_point_id)
        &&& keys_increasing(self.alerts@, alert_key())
        &&& keys_below(self.alerts@, alert_key(), self.next_alert_id)
        &&& self.total_energy == total_energy_of(self.data_points@)
        &&& self.total_carbon == total_carbon_of(self.data_points@)
    }

    /// Every account respects its allowance. Holds of every state the
    /// engine's own operations produce, except that recording a telemetry
    /// sample adds its carbon reading without an allowance check.
    pub open spec fn allowances_ok(self) -> bool {
        forall|i: int|
            0 <= i < self.users@.len() ==> (#[trigger] self.users@[i]).profile.carbon_emitted
                <= self.users@[i].profile.carbon_allowance
    }

    /// The account store reads the same in both states.
    pub open spec fn accounts_unchanged(self, post: Engine) -> bool {
        self.users == post.users
    }

    /// The trade book reads the same in both states.
    pub open spec fn trade_book_unchanged(self, post: Engine) -> bool {
        self.trades == post.trades && self.next_trade_id == post.next_trade_id
    }

    /// The credit marketplace reads the same in both states.
    pub open spec fn credit_market_unchanged(self, post: Engine) -> bool {
        self.credits == post.credits && self.next_credit_id == post.next_credit_id
    }

    /// The transaction ledger reads the same in both states.
    pub open spec fn ledger_unchanged(self, post: Engine) -> bool {
        self.transactions == post.transactions && self.next_transaction_id
            == post.next_transaction_id
    }

    /// The telemetry store reads the same in both states.
    pub open spec fn telemetry_unchanged(self, post: Engine) -> bool {
        &&& self.data_points == post.data_points
        &&& self.next_data_point_id == post.next_data_point_id
        &&& self.total_energy == post.total_energy
        &&& self.total_carbon == post.total_carbon
    }

    /// The alert store reads the same in both states.
    pub open spec fn alerts_unchanged(self, post: Engine) -> bool {
        self.alerts == post.alerts && self.next_alert_id == post.next_alert_id
    }

    /// A fresh engine: no accounts, no offers, no listings, no ledger
    /// entries, no samples, no alerts; trade ids start at one, every other
    /// counter at zero.
    pub fn new() -> (e: Engine)
        ensures
            e.wf(),
            e.allowances_ok(),
            e.users@ == Seq::<Account>::empty(),
            e.trades@ == Seq::<TradeOffer>::empty(),
            e.next_trade_id == 1,
            e.credits@ == Seq::<CarbonCredit>::empty(),
            e.next_credit_id == 0,
            e.transactions@ == Seq::<Transaction>::empty(),
            e.next_transaction_id == 0,
            e.data_points@ == Seq::<DataPoint>::empty(),
            e.next_data_point_id == 0,
            e.alerts@ == Seq::<Alert>::empty(),
            e.next_alert_id == 0,
    {
        Engine {
            users: Vec::new(),
            trades: Vec::new(),
            next_trade_id: 1,
            credits: Vec::new(),
            next_credit_id: 0,
            transactions: Vec::new(),
            next_transaction_id: 0,
            data_points: Vec::new(),
            next_data_point_id: 0,
            alerts: Vec::new(),
            next_alert_id: 0,
            total_energy: 0,
            total_carbon: 0,
        }
    }

    /// Index of the account registered for `p`, if any.
    pub(crate) fn user_index(&self, p: PrincipalId) -> (r: Option<usize>)
        ensures
            match r {
                Some(i) => {
                    &&& i < self.users@.len()
                    &&& self.users@[i as int].profile.principal == p
                    &&& forall|k: int|
                        0 <= k < i ==> (#[trigger] self.users@[k]).profile.principal != p
                    &&& find_account(self.users@, p) == Some(self.users@[i as int])
                },
                None => {
                    &&& forall|k: int|
                        0 <= k < self.users@.len() ==> (#[trigger] self.users@[k]).profile.principal
                            != p
                    &&& find_account(self.users@, p) is None
                },
            },
    {
        let n = self.users.len();
        let mut i: usize = 0;
        while i < n
            invariant
                n == self.users@.len(),
                i <= n,
                forall|k: int| 0 <= k < i ==> (#[trigger] self.users@[k]).profile.principal != p,
            decreases n - i,
        {
            if self.users[i].profile.principal == p {
                proof {
                    lemma_find_first_at(self.users@, |a: Account| a.profile.principal == p, i as int);
                }
                return Some(i);
            }
            i += 1;
        }
        proof {
            lemma_find_first_none(self.users@, |a: Account| a.profile.principal == p);
        }
        None
    }

    /// Index of the open trade offer with id `id`, if any.
    pub(crate) fn trade_index(&self, id: u64) -> (r: Option<usize>)
        ensures
            match r {
                Some(i) => {
                    &&& i < self.trades@.len()
                    &&& self.trades@[i as int].id == id
                    &&& forall|k: int| 0 <= k < i ==> (#[trigger] self.trades@[k]).id != id
                    &&& find_trade(self.trades@, id) == Some(self.trades@[i as int])
                },
                None => {
                    &&& forall|k: int| 0 <= k < self.trades@.len() ==> (#[trigger] self.trades@[k]).id != id
                    &&& find_trade(self.trades@, id) is None
                },
            },
    {
        let n = self.trades.len();
        let mut i: usize = 0;
        while i < n
            invariant
                n == self.trades@.len(),
                i <= n,
                forall|k: int| 0 <= k < i ==> (#[trigger] self.trades@[k]).id != id,
            decreases n - i,
        {
            if self.trades[i].id == id {
                proof {
                    lemma_find_first_at(self.trades@, |t: TradeOffer| t.id == id, i as int);
                }
                return Some(i);
            }
            i += 1;
        }
        proof {
            lemma_find_first_none(self.trades@, |t: TradeOffer| t.id == id);
        }
        None
    }

    /// Index of the credit listing with id `id`, active or not, if any.
    pub(crate) fn credit_index(&self, id: u64) -> (r: Option<usize>)
        ensures
            match r {
                Some(i) => {
                    &&& i < self.credits@.len()
                    &&& self.credits@[i as int].id == id
                    &&& forall|k: int| 0 <= k < i ==> (#[trigger] self.credits@[k]).id != id
                    &&& find_credit(self.credits@, id) == Some(self.credits@[i as int])
                },
                None => {
                    &&& forall|k: int|
                        0 <= k < self.credits@.len() ==> (#[trigger] self.credits@[k]).id != id
                    &&& find_credit(self.credits@, id) is None
                },
            },
    {
        let n = self.credits.len();
        let mut i: usize = 0;
        while i < n
            invariant
                n == self.credits@.len(),
                i <= n,
                forall|k: int| 0 <= k < i ==> (#[trigger] self.credits@[k]).id != id,
            decreases n - i,
        {
            if self.credits[i].id == id {
                proof {
                    lemma_find_first_at(self.credits@, |c: CarbonCredit| c.id == id, i as int);
                }
                return Some(i);
            }
            i += 1;
        }
        proof {
            lemma_find_first_none(self.credits@, |c: CarbonCredit| c.id == id);
        }
        None
    }

    /// Index of the alert with id `id` owned by `user`, if any.
    pub(crate) fn owned_alert_index(&self, id: u64, user: PrincipalId) -> (r: Option<usize>)
        ensures
            match r {
                Some(i) => {
                    &&& i < self.alerts@.len()
                    &&& self.alerts@[i as int].id == id
                    &&& self.alerts@[i as int].user_id == user
                    &&& forall|k: int|
                        0 <= k < i ==> !((#[trigger] self.alerts@[k]).id == id
                            && self.alerts@[k].user_id == user)
                    &&& find_owned_alert(self.alerts@, id, user) == Some(self.alerts@[i as int])
                },
                None => {
                    &&& forall|k: int|
                        0 <= k < self.alerts@.len() ==> !((#[trigger] self.alerts@[k]).id == id
                            && self.alerts@[k].user_id == user)
                    &&& find_owned_alert(self.alerts@, id, user) is None
                },
            },
    {
        let n = self.alerts.len();
        let mut i: usize = 0;
        while i < n
            invariant
                n == self.alerts@.len(),
                i <= n,
                forall|k: int|
                    0 <= k < i ==> !((#[trigger] self.alerts@[k]).id == id
                        && self.alerts@[k].user_id == user),
            decreases n - i,
        {
            let a = &self.alerts[i];
            if a.id == id && a.user_id == user {
                proof {
                    lemma_find_first_at(
                        self.alerts@,
                        |a: Alert| a.id == id && a.user_id == user,
                        i as int,
                    );
                }
                return Some(i);
            }
            i += 1;
        }
        proof {
            lemma_find_first_none(self.alerts@, |a: Alert| a.id == id && a.user_id == user);
        }
        None
    }
}

} // verus!
