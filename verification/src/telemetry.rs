//! The telemetry store: raw device samples, the per-account time series
//! derived from them, and the daily efficiency aggregation.
//!
//! Recording a sample adds its carbon reading to the account's cumulative
//! emission without an allowance check — an asymmetry against
//! `record_emission` that the engine reproduces deliberately — and then
//! evaluates the per-sample alert thresholds, all within one atomic
//! operation.

use vstd::arithmetic::div_mod::lemma_div_is_ordered;
use vstd::arithmetic::div_mod::lemma_div_multiples_vanish;
use vstd::prelude::*;

use crate::alerts::spec_threshold_alert;
use crate::engine::lemma_sum_filtered_monotone;
use crate::engine::lemma_sum_filtered_nonneg;
use crate::engine::lemma_sum_filtered_take_le;
use crate::engine::lemma_sum_filtered_zero;
use crate::engine::one_sel;
use crate::engine::sum_filtered;
use crate::engine::total_carbon_of;
use crate::engine::total_energy_of;
use crate::types::EfficiencyMetric;
use crate::types::NANOS_PER_DAY;
use crate::engine::carbon_sel;
use crate::engine::data_point_key;
use crate::engine::energy_sel;
use crate::engine::every_point;
use crate::engine::find_account;
use crate::engine::lemma_account_update;
use crate::engine::lemma_keys_push;
use crate::engine::lemma_sum_filtered_push;
use crate::engine::others_unchanged;
use crate::engine::reads_as;
use crate::engine::Engine;
use crate::errors::TelemetryError;
use crate::principal::PrincipalId;
use crate::types::Alert;
use crate::types::AlertStatus;
use crate::types::DataPoint;
use crate::types::EmissionHistoryPoint;
use crate::types::TokenBalancePoint;
use crate::types::UserProfile;

verus! {

/// The samples of `p`, in submission order.
pub open spec fn points_of(s: Seq<DataPoint>, p: PrincipalId) -> Seq<DataPoint> {
    s.filter(|d: DataPoint| d.user_id == p)
}

/// The entries of an emission series with timestamps in `[from, to]`.
pub open spec fn emission_in_range(
    s: Seq<EmissionHistoryPoint>,
    from: u64,
    to: u64,
) -> Seq<EmissionHistoryPoint> {
    s.filter(|p: EmissionHistoryPoint| from <= p.timestamp && p.timestamp <= to)
}

/// The entries of a token-balance series with timestamps in `[from, to]`.
pub open spec fn tokens_in_range(
    s: Seq<TokenBalancePoint>,
    from: u64,
    to: u64,
) -> Seq<TokenBalancePoint> {
    s.filter(|p: TokenBalancePoint| from <= p.timestamp && p.timestamp <= to)
}

/// The calendar day a timestamp falls on.
pub open spec fn day_of(ts: u64) -> u64 {
    ts / NANOS_PER_DAY
}

/// The start of the metrics window: `window_days` days before `now`,
/// clamped at the epoch.
pub open spec fn window_start(now: u64, window_days: u64) -> u64 {
    if window_days * NANOS_PER_DAY > now {
        0
    } else {
        (now - window_days * NANOS_PER_DAY) as u64
    }
}

/// The samples of `p` within `[from, to]` that fall on `day`.
pub open spec fn on_day(p: PrincipalId, from: u64, to: u64, day: u64) -> spec_fn(DataPoint) -> bool {
    |d: DataPoint|
        d.user_id == p && from <= d.timestamp && d.timestamp <= to && day_of(d.timestamp) == day
}

/// How many samples of `p` within the window fall on `day`.
pub open spec fn day_samples(
    points: Seq<DataPoint>,
    p: PrincipalId,
    from: u64,
    to: u64,
    day: u64,
) -> int {
    sum_filtered(points, one_sel(), on_day(p, from, to, day))
}

/// Energy summed over the samples of `p` within the window on `day`.
pub open spec fn day_consumption(
    points: Seq<DataPoint>,
    p: PrincipalId,
    from: u64,
    to: u64,
    day: u64,
) -> int {
    sum_filtered(points, energy_sel(), on_day(p, from, to, day))
}

/// Carbon summed over the samples of `p` within the window on `day`.
pub open spec fn day_carbon(
    points: Seq<DataPoint>,
    p: PrincipalId,
    from: u64,
    to: u64,
    day: u64,
) -> int {
    sum_filtered(points, carbon_sel(), on_day(p, from, to, day))
}

/// The efficiency score of a day: `100 * (1 - min(carbon / consumption,
/// 1))` in whole points, rounded down; zero when nothing was consumed.
pub open spec fn score_of(consumption: int, carbon: int) -> int {
    if consumption > 0 {
        (100 * (consumption - (if carbon > consumption {
            consumption
        } else {
            carbon
        }))) / consumption
    } else {
        0
    }
}

/// The outcome of recording a sample against state `e`: negative readings
/// and unknown identities are refused, and any total, balance or id that
/// would pass the machine word surfaces as `Overflow`.
pub open spec fn add_point_decision(
    e: Engine,
    caller: PrincipalId,
    energy_consumption: i64,
    carbon_emitted: i64,
) -> Result<u64, TelemetryError> {
    if energy_consumption < 0 || carbon_emitted < 0 {
        Err(TelemetryError::NegativeValue)
    } else {
        match find_account(e.users@, caller) {
            None => Err(TelemetryError::NotFound),
            Some(a) => {
                let eu = energy_consumption as u64;
                let cu = carbon_emitted as u64;
                if e.next_data_point_id == u64::MAX {
                    Err(TelemetryError::Overflow)
                } else if e.total_energy + eu > u64::MAX {
                    Err(TelemetryError::Overflow)
                } else if e.total_carbon + cu > u64::MAX {
                    Err(TelemetryError::Overflow)
                } else if a.profile.carbon_emitted + cu > u64::MAX {
                    Err(TelemetryError::Overflow)
                } else if spec_threshold_alert(eu, cu) is Some && e.next_alert_id == u64::MAX {
                    Err(TelemetryError::Overflow)
                } else {
                    Ok(e.next_data_point_id)
                }
            },
        }
    }
}

/// How a recorded sample rewrites the state: the sample is appended under
/// the next id, the totals grow by its readings, the caller's cumulative
/// emission grows by the carbon reading — with no allowance check — and
/// the caller's emission series gains exactly one point; the per-sample
/// thresholds then raise at most one alert.
pub open spec fn add_point_applied(
    pre: Engine,
    post: Engine,
    caller: PrincipalId,
    device_id: String,
    energy_consumption: u64,
    carbon_emitted: u64,
    now: u64,
) -> bool {
    match find_account(pre.users@, caller) {
        Some(a) => {
            &&& post.data_points@ == pre.data_points@.push(
                DataPoint {
                    id: pre.next_data_point_id,
                    user_id: caller,
                    device_id,
                    energy_consumption,
                    carbon_emitted,
                    timestamp: now,
                },
            )
            &&& post.next_data_point_id == pre.next_data_point_id + 1
            &&& post.total_energy == pre.total_energy + energy_consumption
            &&& post.total_carbon == pre.total_carbon + carbon_emitted
            &&& reads_as(
                post.users@,
                caller,
                (UserProfile {
                    carbon_emitted: (a.profile.carbon_emitted + carbon_emitted) as u64,
                    last_activity: now,
                    ..a.profile
                }),
                a.emission_history@.push(
                    EmissionHistoryPoint { timestamp: now, amount: carbon_emitted },
                ),
                a.token_history@,
            )
            &&& others_unchanged(pre.users@, post.users@, caller)
            &&& match spec_threshold_alert(energy_consumption, carbon_emitted) {
                None => post.alerts@ == pre.alerts@ && post.next_alert_id == pre.next_alert_id,
                Some((kind, severity)) => {
                    &&& post.alerts@ == pre.alerts@.push(
                        Alert {
                            id: pre.next_alert_id,
                            user_id: caller,
                            kind,
                            timestamp: now,
                            severity,
                            status: AlertStatus::New,
                        },
                    )
                    &&& post.next_alert_id == pre.next_alert_id + 1
                },
            }
            &&& post.trades == pre.trades
            &&& post.next_trade_id == pre.next_trade_id
            &&& post.credits == pre.credits
            &&& post.next_credit_id == pre.next_credit_id
            &&& post.transactions == pre.transactions
            &&& post.next_transaction_id == pre.next_transaction_id
        },
        None => false,
    }
}

impl Engine {
    /// Records one device sample for the caller.
    ///
    /// The decision over the prior state is exactly
    /// [`add_point_decision`]; on success the state is rewritten exactly
    /// as [`add_point_applied`] says, and on any error it is untouched.
    /// Returns the new sample's id.
    pub fn add_data_point(
        &mut self,
        caller: PrincipalId,
        device_id: String,
        energy_consumption: i64,
        carbon_emitted: i64,
        now: u64,
    ) -> (r: Result<u64, TelemetryError>)
        requires
            old(self).wf(),
        ensures
            final(self).wf(),
            old(self).trade_book_unchanged(*final(self)),
            old(self).credit_market_unchanged(*final(self)),
            old(self).ledger_unchanged(*final(self)),
            r is Err ==> *final(self) == *old(self),
            r == add_point_decision(*old(self), caller, energy_consumption, carbon_emitted),
            r is Ok ==> add_point_applied(
                *old(self),
                *final(self),
                caller,
                device_id,
                energy_consumption as u64,
                carbon_emitted as u64,
                now,
            ),
            old(self).allowances_ok() && (match find_account(old(self).users@, caller) {
                Some(a) => a.profile.carbon_emitted + carbon_emitted
                    <= a.profile.carbon_allowance,
                None => true,
            }) ==> final(self).allowances_ok(),
    {
        if energy_consumption < 0 || carbon_emitted < 0 {
            return Err(TelemetryError::NegativeValue);
        }
        let eu = energy_consumption as u64;
        let cu = carbon_emitted as u64;
        let i = match self.user_index(caller) {
            Some(i) => i,
            None => {
                return Err(TelemetryError::NotFound);
            },
        };
        if self.next_data_point_id == u64::MAX {
            return Err(TelemetryError::Overflow);
        }
        if eu > u64::MAX - self.total_energy {
            return Err(TelemetryError::Overflow);
        }
        if cu > u64::MAX - self.total_carbon {
            return Err(TelemetryError::Overflow);
        }
        let emitted = self.users[i].profile.carbon_emitted;
        if cu > u64::MAX - emitted {
            return Err(TelemetryError::Overflow);
        }
        let raises_alert = eu > crate::types::ENERGY_HIGH_THRESHOLD || cu
            > crate::types::CARBON_HIGH_THRESHOLD;
        if raises_alert && self.next_alert_id == u64::MAX {
            return Err(TelemetryError::Overflow);
        }

        // The sample and the running totals.
        let dp_id = self.next_data_point_id;
        let point = DataPoint {
            id: dp_id,
            user_id: caller,
            device_id,
            energy_consumption: eu,
            carbon_emitted: cu,
            timestamp: now,
        };
        proof {
            lemma_keys_push(self.data_points@, data_point_key(), dp_id, point);
            lemma_sum_filtered_push(self.data_points@, energy_sel(), every_point(), point);
            lemma_sum_filtered_push(self.data_points@, carbon_sel(), every_point(), point);
        }
        self.data_points.push(point);
        self.next_data_point_id = dp_id + 1;
        self.total_energy = self.total_energy + eu;
        self.total_carbon = self.total_carbon + cu;

        // The caller's account: cumulative emission and emission series.
        let ghost pre_users = self.users@;
        let a = &mut self.users[i];
        a.profile.carbon_emitted = emitted + cu;
        a.profile.last_activity = now;
        a.emission_history.push(EmissionHistoryPoint { timestamp: now, amount: cu });
        proof {
            lemma_account_update(pre_users, i as int, self.users@[i as int]);
        }

        // The per-sample thresholds.
        match self.check_and_generate_alerts(caller, eu, cu, now) {
            Ok(()) => Ok(dp_id),
            Err(_) => unreached(),
        }
    }

    /// Every sample the caller submitted, in submission order.
    pub fn get_all_data(&self, caller: PrincipalId) -> (r: Vec<DataPoint>)
        ensures
            r@ == points_of(self.data_points@, caller),
    {
        let mut r: Vec<DataPoint> = Vec::new();
        let n = self.data_points.len();
        let mut i: usize = 0;
        proof {
            reveal(Seq::filter);
            assert(self.data_points@.take(0) =~= Seq::<DataPoint>::empty());
        }
        while i < n
            invariant
                n == self.data_points@.len(),
                i <= n,
                r@ == points_of(self.data_points@.take(i as int), caller),
            decreases n - i,
        {
            proof {
                reveal(Seq::filter);
                assert(self.data_points@.take(i + 1).drop_last() =~= self.data_points@.take(
                    i as int,
                ));
                assert(self.data_points@.take(i + 1).last() == self.data_points@[i as int]);
            }
            if self.data_points[i].user_id == caller {
                r.push(self.data_points[i].clone());
            }
            i += 1;
        }
        proof {
            assert(self.data_points@.take(n as int) =~= self.data_points@);
        }
        r
    }

    /// The caller's emission series restricted to timestamps in
    /// `[from_timestamp, to_timestamp]`, in order; empty for an
    /// unregistered identity.
    pub fn get_emission_history(&self, caller: PrincipalId, from_timestamp: u64, to_timestamp: u64) -> (r:
        Vec<EmissionHistoryPoint>)
        ensures
            match find_account(self.users@, caller) {
                Some(a) => r@ == emission_in_range(
                    a.emission_history@,
                    from_timestamp,
                    to_timestamp,
                ),
                None => r@ == Seq::<EmissionHistoryPoint>::empty(),
            },
    {
        let idx = match self.user_index(caller) {
            Some(i) => i,
            None => {
                return Vec::new();
            },
        };
        let points = &self.users[idx].emission_history;
        let mut r: Vec<EmissionHistoryPoint> = Vec::new();
        let n = points.len();
        let mut i: usize = 0;
        proof {
            reveal(Seq::filter);
            assert(points@.take(0) =~= Seq::<EmissionHistoryPoint>::empty());
        }
        while i < n
            invariant
                n == points@.len(),
                i <= n,
                r@ == emission_in_range(points@.take(i as int), from_timestamp, to_timestamp),
            decreases n - i,
        {
            proof {
                reveal(Seq::filter);
                assert(points@.take(i + 1).drop_last() =~= points@.take(i as int));
                assert(points@.take(i + 1).last() == points@[i as int]);
            }
            let p = points[i];
            if from_timestamp <= p.timestamp && p.timestamp <= to_timestamp {
                r.push(p);
            }
            i += 1;
        }
        proof {
            assert(points@.take(n as int) =~= points@);
        }
        r
    }

    /// The caller's token-balance series restricted to timestamps in
    /// `[from_timestamp, to_timestamp]`, in order; empty for an
    /// unregistered identity.
    pub fn get_token_balance_history(
        &self,
        caller: PrincipalId,
        from_timestamp: u64,
        to_timestamp: u64,
    ) -> (r: Vec<TokenBalancePoint>)
        ensures
            match find_account(self.users@, caller) {
                Some(a) => r@ == tokens_in_range(a.token_history@, from_timestamp, to_timestamp),
                None => r@ == Seq::<TokenBalancePoint>::empty(),
            },
    {
        let idx = match self.user_index(caller) {
            Some(i) => i,
            None => {
                return Vec::new();
            },
        };
        let points = &self.users[idx].token_history;
        let mut r: Vec<TokenBalancePoint> = Vec::new();
        let n = points.len();
        let mut i: usize = 0;
        proof {
            reveal(Seq::filter);
            assert(points@.take(0) =~= Seq::<TokenBalancePoint>::empty());
        }
        while i < n
            invariant
                n == points@.len(),
                i <= n,
                r@ == tokens_in_range(points@.take(i as int), from_timestamp, to_timestamp),
            decreases n - i,
        {
            proof {
                reveal(Seq::filter);
                assert(points@.take(i + 1).drop_last() =~= points@.take(i as int));
                assert(points@.take(i + 1).last() == points@[i as int]);
            }
            let p = points[i];
            if from_timestamp <= p.timestamp && p.timestamp <= to_timestamp {
                r.push(p);
            }
            i += 1;
        }
        proof {
            assert(points@.take(n as int) =~= points@);
        }
        r
    }

    /// The caller's daily efficiency metrics over the last `window_days`
    /// days: one entry per calendar day on which the caller has a sample
    /// within the window, in ascending day order, carrying the day's
    /// summed consumption, summed carbon and efficiency score.
    pub fn get_efficiency_metrics(&self, caller: PrincipalId, window_days: u64, now: u64) -> (r:
        Vec<EfficiencyMetric>)
        requires
            self.wf(),
        ensures
            ({
                let from = window_start(now, window_days);
                let points = self.data_points@;
                &&& forall|x: int, y: int| 0 <= x < y < r@.len() ==> r@[x].day < r@[y].day
                &&& forall|x: int|
                    0 <= x < r@.len() ==> {
                        let m = #[trigger] r@[x];
                        &&& day_samples(points, caller, from, now, m.day) > 0
                        &&& m.consumption == day_consumption(points, caller, from, now, m.day)
                        &&& m.carbon_emitted == day_carbon(points, caller, from, now, m.day)
                        &&& m.efficiency_score == score_of(
                            m.consumption as int,
                            m.carbon_emitted as int,
                        )
                    }
                &&& forall|d: u64|
                    #[trigger] day_samples(points, caller, from, now, d) > 0 ==> exists|x: int|
                        0 <= x < r@.len() && (#[trigger] r@[x]).day == d
            }),
    {
        let from = match window_days.checked_mul(NANOS_PER_DAY) {
            Some(w) => if w > now {
                0
            } else {
                now - w
            },
            None => 0,
        };
        let ghost points = self.data_points@;
        let mut ms: Vec<EfficiencyMetric> = Vec::new();
        let n = self.data_points.len();
        let mut k: usize = 0;
        proof {
            assert(points.take(0) =~= Seq::<DataPoint>::empty());
        }
        while k < n
            invariant
                self.wf(),
                points == self.data_points@,
                n == points.len(),
                k <= n,
                from == window_start(now, window_days),
                forall|x: int, y: int| 0 <= x < y < ms@.len() ==> ms@[x].day < ms@[y].day,
                forall|x: int|
                    0 <= x < ms@.len() ==> {
                        let m = #[trigger] ms@[x];
                        &&& day_samples(points.take(k as int), caller, from, now, m.day) > 0
                        &&& m.consumption == day_consumption(
                            points.take(k as int),
                            caller,
                            from,
                            now,
                            m.day,
                        )
                        &&& m.carbon_emitted == day_carbon(
                            points.take(k as int),
                            caller,
                            from,
                            now,
                            m.day,
                        )
                    },
                forall|d: u64|
                    #[trigger] day_samples(points.take(k as int), caller, from, now, d) > 0
                        ==> exists|x: int| 0 <= x < ms@.len() && (#[trigger] ms@[x]).day == d,
            decreases n - k,
        {
            let ghost pre = points.take(k as int);
            let ghost cur = points.take(k + 1);
            let ghost old_ms = ms@;
            proof {
                assert(cur.drop_last() =~= pre);
                assert(cur.last() == points[k as int]);
            }
            let q = self.data_points[k].clone();
            if q.user_id == caller && from <= q.timestamp && q.timestamp <= now {
                let dq = q.timestamp / NANOS_PER_DAY;
                let len = ms.len();
                let mut pos: usize = 0;
                while pos < len && ms[pos].day < dq
                    invariant
                        ms@ == old_ms,
                        len == ms@.len(),
                        pos <= len,
                        forall|x: int| 0 <= x < pos ==> (#[trigger] ms@[x]).day < dq,
                    decreases len - pos,
                {
                    pos += 1;
                }
                if pos < len && ms[pos].day == dq {
                    // A known day: fold the sample into its sums.
                    proof {
                        lemma_sum_filtered_monotone(
                            cur,
                            energy_sel(),
                            on_day(caller, from, now, dq),
                            every_point(),
                        );
                        lemma_sum_filtered_take_le(points, energy_sel(), every_point(), k + 1);
                        lemma_sum_filtered_monotone(
                            cur,
                            carbon_sel(),
                            on_day(caller, from, now, dq),
                            every_point(),
                        );
                        lemma_sum_filtered_take_le(points, carbon_sel(), every_point(), k + 1);
                        lemma_sum_filtered_nonneg(pre, one_sel(), on_day(caller, from, now, dq));
                    }
                    let m = ms[pos];
                    ms[pos] = EfficiencyMetric {
                        day: dq,
                        consumption: m.consumption + q.energy_consumption,
                        carbon_emitted: m.carbon_emitted + q.carbon_emitted,
                        efficiency_score: 0,
                    };
                    proof {
                        assert forall|x: int| 0 <= x < ms@.len() implies {
                            let me = #[trigger] ms@[x];
                            &&& day_samples(cur, caller, from, now, me.day) > 0
                            &&& me.consumption == day_consumption(cur, caller, from, now, me.day)
                            &&& me.carbon_emitted == day_carbon(cur, caller, from, now, me.day)
                        } by {
                            if x == pos {
                                lemma_sum_filtered_nonneg(
                                    pre,
                                    one_sel(),
                                    on_day(caller, from, now, dq),
                                );
                            } else {
                                assert(old_ms[x].day != dq);
                            }
                        }
                        assert forall|d: u64|
                            #[trigger] day_samples(cur, caller, from, now, d) > 0 implies exists|x: int|
                            0 <= x < ms@.len() && (#[trigger] ms@[x]).day == d by {
                            if d == dq {
                                assert(ms@[pos as int].day == d);
                            } else {
                                assert(day_samples(pre, caller, from, now, d) > 0);
                                let x = choose|x: int|
                                    0 <= x < old_ms.len() && (#[trigger] old_ms[x]).day == d;
                                assert(ms@[x].day == d);
                            }
                        }
                    }
                } else {
                    // A new day: no earlier sample of this day exists.
                    proof {
                        assert forall|x: int| 0 <= x < old_ms.len() implies (#[trigger] old_ms[x]).day
                            != dq by {
                            if x >= pos {
                                assert(old_ms[pos as int].day > dq || old_ms[pos as int].day < dq
                                    || old_ms[pos as int].day == dq);
                                if x > pos {
                                    assert(old_ms[pos as int].day < old_ms[x].day);
                                }
                            }
                        }
                        if day_samples(pre, caller, from, now, dq) > 0 {
                            let x = choose|x: int|
                                0 <= x < old_ms.len() && (#[trigger] old_ms[x]).day == dq;
                            assert(false);
                        }
                        lemma_sum_filtered_nonneg(pre, one_sel(), on_day(caller, from, now, dq));
                        lemma_sum_filtered_zero(pre, energy_sel(), on_day(caller, from, now, dq));
                        lemma_sum_filtered_zero(pre, carbon_sel(), on_day(caller, from, now, dq));
                    }
                    let entry = EfficiencyMetric {
                        day: dq,
                        consumption: q.energy_consumption,
                        carbon_emitted: q.carbon_emitted,
                        efficiency_score: 0,
                    };
                    ms.insert(pos, entry);
                    proof {
                        old_ms.insert_ensures(pos as int, entry);
                        assert forall|x: int, y: int| 0 <= x < y < ms@.len() implies ms@[x].day
                            < ms@[y].day by {
                            if y < pos {
                            } else if x == pos && y > pos {
                                assert(ms@[y] == old_ms[y - 1]);
                                assert(old_ms[pos as int].day > dq);
                                if y - 1 > pos {
                                    assert(old_ms[pos as int].day <= old_ms[y - 1].day);
                                }
                            } else if x < pos && y == pos {
                            } else if x > pos && y > pos {
                                assert(ms@[x] == old_ms[x - 1]);
                                assert(ms@[y] == old_ms[y - 1]);
                            } else if x < pos && y > pos {
                                assert(ms@[y] == old_ms[y - 1]);
                                assert(old_ms[x].day < dq);
                                assert(old_ms[pos as int].day > dq);
                                if y - 1 > pos {
                                    assert(old_ms[pos as int].day <= old_ms[y - 1].day);
                                }
                            }
                        }
                        assert forall|x: int| 0 <= x < ms@.len() implies {
                            let me = #[trigger] ms@[x];
                            &&& day_samples(cur, caller, from, now, me.day) > 0
                            &&& me.consumption == day_consumption(cur, caller, from, now, me.day)
                            &&& me.carbon_emitted == day_carbon(cur, caller, from, now, me.day)
                        } by {
                            if x < pos {
                                assert(ms@[x] == old_ms[x]);
                                assert(old_ms[x].day != dq);
                            } else if x == pos {
                                lemma_sum_filtered_nonneg(
                                    pre,
                                    one_sel(),
                                    on_day(caller, from, now, dq),
                                );
                            } else {
                                assert(ms@[x] == old_ms[x - 1]);
                                assert(old_ms[x - 1].day != dq);
                            }
                        }
                        assert forall|d: u64|
                            #[trigger] day_samples(cur, caller, from, now, d) > 0 implies exists|x: int|
                            0 <= x < ms@.len() && (#[trigger] ms@[x]).day == d by {
                            if d == dq {
                                assert(ms@[pos as int].day == d);
                            } else {
                                assert(day_samples(pre, caller, from, now, d) > 0);
                                let x = choose|x: int|
                                    0 <= x < old_ms.len() && (#[trigger] old_ms[x]).day == d;
                                if x < pos {
                                    assert(ms@[x].day == d);
                                } else {
                                    assert(ms@[x + 1] == old_ms[x]);
                                    assert(ms@[x + 1].day == d);
                                }
                            }
                        }
                    }
                }
            } else {
                // Outside the caller's window: nothing changes on any day.
                proof {
                    assert forall|x: int| 0 <= x < ms@.len() implies {
                        let me = #[trigger] ms@[x];
                        &&& day_samples(cur, caller, from, now, me.day) > 0
                        &&& me.consumption == day_consumption(cur, caller, from, now, me.day)
                        &&& me.carbon_emitted == day_carbon(cur, caller, from, now, me.day)
                    } by {
                        assert(!(on_day(caller, from, now, ms@[x].day)(points[k as int])));
                    }
                    assert forall|d: u64|
                        #[trigger] day_samples(cur, caller, from, now, d) > 0 implies exists|x: int|
                        0 <= x < ms@.len() && (#[trigger] ms@[x]).day == d by {
                        assert(!(on_day(caller, from, now, d)(points[k as int])));
                        assert(day_samples(pre, caller, from, now, d) > 0);
                    }
                }
            }
            k += 1;
        }
        proof {
            assert(points.take(n as int) =~= points);
        }

        // Fill in the scores from the final sums.
        let mlen = ms.len();
        let mut x: usize = 0;
        while x < mlen
            invariant
                mlen == ms@.len(),
                x <= mlen,
                forall|a: int, b: int| 0 <= a < b < ms@.len() ==> ms@[a].day < ms@[b].day,
                forall|a: int|
                    0 <= a < ms@.len() ==> {
                        let m = #[trigger] ms@[a];
                        &&& day_samples(points, caller, from, now, m.day) > 0
                        &&& m.consumption == day_consumption(points, caller, from, now, m.day)
                        &&& m.carbon_emitted == day_carbon(points, caller, from, now, m.day)
                    },
                forall|d: u64|
                    #[trigger] day_samples(points, caller, from, now, d) > 0 ==> exists|a: int|
                        0 <= a < ms@.len() && (#[trigger] ms@[a]).day == d,
                forall|a: int|
                    0 <= a < x ==> (#[trigger] ms@[a]).efficiency_score == score_of(
                        ms@[a].consumption as int,
                        ms@[a].carbon_emitted as int,
                    ),
            decreases mlen - x,
        {
            let ghost old_ms = ms@;
            let m = ms[x];
            let score: u64 = if m.consumption > 0 {
                let floor_val = if m.carbon_emitted > m.consumption {
                    m.consumption
                } else {
                    m.carbon_emitted
                };
                let num: u128 = 100 * ((m.consumption - floor_val) as u128);
                let quot: u128 = num / (m.consumption as u128);
                proof {
                    lemma_div_is_ordered(
                        100 * (m.consumption - floor_val) as int,
                        100 * m.consumption as int,
                        m.consumption as int,
                    );
                    lemma_div_multiples_vanish(100, m.consumption as int);
                }
                quot as u64
            } else {
                0
            };
            ms[x] = EfficiencyMetric {
                day: m.day,
                consumption: m.consumption,
                carbon_emitted: m.carbon_emitted,
                efficiency_score: score,
            };
            proof {
                assert forall|d: u64|
                    #[trigger] day_samples(points, caller, from, now, d) > 0 implies exists|a: int|
                    0 <= a < ms@.len() && (#[trigger] ms@[a]).day == d by {
                    let a = choose|a: int| 0 <= a < old_ms.len() && (#[trigger] old_ms[a]).day == d;
                    assert(ms@[a].day == d);
                }
            }
            x += 1;
        }
        ms
    }
}

} // verus!
