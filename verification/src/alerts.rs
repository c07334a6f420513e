//! The alert engine: threshold evaluation over telemetry and the mutable
//! lifecycle of the alerts it raises.
//!
//! Each alert walks `New -> Read`, `New -> Resolved` or `Read -> Resolved`;
//! `Resolved` is terminal. Only the owning user may change or remove an
//! alert.

use vstd::prelude::*;

use crate::engine::Engine;
use crate::engine::alert_key;
use crate::engine::carbon_sel;
use crate::engine::energy_sel;
use crate::engine::every_point;
use crate::engine::find_owned_alert;
use crate::engine::keys_below;
use crate::engine::keys_increasing;
use crate::engine::lemma_find_first_at;
use crate::engine::lemma_find_first_none;
use crate::engine::lemma_find_first_remove_other;
use crate::engine::lemma_find_first_update_other;
use crate::engine::lemma_keys_push;
use crate::engine::lemma_sum_filtered_monotone;
use crate::engine::lemma_sum_filtered_nonneg;
use crate::engine::lemma_sum_filtered_push;
use crate::engine::lemma_sum_filtered_take_le;
use crate::engine::sum_filtered;
use crate::engine::total_carbon_of;
use crate::engine::total_energy_of;
use crate::errors::AlertError;
use crate::principal::PrincipalId;
use crate::types::Account;
use crate::types::Alert;
use crate::types::AlertKind;
use crate::types::AlertStatus;
use crate::types::CARBON_HIGH_THRESHOLD;
use crate::types::DAILY_CONSUMPTION_THRESHOLD;
use crate::types::DAILY_EMISSION_THRESHOLD;
use crate::types::DataPoint;
use crate::types::ENERGY_HIGH_THRESHOLD;
use crate::types::NANOS_PER_DAY;
use crate::types::Severity;

verus! {

/// The alert a single telemetry sample raises, if any: crossing both the
/// energy and the carbon threshold is high severity, crossing one of them
/// is medium, crossing neither raises nothing.
pub open spec fn spec_threshold_alert(energy: u64, carbon: u64) -> Option<(AlertKind, Severity)> {
    if energy > ENERGY_HIGH_THRESHOLD && carbon > CARBON_HIGH_THRESHOLD {
        Some((AlertKind::HighConsumptionAndEmission, Severity::High))
    } else if energy > ENERGY_HIGH_THRESHOLD {
        Some((AlertKind::HighConsumption, Severity::Medium))
    } else if carbon > CARBON_HIGH_THRESHOLD {
        Some((AlertKind::HighEmission, Severity::Medium))
    } else {
        None
    }
}

/// Whether an alert in state `from` may move to state `to`.
pub open spec fn transition_allowed(from: AlertStatus, to: AlertStatus) -> bool {
    match to {
        AlertStatus::New => false,
        AlertStatus::Read => from == AlertStatus::New,
        AlertStatus::Resolved => from != AlertStatus::Resolved,
    }
}

/// The lower bound of the bulk scan's window: one day before `now`,
/// clamped at the epoch.
pub open spec fn day_cutoff(now: u64) -> u64 {
    if now >= NANOS_PER_DAY {
        (now - NANOS_PER_DAY) as u64
    } else {
        0
    }
}

/// The samples of `p` taken at or after `cutoff`.
pub open spec fn recent_of(p: PrincipalId, cutoff: u64) -> spec_fn(DataPoint) -> bool {
    |d: DataPoint| d.user_id == p && d.timestamp >= cutoff
}

/// Energy summed over the samples of `p` at or after `cutoff`.
pub open spec fn recent_energy(points: Seq<DataPoint>, p: PrincipalId, cutoff: u64) -> int {
    sum_filtered(points, energy_sel(), recent_of(p, cutoff))
}

/// Carbon summed over the samples of `p` at or after `cutoff`.
pub open spec fn recent_carbon(points: Seq<DataPoint>, p: PrincipalId, cutoff: u64) -> int {
    sum_filtered(points, carbon_sel(), recent_of(p, cutoff))
}

/// What the bulk scan raises for one user: one alert per breached daily
/// threshold, consumption first, up to two per user.
pub open spec fn scan_entries_for(points: Seq<DataPoint>, p: PrincipalId, cutoff: u64) -> Seq<
    (PrincipalId, AlertKind, Severity),
> {
    (if recent_energy(points, p, cutoff) > DAILY_CONSUMPTION_THRESHOLD {
        seq![(p, AlertKind::DailyConsumptionExceeded, Severity::Medium)]
    } else {
        Seq::empty()
    }) + (if recent_carbon(points, p, cutoff) > DAILY_EMISSION_THRESHOLD {
        seq![(p, AlertKind::DailyEmissionExceeded, Severity::High)]
    } else {
        Seq::empty()
    })
}

/// What the bulk scan raises over all accounts, in account order.
pub open spec fn scan_entries(
    users: Seq<Account>,
    points: Seq<DataPoint>,
    cutoff: u64,
) -> Seq<(PrincipalId, AlertKind, Severity)>
    decreases users.len(),
{
    if users.len() == 0 {
        Seq::empty()
    } else {
        scan_entries(users.drop_last(), points, cutoff) + scan_entries_for(
            points,
            users.last().profile.principal,
            cutoff,
        )
    }
}

/// The alert records for the scan's entries, ids counted from `base`.
pub open spec fn mk_alerts(
    entries: Seq<(PrincipalId, AlertKind, Severity)>,
    base: u64,
    now: u64,
) -> Seq<Alert> {
    Seq::new(
        entries.len(),
        |k: int|
            Alert {
                id: (base + k) as u64,
                user_id: entries[k].0,
                kind: entries[k].1,
                timestamp: now,
                severity: entries[k].2,
                status: AlertStatus::New,
            },
    )
}

/// The alerts owned by `p`, in creation order.
pub open spec fn alerts_of(s: Seq<Alert>, p: PrincipalId) -> Seq<Alert> {
    s.filter(|a: Alert| a.user_id == p)
}

/// The alerts owned by `p` that are not yet resolved, in creation order.
pub open spec fn unresolved_alerts_of(s: Seq<Alert>, p: PrincipalId) -> Seq<Alert> {
    s.filter(|a: Alert| a.user_id == p && a.status != AlertStatus::Resolved)
}

/// The alerts owned by `p` in state `status`, in creation order.
pub open spec fn alerts_with_status(s: Seq<Alert>, p: PrincipalId, status: AlertStatus) -> Seq<
    Alert,
> {
    s.filter(|a: Alert| a.user_id == p && a.status == status)
}

impl Engine {
    /// Raises one alert for `user`, in state `New`, under the next alert
    /// id, which is returned.
    pub fn create_alert(&mut self, user: PrincipalId, kind: AlertKind, severity: Severity, now: u64) -> (r:
        Result<u64, AlertError>)
        requires
            old(self).wf(),
        ensures
            final(self).wf(),
            old(self).accounts_unchanged(*final(self)),
            old(self).trade_book_unchanged(*final(self)),
            old(self).credit_market_unchanged(*final(self)),
            old(self).ledger_unchanged(*final(self)),
            old(self).telemetry_unchanged(*final(self)),
            old(self).allowances_ok() ==> final(self).allowances_ok(),
            r is Err ==> *final(self) == *old(self),
            old(self).next_alert_id == u64::MAX ==> r == Err::<u64, AlertError>(
                AlertError::Overflow,
            ),
            old(self).next_alert_id < u64::MAX ==> {
                &&& r == Ok::<u64, AlertError>(old(self).next_alert_id)
                &&& final(self).alerts@ == old(self).alerts@.push(
                    Alert {
                        id: old(self).next_alert_id,
                        user_id: user,
                        kind,
                        timestamp: now,
                        severity,
                        status: AlertStatus::New,
                    },
                )
                &&& final(self).next_alert_id == old(self).next_alert_id + 1
            },
    {
        if self.next_alert_id == u64::MAX {
            return Err(AlertError::Overflow);
        }
        let id = self.next_alert_id;
        let alert = Alert {
            id,
            user_id: user,
            kind,
            timestamp: now,
            severity,
            status: AlertStatus::New,
        };
        proof {
            lemma_keys_push(self.alerts@, alert_key(), id, alert);
        }
        self.alerts.push(alert);
        self.next_alert_id = id + 1;
        Ok(id)
    }

    /// Evaluates the per-sample thresholds for one sample of `user` and
    /// raises the resulting alert, if any.
    pub fn check_and_generate_alerts(
        &mut self,
        user: PrincipalId,
        energy_consumption: u64,
        carbon_emitted: u64,
        now: u64,
    ) -> (r: Result<(), AlertError>)
        requires
            old(self).wf(),
        ensures
            final(self).wf(),
            old(self).accounts_unchanged(*final(self)),
            old(self).trade_book_unchanged(*final(self)),
            old(self).credit_market_unchanged(*final(self)),
            old(self).ledger_unchanged(*final(self)),
            old(self).telemetry_unchanged(*final(self)),
            old(self).allowances_ok() ==> final(self).allowances_ok(),
            r is Err ==> *final(self) == *old(self),
            match spec_threshold_alert(energy_consumption, carbon_emitted) {
                None => r is Ok && *final(self) == *old(self),
                Some((kind, severity)) => {
                    if old(self).next_alert_id == u64::MAX {
                        r == Err::<(), AlertError>(AlertError::Overflow)
                    } else {
                        &&& r is Ok
                        &&& final(self).alerts@ == old(self).alerts@.push(
                            Alert {
                                id: old(self).next_alert_id,
                                user_id: user,
                                kind,
                                timestamp: now,
                                severity,
                                status: AlertStatus::New,
                            },
                        )
                        &&& final(self).next_alert_id == old(self).next_alert_id + 1
                    }
                },
            },
    {
        let high_energy = energy_consumption > ENERGY_HIGH_THRESHOLD;
        let high_carbon = carbon_emitted > CARBON_HIGH_THRESHOLD;
        if high_energy && high_carbon {
            match self.create_alert(user, AlertKind::HighConsumptionAndEmission, Severity::High, now) {
                Ok(_) => Ok(()),
                Err(e) => Err(e),
            }
        } else if high_energy {
            match self.create_alert(user, AlertKind::HighConsumption, Severity::Medium, now) {
                Ok(_) => Ok(()),
                Err(e) => Err(e),
            }
        } else if high_carbon {
            match self.create_alert(user, AlertKind::HighEmission, Severity::Medium, now) {
                Ok(_) => Ok(()),
                Err(e) => Err(e),
            }
        } else {
            Ok(())
        }
    }

    /// Every alert owned by the caller, in creation order.
    pub fn get_alerts(&self, caller: PrincipalId) -> (r: Vec<Alert>)
        ensures
            r@ == alerts_of(self.alerts@, caller),
    {
        let mut r: Vec<Alert> = Vec::new();
        let n = self.alerts.len();
        let mut i: usize = 0;
        proof {
            reveal(Seq::filter);
            assert(self.alerts@.take(0) =~= Seq::<Alert>::empty());
        }
        while i < n
            invariant
                n == self.alerts@.len(),
                i <= n,
                r@ == alerts_of(self.alerts@.take(i as int), caller),
            decreases n - i,
        {
            proof {
                reveal(Seq::filter);
                assert(self.alerts@.take(i + 1).drop_last() =~= self.alerts@.take(i as int));
                assert(self.alerts@.take(i + 1).last() == self.alerts@[i as int]);
            }
            if self.alerts[i].user_id == caller {
                r.push(self.alerts[i]);
            }
            i += 1;
        }
        proof {
            assert(self.alerts@.take(n as int) =~= self.alerts@);
        }
        r
    }

    /// Every alert owned by the caller that is not yet resolved, in
    /// creation order.
    pub fn get_latest_alerts(&self, caller: PrincipalId) -> (r: Vec<Alert>)
        ensures
            r@ == unresolved_alerts_of(self.alerts@, caller),
    {
        let mut r: Vec<Alert> = Vec::new();
        let n = self.alerts.len();
        let mut i: usize = 0;
        proof {
            reveal(Seq::filter);
            assert(self.alerts@.take(0) =~= Seq::<Alert>::empty());
        }
        while i < n
            invariant
                n == self.alerts@.len(),
                i <= n,
                r@ == unresolved_alerts_of(self.alerts@.take(i as int), caller),
            decreases n - i,
        {
            proof {
                reveal(Seq::filter);
                assert(self.alerts@.take(i + 1).drop_last() =~= self.alerts@.take(i as int));
                assert(self.alerts@.take(i + 1).last() == self.alerts@[i as int]);
            }
            let a = &self.alerts[i];
            if a.user_id == caller && !matches!(a.status, AlertStatus::Resolved) {
                r.push(self.alerts[i]);
            }
            i += 1;
        }
        proof {
            assert(self.alerts@.take(n as int) =~= self.alerts@);
        }
        r
    }

    /// Every alert owned by the caller in state `status`, in creation
    /// order.
    pub fn filter_alerts(&self, caller: PrincipalId, status: AlertStatus) -> (r: Vec<Alert>)
        ensures
            r@ == alerts_with_status(self.alerts@, caller, status),
    {
        let mut r: Vec<Alert> = Vec::new();
        let n = self.alerts.len();
        let mut i: usize = 0;
        proof {
            reveal(Seq::filter);
            assert(self.alerts@.take(0) =~= Seq::<Alert>::empty());
        }
        while i < n
            invariant
                n == self.alerts@.len(),
                i <= n,
                r@ == alerts_with_status(self.alerts@.take(i as int), caller, status),
            decreases n - i,
        {
            proof {
                reveal(Seq::filter);
                assert(self.alerts@.take(i + 1).drop_last() =~= self.alerts@.take(i as int));
                assert(self.alerts@.take(i + 1).last() == self.alerts@[i as int]);
            }
            let a = &self.alerts[i];
            if a.user_id == caller && a.status == status {
                r.push(self.alerts[i]);
            }
            i += 1;
        }
        proof {
            assert(self.alerts@.take(n as int) =~= self.alerts@);
        }
        r
    }

    /// Moves the caller's alert `alert_id` to `status`.
    ///
    /// Only the transitions `New -> Read`, `New -> Resolved` and
    /// `Read -> Resolved` are accepted; anything else is `InvalidStatus`.
    /// An alert the caller does not own reads as absent, and nothing
    /// changes on any error. Returns the alert's id.
    pub fn update_alert_status(&mut self, caller: PrincipalId, alert_id: u64, status: AlertStatus) -> (r:
        Result<u64, AlertError>)
        requires
            old(self).wf(),
        ensures
            final(self).wf(),
            old(self).accounts_unchanged(*final(self)),
            old(self).trade_book_unchanged(*final(self)),
            old(self).credit_market_unchanged(*final(self)),
            old(self).ledger_unchanged(*final(self)),
            old(self).telemetry_unchanged(*final(self)),
            old(self).allowances_ok() ==> final(self).allowances_ok(),
            r is Err ==> *final(self) == *old(self),
            final(self).next_alert_id == old(self).next_alert_id,
            status == AlertStatus::New ==> r == Err::<u64, AlertError>(AlertError::InvalidStatus),
            status != AlertStatus::New ==> match find_owned_alert(
                old(self).alerts@,
                alert_id,
                caller,
            ) {
                None => r == Err::<u64, AlertError>(AlertError::NotFoundOrForbidden),
                Some(a) => {
                    if !transition_allowed(a.status, status) {
                        r == Err::<u64, AlertError>(AlertError::InvalidStatus)
                    } else {
                        &&& r == Ok::<u64, AlertError>(alert_id)
                        &&& final(self).alerts@.len() == old(self).alerts@.len()
                        &&& exists|i: int|
                            0 <= i < old(self).alerts@.len() && old(self).alerts@[i] == a
                                && final(self).alerts@ == old(self).alerts@.update(
                                i,
                                (Alert { status, ..a }),
                            )
                        &&& find_owned_alert(final(self).alerts@, alert_id, caller) == Some(
                            Alert { status, ..a },
                        )
                        &&& forall|id2: u64, u2: PrincipalId|
                            id2 != alert_id || u2 != caller ==> find_owned_alert(
                                final(self).alerts@,
                                id2,
                                u2,
                            ) == find_owned_alert(old(self).alerts@, id2, u2)
                    }
                },
            },
    {
        if matches!(status, AlertStatus::New) {
            return Err(AlertError::InvalidStatus);
        }
        let i = match self.owned_alert_index(alert_id, caller) {
            Some(i) => i,
            None => {
                return Err(AlertError::NotFoundOrForbidden);
            },
        };
        let from = self.alerts[i].status;
        let allowed = match status {
            AlertStatus::New => false,
            AlertStatus::Read => matches!(from, AlertStatus::New),
            AlertStatus::Resolved => !matches!(from, AlertStatus::Resolved),
        };
        if !allowed {
            return Err(AlertError::InvalidStatus);
        }
        let ghost pre_alerts = self.alerts@;
        let a = &mut self.alerts[i];
        a.status = status;
        proof {
            let post = self.alerts@;
            let updated = post[i as int];
            assert(post == pre_alerts.update(i as int, updated));
            assert(keys_increasing(post, alert_key()) && keys_below(
                post,
                alert_key(),
                self.next_alert_id,
            )) by {
                assert(forall|k: int|
                    0 <= k < post.len() ==> #[trigger] post[k] == if k == i {
                        updated
                    } else {
                        pre_alerts[k]
                    });
            }
            lemma_find_first_at(post, |a: Alert| a.id == alert_id && a.user_id == caller, i as int);
            assert(updated == (Alert { status, ..pre_alerts[i as int] }));
            assert forall|id2: u64, u2: PrincipalId| id2 != alert_id || u2 != caller implies
                find_owned_alert(post, id2, u2) == find_owned_alert(pre_alerts, id2, u2) by {
                lemma_find_first_update_other(
                    pre_alerts,
                    |a: Alert| a.id == id2 && a.user_id == u2,
                    i as int,
                    updated,
                );
            }
        }
        Ok(alert_id)
    }

    /// Scans every account's last day of samples and raises one alert per
    /// breached daily threshold — summed consumption first, then summed
    /// carbon, up to two per account. Returns how many alerts were
    /// raised.
    ///
    /// The only failure is running out of id space: it is reported, with
    /// nothing changed, when the scan could not be guaranteed two ids per
    /// account.
    pub fn generate_alerts(&mut self, now: u64) -> (r: Result<u64, AlertError>)
        requires
            old(self).wf(),
        ensures
            final(self).wf(),
            old(self).accounts_unchanged(*final(self)),
            old(self).trade_book_unchanged(*final(self)),
            old(self).credit_market_unchanged(*final(self)),
            old(self).ledger_unchanged(*final(self)),
            old(self).telemetry_unchanged(*final(self)),
            old(self).allowances_ok() ==> final(self).allowances_ok(),
            r is Err ==> *final(self) == *old(self),
            2 * old(self).users@.len() > u64::MAX - old(self).next_alert_id ==> r == Err::<
                u64,
                AlertError,
            >(AlertError::Overflow),
            2 * old(self).users@.len() <= u64::MAX - old(self).next_alert_id ==> ({
                let entries = scan_entries(
                    old(self).users@,
                    old(self).data_points@,
                    day_cutoff(now),
                );
                &&& r == Ok::<u64, AlertError>(entries.len() as u64)
                &&& final(self).alerts@ == old(self).alerts@ + mk_alerts(
                    entries,
                    old(self).next_alert_id,
                    now,
                )
                &&& final(self).next_alert_id == old(self).next_alert_id + entries.len()
            }),
    {
        let cutoff = if now >= NANOS_PER_DAY {
            now - NANOS_PER_DAY
        } else {
            0
        };
        let users_n = self.users.len();
        if (2 as u128) * (users_n as u128) > ((u64::MAX - self.next_alert_id) as u128) {
            return Err(AlertError::Overflow);
        }
        let ghost base = self.next_alert_id;
        let ghost pre_alerts = self.alerts@;
        let ghost all_users = self.users@;
        let ghost points = self.data_points@;
        let mut count: u64 = 0;
        let mut j: usize = 0;
        proof {
            assert(all_users.take(0) =~= Seq::<Account>::empty());
            assert(pre_alerts + mk_alerts(
                scan_entries(all_users.take(0), points, cutoff),
                base,
                now,
            ) =~= pre_alerts);
        }
        while j < users_n
            invariant
                old(self).wf(),
                users_n == all_users.len(),
                j <= users_n,
                cutoff == day_cutoff(now),
                base == old(self).next_alert_id,
                pre_alerts == old(self).alerts@,
                all_users == old(self).users@,
                points == old(self).data_points@,
                base + 2 * all_users.len() <= u64::MAX,
                self.wf(),
                self.users == old(self).users,
                old(self).trade_book_unchanged(*self),
                old(self).credit_market_unchanged(*self),
                old(self).ledger_unchanged(*self),
                old(self).telemetry_unchanged(*self),
                count == scan_entries(all_users.take(j as int), points, cutoff).len(),
                count <= 2 * j,
                self.next_alert_id == base + count,
                self.alerts@ == pre_alerts + mk_alerts(
                    scan_entries(all_users.take(j as int), points, cutoff),
                    base,
                    now,
                ),
            decreases users_n - j,
        {
            let p = self.users[j].profile.principal;

            // Sum this account's last day of samples.
            let mut consumption: u64 = 0;
            let mut carbon: u64 = 0;
            let points_n = self.data_points.len();
            let mut k: usize = 0;
            proof {
                assert(points.take(0) =~= Seq::<DataPoint>::empty());
            }
            while k < points_n
                invariant
                    points_n == points.len(),
                    k <= points_n,
                    self.data_points@ == points,
                    self.total_energy == total_energy_of(points),
                    self.total_carbon == total_carbon_of(points),
                    consumption == sum_filtered(
                        points.take(k as int),
                        energy_sel(),
                        recent_of(p, cutoff),
                    ),
                    carbon == sum_filtered(points.take(k as int), carbon_sel(), recent_of(p, cutoff)),
                decreases points_n - k,
            {
                proof {
                    assert(points.take(k + 1).drop_last() =~= points.take(k as int));
                    assert(points.take(k + 1).last() == points[k as int]);
                    lemma_sum_filtered_monotone(
                        points.take(k + 1),
                        energy_sel(),
                        recent_of(p, cutoff),
                        every_point(),
                    );
                    lemma_sum_filtered_take_le(points, energy_sel(), every_point(), k + 1);
                    lemma_sum_filtered_nonneg(points.take(k + 1), energy_sel(), recent_of(p, cutoff));
                    lemma_sum_filtered_monotone(
                        points.take(k + 1),
                        carbon_sel(),
                        recent_of(p, cutoff),
                        every_point(),
                    );
                    lemma_sum_filtered_take_le(points, carbon_sel(), every_point(), k + 1);
                    lemma_sum_filtered_nonneg(points.take(k + 1), carbon_sel(), recent_of(p, cutoff));
                }
                let d = &self.data_points[k];
                if d.user_id == p && d.timestamp >= cutoff {
                    consumption = consumption + d.energy_consumption;
                    carbon = carbon + d.carbon_emitted;
                }
                k += 1;
            }
            proof {
                assert(points.take(points_n as int) =~= points);
            }

            // One alert per breached daily threshold.
            let ghost entries_before = scan_entries(all_users.take(j as int), points, cutoff);
            if consumption > DAILY_CONSUMPTION_THRESHOLD {
                match self.create_alert(p, AlertKind::DailyConsumptionExceeded, Severity::Medium, now) {
                    Ok(_) => {},
                    Err(_) => unreached(),
                }
                count = count + 1;
            }
            if carbon > DAILY_EMISSION_THRESHOLD {
                match self.create_alert(p, AlertKind::DailyEmissionExceeded, Severity::High, now) {
                    Ok(_) => {},
                    Err(_) => unreached(),
                }
                count = count + 1;
            }
            proof {
                assert(all_users.take(j + 1).drop_last() =~= all_users.take(j as int));
                assert(all_users.take(j + 1).last() == all_users[j as int]);
                let entries_here = scan_entries_for(points, p, cutoff);
                assert(scan_entries(all_users.take(j + 1), points, cutoff) == entries_before
                    + entries_here);
                assert(self.alerts@ =~= pre_alerts + mk_alerts(
                    entries_before + entries_here,
                    base,
                    now,
                ));
            }
            j += 1;
        }
        proof {
            assert(all_users.take(users_n as int) =~= all_users);
        }
        Ok(count)
    }

    /// Removes the caller's alert `alert_id`; an alert the caller does not
    /// own reads as absent. Returns the removed alert's id.
    pub fn remove_alert(&mut self, caller: PrincipalId, alert_id: u64) -> (r: Result<
        u64,
        AlertError,
    >)
        requires
            old(self).wf(),
        ensures
            final(self).wf(),
            old(self).accounts_unchanged(*final(self)),
            old(self).trade_book_unchanged(*final(self)),
            old(self).credit_market_unchanged(*final(self)),
            old(self).ledger_unchanged(*final(self)),
            old(self).telemetry_unchanged(*final(self)),
            old(self).allowances_ok() ==> final(self).allowances_ok(),
            r is Err ==> *final(self) == *old(self),
            final(self).next_alert_id == old(self).next_alert_id,
            match find_owned_alert(old(self).alerts@, alert_id, caller) {
                None => r == Err::<u64, AlertError>(AlertError::NotFoundOrForbidden),
                Some(a) => {
                    &&& r == Ok::<u64, AlertError>(alert_id)
                    &&& final(self).alerts@.len() == old(self).alerts@.len() - 1
                    &&& exists|i: int|
                        0 <= i < old(self).alerts@.len() && old(self).alerts@[i] == a
                            && final(self).alerts@ == old(self).alerts@.remove(i)
                    &&& find_owned_alert(final(self).alerts@, alert_id, caller) is None
                    &&& forall|id2: u64, u2: PrincipalId|
                        id2 != alert_id ==> find_owned_alert(final(self).alerts@, id2, u2)
                            == find_owned_alert(old(self).alerts@, id2, u2)
                },
            },
    {
        let i = match self.owned_alert_index(alert_id, caller) {
            Some(i) => i,
            None => {
                return Err(AlertError::NotFoundOrForbidden);
            },
        };
        let ghost pre_alerts = self.alerts@;
        proof {
            assert forall|k: int| 0 <= k < pre_alerts.len() && k != i implies (#[trigger] pre_alerts[k]).id
                != alert_id by {
                if k < i {
                    assert(alert_key()(pre_alerts[k]) < alert_key()(pre_alerts[i as int]));
                } else {
                    assert(alert_key()(pre_alerts[i as int]) < alert_key()(pre_alerts[k]));
                }
            }
        }
        self.alerts.remove(i);
        proof {
            let post = self.alerts@;
            pre_alerts.remove_ensures(i as int);
            assert(post == pre_alerts.remove(i as int));
            assert(keys_increasing(post, alert_key())) by {
                assert forall|x: int, y: int| 0 <= x < y < post.len() implies alert_key()(
                    #[trigger] post[x],
                ) < alert_key()(#[trigger] post[y]) by {
                    let px: int = if x < i {
                        x
                    } else {
                        x + 1
                    };
                    let py: int = if y < i {
                        y
                    } else {
                        y + 1
                    };
                    assert(post[x] == pre_alerts[px]);
                    assert(post[y] == pre_alerts[py]);
                }
            }
            assert(keys_below(post, alert_key(), self.next_alert_id)) by {
                assert forall|x: int| 0 <= x < post.len() implies alert_key()(#[trigger] post[x])
                    < self.next_alert_id by {
                    let px: int = if x < i {
                        x
                    } else {
                        x + 1
                    };
                    assert(post[x] == pre_alerts[px]);
                }
            }
            assert forall|k: int| 0 <= k < post.len() implies !((#[trigger] post[k]).id == alert_id
                && post[k].user_id == caller) by {
                let pk: int = if k < i {
                    k
                } else {
                    k + 1
                };
                assert(post[k] == pre_alerts[pk]);
            }
            lemma_find_first_none(post, |a: Alert| a.id == alert_id && a.user_id == caller);
            assert forall|id2: u64, u2: PrincipalId| id2 != alert_id implies find_owned_alert(
                post,
                id2,
                u2,
            ) == find_owned_alert(pre_alerts, id2, u2) by {
                lemma_find_first_remove_other(
                    pre_alerts,
                    |a: Alert| a.id == id2 && a.user_id == u2,
                    i as int,
                );
            }
        }
        Ok(alert_id)
    }
}

} // verus!
