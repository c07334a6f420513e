//! The records the engine stores and returns.
//!
//! Amounts, prices and sample values are whole numbers of units. Timestamps
//! are nanoseconds since an epoch chosen by the host; a calendar day for the
//! efficiency metrics is the timestamp divided by [`NANOS_PER_DAY`].

use vstd::prelude::*;
use vstd::string::StringExecFns;

use crate::principal::PrincipalId;

verus! {

/// Carbon allowance granted to every newly registered account.
pub const DEFAULT_CARBON_ALLOWANCE: u64 = 1000;

/// Token grant credited to every newly registered account.
pub const STARTING_TOKENS: u64 = 100;

/// The commission on a settled allowance trade is one twentieth (5%) of the
/// total cost, rounded down; dividing by this constant computes it.
pub const COMMISSION_DIVISOR: u64 = 20;

/// Nanoseconds in one calendar day.
pub const NANOS_PER_DAY: u64 = 24 * 60 * 60 * 1_000_000_000;

/// Per-sample energy threshold (exclusive) above which a data point raises
/// an alert.
pub const ENERGY_HIGH_THRESHOLD: u64 = 1000;

/// Per-sample carbon threshold (exclusive) above which a data point raises
/// an alert.
pub const CARBON_HIGH_THRESHOLD: u64 = 100;

/// Daily summed-consumption threshold (exclusive) of the bulk alert scan.
pub const DAILY_CONSUMPTION_THRESHOLD: u64 = 50;

/// Daily summed-emission threshold (exclusive) of the bulk alert scan.
pub const DAILY_EMISSION_THRESHOLD: u64 = 5;

/// One participant's balances and profile metadata.
#[derive(Debug, PartialEq)]
pub struct UserProfile {
    pub principal: PrincipalId,
    /// Total permitted cumulative emission units.
    pub carbon_allowance: u64,
    /// Cumulative emission units recorded so far.
    pub carbon_emitted: u64,
    /// Fungible token balance.
    pub tokens: u64,
    pub has_subcontract: bool,
    pub username: Option<String>,
    pub email: Option<String>,
    pub full_name: Option<String>,
    pub location: Option<String>,
    pub join_date: u64,
    pub last_activity: u64,
}

impl UserProfile {
    /// Unused allowance: what the account may still emit or offer for
    /// sale, clamped at zero should the cumulative emission ever stand
    /// above the allowance.
    pub open spec fn spec_available(self) -> u64 {
        if self.carbon_emitted > self.carbon_allowance {
            0
        } else {
            (self.carbon_allowance - self.carbon_emitted) as u64
        }
    }
}

/// A partial profile update: each present field overwrites the matching
/// profile attribute, absent fields leave it untouched.
#[derive(Clone, Debug, PartialEq)]
pub struct ProfileUpdate {
    pub username: Option<String>,
    pub email: Option<String>,
    pub full_name: Option<String>,
    pub location: Option<String>,
}

/// An open peer-to-peer offer of unused allowance.
#[derive(Clone, Copy, Debug, PartialEq, Eq, Structural)]
pub struct TradeOffer {
    pub id: u64,
    pub seller: PrincipalId,
    /// Units of allowance still offered; positive for every open offer.
    pub amount: u64,
    /// Tokens asked per unit.
    pub price_per_unit: u64,
}

/// Category of a certified carbon credit.
#[derive(Clone, Copy, Debug, PartialEq, Eq, Structural)]
pub enum CreditType {
    Renewable,
    Forestry,
    Methane,
    Efficiency,
}

/// Certification body of a carbon credit.
#[derive(Clone, Copy, Debug, PartialEq, Eq, Structural)]
pub enum Certification {
    Gold,
    Verra,
    American,
    Climate,
}

/// A certified carbon-credit listing on the secondary marketplace.
///
/// A fully purchased credit is deactivated, never removed, so the ledger's
/// back-references stay resolvable; its last amount is left in place.
#[derive(Debug, PartialEq)]
pub struct CarbonCredit {
    pub id: u64,
    pub seller: PrincipalId,
    /// Units still listed; positive.
    pub amount: u64,
    /// Tokens asked per unit; positive.
    pub price_per_unit: u64,
    pub credit_type: CreditType,
    pub certification: Certification,
    pub project_name: String,
    pub vintage_year: u32,
    pub description: String,
    pub creation_time: u64,
    pub is_active: bool,
}

/// Direction of a ledger entry from the recording side's point of view.
#[derive(Clone, Copy, Debug, PartialEq, Eq, Structural)]
pub enum TxKind {
    Purchase,
    Sale,
}

/// An immutable record of a completed credit purchase.
#[derive(Debug, PartialEq)]
pub struct Transaction {
    pub id: u64,
    pub buyer: PrincipalId,
    pub seller: PrincipalId,
    pub credit_id: u64,
    pub amount: u64,
    pub price_per_unit: u64,
    pub project_name: String,
    pub transaction_type: TxKind,
    pub transaction_time: u64,
}

/// An immutable telemetry sample.
#[derive(Debug, PartialEq)]
pub struct DataPoint {
    pub id: u64,
    pub user_id: PrincipalId,
    pub device_id: String,
    pub energy_consumption: u64,
    pub carbon_emitted: u64,
    pub timestamp: u64,
}

/// One entry of an account's emission time series: the units recorded by a
/// single sample.
#[derive(Clone, Copy, Debug, PartialEq, Eq, Structural)]
pub struct EmissionHistoryPoint {
    pub timestamp: u64,
    pub amount: u64,
}

/// One entry of an account's token-balance time series: the balance after a
/// change.
#[derive(Clone, Copy, Debug, PartialEq, Eq, Structural)]
pub struct TokenBalancePoint {
    pub timestamp: u64,
    pub balance: u64,
}

/// Daily aggregate of one account's samples with its efficiency score.
#[derive(Clone, Copy, Debug, PartialEq, Eq, Structural)]
pub struct EfficiencyMetric {
    /// Calendar day: timestamp divided by [`NANOS_PER_DAY`].
    pub day: u64,
    pub consumption: u64,
    pub carbon_emitted: u64,
    /// `100 * (1 - min(carbon / consumption, 1))` in whole points, rounded
    /// down; zero when the day's consumption is zero.
    pub efficiency_score: u64,
}

/// Severity of an alert.
#[derive(Clone, Copy, Debug, PartialEq, Eq, Structural)]
pub enum Severity {
    Low,
    Medium,
    High,
}

/// What an alert reports.
#[derive(Clone, Copy, Debug, PartialEq, Eq, Structural)]
pub enum AlertKind {
    /// A single sample crossed both the energy and the carbon threshold.
    HighConsumptionAndEmission,
    /// A single sample crossed the energy threshold.
    HighConsumption,
    /// A single sample crossed the carbon threshold.
    HighEmission,
    /// A day's summed consumption crossed the daily threshold.
    DailyConsumptionExceeded,
    /// A day's summed emission crossed the daily threshold.
    DailyEmissionExceeded,
}

/// The wording of each alert kind.
pub open spec fn spec_message(kind: AlertKind) -> Seq<char> {
    match kind {
        AlertKind::HighConsumptionAndEmission => "Critical: high energy consumption and high carbon emission"@,
        AlertKind::HighConsumption => "Warning: high energy consumption"@,
        AlertKind::HighEmission => "Warning: high carbon emission"@,
        AlertKind::DailyConsumptionExceeded => "Daily energy consumption exceeds the recommended threshold"@,
        AlertKind::DailyEmissionExceeded => "Daily carbon emission exceeds the recommended threshold"@,
    }
}

impl AlertKind {
    /// The human-readable message an alert of this kind carries.
    pub fn message_text(&self) -> (r: String)
        ensures
            r@ == spec_message(*self),
    {
        match self {
            AlertKind::HighConsumptionAndEmission => String::from_str(
                "Critical: high energy consumption and high carbon emission",
            ),
            AlertKind::HighConsumption => String::from_str("Warning: high energy consumption"),
            AlertKind::HighEmission => String::from_str("Warning: high carbon emission"),
            AlertKind::DailyConsumptionExceeded => String::from_str(
                "Daily energy consumption exceeds the recommended threshold",
            ),
            AlertKind::DailyEmissionExceeded => String::from_str(
                "Daily carbon emission exceeds the recommended threshold",
            ),
        }
    }
}

/// Lifecycle state of an alert: `New -> Read`, `New -> Resolved`,
/// `Read -> Resolved`; `Resolved` is terminal.
#[derive(Clone, Copy, Debug, PartialEq, Eq, Structural)]
pub enum AlertStatus {
    New,
    Read,
    Resolved,
}

/// A threshold alert owned by one user.
#[derive(Clone, Copy, Debug, PartialEq, Eq, Structural)]
pub struct Alert {
    pub id: u64,
    pub user_id: PrincipalId,
    pub kind: AlertKind,
    pub timestamp: u64,
    pub severity: Severity,
    pub status: AlertStatus,
}

/// One account: the profile plus its two per-account time series.
#[derive(Debug, PartialEq)]
pub struct Account {
    pub profile: UserProfile,
    pub emission_history: Vec<EmissionHistoryPoint>,
    pub token_history: Vec<TokenBalancePoint>,
}

/// A copy of an optional string, equal to the original.
pub(crate) fn clone_opt_string(s: &Option<String>) -> (r: Option<String>)
    ensures
        r == *s,
{
    match s {
        Some(v) => Some(v.clone()),
        None => None,
    }
}

impl Clone for UserProfile {
    fn clone(&self) -> (r: Self)
        ensures
            r == *self,
    {
        UserProfile {
            principal: self.principal,
            carbon_allowance: self.carbon_allowance,
            carbon_emitted: self.carbon_emitted,
            tokens: self.tokens,
            has_subcontract: self.has_subcontract,
            username: clone_opt_string(&self.username),
            email: clone_opt_string(&self.email),
            full_name: clone_opt_string(&self.full_name),
            location: clone_opt_string(&self.location),
            join_date: self.join_date,
            last_activity: self.last_activity,
        }
    }
}

impl Clone for CarbonCredit {
    fn clone(&self) -> (r: Self)
        ensures
            r == *self,
    {
        CarbonCredit {
            id: self.id,
            seller: self.seller,
            amount: self.amount,
            price_per_unit: self.price_per_unit,
            credit_type: self.credit_type,
            certification: self.certification,
            project_name: self.project_name.clone(),
            vintage_year: self.vintage_year,
            description: self.description.clone(),
            creation_time: self.creation_time,
            is_active: self.is_active,
        }
    }
}

impl Clone for Transaction {
    fn clone(&self) -> (r: Self)
        ensures
            r == *self,
    {
        Transaction {
            id: self.id,
            buyer: self.buyer,
            seller: self.seller,
            credit_id: self.credit_id,
            amount: self.amount,
            price_per_unit: self.price_per_unit,
            project_name: self.project_name.clone(),
            transaction_type: self.transaction_type,
            transaction_time: self.transaction_time,
        }
    }
}

impl Clone for DataPoint {
    fn clone(&self) -> (r: Self)
        ensures
            r == *self,
    {
        DataPoint {
            id: self.id,
            user_id: self.user_id,
            device_id: self.device_id.clone(),
            energy_consumption: self.energy_consumption,
            carbon_emitted: self.carbon_emitted,
            timestamp: self.timestamp,
        }
    }
}

/// A copy of a vector of plain values, with the same view.
pub(crate) fn clone_points<T: Copy>(v: &Vec<T>) -> (r: Vec<T>)
    ensures
        r@ == v@,
{
    let mut r: Vec<T> = Vec::new();
    let n = v.len();
    let mut i: usize = 0;
    while i < n
        invariant
            n == v@.len(),
            i <= n,
            r@ == v@.take(i as int),
        decreases n - i,
    {
        r.push(v[i]);
        proof {
            assert(r@ =~= v@.take(i + 1));
        }
        i += 1;
    }
    proof {
        assert(r@ =~= v@);
    }
    r
}

impl Clone for Account {
    fn clone(&self) -> (r: Self)
        ensures
            r.profile == self.profile,
            r.emission_history@ == self.emission_history@,
            r.token_history@ == self.token_history@,
    {
        Account {
            profile: self.profile.clone(),
            emission_history: clone_points(&self.emission_history),
            token_history: clone_points(&self.token_history),
        }
    }
}

} // verus!
