//! Closed error enumerations, one per engine component.
//!
//! Every operation rejects its input with one of these typed values before
//! any state change; no operation partially commits. Arithmetic that would
//! wrap a balance or exhaust an id counter surfaces as the `Overflow`
//! variant of the component's enumeration.

use vstd::prelude::*;

verus! {

/// Errors of the account store.
#[derive(Clone, Copy, Debug, PartialEq, Eq, Structural)]
pub enum AccountError {
    /// The anonymous identity may not register.
    AnonymousCaller,
    /// The identity already has an account.
    AlreadyRegistered,
    /// The identity has no account.
    NotFound,
    /// The recorded emission would exceed the account's carbon allowance.
    AllowanceExceeded,
    /// A balance update would exceed the machine word.
    Overflow,
}

/// Errors of the peer-to-peer allowance trade book.
#[derive(Clone, Copy, Debug, PartialEq, Eq, Structural)]
pub enum TradeError {
    /// The offered or requested amount is zero.
    ZeroAmount,
    /// The offered price per unit is zero.
    ZeroPrice,
    /// The seller has no account.
    SellerNotRegistered,
    /// The buyer has no account.
    BuyerNotRegistered,
    /// The offered amount exceeds the seller's available allowance.
    InsufficientAllowance { available: u64 },
    /// No open offer carries the given id.
    OfferNotFound,
    /// The buyer of an offer may not be its seller.
    SelfTrade,
    /// The requested amount exceeds what the offer still holds.
    ExceedsOfferAmount { available: u64 },
    /// The buyer holds fewer tokens than the total cost.
    InsufficientFunds { required: u64, available: u64 },
    /// A cost, balance or id computation would exceed the machine word.
    Overflow,
}

/// Errors of the certified carbon-credit marketplace.
#[derive(Clone, Copy, Debug, PartialEq, Eq, Structural)]
pub enum CreditError {
    /// The anonymous identity may not list credits.
    AnonymousCaller,
    /// The listed or requested amount is zero.
    InvalidAmount,
    /// The listed price per unit is zero.
    InvalidPrice,
    /// The credit type is not one of the accepted categories.
    InvalidCreditType,
    /// The certification is not one of the accepted bodies.
    InvalidCertification,
    /// The listed amount exceeds the seller's available allowance.
    InsufficientAllowance { available: u64 },
    /// No active credit carries the given id.
    NotFoundOrInactive,
    /// The buyer of a credit may not be its seller.
    SelfPurchase,
    /// The requested amount exceeds what the credit still holds.
    ExceedsAvailable { available: u64 },
    /// An id computation would exceed the machine word.
    Overflow,
}

/// Errors of the telemetry store.
#[derive(Clone, Copy, Debug, PartialEq, Eq, Structural)]
pub enum TelemetryError {
    /// A sample value is negative.
    NegativeValue,
    /// The identity has no account.
    NotFound,
    /// A balance, total or id computation would exceed the machine word.
    Overflow,
}

/// Errors of the alert engine.
#[derive(Clone, Copy, Debug, PartialEq, Eq, Structural)]
pub enum AlertError {
    /// The requested status is not reachable for the alert: only
    /// `new -> read`, `new -> resolved` and `read -> resolved` are allowed.
    InvalidStatus,
    /// No alert carries the given id, or the alert belongs to another user.
    NotFoundOrForbidden,
    /// An id computation would exceed the machine word.
    Overflow,
}

} // verus!
