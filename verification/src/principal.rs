//! The caller identity: an opaque, pre-authenticated principal token.
//!
//! The engine never inspects an identity beyond comparing it for equality,
//! so a principal is modelled as a single machine word. One value is
//! reserved for the unauthenticated ("anonymous") caller.

use vstd::prelude::*;

verus! {

/// The raw value reserved for the anonymous, unauthenticated caller.
pub const ANONYMOUS_RAW: u64 = 0;

/// An opaque participant identity, compared only for equality.
///
/// The host maps whatever identity scheme it uses onto distinct raw values;
/// the raw value [`ANONYMOUS_RAW`] stands for the unauthenticated caller.
#[derive(Clone, Copy, Debug, PartialEq, Eq, Structural)]
pub struct PrincipalId {
    pub raw: u64,
}

impl PrincipalId {
    /// True exactly for the reserved anonymous identity.
    pub open spec fn spec_is_anonymous(self) -> bool {
        self.raw == ANONYMOUS_RAW
    }

    /// The reserved anonymous identity.
    pub fn anonymous() -> (r: PrincipalId)
        ensures
            r.spec_is_anonymous(),
    {
        PrincipalId { raw: ANONYMOUS_RAW }
    }

    /// Whether this identity is the reserved anonymous one.
    #[verifier::when_used_as_spec(spec_is_anonymous)]
    pub fn is_anonymous(self) -> (r: bool)
        ensures
            r == self.spec_is_anonymous(),
    {
        self.raw == ANONYMOUS_RAW
    }
}

} // verus!
