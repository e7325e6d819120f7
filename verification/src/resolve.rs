//! Target resolution decisions.
//!
//! The tool probes one concrete address for its whole run.  A host argument
//! that is an IP literal is that address directly — the name resolver is
//! never consulted for it.  Any other host goes to the name resolver, and of
//! whatever candidates come back exactly one is kept: the first, or the first
//! of the requested family when the run is pinned to one family.  The lookup
//! itself is I/O and happens outside the library; the classification before
//! it and the selection after it are verified here.

use vstd::prelude::*;
use crate::ip::IpAddress;
use crate::ip::spec_parse_ip;
use crate::ip::parse_ip;

verus! {

/// The address family of a concrete address.
#[derive(Clone, Copy, PartialEq, Eq, Structural, Debug)]
pub enum AddressFamily {
    V4,
    V6,
}

/// The one concrete address a probe run uses: an IP address and a port.
#[derive(Clone, Copy, PartialEq, Eq, Structural, Debug)]
pub struct ResolvedTarget {
    pub ip: IpAddress,
    pub port: u16,
}

impl ResolvedTarget {
    /// The family the target's sockets must be created with.
    pub open spec fn spec_family(self) -> AddressFamily {
        match self.ip {
            IpAddress::V4(_) => AddressFamily::V4,
            IpAddress::V6(_) => AddressFamily::V6,
        }
    }

    /// Returns the family the target's sockets must be created with.
    pub fn family(&self) -> (r: AddressFamily)
        ensures
            r == self.spec_family(),
    {
        match self.ip {
            IpAddress::V4(_) => AddressFamily::V4,
            IpAddress::V6(_) => AddressFamily::V6,
        }
    }
}

/// How the target address is to be obtained.
#[derive(Clone, Copy, PartialEq, Eq, Structural, Debug)]
pub enum ResolutionPlan {
    /// The host was an IP literal: this is the target, no lookup happens.
    Literal(ResolvedTarget),
    /// The host must go to the name resolver.
    Lookup,
}

/// The host cannot be turned into a usable address; the run must not start.
#[derive(Clone, Copy, PartialEq, Eq, Structural, Debug)]
pub enum ResolutionError {
    /// The name resolver returned no candidate (or none of the wanted family).
    NoAddressFound,
    /// The name resolver itself failed; the OS error code is kept.
    LookupFailed(i32),
}

/// Classifies the host argument.
///
/// Exactly the hosts that are IP literals become `Literal`, carrying the
/// literal's value with the given port; every other host is sent to lookup.
pub fn plan_resolution(host: &[u8], port: u16) -> (r: ResolutionPlan)
    ensures
        match spec_parse_ip(host@) {
            Some(ip) => r == ResolutionPlan::Literal(ResolvedTarget { ip, port }),
            None => r == ResolutionPlan::Lookup,
        },
{
    match parse_ip(host) {
        Some(ip) => ResolutionPlan::Literal(ResolvedTarget { ip, port }),
        None => ResolutionPlan::Lookup,
    }
}

/// True when the candidate passes the family filter.
pub open spec fn family_matches(t: ResolvedTarget, filter: Option<AddressFamily>) -> bool {
    match filter {
        None => true,
        Some(f) => t.spec_family() == f,
    }
}

/// Picks the run's target from the name resolver's candidates.
///
/// The first candidate that passes the family filter is taken — candidates
/// are never probed or reordered — and when none passes, the run fails with
/// a resolution error.
pub fn select_candidate(candidates: &Vec<ResolvedTarget>, filter: Option<AddressFamily>) -> (r:
    Result<ResolvedTarget, ResolutionError>)
    ensures
        match r {
            Ok(t) => exists|i: int|
                0 <= i < candidates@.len() && candidates@[i] == t && family_matches(t, filter)
                    && (forall|j: int|
                    0 <= j < i ==> !family_matches(#[trigger] candidates@[j], filter)),
            Err(e) => e == ResolutionError::NoAddressFound && forall|i: int|
                0 <= i < candidates@.len() ==> !family_matches(#[trigger] candidates@[i], filter),
        },
{
    let mut i: usize = 0;
    while i < candidates.len()
        invariant
            i <= candidates@.len(),
            forall|j: int| 0 <= j < i ==> !family_matches(#[trigger] candidates@[j], filter),
        decreases candidates@.len() - i,
    {
        let c = candidates[i];
        let passes = match filter {
            None => true,
            Some(f) => {
                let fam = c.family();
                fam == f
            },
        };
        if passes {
            return Ok(c);
        }
        i += 1;
    }
    Err(ResolutionError::NoAddressFound)
}

} // verus!
