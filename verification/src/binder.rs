//! Interface binding decisions.
//!
//! Before each connection attempt the fresh socket must be bound: either to
//! the wildcard local address of the target's family, or — when the operator
//! named a local interface — pinned to that interface with a platform socket
//! option.  The socket calls themselves happen outside the library; here the
//! plan is chosen and the raw results of those calls are interpreted, and the
//! contracts rule out the one silent failure the tool must never have: a
//! named interface quietly degrading to default routing.

use vstd::prelude::*;
use crate::resolve::AddressFamily;

verus! {

/// The interface-pinning convention a platform offers.
#[derive(Clone, Copy, PartialEq, Eq, Structural, Debug)]
pub enum PinningStyle {
    /// The interface name is first turned into an index and the index is set
    /// as a socket option.
    ByIndex,
    /// The interface name bytes themselves are set as a socket option.
    ByName,
    /// The platform offers neither convention.
    Unavailable,
}

/// What to do to a freshly created, not yet connected socket.
#[derive(Clone, PartialEq, Eq, Debug)]
pub enum BindPlan {
    /// Bind to `0.0.0.0:0`: the OS picks routing and local port.
    WildcardV4,
    /// Bind to `[::]:0`: the OS picks routing and local port.
    WildcardV6,
    /// Look the name up as an interface index, then pin the socket to it.
    PinToIndex(Vec<u8>),
    /// Pin the socket with the raw interface name bytes.
    PinToName(Vec<u8>),
}

/// How a bind step ended.
#[derive(Clone, PartialEq, Eq, Debug)]
pub enum BindOutcome {
    /// The interface lookup or a socket call failed; the OS error code is kept.
    BindError(i32),
    /// An interface was requested on a platform with no pinning convention.
    UnsupportedPlatform,
}

impl BindPlan {
    /// True when the plan pins the socket to a named interface.
    pub open spec fn pins_interface(self) -> bool {
        match self {
            BindPlan::PinToIndex(_) => true,
            BindPlan::PinToName(_) => true,
            _ => false,
        }
    }
}

/// Chooses the bind step for one attempt.
///
/// With no interface named, the plan is the wildcard bind for the target's
/// address family.  With an interface named, the plan always pins to it using
/// the platform's convention — never a wildcard bind — and when the platform
/// has no convention the request is refused rather than ignored.
pub fn plan_bind(iface: Option<&Vec<u8>>, family: AddressFamily, style: PinningStyle) -> (r: Result<
    BindPlan,
    BindOutcome,
>)
    ensures
        iface is None ==> r == Ok::<BindPlan, BindOutcome>(
            if family is V4 {
                BindPlan::WildcardV4
            } else {
                BindPlan::WildcardV6
            },
        ),
        iface matches Some(name) ==> match style {
            PinningStyle::ByIndex => r matches Ok(p) && p matches BindPlan::PinToIndex(n) && n@
                == name@,
            PinningStyle::ByName => r matches Ok(p) && p matches BindPlan::PinToName(n) && n@
                == name@,
            PinningStyle::Unavailable => r == Err::<BindPlan, BindOutcome>(
                BindOutcome::UnsupportedPlatform,
            ),
        },
        iface is Some ==> (r matches Ok(p) ==> p.pins_interface()),
{
    match iface {
        None => match family {
            AddressFamily::V4 => Ok(BindPlan::WildcardV4),
            AddressFamily::V6 => Ok(BindPlan::WildcardV6),
        },
        Some(name) => match style {
            PinningStyle::ByIndex => Ok(BindPlan::PinToIndex(name.clone())),
            PinningStyle::ByName => Ok(BindPlan::PinToName(name.clone())),
            PinningStyle::Unavailable => Err(BindOutcome::UnsupportedPlatform),
        },
    }
}

/// Interprets the result of turning an interface name into an index.
///
/// The lookup call reports an unknown name by returning index zero; that is a
/// bind failure carrying the OS error observed at that moment, never a
/// success.
pub fn interpret_index_lookup(index: u32, os_error: i32) -> (r: Result<u32, BindOutcome>)
    ensures
        index == 0 ==> r == Err::<u32, BindOutcome>(BindOutcome::BindError(os_error)),
        index != 0 ==> r == Ok::<u32, BindOutcome>(index),
{
    if index == 0 {
        Err(BindOutcome::BindError(os_error))
    } else {
        Ok(index)
    }
}

/// Interprets the integer a socket-option or bind call returned.
///
/// The convention is the C one: `-1` means failure, anything else success.
pub fn interpret_socket_call(ret: i32, os_error: i32) -> (r: Result<(), BindOutcome>)
    ensures
        ret == -1 ==> r == Err::<(), BindOutcome>(BindOutcome::BindError(os_error)),
        ret != -1 ==> r == Ok::<(), BindOutcome>(()),
{
    if ret == -1 {
        Err(BindOutcome::BindError(os_error))
    } else {
        Ok(())
    }
}

} // verus!
