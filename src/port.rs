//! Choosing the port the worker binds, once, before the supervisor exists.

use vstd::prelude::*;
use crate::message::SidecarError;

verus! {

/// Relies on `portpicker::pick_unused_port`: it probes local ports and
/// returns one that was free on TCP and UDP when probed, or `None`. Which
/// port comes back depends on the machine, so nothing is promised of it.
pub assume_specification[ portpicker::pick_unused_port ]() -> Option<u16>;

/// The allocator's answer from the outcome of the lookup: the port found,
/// or `NoPortAvailable` when there was none.
pub fn port_from_lookup(found: Option<u16>) -> (r: Result<u16, SidecarError>)
    ensures
        match found {
            Some(p) => r == Ok::<u16, SidecarError>(p),
            None => r == Err::<u16, SidecarError>(SidecarError::NoPortAvailable),
        },
{
    match found {
        Some(p) => Ok(p),
        None => Err(SidecarError::NoPortAvailable),
    }
}

/// Picks an unused local port for the worker; fails with `NoPortAvailable`
/// when none can be found.
pub fn pick_port() -> (r: Result<u16, SidecarError>)
    ensures
        r is Err ==> r == Err::<u16, SidecarError>(SidecarError::NoPortAvailable),
{
    port_from_lookup(portpicker::pick_unused_port())
}

} // verus!
