//! Verified core of a mod-install pipeline: given a mod-version descriptor
//! (an ordered list of remote files) and a destination, the orchestrator
//! decides, file by file, what to create, what to emit and when to abort,
//! and produces the durable record of what was installed. All I/O (HTTP
//! streaming, file writes, event delivery) is performed by an unverified
//! shell that drives these state machines.

use vstd::prelude::*;

pub mod data;
pub mod events;
pub mod install;
pub mod outcome;
pub mod transfer;

verus! {

/// The fixed identifying client-agent string sent with every fetch.
pub fn user_agent() -> (r: &'static str)
    ensures
        r@ == "mc-mod-manager/v1.0-alpha"@,
{
    "mc-mod-manager/v1.0-alpha"
}

} // verus!
