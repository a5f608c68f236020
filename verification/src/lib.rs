//! Firmware core for a USB peripheral controller acting as a USB device:
//! a bounded event queue bridging interrupt context and the main loop, a
//! control-transfer state machine driving standard enumeration requests,
//! and a vendor command dispatcher layering a submit / fetch / abort
//! protocol over control transfers to reach a class-based command
//! registry. The hardware peripheral and the registry's verb
//! implementations are external collaborators, specified at their
//! interface boundary.

use vstd::prelude::*;

pub mod setup;
pub mod event;
pub mod driver;
pub mod descriptor;
pub mod control;
pub mod gcp;
pub mod queue;
pub mod firmware;
pub mod sim;
pub mod pac;
pub mod ladybug;

verus! {

/// Capacity in bytes of the receive buffer used for vendor command data.
pub const GCP_MAX_COMMAND_SIZE: usize = 1024;

} // verus!
