//! Control and data-encoding layer for Bluetooth LE advertising sets.
//!
//! The crate holds the advertising-data encoder, the per-set record, and the
//! manager that owns the records and drives the suspend protocol. The manager
//! never talks to the controller or to a client itself: every command and
//! every notification it decides on is queued as an [`actions::Action`]
//! for the caller to carry out.

pub mod deps;
pub mod gatt;
pub mod uuid;
pub mod adv_params;
pub mod adv_data;
pub mod adv_data_laws;
pub mod adv_set;
pub mod seq_lemmas;
pub mod actions;
pub mod le_audio;
pub mod csis;
pub mod vc;
pub mod syslog;
pub mod sysprop;
pub mod logging;
pub mod adv_model;
pub mod adv_manager;
pub mod adv_model_laws;
pub mod adv_invariant;

use vstd::prelude::*;

verus! {

/// Where the manager stands in the suspend protocol.
#[derive(Clone, Copy, Debug, PartialEq, Eq, Structural)]
pub enum SuspendMode {
    Normal,
    Suspending,
    Suspended,
}

} // verus!
