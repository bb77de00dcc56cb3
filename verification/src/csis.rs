//! Values of the Coordinated Set Identification profile as they cross the
//! boundary to the Bluetooth stack.

use vstd::prelude::*;
use crate::gatt::RawAddress;
use crate::uuid::Uuid;

verus! {

/// Connection state of a coordinated set member.
#[derive(Debug, Copy, Clone, PartialEq, Eq, Structural)]
pub enum BtCsisConnectionState {
    Disconnected,
    Connecting,
    Connected,
    Disconnecting,
}

/// Outcome of locking or unlocking a coordinated set.
#[derive(Debug, Copy, Clone, PartialEq, Eq, Structural)]
pub enum BtCsisGroupLockStatus {
    Success,
    FailedInvalidGroup,
    FailedGroupEmpty,
    FailedGroupNotConnected,
    FailedLockedByOther,
    FailedOtherReason,
    LockedGroupMemberLost,
}

/// What the coordinated set client reports.
#[derive(Debug, Clone)]
pub enum CsisClientCallbacks {
    ConnectionState(RawAddress, BtCsisConnectionState),
    DeviceAvailable(RawAddress, i32, i32, i32, Uuid),
    SetMemberAvailable(RawAddress, i32),
    GroupLockChanged(i32, bool, BtCsisGroupLockStatus),
}

} // verus!
