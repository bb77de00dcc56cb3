//! Values of the Volume Control profile as they cross the boundary to the
//! Bluetooth stack.

use vstd::prelude::*;
use crate::gatt::RawAddress;

verus! {

/// Connection state of a volume control device.
#[derive(Debug, Copy, Clone, PartialEq, Eq, Structural)]
pub enum BtVcConnectionState {
    Disconnected,
    Connecting,
    Connected,
    Disconnecting,
}

/// What the volume control client reports.
#[derive(Debug, Clone)]
pub enum VolumeControlCallbacks {
    ConnectionState(BtVcConnectionState, RawAddress),
    VolumeState(RawAddress, u8, bool, bool),
    GroupVolumeState(i32, u8, bool, bool),
    DeviceAvailable(RawAddress, u8),
    ExtAudioOutVolume(RawAddress, u8, i16),
    ExtAudioOutLocation(RawAddress, u8, u32),
    ExtAudioOutDescription(RawAddress, u8, String),
}

} // verus!
