//! Plain values exchanged with the controller's advertiser interface.

use vstd::prelude::*;

verus! {

/// Physical layer used on an advertising channel.
#[derive(Clone, Copy, Debug, PartialEq, Eq, Structural)]
pub enum LePhy {
    Invalid,
    Phy1m,
    Phy2m,
    PhyCoded,
}

impl LePhy {
    /// The number the controller uses for this physical layer.
    pub open spec fn spec_to_u8(self) -> u8 {
        match self {
            LePhy::Invalid => 0,
            LePhy::Phy1m => 1,
            LePhy::Phy2m => 2,
            LePhy::PhyCoded => 3,
        }
    }

    pub fn to_u8(self) -> (r: u8)
        ensures
            r == self.spec_to_u8(),
    {
        match self {
            LePhy::Invalid => 0,
            LePhy::Phy1m => 1,
            LePhy::Phy2m => 2,
            LePhy::PhyCoded => 3,
        }
    }
}

impl Default for LePhy {
    fn default() -> (r: Self)
        ensures
            r == LePhy::Invalid,
    {
        LePhy::Invalid
    }
}

/// Outcome that the controller reports for an advertising operation.
#[derive(Clone, Copy, Debug, PartialEq, Eq, Structural)]
pub enum AdvertisingStatus {
    Success,
    DataTooLarge,
    TooManyAdvertisers,
    AlreadyStarted,
    InternalError,
    FeatureUnsupported,
}

/// Advertising parameters in the form the controller takes them.
#[derive(Clone, Copy, Debug, PartialEq, Eq, Structural)]
pub struct AdvertiseParameters {
    pub advertising_event_properties: u16,
    pub min_interval: u32,
    pub max_interval: u32,
    pub channel_map: u8,
    pub tx_power: i8,
    pub primary_advertising_phy: u8,
    pub secondary_advertising_phy: u8,
    pub scan_request_notification_enable: u8,
    pub own_address_type: i8,
}

/// Periodic advertising parameters in the form the controller takes them.
#[derive(Clone, Copy, Debug, PartialEq, Eq, Structural)]
pub struct PeriodicAdvertisingParameters {
    pub enable: bool,
    pub include_adi: bool,
    pub min_interval: u16,
    pub max_interval: u16,
    pub periodic_advertising_properties: u16,
}

impl Default for PeriodicAdvertisingParameters {
    fn default() -> (r: Self)
        ensures
            r == (PeriodicAdvertisingParameters {
                enable: false,
                include_adi: false,
                min_interval: 0,
                max_interval: 0,
                periodic_advertising_properties: 0,
            }),
    {
        PeriodicAdvertisingParameters {
            enable: false,
            include_adi: false,
            min_interval: 0,
            max_interval: 0,
            periodic_advertising_properties: 0,
        }
    }
}

/// A Bluetooth device address, first byte first.
#[derive(Clone, Copy, Debug, PartialEq, Eq, Hash)]
pub struct RawAddress {
    pub address: [u8; 6],
}

} // verus!
