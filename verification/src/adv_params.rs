//! Parameters of an advertising set as clients give them, and their
//! conversion into the form the controller takes.

use vstd::prelude::*;
use num_traits::clamp;
use crate::gatt::LePhy;
use crate::gatt::AdvertiseParameters;

verus! {

/// Largest advertising interval, in 0.625 ms units.
pub const INTERVAL_MAX: i32 = 0xff_ffff;

/// Smallest advertising interval, in 0.625 ms units.
pub const INTERVAL_MIN: i32 = 160;

/// Gap between the minimum and the maximum interval handed to the controller.
pub const INTERVAL_DELTA: i32 = 50;

/// Largest periodic advertising interval, in 1.25 ms units.
pub const PERIODIC_INTERVAL_MAX: i32 = 65519;

/// Smallest periodic advertising interval, in 1.25 ms units.
pub const PERIODIC_INTERVAL_MIN: i32 = 80;

/// Gap between the minimum and the maximum periodic interval handed to the controller.
pub const PERIODIC_INTERVAL_DELTA: i32 = 16;

/// Advertising parameters for each BLE advertising set.
#[derive(Debug, Clone, Copy)]
pub struct AdvertisingSetParameters {
    /// Whether the advertisement will be connectable.
    pub connectable: bool,
    /// Whether the advertisement will be scannable.
    pub scannable: bool,
    /// Whether the legacy advertisement will be used.
    pub is_legacy: bool,
    /// Whether the advertisement will be anonymous.
    pub is_anonymous: bool,
    /// Whether the TX Power will be included.
    pub include_tx_power: bool,
    /// Primary advertising phy.
    pub primary_phy: LePhy,
    /// Secondary advertising phy.
    pub secondary_phy: LePhy,
    /// The advertising interval, in 0.625 ms units.
    pub interval: i32,
    /// Transmission power, in dBm.
    pub tx_power_level: i32,
    /// Own address type: -1 (default), 0 (public), 1 (random).
    pub own_address_type: i32,
}

impl Default for AdvertisingSetParameters {
    fn default() -> (r: Self)
        ensures
            r == (AdvertisingSetParameters {
                connectable: false,
                scannable: false,
                is_legacy: false,
                is_anonymous: false,
                include_tx_power: false,
                primary_phy: LePhy::Invalid,
                secondary_phy: LePhy::Invalid,
                interval: 0,
                tx_power_level: 0,
                own_address_type: 0,
            }),
    {
        AdvertisingSetParameters {
            connectable: false,
            scannable: false,
            is_legacy: false,
            is_anonymous: false,
            include_tx_power: false,
            primary_phy: LePhy::Invalid,
            secondary_phy: LePhy::Invalid,
            interval: 0,
            tx_power_level: 0,
            own_address_type: 0,
        }
    }
}

/// `value` brought into the range from `min` to `max`.
pub open spec fn clamped(value: int, min: int, max: int) -> int {
    if value < min {
        min
    } else if value > max {
        max
    } else {
        value
    }
}

/// `mask` when `on` holds, no bit otherwise.
pub open spec fn flag(on: bool, mask: u16) -> u16 {
    if on {
        mask
    } else {
        0
    }
}

/// The advertising event properties: connectable is bit 0, scannable bit 1,
/// legacy bit 4, anonymous bit 5, TX power inclusion bit 6.
pub open spec fn event_properties(p: AdvertisingSetParameters) -> u16 {
    flag(p.connectable, 0x01) | flag(p.scannable, 0x02) | flag(p.is_legacy, 0x10) | flag(
        p.is_anonymous,
        0x20,
    ) | flag(p.include_tx_power, 0x40)
}

/// What the controller is given for a client's advertising parameters: the
/// interval is brought into its valid range and widened by the fixed gap, all
/// three channels are used, scan request notifications are off.
pub open spec fn controller_parameters(p: AdvertisingSetParameters) -> AdvertiseParameters {
    let interval = clamped(p.interval as int, INTERVAL_MIN as int, INTERVAL_MAX - INTERVAL_DELTA);
    AdvertiseParameters {
        advertising_event_properties: event_properties(p),
        min_interval: interval as u32,
        max_interval: (interval + INTERVAL_DELTA) as u32,
        channel_map: 0x07,
        tx_power: p.tx_power_level as i8,
        primary_advertising_phy: p.primary_phy.spec_to_u8(),
        secondary_advertising_phy: p.secondary_phy.spec_to_u8(),
        scan_request_notification_enable: 0,
        own_address_type: p.own_address_type as i8,
    }
}

impl From<AdvertisingSetParameters> for AdvertiseParameters {
    fn from(p: AdvertisingSetParameters) -> (r: AdvertiseParameters) {
        let mut props: u16 = 0;
        if p.connectable {
            props |= 0x01;
        }
        if p.scannable {
            props |= 0x02;
        }
        if p.is_legacy {
            props |= 0x10;
        }
        if p.is_anonymous {
            props |= 0x20;
        }
        if p.include_tx_power {
            props |= 0x40;
        }
        proof {
            let a = flag(p.connectable, 0x01);
            let b = flag(p.scannable, 0x02);
            let c = flag(p.is_legacy, 0x10);
            let d = flag(p.is_anonymous, 0x20);
            let e = flag(p.include_tx_power, 0x40);
            assert(0u16 | a == a) by (bit_vector);
            assert(a | 0u16 == a) by (bit_vector);
            assert((a | b) | 0u16 == a | b) by (bit_vector);
            assert(((a | b) | c) | 0u16 == (a | b) | c) by (bit_vector);
            assert((((a | b) | c) | d) | 0u16 == ((a | b) | c) | d) by (bit_vector);
        }

        let interval: i32 = clamp(p.interval, INTERVAL_MIN, INTERVAL_MAX - INTERVAL_DELTA);

        AdvertiseParameters {
            advertising_event_properties: props,
            min_interval: interval as u32,
            max_interval: (interval + INTERVAL_DELTA) as u32,
            channel_map: 0x07,
            tx_power: #[verifier::truncate] (p.tx_power_level as i8),
            primary_advertising_phy: p.primary_phy.to_u8(),
            secondary_advertising_phy: p.secondary_phy.to_u8(),
            scan_request_notification_enable: 0,
            own_address_type: #[verifier::truncate] (p.own_address_type as i8),
        }
    }
}

impl vstd::std_specs::convert::FromSpecImpl<AdvertisingSetParameters> for AdvertiseParameters {
    open spec fn obeys_from_spec() -> bool {
        true
    }

    open spec fn from_spec(p: AdvertisingSetParameters) -> AdvertiseParameters {
        controller_parameters(p)
    }
}

/// Parameters of the periodic advertising packet for BLE advertising set.
#[derive(Debug, Clone, Copy)]
pub struct PeriodicAdvertisingParameters {
    /// Whether TX Power level will be included.
    pub include_tx_power: bool,
    /// Periodic advertising interval in 1.25 ms units.
    pub interval: i32,
}

impl Default for PeriodicAdvertisingParameters {
    fn default() -> (r: Self)
        ensures
            r == (PeriodicAdvertisingParameters { include_tx_power: false, interval: 0 }),
    {
        PeriodicAdvertisingParameters { include_tx_power: false, interval: 0 }
    }
}

/// What the controller is given for a client's periodic parameters: periodic
/// advertising is switched on, the interval is brought into its valid range
/// and widened by the fixed gap.
pub open spec fn controller_periodic_parameters(
    p: PeriodicAdvertisingParameters,
) -> crate::gatt::PeriodicAdvertisingParameters {
    let interval = clamped(
        p.interval as int,
        PERIODIC_INTERVAL_MIN as int,
        PERIODIC_INTERVAL_MAX - PERIODIC_INTERVAL_DELTA,
    );
    crate::gatt::PeriodicAdvertisingParameters {
        enable: true,
        include_adi: false,
        min_interval: interval as u16,
        max_interval: (interval + PERIODIC_INTERVAL_DELTA) as u16,
        periodic_advertising_properties: flag(p.include_tx_power, 0x40),
    }
}

impl From<PeriodicAdvertisingParameters> for crate::gatt::PeriodicAdvertisingParameters {
    fn from(p: PeriodicAdvertisingParameters) -> (r: crate::gatt::PeriodicAdvertisingParameters) {
        let interval: i32 = clamp(
            p.interval,
            PERIODIC_INTERVAL_MIN,
            PERIODIC_INTERVAL_MAX - PERIODIC_INTERVAL_DELTA,
        );
        let min_interval = interval as u16;
        crate::gatt::PeriodicAdvertisingParameters {
            enable: true,
            include_adi: false,
            min_interval,
            max_interval: min_interval + (PERIODIC_INTERVAL_DELTA as u16),
            periodic_advertising_properties: if p.include_tx_power {
                0x40
            } else {
                0
            },
        }
    }
}

impl vstd::std_specs::convert::FromSpecImpl<PeriodicAdvertisingParameters> for crate::gatt::PeriodicAdvertisingParameters {
    open spec fn obeys_from_spec() -> bool {
        true
    }

    open spec fn from_spec(p: PeriodicAdvertisingParameters) -> crate::gatt::PeriodicAdvertisingParameters {
        controller_periodic_parameters(p)
    }
}

} // verus!
