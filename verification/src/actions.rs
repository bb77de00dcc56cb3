//! What the manager asks its caller to do: commands for the controller's
//! advertiser interface and notifications for callback sinks.

use vstd::prelude::*;
use crate::SuspendMode;
use crate::adv_set::CallbackId;
use crate::adv_set::RegId;
use crate::deps::string_from_ascii;
use crate::gatt::AdvertiseParameters;
use crate::gatt::AdvertisingStatus;
use crate::gatt::PeriodicAdvertisingParameters;
use crate::gatt::RawAddress;

verus! {

/// A notification for a callback sink.
#[derive(Clone, Debug, PartialEq, Eq)]
pub enum AdvertisingSetEvent {
    /// The controller has answered a request to start a set.
    AdvertisingSetStarted { reg_id: i32, advertiser_id: i32, tx_power: i32, status: AdvertisingStatus },
    /// The controller has reported the address a set advertises with.
    OwnAddressRead { advertiser_id: i32, address_type: i32, address: String },
    /// A set has been stopped.
    AdvertisingSetStopped { advertiser_id: i32 },
    /// A set has been enabled or disabled.
    AdvertisingEnabled { advertiser_id: i32, enable: bool, status: AdvertisingStatus },
    /// The advertising data of a set has been replaced.
    AdvertisingDataSet { advertiser_id: i32, status: AdvertisingStatus },
    /// The scan response of a set has been replaced.
    ScanResponseDataSet { advertiser_id: i32, status: AdvertisingStatus },
    /// The parameters of a set have been replaced.
    AdvertisingParametersUpdated { advertiser_id: i32, tx_power: i32, status: AdvertisingStatus },
    /// The periodic parameters of a set have been replaced.
    PeriodicAdvertisingParametersUpdated { advertiser_id: i32, status: AdvertisingStatus },
    /// The periodic data of a set has been replaced.
    PeriodicAdvertisingDataSet { advertiser_id: i32, status: AdvertisingStatus },
    /// Periodic advertising of a set has been enabled or disabled.
    PeriodicAdvertisingEnabled { advertiser_id: i32, enable: bool, status: AdvertisingStatus },
    /// The manager has changed its suspend mode.
    SuspendModeChange { suspend_mode: SuspendMode },
}

/// A notification as plain values.
pub enum EventView {
    AdvertisingSetStarted { reg_id: i32, advertiser_id: i32, tx_power: i32, status: AdvertisingStatus },
    OwnAddressRead { advertiser_id: i32, address_type: i32, address: Seq<char> },
    AdvertisingSetStopped { advertiser_id: i32 },
    AdvertisingEnabled { advertiser_id: i32, enable: bool, status: AdvertisingStatus },
    AdvertisingDataSet { advertiser_id: i32, status: AdvertisingStatus },
    ScanResponseDataSet { advertiser_id: i32, status: AdvertisingStatus },
    AdvertisingParametersUpdated { advertiser_id: i32, tx_power: i32, status: AdvertisingStatus },
    PeriodicAdvertisingParametersUpdated { advertiser_id: i32, status: AdvertisingStatus },
    PeriodicAdvertisingDataSet { advertiser_id: i32, status: AdvertisingStatus },
    PeriodicAdvertisingEnabled { advertiser_id: i32, enable: bool, status: AdvertisingStatus },
    SuspendModeChange { suspend_mode: SuspendMode },
}

impl View for AdvertisingSetEvent {
    type V = EventView;

    open spec fn view(&self) -> EventView {
        match *self {
            AdvertisingSetEvent::AdvertisingSetStarted { reg_id, advertiser_id, tx_power, status } => {
                EventView::AdvertisingSetStarted { reg_id, advertiser_id, tx_power, status }
            },
            AdvertisingSetEvent::OwnAddressRead { advertiser_id, address_type, address } => {
                EventView::OwnAddressRead { advertiser_id, address_type, address: address@ }
            },
            AdvertisingSetEvent::AdvertisingSetStopped { advertiser_id } => {
                EventView::AdvertisingSetStopped { advertiser_id }
            },
            AdvertisingSetEvent::AdvertisingEnabled { advertiser_id, enable, status } => {
                EventView::AdvertisingEnabled { advertiser_id, enable, status }
            },
            AdvertisingSetEvent::AdvertisingDataSet { advertiser_id, status } => {
                EventView::AdvertisingDataSet { advertiser_id, status }
            },
            AdvertisingSetEvent::ScanResponseDataSet { advertiser_id, status } => {
                EventView::ScanResponseDataSet { advertiser_id, status }
            },
            AdvertisingSetEvent::AdvertisingParametersUpdated { advertiser_id, tx_power, status } => {
                EventView::AdvertisingParametersUpdated { advertiser_id, tx_power, status }
            },
            AdvertisingSetEvent::PeriodicAdvertisingParametersUpdated { advertiser_id, status } => {
                EventView::PeriodicAdvertisingParametersUpdated { advertiser_id, status }
            },
            AdvertisingSetEvent::PeriodicAdvertisingDataSet { advertiser_id, status } => {
                EventView::PeriodicAdvertisingDataSet { advertiser_id, status }
            },
            AdvertisingSetEvent::PeriodicAdvertisingEnabled { advertiser_id, enable, status } => {
                EventView::PeriodicAdvertisingEnabled { advertiser_id, enable, status }
            },
            AdvertisingSetEvent::SuspendModeChange { suspend_mode } => {
                EventView::SuspendModeChange { suspend_mode }
            },
        }
    }
}

/// One thing for the caller to do: a command for the controller's advertiser
/// interface, or a notification for a callback sink.
#[derive(Clone, Debug, PartialEq, Eq)]
pub enum Action {
    /// Create a set and start advertising.
    StartAdvertisingSet {
        reg_id: RegId,
        params: AdvertiseParameters,
        advertise_data: Vec<u8>,
        scan_response: Vec<u8>,
        periodic_params: PeriodicAdvertisingParameters,
        periodic_data: Vec<u8>,
        duration: u16,
        max_ext_adv_events: u8,
    },
    /// Dispose of a set.
    Unregister { advertiser_id: u8 },
    /// Enable or disable a set.
    Enable { advertiser_id: u8, enable: bool, duration: u16, max_ext_adv_events: u8 },
    /// Replace the advertising data of a set, or its scan response.
    SetData { advertiser_id: u8, set_scan_rsp: bool, data: Vec<u8> },
    /// Replace the parameters of a set.
    SetParameters { advertiser_id: u8, params: AdvertiseParameters },
    /// Replace the periodic parameters of a set.
    SetPeriodicAdvertisingParameters { advertiser_id: u8, periodic_params: PeriodicAdvertisingParameters },
    /// Replace the periodic data of a set.
    SetPeriodicAdvertisingData { advertiser_id: u8, data: Vec<u8> },
    /// Enable or disable periodic advertising of a set.
    SetPeriodicAdvertisingEnable { advertiser_id: u8, enable: bool, include_adi: bool },
    /// Ask for the address a set advertises with.
    GetOwnAddress { advertiser_id: u8 },
    /// Tell a callback sink of an event.
    Notify { callback_id: CallbackId, event: AdvertisingSetEvent },
}

/// An action as plain values.
pub enum ActionView {
    StartAdvertisingSet {
        reg_id: RegId,
        params: AdvertiseParameters,
        advertise_data: Seq<u8>,
        scan_response: Seq<u8>,
        periodic_params: PeriodicAdvertisingParameters,
        periodic_data: Seq<u8>,
        duration: u16,
        max_ext_adv_events: u8,
    },
    Unregister { advertiser_id: u8 },
    Enable { advertiser_id: u8, enable: bool, duration: u16, max_ext_adv_events: u8 },
    SetData { advertiser_id: u8, set_scan_rsp: bool, data: Seq<u8> },
    SetParameters { advertiser_id: u8, params: AdvertiseParameters },
    SetPeriodicAdvertisingParameters { advertiser_id: u8, periodic_params: PeriodicAdvertisingParameters },
    SetPeriodicAdvertisingData { advertiser_id: u8, data: Seq<u8> },
    SetPeriodicAdvertisingEnable { advertiser_id: u8, enable: bool, include_adi: bool },
    GetOwnAddress { advertiser_id: u8 },
    Notify { callback_id: CallbackId, event: EventView },
}

impl View for Action {
    type V = ActionView;

    open spec fn view(&self) -> ActionView {
        match *self {
            Action::StartAdvertisingSet {
                reg_id,
                params,
                advertise_data,
                scan_response,
                periodic_params,
                periodic_data,
                duration,
                max_ext_adv_events,
            } => ActionView::StartAdvertisingSet {
                reg_id,
                params,
                advertise_data: advertise_data@,
                scan_response: scan_response@,
                periodic_params,
                periodic_data: periodic_data@,
                duration,
                max_ext_adv_events,
            },
            Action::Unregister { advertiser_id } => ActionView::Unregister { advertiser_id },
            Action::Enable { advertiser_id, enable, duration, max_ext_adv_events } => ActionView::Enable {
                advertiser_id,
                enable,
                duration,
                max_ext_adv_events,
            },
            Action::SetData { advertiser_id, set_scan_rsp, data } => ActionView::SetData {
                advertiser_id,
                set_scan_rsp,
                data: data@,
            },
            Action::SetParameters { advertiser_id, params } => ActionView::SetParameters {
                advertiser_id,
                params,
            },
            Action::SetPeriodicAdvertisingParameters {
                advertiser_id,
                periodic_params,
            } => ActionView::SetPeriodicAdvertisingParameters { advertiser_id, periodic_params },
            Action::SetPeriodicAdvertisingData {
                advertiser_id,
                data,
            } => ActionView::SetPeriodicAdvertisingData { advertiser_id, data: data@ },
            Action::SetPeriodicAdvertisingEnable {
                advertiser_id,
                enable,
                include_adi,
            } => ActionView::SetPeriodicAdvertisingEnable { advertiser_id, enable, include_adi },
            Action::GetOwnAddress { advertiser_id } => ActionView::GetOwnAddress { advertiser_id },
            Action::Notify { callback_id, event } => ActionView::Notify { callback_id, event: event@ },
        }
    }
}

/// The plain values of a list of actions.
pub open spec fn action_views(actions: Seq<Action>) -> Seq<ActionView> {
    actions.map_values(|a: Action| a@)
}

/// The upper-case hexadecimal digit for a value below 16.
pub open spec fn hex_upper(v: int) -> u8 {
    if v < 10 {
        (0x30 + v) as u8
    } else {
        (0x41 + v - 10) as u8
    }
}

/// A device address as text: six bytes, each as two upper-case hexadecimal
/// digits, with a colon between neighbours.
pub open spec fn address_text(address: Seq<u8>) -> Seq<char> {
    Seq::new(
        17,
        |i: int|
            if i % 3 == 2 {
                0x3au8 as char
            } else if i % 3 == 0 {
                hex_upper(address[i / 3] as int / 16) as char
            } else {
                hex_upper(address[i / 3] as int % 16) as char
            },
    )
}

fn hex_upper_digit(v: u8) -> (r: u8)
    requires
        v < 16,
    ensures
        r == hex_upper(v as int),
        r < 128,
{
    if v < 10 {
        0x30 + v
    } else {
        0x41 + v - 10
    }
}

impl RawAddress {
    /// The address as text, in the form `AA:BB:CC:DD:EE:FF`.
    pub fn to_string(&self) -> (r: String)
        ensures
            r@ == address_text(self.address@),
    {
        let mut bytes: Vec<u8> = Vec::new();
        let mut k: usize = 0;
        while k < 6
            invariant
                k <= 6,
                bytes@.len() == if k == 0 {
                    0
                } else {
                    3 * k - 1
                },
                forall|i: int| 0 <= i < bytes@.len() ==> bytes@[i] < 128,
                forall|i: int|
                    0 <= i < bytes@.len() ==> bytes@[i] == (if i % 3 == 2 {
                        0x3au8
                    } else if i % 3 == 0 {
                        hex_upper(self.address@[i / 3] as int / 16)
                    } else {
                        hex_upper(self.address@[i / 3] as int % 16)
                    }),
            decreases 6 - k,
        {
            if k > 0 {
                bytes.push(0x3a);
            }
            let b: u8 = self.address[k];
            bytes.push(hex_upper_digit(b / 16));
            bytes.push(hex_upper_digit(b % 16));
            k = k + 1;
        }
        let r = string_from_ascii(bytes);
        assert(r@ =~= address_text(self.address@));
        r
    }
}

} // verus!
