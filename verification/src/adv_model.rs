//! The advertising manager as a state machine over plain values: what each
//! operation and each confirmation of the controller does to the registry of
//! sets, to the suspend mode, and which actions it queues.

use vstd::prelude::*;
use crate::SuspendMode;
use crate::actions::ActionView;
use crate::actions::EventView;
use crate::actions::address_text;
use crate::adv_data::AdvertiseDataView;
use crate::adv_data::adv_data_len_max;
use crate::adv_data::adv_encoding;
use crate::adv_data::upgrades;
use crate::adv_params::AdvertisingSetParameters;
use crate::adv_params::PeriodicAdvertisingParameters;
use crate::adv_params::clamped;
use crate::adv_params::controller_parameters;
use crate::adv_params::controller_periodic_parameters;
use crate::adv_set::AdvertiserId;
use crate::adv_set::AdvertisingSetInfo;
use crate::adv_set::CallbackId;
use crate::adv_set::RegId;
use crate::gatt::AdvertisingStatus;

verus! {

/// Whether the records stand in strictly ascending order of registration id.
/// No registration id then occurs twice.
pub open spec fn ascending(sets: Seq<AdvertisingSetInfo>) -> bool {
    forall|i: int, j: int| 0 <= i < j < sets.len() ==> sets[i].reg_id < sets[j].reg_id
}

/// Whether a record with this registration id exists.
pub open spec fn uses_reg_id(sets: Seq<AdvertisingSetInfo>, reg_id: int) -> bool {
    exists|i: int| 0 <= i < sets.len() && #[trigger] sets[i].reg_id == reg_id
}

/// Whether `n` is the smallest non-negative integer that is no registration
/// id of a record.
pub open spec fn is_smallest_free_reg_id(sets: Seq<AdvertisingSetInfo>, n: int) -> bool {
    &&& 0 <= n
    &&& !uses_reg_id(sets, n)
    &&& forall|j: int| 0 <= j < n ==> #[trigger] uses_reg_id(sets, j)
}

/// The smallest non-negative integer that is no registration id of a record.
pub open spec fn smallest_free_reg_id(sets: Seq<AdvertisingSetInfo>) -> int {
    choose|n: int| is_smallest_free_reg_id(sets, n)
}

/// Where the record with this registration id stands.
pub open spec fn index_of_reg_id(sets: Seq<AdvertisingSetInfo>, reg_id: RegId) -> Option<int> {
    if uses_reg_id(sets, reg_id as int) {
        Some(choose|i: int| 0 <= i < sets.len() && #[trigger] sets[i].reg_id == reg_id)
    } else {
        None
    }
}

/// Whether the record at `i` is the first that the controller knows under
/// this advertiser id.
pub open spec fn is_first_with_adv_id(sets: Seq<AdvertisingSetInfo>, adv_id: AdvertiserId, i: int) -> bool {
    &&& 0 <= i < sets.len()
    &&& sets[i].adv_id == Some(adv_id)
    &&& forall|j: int| 0 <= j < i ==> (#[trigger] sets[j]).adv_id != Some(adv_id)
}

/// Where the first record with this advertiser id stands.
pub open spec fn index_of_adv_id(sets: Seq<AdvertisingSetInfo>, adv_id: AdvertiserId) -> Option<int> {
    if exists|i: int| is_first_with_adv_id(sets, adv_id, i) {
        Some(choose|i: int| is_first_with_adv_id(sets, adv_id, i))
    } else {
        None
    }
}

/// The record at an index, if there is an index.
pub open spec fn record_at(sets: Seq<AdvertisingSetInfo>, index: Option<int>) -> Option<AdvertisingSetInfo> {
    match index {
        Some(i) => Some(sets[i]),
        None => None,
    }
}

/// The records without the one at an index, if there is an index.
pub open spec fn without(sets: Seq<AdvertisingSetInfo>, index: Option<int>) -> Seq<AdvertisingSetInfo> {
    match index {
        Some(i) => sets.remove(i),
        None => sets,
    }
}

/// The records with `s` among them: those with a smaller registration id,
/// then `s`, then those with a larger one. A record that had the
/// registration id of `s` is gone.
pub open spec fn with_record(sets: Seq<AdvertisingSetInfo>, s: AdvertisingSetInfo) -> Seq<AdvertisingSetInfo> {
    sets.filter(|x: AdvertisingSetInfo| x.reg_id < s.reg_id).push(s) + sets.filter(
        |x: AdvertisingSetInfo| x.reg_id > s.reg_id,
    )
}

/// Whether the controller knows the set and has it enabled.
pub open spec fn is_on_air(s: AdvertisingSetInfo) -> bool {
    s.valid() && s.enabled
}

/// Whether the controller knows the set and its stop is held back.
pub open spec fn is_held_stop(s: AdvertisingSetInfo) -> bool {
    s.valid() && s.stopped
}

/// Whether the controller knows the set and the manager has paused it.
pub open spec fn is_paused_set(s: AdvertisingSetInfo) -> bool {
    s.valid() && s.paused
}

/// The command that enables or disables a set with the limits of its record.
pub open spec fn enable_command(s: AdvertisingSetInfo, enable: bool) -> ActionView {
    ActionView::Enable {
        advertiser_id: s.controller_id(),
        enable,
        duration: s.adv_timeout,
        max_ext_adv_events: s.adv_events,
    }
}

/// The command that disposes of a set.
pub open spec fn unregister_command(s: AdvertisingSetInfo) -> ActionView {
    ActionView::Unregister { advertiser_id: s.controller_id() }
}

/// The records after the sets with the given advertiser ids have been
/// removed one after the other, each time the first record with that id.
pub open spec fn without_adv_ids(sets: Seq<AdvertisingSetInfo>, ids: Seq<u8>) -> Seq<AdvertisingSetInfo>
    decreases ids.len(),
{
    if ids.len() == 0 {
        sets
    } else {
        let before = without_adv_ids(sets, ids.drop_last());
        without(before, index_of_adv_id(before, ids.last() as AdvertiserId))
    }
}

/// Whether a sink is another than the one with this id.
pub open spec fn is_other_callback(callback_id: CallbackId) -> spec_fn(CallbackId) -> bool {
    |c: CallbackId| c != callback_id
}

/// What the adapter last reported.
pub struct AdapterView {
    pub name: Seq<char>,
    pub le_extended_advertising_supported: bool,
}

/// A request to start an advertising set, as plain values.
pub struct StartRequest {
    pub parameters: AdvertisingSetParameters,
    pub advertise_data: AdvertiseDataView,
    pub scan_response: Option<AdvertiseDataView>,
    pub periodic_parameters: Option<PeriodicAdvertisingParameters>,
    pub periodic_data: Option<AdvertiseDataView>,
    pub duration: i32,
    pub max_ext_adv_events: i32,
    pub callback_id: CallbackId,
}

/// The state of the advertising manager.
pub struct ManagerState {
    /// The registered callback sinks, in the order of their registration.
    pub callbacks: Seq<CallbackId>,
    /// The records of the advertising sets, by ascending registration id.
    pub sets: Seq<AdvertisingSetInfo>,
    /// Where the manager stands in the suspend protocol.
    pub suspend_mode: SuspendMode,
    /// What the adapter last reported, if there is an adapter.
    pub adapter: Option<AdapterView>,
    /// The actions that wait for the caller, oldest first.
    pub outbox: Seq<ActionView>,
}

impl ManagerState {
    /// The state of a new manager.
    pub open spec fn initial() -> ManagerState {
        ManagerState {
            callbacks: Seq::empty(),
            sets: Seq::empty(),
            suspend_mode: SuspendMode::Normal,
            adapter: None,
            outbox: Seq::empty(),
        }
    }

    /// What holds of every state: one record for each registration id, by
    /// ascending id, and no sink registered twice.
    pub open spec fn wf(self) -> bool {
        &&& ascending(self.sets)
        &&& self.callbacks.no_duplicates()
    }

    /// The adapter's name; empty where there is no adapter.
    pub open spec fn adapter_name(self) -> Seq<char> {
        match self.adapter {
            Some(a) => a.name,
            None => Seq::empty(),
        }
    }

    /// The bytes of the adapter's name.
    pub open spec fn device_name(self) -> Seq<u8> {
        vstd::utf8::encode_utf8(self.adapter_name())
    }

    /// Whether the adapter supports extended advertising.
    pub open spec fn extended_supported(self) -> bool {
        match self.adapter {
            Some(a) => a.le_extended_advertising_supported,
            None => false,
        }
    }

    /// The state with other records.
    pub open spec fn with_sets(self, sets: Seq<AdvertisingSetInfo>) -> ManagerState {
        ManagerState { sets, ..self }
    }

    /// The state with more actions queued.
    pub open spec fn emit(self, actions: Seq<ActionView>) -> ManagerState {
        ManagerState { outbox: self.outbox + actions, ..self }
    }

    /// The state with a notification queued for a sink; unchanged where no
    /// such sink is registered.
    pub open spec fn notify(self, callback_id: CallbackId, event: EventView) -> ManagerState {
        if self.callbacks.contains(callback_id) {
            self.emit(seq![ActionView::Notify { callback_id, event }])
        } else {
            self
        }
    }

    /// The state with one notification queued for each registered sink, in
    /// the order of their registration.
    pub open spec fn notify_all(self, event: EventView) -> ManagerState {
        self.emit(self.callbacks.map_values(|callback_id: CallbackId| ActionView::Notify { callback_id, event }))
    }

    /// The state with the current suspend mode told to every sink.
    pub open spec fn notify_suspend_mode(self) -> ManagerState {
        self.notify_all(EventView::SuspendModeChange { suspend_mode: self.suspend_mode })
    }

    /// The state in another suspend mode, which every sink is told of;
    /// unchanged where it is in that mode already.
    pub open spec fn set_suspend_mode(self, suspend_mode: SuspendMode) -> ManagerState {
        if suspend_mode != self.suspend_mode {
            (ManagerState { suspend_mode, ..self }).notify_suspend_mode()
        } else {
            self
        }
    }

    /// The number of sets that the controller knows and has enabled.
    pub open spec fn enabled_count(self) -> nat {
        self.sets.filter(|s: AdvertisingSetInfo| is_on_air(s)).len()
    }

    /// The state with what the adapter reports.
    pub open spec fn initialize(self, adapter: Option<AdapterView>) -> ManagerState {
        ManagerState { adapter, ..self }
    }

    /// The state with a record added.
    pub open spec fn add(self, s: AdvertisingSetInfo) -> ManagerState {
        self.with_sets(with_record(self.sets, s))
    }

    /// The state without the record of a registration id.
    pub open spec fn remove_by_reg_id(self, reg_id: RegId) -> ManagerState {
        self.with_sets(without(self.sets, index_of_reg_id(self.sets, reg_id)))
    }

    /// The state without the first record of an advertiser id.
    pub open spec fn remove_by_advertiser_id(self, adv_id: AdvertiserId) -> ManagerState {
        self.with_sets(without(self.sets, index_of_adv_id(self.sets, adv_id)))
    }

    /// The state with a sink registered.
    pub open spec fn register_callback(self, callback_id: CallbackId) -> ManagerState {
        if self.callbacks.contains(callback_id) {
            self
        } else {
            ManagerState { callbacks: self.callbacks.push(callback_id), ..self }
        }
    }

    /// The state after a sink has been unregistered. Each of its sets that
    /// the controller knows is disposed of and its record removed; each of
    /// its other sets is marked as stopped, to be disposed of when the
    /// controller confirms it.
    pub open spec fn unregister_callback(self, callback_id: CallbackId) -> ManagerState {
        ManagerState {
            callbacks: self.callbacks.filter(is_other_callback(callback_id)),
            sets: self.sets.filter(
                |s: AdvertisingSetInfo| s.callback_id != callback_id || !s.valid(),
            ).map_values(
                |s: AdvertisingSetInfo|
                    if s.callback_id == callback_id {
                        AdvertisingSetInfo { stopped: true, ..s }
                    } else {
                        s
                    },
            ),
            outbox: self.outbox + self.sets.filter(
                |s: AdvertisingSetInfo| s.callback_id == callback_id && s.valid(),
            ).map_values(|s: AdvertisingSetInfo| unregister_command(s)),
            ..self
        }
    }

    /// Whether the framing of a requested set stays legacy: it was asked for
    /// and the set is not promoted to extended.
    pub open spec fn start_is_legacy(self, req: StartRequest) -> bool {
        req.parameters.is_legacy && !upgrades(
            req.parameters.is_legacy,
            adv_encoding(req.advertise_data, self.device_name()).len() as int,
            self.extended_supported(),
        )
    }

    /// The scan response or periodic data of a request as bytes; none where
    /// the request has no description for it.
    pub open spec fn optional_encoding(self, data: Option<AdvertiseDataView>) -> Seq<u8> {
        match data {
            Some(d) => adv_encoding(d, self.device_name()),
            None => Seq::empty(),
        }
    }

    /// Whether a request to start a set is accepted: the manager is in
    /// normal mode, advertising data and scan response fit the framing of
    /// the set, and the periodic data fits the extended limit.
    pub open spec fn start_accepted(self, req: StartRequest) -> bool {
        &&& self.suspend_mode == SuspendMode::Normal
        &&& adv_encoding(req.advertise_data, self.device_name()).len() <= adv_data_len_max(
            self.start_is_legacy(req),
        )
        &&& self.optional_encoding(req.scan_response).len() <= adv_data_len_max(self.start_is_legacy(req))
        &&& self.optional_encoding(req.periodic_data).len() <= adv_data_len_max(false)
    }

    /// The record made for an accepted request.
    pub open spec fn start_record(self, req: StartRequest) -> AdvertisingSetInfo {
        AdvertisingSetInfo {
            adv_id: None,
            callback_id: req.callback_id,
            reg_id: smallest_free_reg_id(self.sets) as RegId,
            enabled: false,
            paused: false,
            stopped: false,
            adv_timeout: clamped(req.duration as int, 0, 0xffff) as u16,
            adv_events: clamped(req.max_ext_adv_events as int, 0, 0xff) as u8,
            legacy: self.start_is_legacy(req),
        }
    }

    /// The command sent for an accepted request.
    pub open spec fn start_command(self, req: StartRequest) -> ActionView {
        ActionView::StartAdvertisingSet {
            reg_id: smallest_free_reg_id(self.sets) as RegId,
            params: controller_parameters(
                AdvertisingSetParameters { is_legacy: self.start_is_legacy(req), ..req.parameters },
            ),
            advertise_data: adv_encoding(req.advertise_data, self.device_name()),
            scan_response: self.optional_encoding(req.scan_response),
            periodic_params: match req.periodic_parameters {
                Some(p) => controller_periodic_parameters(p),
                None => crate::gatt::PeriodicAdvertisingParameters {
                    enable: false,
                    include_adi: false,
                    min_interval: 0,
                    max_interval: 0,
                    periodic_advertising_properties: 0,
                },
            },
            periodic_data: self.optional_encoding(req.periodic_data),
            duration: clamped(req.duration as int, 0, 0xffff) as u16,
            max_ext_adv_events: clamped(req.max_ext_adv_events as int, 0, 0xff) as u8,
        }
    }

    /// The state after a request to start a set: unchanged where the
    /// request is not accepted; else with a record under the smallest free
    /// registration id and the command queued.
    pub open spec fn start_advertising_set(self, req: StartRequest) -> ManagerState {
        if self.start_accepted(req) {
            self.add(self.start_record(req)).emit(seq![self.start_command(req)])
        } else {
            self
        }
    }

    /// What a request to start a set returns: the registration id of the
    /// new set, or -1 where the request is not accepted.
    pub open spec fn start_result(self, req: StartRequest) -> int {
        if self.start_accepted(req) {
            smallest_free_reg_id(self.sets)
        } else {
            -1
        }
    }

    /// The state after a request to stop a set. Outside normal mode the
    /// record is marked as stopped and the sink told at once, unless the
    /// record was marked before; in normal mode the set is disposed of, the
    /// sink told and the record removed. An unknown id changes nothing.
    pub open spec fn stop_advertising_set(self, advertiser_id: AdvertiserId) -> ManagerState {
        match index_of_adv_id(self.sets, advertiser_id) {
            None => self,
            Some(i) => {
                let s = self.sets[i];
                let stopped_event = EventView::AdvertisingSetStopped { advertiser_id };
                if self.suspend_mode != SuspendMode::Normal {
                    if s.stopped {
                        self
                    } else {
                        self.with_sets(
                            self.sets.update(i, AdvertisingSetInfo { stopped: true, ..s }),
                        ).notify(s.callback_id, stopped_event)
                    }
                } else {
                    self.emit(seq![unregister_command(s)]).notify(s.callback_id, stopped_event).with_sets(
                        self.sets.remove(i),
                    )
                }
            },
        }
    }

    /// The state with commands queued for the first set of an advertiser
    /// id; unchanged outside normal mode and for an unknown id.
    pub open spec fn command_for(
        self,
        advertiser_id: AdvertiserId,
        commands: spec_fn(AdvertisingSetInfo) -> Seq<ActionView>,
    ) -> ManagerState {
        if self.suspend_mode != SuspendMode::Normal {
            self
        } else {
            match index_of_adv_id(self.sets, advertiser_id) {
                Some(i) => self.emit(commands(self.sets[i])),
                None => self,
            }
        }
    }

    /// The state after a request for the address of a set.
    pub open spec fn get_own_address(self, advertiser_id: AdvertiserId) -> ManagerState {
        self.command_for(
            advertiser_id,
            |s: AdvertisingSetInfo| seq![ActionView::GetOwnAddress { advertiser_id: s.controller_id() }],
        )
    }

    /// The state after a request to enable or disable a set.
    pub open spec fn enable_advertising_set(
        self,
        advertiser_id: AdvertiserId,
        enable: bool,
        duration: i32,
        max_ext_adv_events: i32,
    ) -> ManagerState {
        self.command_for(
            advertiser_id,
            |s: AdvertisingSetInfo|
                seq![
                    ActionView::Enable {
                        advertiser_id: s.controller_id(),
                        enable,
                        duration: clamped(duration as int, 0, 0xffff) as u16,
                        max_ext_adv_events: clamped(max_ext_adv_events as int, 0, 0xff) as u8,
                    },
                ],
        )
    }

    /// The state after a request to replace the advertising data or the scan
    /// response of a set by raw bytes: the command is queued where the bytes
    /// fit the framing of the set.
    pub open spec fn set_raw_data(self, advertiser_id: AdvertiserId, set_scan_rsp: bool, data: Seq<u8>) -> ManagerState {
        self.command_for(
            advertiser_id,
            |s: AdvertisingSetInfo|
                if data.len() <= adv_data_len_max(s.legacy) {
                    seq![ActionView::SetData { advertiser_id: s.controller_id(), set_scan_rsp, data }]
                } else {
                    Seq::empty()
                },
        )
    }

    /// The state after a request to replace the advertising data of a set.
    pub open spec fn set_advertising_data(self, advertiser_id: AdvertiserId, data: AdvertiseDataView) -> ManagerState {
        self.set_raw_data(advertiser_id, false, adv_encoding(data, self.device_name()))
    }

    /// The state after a request to replace the advertising data of a set by
    /// raw bytes.
    pub open spec fn set_raw_adv_data(self, advertiser_id: AdvertiserId, data: Seq<u8>) -> ManagerState {
        self.set_raw_data(advertiser_id, false, data)
    }

    /// The state after a request to replace the scan response of a set.
    pub open spec fn set_scan_response_data(self, advertiser_id: AdvertiserId, data: AdvertiseDataView) -> ManagerState {
        self.set_raw_data(advertiser_id, true, adv_encoding(data, self.device_name()))
    }

    /// The state after a request to replace the parameters of a set: an
    /// enabled set is disabled before the change and enabled again after it.
    pub open spec fn set_advertising_parameters(
        self,
        advertiser_id: AdvertiserId,
        parameters: AdvertisingSetParameters,
    ) -> ManagerState {
        self.command_for(
            advertiser_id,
            |s: AdvertisingSetInfo|
                {
                    let change = ActionView::SetParameters {
                        advertiser_id: s.controller_id(),
                        params: controller_parameters(parameters),
                    };
                    if s.enabled {
                        seq![enable_command(s, false), change, enable_command(s, true)]
                    } else {
                        seq![change]
                    }
                },
        )
    }

    /// The state after a request to replace the periodic parameters of a set.
    pub open spec fn set_periodic_advertising_parameters(
        self,
        advertiser_id: AdvertiserId,
        parameters: PeriodicAdvertisingParameters,
    ) -> ManagerState {
        self.command_for(
            advertiser_id,
            |s: AdvertisingSetInfo|
                seq![
                    ActionView::SetPeriodicAdvertisingParameters {
                        advertiser_id: s.controller_id(),
                        periodic_params: controller_periodic_parameters(parameters),
                    },
                ],
        )
    }

    /// The state after a request to replace the periodic data of a set: the
    /// command is queued where the data fits the extended limit.
    pub open spec fn set_periodic_advertising_data(
        self,
        advertiser_id: AdvertiserId,
        data: AdvertiseDataView,
    ) -> ManagerState {
        self.command_for(
            advertiser_id,
            |s: AdvertisingSetInfo|
                if adv_encoding(data, self.device_name()).len() <= adv_data_len_max(false) {
                    seq![
                        ActionView::SetPeriodicAdvertisingData {
                            advertiser_id: s.controller_id(),
                            data: adv_encoding(data, self.device_name()),
                        },
                    ]
                } else {
                    Seq::empty()
                },
        )
    }

    /// The state after a request to enable or disable periodic advertising
    /// of a set.
    pub open spec fn set_periodic_advertising_enable(
        self,
        advertiser_id: AdvertiserId,
        enable: bool,
        include_adi: bool,
    ) -> ManagerState {
        self.command_for(
            advertiser_id,
            |s: AdvertisingSetInfo|
                seq![
                    ActionView::SetPeriodicAdvertisingEnable {
                        advertiser_id: s.controller_id(),
                        enable,
                        include_adi,
                    },
                ],
        )
    }

    /// The state after the system has begun to suspend. Every set on the air
    /// is marked as paused and disabled, by ascending registration id. With
    /// no such set the manager is suspended at once; else it is suspending.
    pub open spec fn enter_suspend(self) -> ManagerState {
        let begun = self.set_suspend_mode(SuspendMode::Suspending);
        let on_air = self.sets.filter(|s: AdvertisingSetInfo| is_on_air(s));
        let paused = begun.with_sets(
            self.sets.map_values(
                |s: AdvertisingSetInfo|
                    if is_on_air(s) {
                        AdvertisingSetInfo { paused: true, ..s }
                    } else {
                        s
                    },
            ),
        ).emit(on_air.map_values(|s: AdvertisingSetInfo| enable_command(s, false)));
        if on_air.len() == 0 {
            paused.set_suspend_mode(SuspendMode::Suspended)
        } else {
            paused
        }
    }

    /// The state after the system has resumed. Every set whose stop was held
    /// back is disposed of and its record removed; every paused set that is
    /// left is enabled again; the manager is back in normal mode.
    pub open spec fn exit_suspend(self) -> ManagerState {
        let held = self.sets.filter(|s: AdvertisingSetInfo| is_held_stop(s));
        let left = without_adv_ids(self.sets, held.map_values(|s: AdvertisingSetInfo| s.controller_id()));
        let resumed = left.filter(|s: AdvertisingSetInfo| is_paused_set(s));
        self.emit(held.map_values(|s: AdvertisingSetInfo| unregister_command(s))).with_sets(
            left.map_values(
                |s: AdvertisingSetInfo|
                    if is_paused_set(s) {
                        AdvertisingSetInfo { paused: false, ..s }
                    } else {
                        s
                    },
            ),
        ).emit(resumed.map_values(|s: AdvertisingSetInfo| enable_command(s, true))).set_suspend_mode(
            SuspendMode::Normal,
        )
    }

    /// The state after the controller has answered a request to start a
    /// set. An answer for no record, or for a record marked as stopped, has
    /// the set disposed of, and the record removed. Else the record gets
    /// its advertiser id, is enabled where the start succeeded, and its sink
    /// is told; after a failed start the record is removed.
    pub open spec fn on_advertising_set_started(
        self,
        reg_id: RegId,
        advertiser_id: u8,
        tx_power: i8,
        status: AdvertisingStatus,
    ) -> ManagerState {
        let dispose = ActionView::Unregister { advertiser_id };
        match index_of_reg_id(self.sets, reg_id) {
            None => self.emit(seq![dispose]),
            Some(i) => {
                let s = self.sets[i];
                if s.stopped {
                    self.emit(seq![dispose]).with_sets(self.sets.remove(i))
                } else {
                    let started = AdvertisingSetInfo {
                        adv_id: Some(advertiser_id as AdvertiserId),
                        enabled: status == AdvertisingStatus::Success,
                        ..s
                    };
                    let told = self.notify(
                        s.callback_id,
                        EventView::AdvertisingSetStarted {
                            reg_id,
                            advertiser_id: advertiser_id as i32,
                            tx_power: tx_power as i32,
                            status,
                        },
                    );
                    if status == AdvertisingStatus::Success {
                        told.with_sets(self.sets.update(i, started))
                    } else {
                        told.with_sets(self.sets.remove(i))
                    }
                }
            },
        }
    }

    /// The state after the controller has enabled or disabled a set: the
    /// record follows, the sink is told, and a suspending manager with no
    /// set left on the air is suspended.
    pub open spec fn on_advertising_enabled(self, adv_id: u8, enabled: bool, status: AdvertisingStatus) -> ManagerState {
        match index_of_adv_id(self.sets, adv_id as AdvertiserId) {
            None => self,
            Some(i) => {
                let s = self.sets[i];
                let told = self.with_sets(self.sets.update(i, AdvertisingSetInfo { enabled, ..s })).notify(
                    s.callback_id,
                    EventView::AdvertisingEnabled { advertiser_id: adv_id as i32, enable: enabled, status },
                );
                if told.suspend_mode == SuspendMode::Suspending && told.enabled_count() == 0 {
                    told.set_suspend_mode(SuspendMode::Suspended)
                } else {
                    told
                }
            },
        }
    }

    /// The state after a confirmation that is only passed on: the sink of
    /// the first set with the advertiser id is told of the event.
    pub open spec fn relay(self, adv_id: u8, event: EventView) -> ManagerState {
        match index_of_adv_id(self.sets, adv_id as AdvertiserId) {
            None => self,
            Some(i) => self.notify(self.sets[i].callback_id, event),
        }
    }

    /// The state after the controller has replaced the advertising data of a set.
    pub open spec fn on_advertising_data_set(self, adv_id: u8, status: AdvertisingStatus) -> ManagerState {
        self.relay(adv_id, EventView::AdvertisingDataSet { advertiser_id: adv_id as i32, status })
    }

    /// The state after the controller has replaced the scan response of a set.
    pub open spec fn on_scan_response_data_set(self, adv_id: u8, status: AdvertisingStatus) -> ManagerState {
        self.relay(adv_id, EventView::ScanResponseDataSet { advertiser_id: adv_id as i32, status })
    }

    /// The state after the controller has replaced the parameters of a set.
    pub open spec fn on_advertising_parameters_updated(
        self,
        adv_id: u8,
        tx_power: i8,
        status: AdvertisingStatus,
    ) -> ManagerState {
        self.relay(
            adv_id,
            EventView::AdvertisingParametersUpdated {
                advertiser_id: adv_id as i32,
                tx_power: tx_power as i32,
                status,
            },
        )
    }

    /// The state after the controller has replaced the periodic parameters of a set.
    pub open spec fn on_periodic_advertising_parameters_updated(
        self,
        adv_id: u8,
        status: AdvertisingStatus,
    ) -> ManagerState {
        self.relay(
            adv_id,
            EventView::PeriodicAdvertisingParametersUpdated { advertiser_id: adv_id as i32, status },
        )
    }

    /// The state after the controller has replaced the periodic data of a set.
    pub open spec fn on_periodic_advertising_data_set(self, adv_id: u8, status: AdvertisingStatus) -> ManagerState {
        self.relay(adv_id, EventView::PeriodicAdvertisingDataSet { advertiser_id: adv_id as i32, status })
    }

    /// The state after the controller has enabled or disabled periodic
    /// advertising of a set.
    pub open spec fn on_periodic_advertising_enabled(
        self,
        adv_id: u8,
        enabled: bool,
        status: AdvertisingStatus,
    ) -> ManagerState {
        self.relay(
            adv_id,
            EventView::PeriodicAdvertisingEnabled { advertiser_id: adv_id as i32, enable: enabled, status },
        )
    }

    /// The state after the controller has reported the address of a set.
    pub open spec fn on_own_address_read(self, adv_id: u8, addr_type: u8, address: Seq<u8>) -> ManagerState {
        self.relay(
            adv_id,
            EventView::OwnAddressRead {
                advertiser_id: adv_id as i32,
                address_type: addr_type as i32,
                address: address_text(address),
            },
        )
    }
}

/// Only one integer is the smallest free registration id.
pub proof fn lemma_smallest_free_reg_id(sets: Seq<AdvertisingSetInfo>, n: int)
    requires
        is_smallest_free_reg_id(sets, n),
    ensures
        smallest_free_reg_id(sets) == n,
{
    let m = smallest_free_reg_id(sets);
    assert(is_smallest_free_reg_id(sets, m));
    if m < n {
        assert(uses_reg_id(sets, m));
    }
    if n < m {
        assert(uses_reg_id(sets, n));
    }
}

/// In an ascending registry a registration id stands at one index only.
pub proof fn lemma_index_of_reg_id(sets: Seq<AdvertisingSetInfo>, reg_id: RegId, i: int)
    requires
        ascending(sets),
        0 <= i < sets.len(),
        sets[i].reg_id == reg_id,
    ensures
        index_of_reg_id(sets, reg_id) == Some(i),
{
    assert(uses_reg_id(sets, reg_id as int));
    let k = choose|k: int| 0 <= k < sets.len() && #[trigger] sets[k].reg_id == reg_id;
    if k < i {
        assert(sets[k].reg_id < sets[i].reg_id);
    }
    if i < k {
        assert(sets[i].reg_id < sets[k].reg_id);
    }
}

/// Only one record is the first with an advertiser id.
pub proof fn lemma_index_of_adv_id(sets: Seq<AdvertisingSetInfo>, adv_id: AdvertiserId, i: int)
    requires
        is_first_with_adv_id(sets, adv_id, i),
    ensures
        index_of_adv_id(sets, adv_id) == Some(i),
{
    let k = choose|k: int| is_first_with_adv_id(sets, adv_id, k);
    if k < i {
        assert(sets[k].adv_id != Some(adv_id));
    }
    if i < k {
        assert(sets[i].adv_id != Some(adv_id));
    }
}

/// Without a record of an advertiser id there is no first one.
pub proof fn lemma_no_index_of_adv_id(sets: Seq<AdvertisingSetInfo>, adv_id: AdvertiserId)
    requires
        forall|j: int| 0 <= j < sets.len() ==> (#[trigger] sets[j]).adv_id != Some(adv_id),
    ensures
        index_of_adv_id(sets, adv_id) == None::<int>,
{
    if exists|i: int| is_first_with_adv_id(sets, adv_id, i) {
        let k = choose|k: int| is_first_with_adv_id(sets, adv_id, k);
        assert(sets[k].adv_id != Some(adv_id));
    }
}

/// Removing a record keeps the registry ascending.
pub proof fn lemma_remove_ascending(sets: Seq<AdvertisingSetInfo>, i: int)
    requires
        ascending(sets),
        0 <= i < sets.len(),
    ensures
        ascending(sets.remove(i)),
{
    let r = sets.remove(i);
    assert forall|a: int, b: int| 0 <= a < b < r.len() implies r[a].reg_id < r[b].reg_id by {
        let a0 = if a < i { a } else { a + 1 };
        let b0 = if b < i { b } else { b + 1 };
        assert(r[a] == sets[a0]);
        assert(r[b] == sets[b0]);
    }
}

} // verus!
