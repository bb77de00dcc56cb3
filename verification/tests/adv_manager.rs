use bt_advertising::actions::Action;
use bt_advertising::actions::AdvertisingSetEvent;
use bt_advertising::adv_data::AdvertiseData;
use bt_advertising::adv_manager::AdapterInfo;
use bt_advertising::adv_manager::AdvertiseManager;
use bt_advertising::adv_params::AdvertisingSetParameters;
use bt_advertising::adv_params::PeriodicAdvertisingParameters;
use bt_advertising::adv_set::AdvertiserId;
use bt_advertising::adv_set::AdvertisingSetInfo;
use bt_advertising::adv_set::CallbackId;
use bt_advertising::adv_set::RegId;
use bt_advertising::adv_set::INVALID_REG_ID;
use bt_advertising::gatt::AdvertiseParameters;
use bt_advertising::gatt::AdvertisingStatus;
use bt_advertising::gatt::RawAddress;
use bt_advertising::SuspendMode;

const SINK: CallbackId = 7;

fn description(transport_bytes: usize) -> AdvertiseData {
    let mut data = AdvertiseData::default();
    if transport_bytes > 0 {
        data.transport_discovery_data.push(vec![0x55; transport_bytes]);
    }
    data
}

fn start(manager: &mut AdvertiseManager, callback_id: CallbackId) -> RegId {
    manager.start_advertising_set(
        AdvertisingSetParameters::default(),
        description(3),
        None,
        None,
        None,
        100,
        5,
        callback_id,
    )
}

/// A manager with one sink and `n` sets that the controller has started
/// under the advertiser ids 10, 11, ...; the queue is empty.
fn manager_with_started_sets(n: u8) -> AdvertiseManager {
    let mut manager = AdvertiseManager::new();
    manager.register_callback(SINK);
    for i in 0..n {
        let reg_id = start(&mut manager, SINK);
        assert_eq!(reg_id, i as RegId);
        manager.on_advertising_set_started(reg_id, 10 + i, -7, AdvertisingStatus::Success);
    }
    manager.take_actions();
    manager
}

fn notify(event: AdvertisingSetEvent) -> Action {
    Action::Notify { callback_id: SINK, event }
}

fn mode_change(suspend_mode: SuspendMode) -> Action {
    notify(AdvertisingSetEvent::SuspendModeChange { suspend_mode })
}

fn disable(advertiser_id: u8) -> Action {
    Action::Enable { advertiser_id, enable: false, duration: 100, max_ext_adv_events: 5 }
}

fn enable(advertiser_id: u8) -> Action {
    Action::Enable { advertiser_id, enable: true, duration: 100, max_ext_adv_events: 5 }
}

#[test]
fn test_add_remove_advising_set_info() {
    let mut adv_manager = AdvertiseManager::new();
    for i in 0..35 {
        let reg_id = i * 2 as RegId;
        let s = AdvertisingSetInfo::new(0 as CallbackId, 0, 0, false, reg_id);
        adv_manager.add(s);
    }
    for i in 0..35 {
        let expected_reg_id = i * 2 + 1 as RegId;
        let reg_id = adv_manager.new_reg_id();
        assert_eq!(reg_id, expected_reg_id);
        let s = AdvertisingSetInfo::new(0 as CallbackId, 0, 0, false, reg_id);
        adv_manager.add(s);
    }
    for i in 0..35 {
        let reg_id = i * 2 as RegId;
        assert!(adv_manager.remove_by_reg_id(reg_id).is_some());
    }
    for i in 0..35 {
        let expected_reg_id = i * 2 as RegId;
        let reg_id = adv_manager.new_reg_id();
        assert_eq!(reg_id, expected_reg_id);
        let s = AdvertisingSetInfo::new(0 as CallbackId, 0, 0, false, reg_id);
        adv_manager.add(s);
    }
}

#[test]
fn test_iterate_adving_set_info() {
    let mut adv_manager = AdvertiseManager::new();

    let size = 256;
    for i in 0..size {
        let callback_id: CallbackId = i as CallbackId;
        let adv_id: AdvertiserId = i as AdvertiserId;
        let reg_id = adv_manager.new_reg_id();
        let mut s = AdvertisingSetInfo::new(callback_id, 0, 0, false, reg_id);
        s.set_adv_id(Some(adv_id));
        adv_manager.add(s);
    }

    assert_eq!(adv_manager.valid_sets().len(), size);
    for s in adv_manager.valid_sets() {
        assert_eq!(s.callback_id() as u32, s.adv_id() as u32);
    }
}

#[test]
fn test_new_reg_id_skips_negative_and_fills_gaps() {
    let mut manager = AdvertiseManager::new();
    assert_eq!(manager.new_reg_id(), 0);
    for reg_id in [-3, 5, 1, 0, 3, i32::MAX] {
        manager.add(AdvertisingSetInfo::new(0, 0, 0, false, reg_id));
    }
    assert_eq!(manager.new_reg_id(), 2);
    manager.add(AdvertisingSetInfo::new(0, 0, 0, false, 2));
    assert_eq!(manager.new_reg_id(), 4);
    assert!(manager.remove_by_reg_id(1).is_some());
    assert!(manager.remove_by_reg_id(0).is_some());
    assert_eq!(manager.new_reg_id(), 0);
    assert!(manager.remove_by_reg_id(0).is_none());
    assert_eq!(manager.len(), 5);
}

#[test]
fn test_add_replaces_record_with_same_reg_id() {
    let mut manager = AdvertiseManager::new();
    manager.add(AdvertisingSetInfo::new(1, 10, 1, false, 4));
    manager.add(AdvertisingSetInfo::new(2, 20, 2, true, 4));
    assert_eq!(manager.len(), 1);
    assert_eq!(manager.get_by_reg_id(4), Some(&AdvertisingSetInfo::new(2, 20, 2, true, 4)));
    assert_eq!(manager.get_by_reg_id(5), None);
}

#[test]
fn test_record_accessors() {
    let mut s = AdvertisingSetInfo::new(3, 0xffff, 0xff, true, 9);
    assert_eq!(s.reg_id(), 9);
    assert_eq!(s.callback_id(), 3);
    assert_eq!(s.adv_timeout(), 0xffff);
    assert_eq!(s.adv_events(), 0xff);
    assert!(s.is_legacy());
    assert!(!s.is_valid() && !s.is_enabled() && !s.is_paused() && !s.is_stopped());
    assert_eq!(s.adv_id(), 0xff);
    s.set_adv_id(Some(0x12));
    assert!(s.is_valid());
    assert_eq!(s.adv_id(), 0x12);
    s.set_adv_id(Some(0x1fe));
    assert_eq!(s.adv_id(), 0xfe);
    s.set_enabled(true);
    s.set_paused(true);
    s.set_stopped();
    assert!(s.is_enabled() && s.is_paused() && s.is_stopped());
    s.set_enabled(false);
    s.set_paused(false);
    assert!(!s.is_enabled() && !s.is_paused() && s.is_stopped());
}

#[test]
fn test_lookup_by_advertiser_id_takes_first_record() {
    let mut manager = AdvertiseManager::new();
    for (reg_id, adv_id) in [(0, Some(9)), (1, None), (2, Some(4)), (3, Some(9))] {
        let mut s = AdvertisingSetInfo::new(0, 0, 0, false, reg_id);
        s.set_adv_id(adv_id);
        manager.add(s);
    }
    assert_eq!(manager.find_reg_id(9), Some(0));
    assert_eq!(manager.find_reg_id(4), Some(2));
    assert_eq!(manager.find_reg_id(5), None);
    assert_eq!(manager.find_reg_id(0xff), None);
    assert_eq!(manager.get_by_advertiser_id(4).map(|s| s.reg_id()), Some(2));
    assert_eq!(manager.remove_by_advertiser_id(9).map(|s| s.reg_id()), Some(0));
    assert_eq!(manager.find_reg_id(9), Some(3));
    assert_eq!(manager.remove_by_advertiser_id(9).map(|s| s.reg_id()), Some(3));
    assert_eq!(manager.remove_by_advertiser_id(9), None);
    assert_eq!(manager.valid_sets().len(), 1);
}

#[test]
fn test_register_and_unregister_callback() {
    let mut manager = AdvertiseManager::new();
    assert_eq!(manager.register_callback(3), 3);
    assert_eq!(manager.register_callback(4), 4);
    assert_eq!(manager.register_callback(3), 3);
    manager.enter_suspend();
    let told = |callback_id: CallbackId, suspend_mode: SuspendMode| Action::Notify {
        callback_id,
        event: AdvertisingSetEvent::SuspendModeChange { suspend_mode },
    };
    assert_eq!(
        manager.take_actions(),
        vec![
            told(3, SuspendMode::Suspending),
            told(4, SuspendMode::Suspending),
            told(3, SuspendMode::Suspended),
            told(4, SuspendMode::Suspended),
        ]
    );
    assert!(manager.unregister_callback(3));
    assert!(!manager.unregister_callback(3));
    assert!(!manager.unregister_callback(99));
    manager.exit_suspend();
    assert_eq!(manager.take_actions(), vec![told(4, SuspendMode::Normal)]);
}

#[test]
fn test_start_advertising_set() {
    let mut manager = AdvertiseManager::new();
    manager.initialize(Some(AdapterInfo { name: "abc".to_string(), le_extended_advertising_supported: false }));
    assert_eq!(manager.get_adapter_name(), "abc");
    manager.register_callback(SINK);
    let mut parameters = AdvertisingSetParameters::default();
    parameters.is_legacy = true;
    parameters.connectable = true;
    parameters.interval = 1600;
    let mut data = description(2);
    data.include_device_name = true;
    let mut scan = description(0);
    scan.include_tx_power_level = true;
    let mut periodic = description(0);
    periodic.include_device_name = true;
    let reg_id = manager.start_advertising_set(
        parameters,
        data,
        Some(scan),
        Some(PeriodicAdvertisingParameters { include_tx_power: true, interval: 100 }),
        Some(periodic),
        70000,
        -1,
        SINK,
    );
    assert_eq!(reg_id, 0);
    assert_eq!(
        manager.take_actions(),
        vec![Action::StartAdvertisingSet {
            reg_id: 0,
            params: AdvertiseParameters {
                advertising_event_properties: 0x11,
                min_interval: 1600,
                max_interval: 1650,
                channel_map: 7,
                tx_power: 0,
                primary_advertising_phy: 0,
                secondary_advertising_phy: 0,
                scan_request_notification_enable: 0,
                own_address_type: 0,
            },
            advertise_data: vec![5, 0x09, 0x61, 0x62, 0x63, 0, 3, 0x26, 0x55, 0x55],
            scan_response: vec![2, 0x0a, 0],
            periodic_params: bt_advertising::gatt::PeriodicAdvertisingParameters {
                enable: true,
                include_adi: false,
                min_interval: 100,
                max_interval: 116,
                periodic_advertising_properties: 0x40,
            },
            periodic_data: vec![5, 0x09, 0x61, 0x62, 0x63, 0],
            duration: 0xffff,
            max_ext_adv_events: 0,
        }]
    );
    assert_eq!(manager.get_by_reg_id(0), Some(&AdvertisingSetInfo::new(SINK, 0xffff, 0, true, 0)));
    assert_eq!(start(&mut manager, SINK), 1);
    assert!(manager.remove_by_reg_id(0).is_some());
    assert_eq!(start(&mut manager, SINK), 0);
    assert_eq!(start(&mut manager, SINK), 2);
}

#[test]
fn test_start_without_optional_parts() {
    let mut manager = AdvertiseManager::new();
    assert_eq!(manager.get_adapter_name(), "");
    let mut data = description(0);
    data.include_device_name = true;
    let reg_id = manager.start_advertising_set(
        AdvertisingSetParameters::default(),
        data,
        None,
        None,
        None,
        0,
        300,
        SINK,
    );
    assert_eq!(reg_id, 0);
    let actions = manager.take_actions();
    assert_eq!(actions.len(), 1);
    match &actions[0] {
        Action::StartAdvertisingSet {
            advertise_data,
            scan_response,
            periodic_params,
            periodic_data,
            duration,
            max_ext_adv_events,
            ..
        } => {
            assert_eq!(advertise_data, &Vec::<u8>::new());
            assert_eq!(scan_response, &Vec::<u8>::new());
            assert_eq!(periodic_params, &bt_advertising::gatt::PeriodicAdvertisingParameters::default());
            assert_eq!(periodic_data, &Vec::<u8>::new());
            assert_eq!((*duration, *max_ext_adv_events), (0, 255));
        }
        other => panic!("unexpected action {:?}", other),
    }
}

fn start_with(
    manager: &mut AdvertiseManager,
    is_legacy: bool,
    adv_len: usize,
    scan_len: usize,
    periodic_len: usize,
) -> RegId {
    let mut parameters = AdvertisingSetParameters::default();
    parameters.is_legacy = is_legacy;
    // An AD structure of n bytes carries n - 2 payload bytes.
    manager.start_advertising_set(
        parameters,
        description(adv_len - 2),
        Some(description(scan_len - 2)),
        None,
        Some(description(periodic_len - 2)),
        0,
        0,
        SINK,
    )
}

#[test]
fn test_start_checks_data_sizes() {
    let mut manager = AdvertiseManager::new();
    // Legacy set, no extended advertising: 31 bytes pass, 32 do not.
    assert_eq!(start_with(&mut manager, true, 31, 31, 254), 0);
    assert_eq!(start_with(&mut manager, true, 32, 3, 3), INVALID_REG_ID);
    assert_eq!(start_with(&mut manager, true, 3, 32, 3), INVALID_REG_ID);
    assert_eq!(start_with(&mut manager, true, 3, 3, 255), INVALID_REG_ID);
    // Extended set: 254 bytes pass, 255 do not.
    assert_eq!(start_with(&mut manager, false, 254, 254, 254), 1);
    assert_eq!(start_with(&mut manager, false, 255, 3, 3), INVALID_REG_ID);
    assert_eq!(start_with(&mut manager, false, 3, 255, 3), INVALID_REG_ID);
    assert_eq!(start_with(&mut manager, false, 3, 3, 255), INVALID_REG_ID);
    assert_eq!(manager.len(), 2);
    assert_eq!(manager.take_actions().len(), 2);
    assert!(manager.get_by_reg_id(0).unwrap().is_legacy());
    assert!(!manager.get_by_reg_id(1).unwrap().is_legacy());
}

#[test]
fn test_start_upgrades_legacy_set() {
    let mut manager = AdvertiseManager::new();
    manager.initialize(Some(AdapterInfo { name: String::new(), le_extended_advertising_supported: true }));
    // The advertising data exceeds the legacy limit: the set becomes extended.
    assert_eq!(start_with(&mut manager, true, 32, 100, 3), 0);
    assert!(!manager.get_by_reg_id(0).unwrap().is_legacy());
    match &manager.take_actions()[0] {
        Action::StartAdvertisingSet { params, .. } => assert_eq!(params.advertising_event_properties & 0x10, 0),
        other => panic!("unexpected action {:?}", other),
    }
    // The advertising data fits: the set stays legacy, and a long scan response is refused.
    assert_eq!(start_with(&mut manager, true, 31, 32, 3), INVALID_REG_ID);
    assert_eq!(start_with(&mut manager, true, 31, 31, 3), 1);
    assert!(manager.get_by_reg_id(1).unwrap().is_legacy());
    match &manager.take_actions()[0] {
        Action::StartAdvertisingSet { params, .. } => assert_eq!(params.advertising_event_properties & 0x10, 0x10),
        other => panic!("unexpected action {:?}", other),
    }
}

#[test]
fn test_start_rejected_while_suspended() {
    let mut manager = AdvertiseManager::new();
    manager.enter_suspend();
    assert_eq!(manager.suspend_mode(), SuspendMode::Suspended);
    assert_eq!(start(&mut manager, SINK), INVALID_REG_ID);
    assert_eq!(manager.len(), 0);
    assert_eq!(manager.take_actions(), vec![]);
    manager.exit_suspend();
    assert_eq!(start(&mut manager, SINK), 0);
}

#[test]
fn test_started_confirmation() {
    let mut manager = AdvertiseManager::new();
    manager.register_callback(SINK);
    assert_eq!(start(&mut manager, SINK), 0);
    manager.take_actions();
    manager.on_advertising_set_started(0, 0x21, -3, AdvertisingStatus::Success);
    assert_eq!(
        manager.take_actions(),
        vec![notify(AdvertisingSetEvent::AdvertisingSetStarted {
            reg_id: 0,
            advertiser_id: 0x21,
            tx_power: -3,
            status: AdvertisingStatus::Success
        })]
    );
    let s = *manager.get_by_advertiser_id(0x21).unwrap();
    assert!(s.is_valid() && s.is_enabled());
    assert_eq!((s.reg_id(), s.adv_id()), (0, 0x21));
    assert_eq!(manager.enabled_sets().len(), 1);
}

#[test]
fn test_started_confirmation_with_failure() {
    let mut manager = AdvertiseManager::new();
    manager.register_callback(SINK);
    assert_eq!(start(&mut manager, SINK), 0);
    manager.take_actions();
    manager.on_advertising_set_started(0, 0x21, 0, AdvertisingStatus::TooManyAdvertisers);
    assert_eq!(
        manager.take_actions(),
        vec![notify(AdvertisingSetEvent::AdvertisingSetStarted {
            reg_id: 0,
            advertiser_id: 0x21,
            tx_power: 0,
            status: AdvertisingStatus::TooManyAdvertisers
        })]
    );
    assert_eq!(manager.len(), 0);
}

#[test]
fn test_started_confirmation_without_record() {
    let mut manager = manager_with_started_sets(1);
    manager.on_advertising_set_started(5, 0x33, 0, AdvertisingStatus::Success);
    assert_eq!(manager.take_actions(), vec![Action::Unregister { advertiser_id: 0x33 }]);
    assert_eq!(manager.len(), 1);
}

#[test]
fn test_started_confirmation_for_unregistered_sink() {
    let mut manager = AdvertiseManager::new();
    assert_eq!(start(&mut manager, SINK), 0);
    manager.take_actions();
    manager.on_advertising_set_started(0, 1, 0, AdvertisingStatus::Success);
    assert_eq!(manager.take_actions(), vec![]);
    assert!(manager.get_by_reg_id(0).unwrap().is_enabled());
}

#[test]
fn test_stop_in_normal_mode() {
    let mut manager = manager_with_started_sets(2);
    manager.stop_advertising_set(11);
    assert_eq!(
        manager.take_actions(),
        vec![
            Action::Unregister { advertiser_id: 11 },
            notify(AdvertisingSetEvent::AdvertisingSetStopped { advertiser_id: 11 }),
        ]
    );
    assert_eq!(manager.len(), 1);
    assert!(manager.get_by_advertiser_id(11).is_none());
    manager.stop_advertising_set(11);
    manager.stop_advertising_set(99);
    assert_eq!(manager.take_actions(), vec![]);
    assert_eq!(manager.len(), 1);
}

#[test]
fn test_enter_suspend_without_enabled_sets() {
    let mut manager = AdvertiseManager::new();
    manager.register_callback(SINK);
    assert_eq!(start(&mut manager, SINK), 0);
    manager.take_actions();
    manager.enter_suspend();
    assert_eq!(manager.suspend_mode(), SuspendMode::Suspended);
    assert_eq!(
        manager.take_actions(),
        vec![mode_change(SuspendMode::Suspending), mode_change(SuspendMode::Suspended)]
    );
}

#[test]
fn test_enter_suspend_waits_for_every_enabled_set() {
    let mut manager = manager_with_started_sets(3);
    manager.enter_suspend();
    assert_eq!(manager.suspend_mode(), SuspendMode::Suspending);
    assert_eq!(
        manager.take_actions(),
        vec![mode_change(SuspendMode::Suspending), disable(10), disable(11), disable(12)]
    );
    for s in manager.valid_sets() {
        assert!(s.is_paused() && s.is_enabled());
    }

    manager.on_advertising_enabled(11, false, AdvertisingStatus::Success);
    assert_eq!(manager.suspend_mode(), SuspendMode::Suspending);
    manager.on_advertising_enabled(10, false, AdvertisingStatus::Success);
    assert_eq!(manager.suspend_mode(), SuspendMode::Suspending);
    // A confirmation for an unknown set does not count.
    manager.on_advertising_enabled(77, false, AdvertisingStatus::Success);
    assert_eq!(manager.suspend_mode(), SuspendMode::Suspending);
    manager.take_actions();
    manager.on_advertising_enabled(12, false, AdvertisingStatus::Success);
    assert_eq!(manager.suspend_mode(), SuspendMode::Suspended);
    assert_eq!(
        manager.take_actions(),
        vec![
            notify(AdvertisingSetEvent::AdvertisingEnabled {
                advertiser_id: 12,
                enable: false,
                status: AdvertisingStatus::Success
            }),
            mode_change(SuspendMode::Suspended),
        ]
    );
    assert_eq!(manager.enabled_sets().len(), 0);
}

#[test]
fn test_enter_suspend_skips_disabled_sets() {
    let mut manager = manager_with_started_sets(2);
    manager.on_advertising_enabled(10, false, AdvertisingStatus::Success);
    manager.take_actions();
    manager.enter_suspend();
    assert_eq!(manager.take_actions(), vec![mode_change(SuspendMode::Suspending), disable(11)]);
    assert!(!manager.get_by_advertiser_id(10).unwrap().is_paused());
    assert!(manager.get_by_advertiser_id(11).unwrap().is_paused());
}

#[test]
fn test_exit_suspend_enables_paused_sets() {
    let mut manager = manager_with_started_sets(2);
    manager.on_advertising_enabled(10, false, AdvertisingStatus::Success);
    manager.enter_suspend();
    manager.on_advertising_enabled(11, false, AdvertisingStatus::Success);
    assert_eq!(manager.suspend_mode(), SuspendMode::Suspended);
    manager.take_actions();
    manager.exit_suspend();
    assert_eq!(manager.suspend_mode(), SuspendMode::Normal);
    assert_eq!(manager.take_actions(), vec![enable(11), mode_change(SuspendMode::Normal)]);
    assert!(!manager.get_by_advertiser_id(11).unwrap().is_paused());
    // Leaving suspend twice tells nobody anything.
    manager.exit_suspend();
    assert_eq!(manager.take_actions(), vec![]);
}

#[test]
fn test_stop_while_suspending_is_deferred() {
    let mut manager = manager_with_started_sets(2);
    manager.enter_suspend();
    assert_eq!(manager.suspend_mode(), SuspendMode::Suspending);
    manager.take_actions();

    manager.stop_advertising_set(10);
    assert_eq!(
        manager.take_actions(),
        vec![notify(AdvertisingSetEvent::AdvertisingSetStopped { advertiser_id: 10 })]
    );
    assert!(manager.get_by_advertiser_id(10).unwrap().is_stopped());
    assert_eq!(manager.stopped_sets().len(), 1);
    // A second stop of the same set is not announced again.
    manager.stop_advertising_set(10);
    assert_eq!(manager.take_actions(), vec![]);

    manager.on_advertising_enabled(10, false, AdvertisingStatus::Success);
    manager.on_advertising_enabled(11, false, AdvertisingStatus::Success);
    assert_eq!(manager.suspend_mode(), SuspendMode::Suspended);
    manager.take_actions();

    manager.exit_suspend();
    assert_eq!(
        manager.take_actions(),
        vec![Action::Unregister { advertiser_id: 10 }, enable(11), mode_change(SuspendMode::Normal)]
    );
    assert!(manager.get_by_advertiser_id(10).is_none());
    assert_eq!(manager.len(), 1);
}

#[test]
fn test_unregister_callback_with_valid_and_pending_set() {
    let mut manager = AdvertiseManager::new();
    manager.register_callback(SINK);
    manager.register_callback(8);
    assert_eq!(start(&mut manager, SINK), 0);
    assert_eq!(start(&mut manager, SINK), 1);
    assert_eq!(start(&mut manager, 8), 2);
    manager.on_advertising_set_started(0, 40, 0, AdvertisingStatus::Success);
    manager.on_advertising_set_started(2, 41, 0, AdvertisingStatus::Success);
    manager.take_actions();

    assert!(manager.unregister_callback(SINK));
    assert_eq!(manager.take_actions(), vec![Action::Unregister { advertiser_id: 40 }]);
    assert!(manager.get_by_reg_id(0).is_none());
    let pending = *manager.get_by_reg_id(1).unwrap();
    assert!(pending.is_stopped() && !pending.is_valid());
    let other = *manager.get_by_reg_id(2).unwrap();
    assert!(!other.is_stopped() && other.is_valid());

    manager.on_advertising_set_started(1, 42, 0, AdvertisingStatus::Success);
    assert_eq!(manager.take_actions(), vec![Action::Unregister { advertiser_id: 42 }]);
    assert!(manager.get_by_reg_id(1).is_none());
    assert_eq!(manager.len(), 1);
}

#[test]
fn test_commands_are_forwarded_in_normal_mode() {
    let mut manager = manager_with_started_sets(1);
    manager.initialize(Some(AdapterInfo { name: "n".to_string(), le_extended_advertising_supported: true }));
    manager.get_own_address(10);
    manager.enable_advertising_set(10, false, -4, 256);
    let mut data = description(1);
    data.include_device_name = true;
    manager.set_advertising_data(10, data.clone());
    manager.set_raw_adv_data(10, vec![1, 2, 3]);
    manager.set_scan_response_data(10, data.clone());
    manager.set_periodic_advertising_parameters(10, PeriodicAdvertisingParameters { include_tx_power: false, interval: 90 });
    manager.set_periodic_advertising_data(10, data);
    manager.set_periodic_advertising_enable(10, true, false);
    let encoded = vec![3, 0x09, 0x6e, 0, 2, 0x26, 0x55];
    assert_eq!(
        manager.take_actions(),
        vec![
            Action::GetOwnAddress { advertiser_id: 10 },
            Action::Enable { advertiser_id: 10, enable: false, duration: 0, max_ext_adv_events: 255 },
            Action::SetData { advertiser_id: 10, set_scan_rsp: false, data: encoded.clone() },
            Action::SetData { advertiser_id: 10, set_scan_rsp: false, data: vec![1, 2, 3] },
            Action::SetData { advertiser_id: 10, set_scan_rsp: true, data: encoded.clone() },
            Action::SetPeriodicAdvertisingParameters {
                advertiser_id: 10,
                periodic_params: bt_advertising::gatt::PeriodicAdvertisingParameters {
                    enable: true,
                    include_adi: false,
                    min_interval: 90,
                    max_interval: 106,
                    periodic_advertising_properties: 0,
                }
            },
            Action::SetPeriodicAdvertisingData { advertiser_id: 10, data: encoded },
            Action::SetPeriodicAdvertisingEnable { advertiser_id: 10, enable: true, include_adi: false },
        ]
    );
}

#[test]
fn test_commands_for_unknown_set_or_while_suspended_do_nothing() {
    let mut manager = manager_with_started_sets(1);
    manager.get_own_address(11);
    manager.enable_advertising_set(11, true, 0, 0);
    manager.set_raw_adv_data(11, vec![]);
    manager.set_advertising_parameters(11, AdvertisingSetParameters::default());
    assert_eq!(manager.take_actions(), vec![]);

    manager.enter_suspend();
    manager.take_actions();
    manager.get_own_address(10);
    manager.enable_advertising_set(10, true, 0, 0);
    manager.set_advertising_data(10, description(1));
    manager.set_raw_adv_data(10, vec![]);
    manager.set_scan_response_data(10, description(1));
    manager.set_advertising_parameters(10, AdvertisingSetParameters::default());
    manager.set_periodic_advertising_parameters(10, PeriodicAdvertisingParameters::default());
    manager.set_periodic_advertising_data(10, description(1));
    manager.set_periodic_advertising_enable(10, true, true);
    assert_eq!(manager.take_actions(), vec![]);
}

#[test]
fn test_set_data_checks_size_against_framing_of_set() {
    let mut manager = AdvertiseManager::new();
    assert_eq!(start_with(&mut manager, true, 3, 3, 3), 0);
    assert_eq!(start_with(&mut manager, false, 3, 3, 3), 1);
    manager.on_advertising_set_started(0, 20, 0, AdvertisingStatus::Success);
    manager.on_advertising_set_started(1, 21, 0, AdvertisingStatus::Success);
    manager.take_actions();

    manager.set_raw_adv_data(20, vec![0; 32]);
    manager.set_advertising_data(20, description(30));
    manager.set_scan_response_data(20, description(30));
    manager.set_raw_adv_data(21, vec![0; 255]);
    manager.set_advertising_data(21, description(253));
    manager.set_periodic_advertising_data(20, description(253));
    assert_eq!(manager.take_actions(), vec![]);

    manager.set_raw_adv_data(20, vec![0; 31]);
    manager.set_scan_response_data(20, description(29));
    manager.set_raw_adv_data(21, vec![0; 254]);
    manager.set_periodic_advertising_data(20, description(252));
    let actions = manager.take_actions();
    assert_eq!(actions.len(), 4);
    assert_eq!(actions[0], Action::SetData { advertiser_id: 20, set_scan_rsp: false, data: vec![0; 31] });
    match &actions[3] {
        Action::SetPeriodicAdvertisingData { advertiser_id, data } => {
            assert_eq!((*advertiser_id, data.len()), (20, 254));
        }
        other => panic!("unexpected action {:?}", other),
    }
}

#[test]
fn test_set_parameters_around_enabled_set() {
    let mut manager = manager_with_started_sets(2);
    manager.on_advertising_enabled(11, false, AdvertisingStatus::Success);
    manager.take_actions();
    let mut parameters = AdvertisingSetParameters::default();
    parameters.scannable = true;
    let params = AdvertiseParameters::from(parameters);
    manager.set_advertising_parameters(10, parameters);
    assert_eq!(
        manager.take_actions(),
        vec![disable(10), Action::SetParameters { advertiser_id: 10, params }, enable(10)]
    );
    manager.set_advertising_parameters(11, parameters);
    assert_eq!(manager.take_actions(), vec![Action::SetParameters { advertiser_id: 11, params }]);
}

#[test]
fn test_confirmations_are_relayed() {
    let mut manager = manager_with_started_sets(1);
    let status = AdvertisingStatus::DataTooLarge;
    manager.on_advertising_data_set(10, status);
    manager.on_scan_response_data_set(10, status);
    manager.on_advertising_parameters_updated(10, -9, status);
    manager.on_periodic_advertising_parameters_updated(10, status);
    manager.on_periodic_advertising_data_set(10, status);
    manager.on_periodic_advertising_enabled(10, true, status);
    manager.on_own_address_read(10, 1, RawAddress { address: [0x00, 0x1a, 0x7d, 0xda, 0x71, 0x0f] });
    manager.on_advertising_enabled(10, false, AdvertisingStatus::InternalError);
    assert_eq!(
        manager.take_actions(),
        vec![
            notify(AdvertisingSetEvent::AdvertisingDataSet { advertiser_id: 10, status }),
            notify(AdvertisingSetEvent::ScanResponseDataSet { advertiser_id: 10, status }),
            notify(AdvertisingSetEvent::AdvertisingParametersUpdated { advertiser_id: 10, tx_power: -9, status }),
            notify(AdvertisingSetEvent::PeriodicAdvertisingParametersUpdated { advertiser_id: 10, status }),
            notify(AdvertisingSetEvent::PeriodicAdvertisingDataSet { advertiser_id: 10, status }),
            notify(AdvertisingSetEvent::PeriodicAdvertisingEnabled { advertiser_id: 10, enable: true, status }),
            notify(AdvertisingSetEvent::OwnAddressRead {
                advertiser_id: 10,
                address_type: 1,
                address: "00:1A:7D:DA:71:0F".to_string()
            }),
            notify(AdvertisingSetEvent::AdvertisingEnabled {
                advertiser_id: 10,
                enable: false,
                status: AdvertisingStatus::InternalError
            }),
        ]
    );
    assert!(!manager.get_by_advertiser_id(10).unwrap().is_enabled());

    manager.on_advertising_data_set(11, status);
    manager.on_own_address_read(11, 0, RawAddress { address: [0; 6] });
    manager.on_advertising_enabled(11, true, status);
    assert_eq!(manager.take_actions(), vec![]);
}

#[test]
fn test_suspend_mode_is_announced_only_on_change() {
    let mut manager = manager_with_started_sets(1);
    manager.exit_suspend();
    assert_eq!(manager.take_actions(), vec![]);
    manager.enter_suspend();
    assert_eq!(manager.take_actions(), vec![mode_change(SuspendMode::Suspending), disable(10)]);
    manager.enter_suspend();
    assert_eq!(manager.take_actions(), vec![disable(10)]);
    assert_eq!(manager.suspend_mode(), SuspendMode::Suspending);
}

#[test]
fn test_raw_address_to_string() {
    assert_eq!(RawAddress { address: [0, 1, 0x9a, 0xbc, 0xef, 0xff] }.to_string(), "00:01:9A:BC:EF:FF");
}
