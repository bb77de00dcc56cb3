use bt_advertising::adv_params::AdvertisingSetParameters;
use bt_advertising::adv_params::PeriodicAdvertisingParameters;
use bt_advertising::gatt::AdvertiseParameters;
use bt_advertising::gatt::LePhy;

#[test]
fn test_advertising_parameters_conversion() {
    let p = AdvertisingSetParameters {
        connectable: true,
        scannable: false,
        is_legacy: true,
        is_anonymous: false,
        include_tx_power: true,
        primary_phy: LePhy::Phy1m,
        secondary_phy: LePhy::PhyCoded,
        interval: 400,
        tx_power_level: -21,
        own_address_type: -1,
    };
    let c: AdvertiseParameters = p.into();
    assert_eq!(
        c,
        AdvertiseParameters {
            advertising_event_properties: 0x51,
            min_interval: 400,
            max_interval: 450,
            channel_map: 0x07,
            tx_power: -21,
            primary_advertising_phy: 1,
            secondary_advertising_phy: 3,
            scan_request_notification_enable: 0,
            own_address_type: -1,
        }
    );
}

#[test]
fn test_advertising_parameters_all_flags() {
    let mut p = AdvertisingSetParameters::default();
    assert_eq!(AdvertiseParameters::from(p).advertising_event_properties, 0);
    p.connectable = true;
    p.scannable = true;
    p.is_legacy = true;
    p.is_anonymous = true;
    p.include_tx_power = true;
    assert_eq!(AdvertiseParameters::from(p).advertising_event_properties, 0x73);
    p.connectable = false;
    p.is_legacy = false;
    assert_eq!(AdvertiseParameters::from(p).advertising_event_properties, 0x62);
}

#[test]
fn test_advertising_interval_is_clamped() {
    let mut p = AdvertisingSetParameters::default();
    p.interval = 0;
    let c = AdvertiseParameters::from(p);
    assert_eq!((c.min_interval, c.max_interval), (160, 210));
    p.interval = 159;
    assert_eq!(AdvertiseParameters::from(p).min_interval, 160);
    p.interval = 160;
    assert_eq!(AdvertiseParameters::from(p).min_interval, 160);
    p.interval = -5;
    assert_eq!(AdvertiseParameters::from(p).min_interval, 160);
    p.interval = 0xff_ffff;
    let c = AdvertiseParameters::from(p);
    assert_eq!((c.min_interval, c.max_interval), (0xff_ffff - 50, 0xff_ffff));
    p.interval = i32::MAX;
    let c = AdvertiseParameters::from(p);
    assert_eq!((c.min_interval, c.max_interval), (0xff_ffff - 50, 0xff_ffff));
    p.interval = 0xff_ffff - 51;
    let c = AdvertiseParameters::from(p);
    assert_eq!((c.min_interval, c.max_interval), (0xff_ffff - 51, 0xff_ffff - 1));
}

#[test]
fn test_tx_power_and_address_type_keep_low_byte() {
    let mut p = AdvertisingSetParameters::default();
    p.tx_power_level = 1;
    p.own_address_type = 1;
    let c = AdvertiseParameters::from(p);
    assert_eq!((c.tx_power, c.own_address_type), (1, 1));
    p.tx_power_level = -127;
    p.own_address_type = 0;
    let c = AdvertiseParameters::from(p);
    assert_eq!((c.tx_power, c.own_address_type), (-127, 0));
    p.tx_power_level = 0x17f;
    p.own_address_type = 0x1ff;
    let c = AdvertiseParameters::from(p);
    assert_eq!((c.tx_power, c.own_address_type), (0x7f, -1));
}

#[test]
fn test_periodic_parameters_conversion() {
    let c: bt_advertising::gatt::PeriodicAdvertisingParameters =
        PeriodicAdvertisingParameters { include_tx_power: true, interval: 100 }.into();
    assert_eq!(
        c,
        bt_advertising::gatt::PeriodicAdvertisingParameters {
            enable: true,
            include_adi: false,
            min_interval: 100,
            max_interval: 116,
            periodic_advertising_properties: 0x40,
        }
    );
    let c = bt_advertising::gatt::PeriodicAdvertisingParameters::from(PeriodicAdvertisingParameters {
        include_tx_power: false,
        interval: 0,
    });
    assert_eq!((c.min_interval, c.max_interval, c.periodic_advertising_properties), (80, 96, 0));
    let c = bt_advertising::gatt::PeriodicAdvertisingParameters::from(PeriodicAdvertisingParameters {
        include_tx_power: false,
        interval: 70000,
    });
    assert_eq!((c.min_interval, c.max_interval), (65503, 65519));
    let d = bt_advertising::gatt::PeriodicAdvertisingParameters::default();
    assert_eq!((d.enable, d.include_adi, d.min_interval, d.max_interval), (false, false, 0, 0));
}

#[test]
fn test_le_phy_numbers() {
    assert_eq!(LePhy::Invalid.to_u8(), 0);
    assert_eq!(LePhy::Phy1m.to_u8(), 1);
    assert_eq!(LePhy::Phy2m.to_u8(), 2);
    assert_eq!(LePhy::PhyCoded.to_u8(), 3);
    assert_eq!(LePhy::default(), LePhy::Invalid);
}
