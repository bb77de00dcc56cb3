use bt_advertising::le_audio::BtLeAudioContentType;
use bt_advertising::le_audio::BtLeAudioDirection;
use bt_advertising::le_audio::BtLeAudioGroupNodeStatus;
use bt_advertising::le_audio::BtLeAudioGroupStatus;
use bt_advertising::le_audio::BtLeAudioGroupStreamStatus;
use bt_advertising::le_audio::BtLeAudioSource;
use bt_advertising::le_audio::BtLeAudioUnicastMonitorModeStatus;
use bt_advertising::le_audio::BtLeAudioUsage;
use bt_advertising::le_audio::BtLePcmConfig;
use bt_advertising::le_audio::BtLeStreamStartedStatus;
use bt_advertising::logging::BluetoothLogging;
use bt_advertising::logging::IBluetoothLogging;
use bt_advertising::syslog::Level;
use bt_advertising::sysprop::PropertyBool;
use bt_advertising::sysprop::PropertyI32;

#[test]
fn test_le_audio_numbers_round_trip() {
    for n in 0..=2 {
        assert_eq!(i32::from(BtLeAudioGroupStatus::from(n)), n);
        assert_eq!(i32::from(BtLeAudioUsage::from(n)), n);
        assert_eq!(i32::from(BtLeAudioUnicastMonitorModeStatus::from(n)), n);
    }
    for n in 1..=2 {
        assert_eq!(i32::from(BtLeAudioGroupNodeStatus::from(n)), n);
    }
    for n in 0..=4 {
        assert_eq!(i32::from(BtLeAudioContentType::from(n)), n);
    }
    for n in 0..=7 {
        assert_eq!(i32::from(BtLeAudioSource::from(n)), n);
        assert_eq!(i32::from(BtLeAudioGroupStreamStatus::from(n)), n);
    }
    for n in -1..=1 {
        assert_eq!(i32::from(BtLeStreamStartedStatus::from(n)), n);
    }
    for n in 1..=3 {
        assert_eq!(i32::from(BtLeAudioDirection::from(n)), n);
    }
}

#[test]
fn test_le_audio_values() {
    assert_eq!(BtLeAudioGroupStatus::from(2), BtLeAudioGroupStatus::TurnedIdleDuringCall);
    assert_eq!(BtLeAudioGroupNodeStatus::from(1), BtLeAudioGroupNodeStatus::Added);
    assert_eq!(BtLeAudioSource::from(5), BtLeAudioSource::AudioSourceCamcorder);
    assert_eq!(BtLeStreamStartedStatus::from(-1), BtLeStreamStartedStatus::Canceled);
    assert_eq!(BtLeAudioDirection::from(3), BtLeAudioDirection::Both);
    assert_eq!(BtLeAudioGroupStreamStatus::from(7), BtLeAudioGroupStreamStatus::Destroyed);
    assert_eq!(i32::from(BtLeAudioContentType::AudioContentTypeMovie), 3);
    assert_eq!(BtLeAudioGroupStatus::default(), BtLeAudioGroupStatus::Inactive);
    assert_eq!(BtLeAudioGroupStreamStatus::default(), BtLeAudioGroupStreamStatus::Idle);
    assert_eq!(
        BtLePcmConfig::default(),
        BtLePcmConfig { data_interval_us: 0, sample_rate: 0, bits_per_sample: 0, channels_count: 0 }
    );
}

#[test]
fn test_log_levels() {
    assert_eq!(Level::Verbose.to_u8(), Some(2));
    assert_eq!(Level::Debug.to_u8(), Some(3));
    assert_eq!(Level::Info.to_u8(), Some(4));
    assert_eq!(Level::Warn.to_u8(), Some(5));
    assert_eq!(Level::Error.to_u8(), Some(6));
    assert_eq!(Level::Fatal.to_u8(), Some(7));
}

#[test]
fn test_system_properties() {
    assert_eq!(PropertyI32::LeInquiryScanInterval.into(), ("bluetooth.core.le.inquiry_scan_interval", 36));
    assert_eq!(PropertyI32::LeInquiryScanWindow.into(), ("bluetooth.core.le.inquiry_scan_window", 18));
    assert_eq!(PropertyI32::LeAdvMonScanInterval.into(), ("bluetooth.core.le.adv_mon_scan_interval", 40));
    assert_eq!(PropertyI32::LeAdvMonScanWindow.into(), ("bluetooth.core.le.adv_mon_scan_window", 20));
    assert_eq!(PropertyI32::ProductId.into(), ("bluetooth.device_id.product_id", 0));
    assert_eq!(PropertyI32::ProductVersion.into(), ("bluetooth.device_id.product_version", 0));
    assert_eq!(PropertyI32::VendorId.into(), ("bluetooth.device_id.vendor_id", 0xE0));
    assert_eq!(PropertyI32::VendorIdSource.into(), ("bluetooth.device_id.vendor_id_source", 1));
    assert_eq!(PropertyBool::LeAdvMonRtlQuirk.into(), ("bluetooth.core.le.adv_mon_rtl_quirk", false));
    assert_eq!(PropertyBool::LeAdvMonQcaQuirk.into(), ("bluetooth.core.le.adv_mon_qca_quirk", false));
    assert_eq!(
        PropertyBool::LeAudioEnableLeAudioOnly.into(),
        ("bluetooth.le_audio.enable_le_audio_only", false)
    );
}

#[test]
fn test_debug_logging_switch() {
    let mut logging = BluetoothLogging::new(true, false, "stderr");
    assert!(logging.is_stderr);
    assert!(!BluetoothLogging::new(true, false, "syslog").is_stderr);
    assert!(!BluetoothLogging::new(true, false, "").is_stderr);
    assert!(!logging.is_debug_enabled());
    logging.set_debug_logging(false);
    assert!(logging.is_debug);
    assert_eq!(logging.get_libbluetooth_level(), Level::Debug);
    assert!(logging.limits_verbose_tags());
    logging.initialize();
    assert!(logging.is_debug_enabled());
    logging.set_debug_logging(false);
    assert!(!logging.is_debug_enabled());
    assert_eq!(logging.get_libbluetooth_level(), Level::Info);
    assert!(!logging.limits_verbose_tags());
    let verbose = BluetoothLogging::new(true, true, "syslog");
    assert_eq!(verbose.get_libbluetooth_level(), Level::Verbose);
    assert!(!verbose.limits_verbose_tags());
    assert_eq!(BluetoothLogging::new(false, true, "syslog").get_libbluetooth_level(), Level::Info);
}
