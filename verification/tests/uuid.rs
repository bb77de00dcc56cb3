use bt_advertising::uuid::Profile;
use bt_advertising::uuid::Uuid;
use bt_advertising::uuid::UuidHelper;

fn all_profiles() -> Vec<Profile> {
    vec![
        Profile::A2dpSink,
        Profile::A2dpSource,
        Profile::AdvAudioDist,
        Profile::Bas,
        Profile::Dis,
        Profile::Hsp,
        Profile::HspAg,
        Profile::Hfp,
        Profile::HfpAg,
        Profile::AvrcpController,
        Profile::AvrcpTarget,
        Profile::ObexObjectPush,
        Profile::Hid,
        Profile::Hogp,
        Profile::Panu,
        Profile::Nap,
        Profile::Bnep,
        Profile::PbapPce,
        Profile::PbapPse,
        Profile::MessageAccess,
        Profile::Mns,
        Profile::Mas,
        Profile::Sap,
        Profile::HearingAid,
        Profile::LeAudio,
        Profile::Dip,
        Profile::VolumeControl,
        Profile::GenericMediaControl,
        Profile::MediaControl,
        Profile::CoordinatedSet,
    ]
}

#[test]
fn test_uuidhelper() {
    for profile in all_profiles() {
        let uuid = UuidHelper::get_profile_uuid(&profile).unwrap();
        let converted = Uuid::from_string(&uuid.to_string()).unwrap();
        assert_eq!(uuid, converted);
    }
}

#[test]
fn test_known_profiles_round_trip() {
    for profile in all_profiles() {
        let uuid = UuidHelper::get_profile_uuid(&profile).unwrap();
        assert_eq!(UuidHelper::is_known_profile(&uuid), Some(profile));
    }
    let a2dp_sink = Uuid::from_string("0000110B-0000-1000-8000-00805F9B34FB").unwrap();
    assert_eq!(UuidHelper::is_known_profile(&a2dp_sink), Some(Profile::A2dpSink));
    let bnep = Uuid::from_string("0000000f-0000-1000-8000-00805F9B34FB").unwrap();
    assert_eq!(UuidHelper::is_known_profile(&bnep), Some(Profile::Bnep));
    let base = Uuid::from_string("00000000-0000-1000-8000-00805F9B34FB").unwrap();
    assert_eq!(UuidHelper::is_known_profile(&base), None);
    let wide = Uuid::from_string("0001110B-0000-1000-8000-00805F9B34FB").unwrap();
    assert_eq!(UuidHelper::is_known_profile(&wide), None);
    assert_eq!(UuidHelper::is_known_profile(&Uuid::from([1u8; 16])), None);
}

#[test]
fn test_supported_profiles() {
    let ordered = UuidHelper::get_ordered_supported_profiles();
    assert_eq!(
        ordered,
        vec![
            Profile::A2dpSink,
            Profile::A2dpSource,
            Profile::AvrcpController,
            Profile::AvrcpTarget,
            Profile::Bas,
            Profile::Hsp,
            Profile::Hfp,
            Profile::Hid,
            Profile::Hogp,
            Profile::LeAudio,
            Profile::Panu,
            Profile::PbapPce,
            Profile::MessageAccess,
            Profile::HearingAid,
            Profile::VolumeControl,
            Profile::CoordinatedSet,
        ]
    );
    let set = UuidHelper::get_supported_profiles();
    assert_eq!(set.len(), 16);
    for profile in all_profiles() {
        let supported = ordered.contains(&profile);
        assert_eq!(UuidHelper::is_profile_supported(&profile), supported);
        assert_eq!(set.contains(&profile), supported);
    }
    assert!(UuidHelper::is_profile_supported(&Profile::A2dpSink));
    assert!(!UuidHelper::is_profile_supported(&Profile::Dis));
}

#[test]
fn test_uuid_from_string() {
    assert_eq!(
        UuidHelper::from_string("00010203-0405-0607-0809-0a0b0c0d0e0f"),
        Some([0, 1, 2, 3, 4, 5, 6, 7, 8, 9, 10, 11, 12, 13, 14, 15])
    );
    assert_eq!(
        UuidHelper::from_string("FFEEDDCC-bbaa-9988-7766-554433221100"),
        Some([0xff, 0xee, 0xdd, 0xcc, 0xbb, 0xaa, 0x99, 0x88, 0x77, 0x66, 0x55, 0x44, 0x33, 0x22, 0x11, 0])
    );
    assert_eq!(UuidHelper::from_string(""), None);
    assert_eq!(UuidHelper::from_string("fef3"), None);
    assert_eq!(UuidHelper::from_string("000102030405060708090a0b0c0d0e0f"), None);
    assert_eq!(UuidHelper::from_string("00010203-0405-0607-0809-0a0b0c0d0e0"), None);
    assert_eq!(UuidHelper::from_string("00010203-0405-0607-0809-0a0b0c0d0e0f0"), None);
    assert_eq!(UuidHelper::from_string("00010203_0405-0607-0809-0a0b0c0d0e0f"), None);
    assert_eq!(UuidHelper::from_string("0001020g-0405-0607-0809-0a0b0c0d0e0f"), None);
    assert_eq!(UuidHelper::from_string("00010203-04050-607-0809-0a0b0c0d0e0f"), None);
    assert_eq!(UuidHelper::parse_string("fef3"), None);
    assert_eq!(
        UuidHelper::parse_string("0000fef3-0000-1000-8000-00805f9b34fb"),
        Some(Uuid { uu: [0, 0, 0xfe, 0xf3, 0, 0, 0x10, 0, 0x80, 0, 0, 0x80, 0x5f, 0x9b, 0x34, 0xfb] })
    );
}

#[test]
fn test_uuid_to_string() {
    let uuid = Uuid { uu: [0, 0x11, 0x22, 0x33, 0xaa, 0xbb, 0xcc, 0xdd, 0xee, 0xff, 0x0a, 0xb0, 9, 0x90, 0x1f, 0xf1] };
    assert_eq!(uuid.to_string(), "00112233-aabb-ccdd-eeff-0ab009901ff1");
    assert_eq!(Uuid::from_string(&uuid.to_string()), Some(uuid));
}

#[test]
fn test_get_shortest_slice() {
    let uuid_16 = UuidHelper::from_string("0000fef3-0000-1000-8000-00805f9b34fb").unwrap();
    assert_eq!(UuidHelper::get_shortest_slice(&uuid_16), &[0xfe, 0xf3]);
    assert!(UuidHelper::in_16bit_uuid_range(&uuid_16));
    assert!(UuidHelper::in_32bit_uuid_range(&uuid_16));
    let uuid_32 = UuidHelper::from_string("00112233-0000-1000-8000-00805f9b34fb").unwrap();
    assert_eq!(UuidHelper::get_shortest_slice(&uuid_32), &[0x00, 0x11, 0x22, 0x33]);
    assert!(!UuidHelper::in_16bit_uuid_range(&uuid_32));
    assert!(UuidHelper::in_32bit_uuid_range(&uuid_32));
    let uuid_128 = UuidHelper::from_string("0000fef3-0000-1000-8000-00805f9b34fc").unwrap();
    assert_eq!(UuidHelper::get_shortest_slice(&uuid_128), &uuid_128[..]);
    assert!(!UuidHelper::in_32bit_uuid_range(&uuid_128));
}

#[test]
fn test_profile_names() {
    assert_eq!(Profile::A2dpSink.to_string(), "A2dpSink");
    assert_eq!(Profile::MessageAccess.to_string(), "Map");
    assert_eq!(Profile::CoordinatedSet.name(), "CoordinatedSet");
    let mut names: Vec<String> = all_profiles().iter().map(|p| p.to_string()).collect();
    names.sort();
    names.dedup();
    assert_eq!(names.len(), 30);
}

#[test]
fn test_known_uuid_to_string() {
    let a2dp_sink = Uuid::from_string("0000110B-0000-1000-8000-00805F9B34FB").unwrap();
    assert_eq!(UuidHelper::known_uuid_to_string(&a2dp_sink), "0000110b-0000-1000-8000-00805f9b34fb: A2dpSink");
    let map = UuidHelper::get_profile_uuid(&Profile::MessageAccess).unwrap();
    assert_eq!(UuidHelper::known_uuid_to_string(&map), "00001134-0000-1000-8000-00805f9b34fb: Map");
    let other = Uuid::from_string("00112233-0000-1000-8000-00805f9b34fb").unwrap();
    assert_eq!(UuidHelper::known_uuid_to_string(&other), "00112233-0000-1000-8000-00805f9b34fb");
}
