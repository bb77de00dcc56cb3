use bt_advertising::adv_data::AdvertiseData;
use bt_advertising::adv_params::AdvertisingSetParameters;
use bt_advertising::uuid::Uuid;
use bt_advertising::uuid::UuidHelper;
use std::collections::HashMap;
use std::iter::FromIterator;

fn uuid(text: &str) -> Uuid {
    Uuid::from(UuidHelper::from_string(text).unwrap())
}

#[test]
fn test_append_ad_data_clamped() {
    let mut bytes = Vec::<u8>::new();
    let mut ans = Vec::<u8>::new();
    ans.push(255);
    ans.push(102);
    ans.extend(Vec::<u8>::from_iter(0..254));

    let payload = Vec::<u8>::from_iter(0..255);
    AdvertiseData::append_adv_data(&mut bytes, 102, &payload);
    assert_eq!(bytes, ans);
}

#[test]
fn test_append_ad_data_multiple() {
    let mut bytes = Vec::<u8>::new();

    let payload = vec![0 as u8, 1, 2, 3, 4];
    AdvertiseData::append_adv_data(&mut bytes, 100, &payload);
    AdvertiseData::append_adv_data(&mut bytes, 101, &[0]);
    assert_eq!(bytes, vec![6 as u8, 100, 0, 1, 2, 3, 4, 2, 101, 0]);
}

#[test]
fn test_append_ad_data_empty_payload() {
    let mut bytes = Vec::<u8>::new();
    AdvertiseData::append_adv_data(&mut bytes, 0x26, &[]);
    assert_eq!(bytes, vec![1u8, 0x26]);
}

#[test]
fn test_append_ad_data_exactly_254() {
    let mut bytes = Vec::<u8>::new();
    let payload = vec![7u8; 254];
    AdvertiseData::append_adv_data(&mut bytes, 0x66, &payload);
    assert_eq!(bytes.len(), 256);
    assert_eq!(bytes[0], 255);
    assert_eq!(bytes[1], 0x66);
    assert_eq!(&bytes[2..], payload.as_slice());
}

#[test]
fn test_append_service_uuids() {
    let mut bytes = Vec::<u8>::new();
    let uuid_16 = uuid("0000fef3-0000-1000-8000-00805f9b34fb");
    let uuids = vec![uuid_16.clone()];
    let exp_16: Vec<u8> = vec![3, 0x3, 0xf3, 0xfe];
    AdvertiseData::append_service_uuids(&mut bytes, &uuids);
    assert_eq!(bytes, exp_16);

    let mut bytes = Vec::<u8>::new();
    let uuid_32 = uuid("00112233-0000-1000-8000-00805f9b34fb");
    let uuids = vec![uuid_32.clone()];
    let exp_32: Vec<u8> = vec![5, 0x5, 0x33, 0x22, 0x11, 0x0];
    AdvertiseData::append_service_uuids(&mut bytes, &uuids);
    assert_eq!(bytes, exp_32);

    let mut bytes = Vec::<u8>::new();
    let uuid_128 = uuid("00010203-0405-0607-0809-0a0b0c0d0e0f");
    let uuids = vec![uuid_128.clone()];
    let exp_128: Vec<u8> =
        vec![17, 0x7, 0xf, 0xe, 0xd, 0xc, 0xb, 0xa, 0x9, 0x8, 0x7, 0x6, 0x5, 0x4, 0x3, 0x2, 0x1, 0x0];
    AdvertiseData::append_service_uuids(&mut bytes, &uuids);
    assert_eq!(bytes, exp_128);

    let mut bytes = Vec::<u8>::new();
    let uuids = vec![uuid_16, uuid_32, uuid_128];
    let exp_bytes: Vec<u8> = [exp_16.as_slice(), exp_32.as_slice(), exp_128.as_slice()].concat();
    AdvertiseData::append_service_uuids(&mut bytes, &uuids);
    assert_eq!(bytes, exp_bytes);

    // Interleaved UUIDs.
    let mut bytes = Vec::<u8>::new();
    let uuid_16_2 = uuid("0000aabb-0000-1000-8000-00805f9b34fb");
    let uuids = vec![uuid_16, uuid_128, uuid_16_2, uuid_32];
    let exp_16: Vec<u8> = vec![5, 0x3, 0xf3, 0xfe, 0xbb, 0xaa];
    let exp_bytes: Vec<u8> = [exp_16.as_slice(), exp_32.as_slice(), exp_128.as_slice()].concat();
    AdvertiseData::append_service_uuids(&mut bytes, &uuids);
    assert_eq!(bytes, exp_bytes);
}

#[test]
fn test_append_solicit_uuids() {
    let mut bytes = Vec::<u8>::new();
    let uuid_16 = uuid("0000fef3-0000-1000-8000-00805f9b34fb");
    let uuid_32 = uuid("00112233-0000-1000-8000-00805f9b34fb");
    let uuid_128 = uuid("00010203-0405-0607-0809-0a0b0c0d0e0f");
    let uuids = vec![uuid_16, uuid_32, uuid_128];
    let exp_16: Vec<u8> = vec![3, 0x14, 0xf3, 0xfe];
    let exp_32: Vec<u8> = vec![5, 0x1f, 0x33, 0x22, 0x11, 0x0];
    let exp_128: Vec<u8> =
        vec![17, 0x15, 0xf, 0xe, 0xd, 0xc, 0xb, 0xa, 0x9, 0x8, 0x7, 0x6, 0x5, 0x4, 0x3, 0x2, 0x1, 0x0];
    let exp_bytes: Vec<u8> = [exp_16.as_slice(), exp_32.as_slice(), exp_128.as_slice()].concat();
    AdvertiseData::append_solicit_uuids(&mut bytes, &uuids);
    assert_eq!(bytes, exp_bytes);
}

#[test]
fn test_append_uuids_width_order_ignores_input_order() {
    let uuid_16 = uuid("0000fef3-0000-1000-8000-00805f9b34fb");
    let uuid_32 = uuid("00112233-0000-1000-8000-00805f9b34fb");
    let uuid_128 = uuid("00010203-0405-0607-0809-0a0b0c0d0e0f");
    let mut forward = Vec::<u8>::new();
    AdvertiseData::append_service_uuids(&mut forward, &vec![uuid_16, uuid_32, uuid_128]);
    let mut backward = Vec::<u8>::new();
    AdvertiseData::append_service_uuids(&mut backward, &vec![uuid_128, uuid_32, uuid_16]);
    assert_eq!(forward, backward);
    assert_eq!(&forward[..4], &[3u8, 0x3, 0xf3, 0xfe]);
}

#[test]
fn test_append_uuids_none() {
    let mut bytes = vec![9u8];
    AdvertiseData::append_service_uuids(&mut bytes, &Vec::new());
    assert_eq!(bytes, vec![9u8]);
}

#[test]
fn test_append_service_data_good_id() {
    let mut bytes = Vec::<u8>::new();
    let uuid_str = "0000fef3-0000-1000-8000-00805f9b34fb".to_string();
    let mut service_data = Vec::new();
    let data: Vec<u8> = vec![
        0x4A, 0x17, 0x23, 0x41, 0x39, 0x37, 0x45, 0x11, 0x16, 0x60, 0x1D, 0xB8, 0x27, 0xA2, 0xEF, 0xAA, 0xFE,
        0x58, 0x04, 0x9F, 0xE3, 0x8F, 0xD0, 0x04, 0x29, 0x4F, 0xC2,
    ];
    service_data.push((uuid_str, data.clone()));
    let mut exp_bytes: Vec<u8> = vec![30, 0x16, 0xf3, 0xfe];
    exp_bytes.extend(data);
    AdvertiseData::append_service_data(&mut bytes, &service_data);
    assert_eq!(bytes, exp_bytes);
}

#[test]
fn test_append_service_data_bad_id() {
    let mut bytes = Vec::<u8>::new();
    let uuid_str = "fef3".to_string();
    let mut service_data = Vec::new();
    let data: Vec<u8> = vec![
        0x4A, 0x17, 0x23, 0x41, 0x39, 0x37, 0x45, 0x11, 0x16, 0x60, 0x1D, 0xB8, 0x27, 0xA2, 0xEF, 0xAA, 0xFE,
        0x58, 0x04, 0x9F, 0xE3, 0x8F, 0xD0, 0x04, 0x29, 0x4F, 0xC2,
    ];
    service_data.push((uuid_str, data.clone()));
    let exp_bytes: Vec<u8> = Vec::new();
    AdvertiseData::append_service_data(&mut bytes, &service_data);
    assert_eq!(bytes, exp_bytes);
}

#[test]
fn test_append_service_data_wider_ids() {
    let mut bytes = Vec::<u8>::new();
    let service_data = vec![
        ("00112233-0000-1000-8000-00805f9b34fb".to_string(), vec![1u8, 2]),
        ("not a uuid".to_string(), vec![9u8]),
        ("00010203-0405-0607-0809-0A0B0C0D0E0F".to_string(), vec![3u8]),
    ];
    AdvertiseData::append_service_data(&mut bytes, &service_data);
    let exp_bytes: Vec<u8> = vec![
        7, 0x20, 0x33, 0x22, 0x11, 0x00, 1, 2, 18, 0x21, 0xf, 0xe, 0xd, 0xc, 0xb, 0xa, 0x9, 0x8, 0x7, 0x6, 0x5,
        0x4, 0x3, 0x2, 0x1, 0x0, 3,
    ];
    assert_eq!(bytes, exp_bytes);
}

#[test]
fn test_append_device_name() {
    let mut bytes = Vec::<u8>::new();
    let complete_name = "abc".to_string();
    let exp_bytes: Vec<u8> = vec![5, 0x9, 0x61, 0x62, 0x63, 0x0];
    AdvertiseData::append_device_name(&mut bytes, &complete_name);
    assert_eq!(bytes, exp_bytes);

    let mut bytes = Vec::<u8>::new();
    let shortened_name = "abcdefghijklmnopqrstuvwxyz7890".to_string();
    let exp_bytes: Vec<u8> = vec![
        28, 0x8, 0x61, 0x62, 0x63, 0x64, 0x65, 0x66, 0x67, 0x68, 0x69, 0x6a, 0x6b, 0x6c, 0x6d, 0x6e, 0x6f, 0x70,
        0x71, 0x72, 0x73, 0x74, 0x75, 0x76, 0x77, 0x78, 0x79, 0x7a, 0x0,
    ];
    AdvertiseData::append_device_name(&mut bytes, &shortened_name);
    assert_eq!(bytes, exp_bytes);
}

#[test]
fn test_append_device_name_edges() {
    let mut bytes = Vec::<u8>::new();
    AdvertiseData::append_device_name(&mut bytes, &String::new());
    assert_eq!(bytes, Vec::<u8>::new());

    let mut bytes = Vec::<u8>::new();
    let name = "abcdefghijklmnopqrstuvwxyz".to_string();
    AdvertiseData::append_device_name(&mut bytes, &name);
    assert_eq!(bytes.len(), 29);
    assert_eq!(bytes[0], 28);
    assert_eq!(bytes[1], 0x9);
    assert_eq!(&bytes[2..28], name.as_bytes());
    assert_eq!(bytes[28], 0);

    let mut bytes = Vec::<u8>::new();
    let name = "abcdefghijklmnopqrstuvwxyz7".to_string();
    AdvertiseData::append_device_name(&mut bytes, &name);
    assert_eq!(bytes.len(), 29);
    assert_eq!(bytes[1], 0x8);
    assert_eq!(&bytes[2..28], &name.as_bytes()[..26]);
}

#[test]
fn test_append_manufacturer_data() {
    let mut bytes = Vec::<u8>::new();
    let manufacturer_data = HashMap::from([(0x0123 as u16, vec![0, 1, 2])]);
    let exp_bytes: Vec<u8> = vec![6, 0xff, 0x23, 0x01, 0x0, 0x1, 0x2];
    AdvertiseData::append_manufacturer_data(&mut bytes, &manufacturer_data);
    assert_eq!(bytes, exp_bytes);
}

#[test]
fn test_append_manufacturer_data_ascending_ids() {
    let mut manufacturer_data = HashMap::new();
    for id in [0xffffu16, 0x0200, 0x0001, 0x1234, 0x00ff, 0x0100, 0x0000, 0x8000] {
        manufacturer_data.insert(id, vec![(id % 256) as u8]);
    }
    let mut bytes = Vec::<u8>::new();
    AdvertiseData::append_manufacturer_data(&mut bytes, &manufacturer_data);
    let mut exp_bytes = Vec::<u8>::new();
    for id in [0x0000u16, 0x0001, 0x00ff, 0x0100, 0x0200, 0x1234, 0x8000, 0xffff] {
        exp_bytes.extend([4, 0xff, (id % 256) as u8, (id / 256) as u8, (id % 256) as u8]);
    }
    assert_eq!(bytes, exp_bytes);
}

#[test]
fn test_append_transport_discovery_data() {
    let mut bytes = Vec::<u8>::new();
    let transport_discovery_data = vec![vec![0, 1, 2]];
    let exp_bytes: Vec<u8> = vec![0x4, 0x26, 0x0, 0x1, 0x2];
    AdvertiseData::append_transport_discovery_data(&mut bytes, &transport_discovery_data);
    assert_eq!(bytes, exp_bytes);

    let mut bytes = Vec::<u8>::new();
    let transport_discovery_data = vec![vec![1, 2, 4, 8], vec![0xa, 0xb]];
    let exp_bytes: Vec<u8> = vec![0x5, 0x26, 0x1, 0x2, 0x4, 0x8, 3, 0x26, 0xa, 0xb];
    AdvertiseData::append_transport_discovery_data(&mut bytes, &transport_discovery_data);
    assert_eq!(bytes, exp_bytes);
}

#[test]
fn test_append_transport_discovery_data_skips_empty() {
    let mut bytes = Vec::<u8>::new();
    let transport_discovery_data = vec![vec![], vec![5u8], vec![]];
    AdvertiseData::append_transport_discovery_data(&mut bytes, &transport_discovery_data);
    assert_eq!(bytes, vec![2u8, 0x26, 5]);
}

fn full_description() -> AdvertiseData {
    AdvertiseData {
        service_uuids: vec![uuid("0000fef3-0000-1000-8000-00805f9b34fb")],
        solicit_uuids: vec![uuid("00112233-0000-1000-8000-00805f9b34fb")],
        transport_discovery_data: vec![vec![0xaa]],
        manufacturer_data: HashMap::from([(0x0123u16, vec![7u8])]),
        service_data: vec![("0000fef3-0000-1000-8000-00805f9b34fb".to_string(), vec![8u8])],
        include_tx_power_level: true,
        include_device_name: true,
    }
}

#[test]
fn test_make_with_order_of_fields() {
    let bytes = full_description().make_with(&"ab".to_string());
    let exp_bytes: Vec<u8> = vec![
        4, 0x09, 0x61, 0x62, 0, // name
        2, 0x0a, 0, // tx power
        4, 0xff, 0x23, 0x01, 7, // manufacturer
        3, 0x03, 0xf3, 0xfe, // service uuids
        4, 0x16, 0xf3, 0xfe, 8, // service data
        5, 0x1f, 0x33, 0x22, 0x11, 0x00, // solicitation uuids
        2, 0x26, 0xaa, // transport discovery
    ];
    assert_eq!(bytes, exp_bytes);
}

#[test]
fn test_make_with_twice_gives_same_bytes() {
    let data = full_description();
    let name = "device".to_string();
    assert_eq!(data.make_with(&name), data.make_with(&name));
    assert_eq!(data.make_with(&name), data.clone().make_with(&name));
}

#[test]
fn test_make_with_flags_off() {
    let mut data = full_description();
    data.include_device_name = false;
    data.include_tx_power_level = false;
    let bytes = data.make_with(&"ab".to_string());
    assert_eq!(&bytes[..5], &[4u8, 0xff, 0x23, 0x01, 7]);
    assert_eq!(AdvertiseData::default().make_with(&"ab".to_string()), Vec::<u8>::new());
}

#[test]
fn test_validate_raw_data_boundaries() {
    assert!(AdvertiseData::validate_raw_data(true, &vec![0u8; 0]));
    assert!(AdvertiseData::validate_raw_data(true, &vec![0u8; 31]));
    assert!(!AdvertiseData::validate_raw_data(true, &vec![0u8; 32]));
    assert!(AdvertiseData::validate_raw_data(false, &vec![0u8; 32]));
    assert!(AdvertiseData::validate_raw_data(false, &vec![0u8; 254]));
    assert!(!AdvertiseData::validate_raw_data(false, &vec![0u8; 255]));
}

#[test]
fn test_can_upgrade() {
    let mut legacy = AdvertisingSetParameters::default();
    legacy.is_legacy = true;

    let mut p = legacy;
    assert!(AdvertiseData::can_upgrade(&mut p, &vec![0u8; 32], true));
    assert!(!p.is_legacy);

    let mut p = legacy;
    assert!(!AdvertiseData::can_upgrade(&mut p, &vec![0u8; 31], true));
    assert!(p.is_legacy);

    let mut p = legacy;
    assert!(!AdvertiseData::can_upgrade(&mut p, &vec![0u8; 32], false));
    assert!(p.is_legacy);

    let mut p = AdvertisingSetParameters::default();
    assert!(!AdvertiseData::can_upgrade(&mut p, &vec![0u8; 32], true));
    assert!(!p.is_legacy);
}

#[test]
fn test_insert_service_data() {
    let mut data = AdvertiseData::default();
    assert_eq!(data.insert_service_data("a".to_string(), vec![1]), None);
    assert_eq!(data.insert_service_data("b".to_string(), vec![2]), None);
    assert_eq!(data.insert_service_data("a".to_string(), vec![3, 4]), Some(vec![1]));
    assert_eq!(data.service_data, vec![("a".to_string(), vec![3, 4]), ("b".to_string(), vec![2])]);
}
