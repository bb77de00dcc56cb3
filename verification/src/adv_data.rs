//! Advertising-data encoder: turns an advertisement description into the
//! sequence of AD structures that goes on the air.

use vstd::prelude::*;
use vstd::string::StringSliceAdditionalSpecFns;
use vstd::std_specs::iter::IteratorSpec;
use num_traits::clamp;
use std::collections::HashMap;
use crate::adv_params::AdvertisingSetParameters;
use crate::deps::sorted_u16;
use crate::uuid::Uuid;
use crate::uuid::UuidHelper;
use crate::uuid::is_uuid_text;
use crate::uuid::shortest_slice;
use crate::uuid::uuid_from_text;

verus! {

/// Manufacturer identifier.
pub type ManfId = u16;

/// Longest name that is sent in full.
pub const DEVICE_NAME_MAX: usize = 26;

/// AD type of the list of 16-bit service UUIDs.
pub const COMPLETE_LIST_16_BIT_SERVICE_UUIDS: u8 = 0x03;

/// AD type of the list of 32-bit service UUIDs.
pub const COMPLETE_LIST_32_BIT_SERVICE_UUIDS: u8 = 0x05;

/// AD type of the list of 128-bit service UUIDs.
pub const COMPLETE_LIST_128_BIT_SERVICE_UUIDS: u8 = 0x07;

/// AD type of a device name that was cut.
pub const SHORTENED_LOCAL_NAME: u8 = 0x08;

/// AD type of a device name in full.
pub const COMPLETE_LOCAL_NAME: u8 = 0x09;

/// AD type of the TX power level.
pub const TX_POWER_LEVEL: u8 = 0x0a;

/// AD type of the list of 16-bit solicitation UUIDs.
pub const LIST_16_BIT_SERVICE_SOLICITATION_UUIDS: u8 = 0x14;

/// AD type of the list of 128-bit solicitation UUIDs.
pub const LIST_128_BIT_SERVICE_SOLICITATION_UUIDS: u8 = 0x15;

/// AD type of service data under a 16-bit UUID.
pub const SERVICE_DATA_16_BIT_UUID: u8 = 0x16;

/// AD type of the list of 32-bit solicitation UUIDs.
pub const LIST_32_BIT_SERVICE_SOLICITATION_UUIDS: u8 = 0x1f;

/// AD type of service data under a 32-bit UUID.
pub const SERVICE_DATA_32_BIT_UUID: u8 = 0x20;

/// AD type of service data under a 128-bit UUID.
pub const SERVICE_DATA_128_BIT_UUID: u8 = 0x21;

/// AD type of transport discovery data.
pub const TRANSPORT_DISCOVERY_DATA: u8 = 0x26;

/// AD type of manufacturer specific data.
pub const MANUFACTURER_SPECIFIC_DATA: u8 = 0xff;

/// Longest advertising data of a legacy set.
pub const LEGACY_ADV_DATA_LEN_MAX: usize = 31;

/// Longest advertising data of an extended set.
pub const EXT_ADV_DATA_LEN_MAX: usize = 254;

/// Longest payload of one AD structure.
pub const AD_PAYLOAD_MAX: usize = 254;

/// Represents the data to be advertised and the scan response data for active scans.
#[derive(Debug, Clone)]
pub struct AdvertiseData {
    /// Service UUIDs that identify the Bluetooth GATT services.
    pub service_uuids: Vec<Uuid>,
    /// Service solicitation UUIDs that we invite to connect.
    pub solicit_uuids: Vec<Uuid>,
    /// Transport discovery data.
    pub transport_discovery_data: Vec<Vec<u8>>,
    /// Manufacturer id and the corresponding manufacturer specific data.
    pub manufacturer_data: HashMap<ManfId, Vec<u8>>,
    /// Service data, each under the textual UUID of its service, in the
    /// order in which it is sent. A well-formed description has no UUID
    /// text twice; [`AdvertiseData::insert_service_data`] keeps it so.
    pub service_data: Vec<(String, Vec<u8>)>,
    /// Whether TX Power level will be included in the advertising packet.
    pub include_tx_power_level: bool,
    /// Whether the device name will be included in the advertisement packet.
    pub include_device_name: bool,
}

/// An advertisement description as plain values.
pub struct AdvertiseDataView {
    pub service_uuids: Seq<Seq<u8>>,
    pub solicit_uuids: Seq<Seq<u8>>,
    pub transport_discovery_data: Seq<Seq<u8>>,
    pub manufacturer_data: Map<u16, Seq<u8>>,
    pub service_data: Seq<(Seq<u8>, Seq<u8>)>,
    pub include_tx_power_level: bool,
    pub include_device_name: bool,
}

/// The 128-bit values of a list of UUIDs.
pub open spec fn uuid_values(uuids: Seq<Uuid>) -> Seq<Seq<u8>> {
    uuids.map_values(|u: Uuid| u@)
}

/// The contents of a list of byte vectors.
pub open spec fn blob_values(blobs: Seq<Vec<u8>>) -> Seq<Seq<u8>> {
    blobs.map_values(|b: Vec<u8>| b@)
}

/// The contents of a manufacturer data map.
pub open spec fn manufacturer_values(m: Map<u16, Vec<u8>>) -> Map<u16, Seq<u8>> {
    m.map_values(|b: Vec<u8>| b@)
}

/// Service data entries as the bytes of the key and the bytes of the data.
pub open spec fn service_data_values(entries: Seq<(String, Vec<u8>)>) -> Seq<(Seq<u8>, Seq<u8>)> {
    entries.map_values(|e: (String, Vec<u8>)| (vstd::utf8::encode_utf8(e.0@), e.1@))
}

impl View for AdvertiseData {
    type V = AdvertiseDataView;

    open spec fn view(&self) -> AdvertiseDataView {
        AdvertiseDataView {
            service_uuids: uuid_values(self.service_uuids@),
            solicit_uuids: uuid_values(self.solicit_uuids@),
            transport_discovery_data: blob_values(self.transport_discovery_data@),
            manufacturer_data: manufacturer_values(self.manufacturer_data@),
            service_data: service_data_values(self.service_data@),
            include_tx_power_level: self.include_tx_power_level,
            include_device_name: self.include_device_name,
        }
    }
}

/// Whether no two service data entries stand under the same text.
pub open spec fn distinct_service_data_keys(entries: Seq<(String, Vec<u8>)>) -> bool {
    forall|i: int, j: int| 0 <= i < j < entries.len() ==> (#[trigger] entries[i]).0@ != (#[trigger] entries[j]).0@
}

/// Where the entry under a text stands, if there is one.
pub open spec fn service_data_index(entries: Seq<(String, Vec<u8>)>, key: Seq<char>, i: int) -> bool {
    &&& 0 <= i < entries.len()
    &&& entries[i].0@ == key
    &&& forall|j: int| 0 <= j < i ==> (#[trigger] entries[j]).0@ != key
}

impl Default for AdvertiseData {
    fn default() -> (r: Self)
        ensures
            r.wf(),
            r@.service_uuids.len() == 0,
            r@.solicit_uuids.len() == 0,
            r@.transport_discovery_data.len() == 0,
            r@.manufacturer_data == Map::<u16, Seq<u8>>::empty(),
            r@.service_data.len() == 0,
            !r@.include_tx_power_level,
            !r@.include_device_name,
    {
        let r = AdvertiseData {
            service_uuids: Vec::new(),
            solicit_uuids: Vec::new(),
            transport_discovery_data: Vec::new(),
            manufacturer_data: HashMap::new(),
            service_data: Vec::new(),
            include_tx_power_level: false,
            include_device_name: false,
        };
        assert(r@.manufacturer_data =~= Map::<u16, Seq<u8>>::empty());
        r
    }
}

/// One AD structure: the length byte, which counts the type byte and the
/// payload, the type byte, and the payload cut to at most 254 bytes.
pub open spec fn ad_structure(ad_type: u8, payload: Seq<u8>) -> Seq<u8> {
    let len = if payload.len() > 254 {
        254
    } else {
        payload.len() as int
    };
    seq![(len + 1) as u8, ad_type] + payload.subrange(0, len)
}

/// The AD structure of a payload, or nothing where the payload is empty.
pub open spec fn ad_structure_unless_empty(ad_type: u8, payload: Seq<u8>) -> Seq<u8> {
    if payload.len() == 0 {
        Seq::empty()
    } else {
        ad_structure(ad_type, payload)
    }
}

/// A UUID as it is sent: its shortest form, least significant byte first.
pub open spec fn compact_uuid(uu: Seq<u8>) -> Seq<u8> {
    shortest_slice(uu).reverse()
}

/// The compact forms of those UUIDs whose compact form is `width` bytes
/// long, joined in the order of the list.
pub open spec fn uuid_bucket(uuids: Seq<Seq<u8>>, width: int) -> Seq<u8>
    decreases uuids.len(),
{
    if uuids.len() == 0 {
        Seq::empty()
    } else {
        let id = compact_uuid(uuids.last());
        uuid_bucket(uuids.drop_last(), width) + (if id.len() == width {
            id
        } else {
            Seq::empty()
        })
    }
}

/// The AD structures of a list of UUIDs: one for the 16-bit UUIDs, then one
/// for the 32-bit UUIDs, then one for the 128-bit UUIDs, each left out where
/// the list holds no UUID of that width.
pub open spec fn uuid_lists_encoding(ad_types: Seq<u8>, uuids: Seq<Seq<u8>>) -> Seq<u8> {
    ad_structure_unless_empty(ad_types[0], uuid_bucket(uuids, 2)) + ad_structure_unless_empty(
        ad_types[1],
        uuid_bucket(uuids, 4),
    ) + ad_structure_unless_empty(ad_types[2], uuid_bucket(uuids, 16))
}

/// AD types of the lists of service UUIDs, by ascending width.
pub open spec fn service_ad_types() -> Seq<u8> {
    seq![
        COMPLETE_LIST_16_BIT_SERVICE_UUIDS,
        COMPLETE_LIST_32_BIT_SERVICE_UUIDS,
        COMPLETE_LIST_128_BIT_SERVICE_UUIDS,
    ]
}

/// AD types of the lists of solicitation UUIDs, by ascending width.
pub open spec fn solicit_ad_types() -> Seq<u8> {
    seq![
        LIST_16_BIT_SERVICE_SOLICITATION_UUIDS,
        LIST_32_BIT_SERVICE_SOLICITATION_UUIDS,
        LIST_128_BIT_SERVICE_SOLICITATION_UUIDS,
    ]
}

/// The AD structure of one service data entry: the compact UUID followed by
/// the data, under the type for the UUID's width. A key that is no UUID in
/// textual form gives nothing.
pub open spec fn service_data_entry(key: Seq<u8>, data: Seq<u8>) -> Seq<u8> {
    if !is_uuid_text(key) {
        Seq::empty()
    } else {
        let id = compact_uuid(uuid_from_text(key));
        if id.len() == 2 {
            ad_structure(SERVICE_DATA_16_BIT_UUID, id + data)
        } else if id.len() == 4 {
            ad_structure(SERVICE_DATA_32_BIT_UUID, id + data)
        } else if id.len() == 16 {
            ad_structure(SERVICE_DATA_128_BIT_UUID, id + data)
        } else {
            Seq::empty()
        }
    }
}

/// The AD structures of the service data entries, in the order of the list.
pub open spec fn service_data_encoding(entries: Seq<(Seq<u8>, Seq<u8>)>) -> Seq<u8>
    decreases entries.len(),
{
    if entries.len() == 0 {
        Seq::empty()
    } else {
        service_data_encoding(entries.drop_last()) + service_data_entry(
            entries.last().0,
            entries.last().1,
        )
    }
}

/// The AD structure of the device name: nothing for an empty name, the whole
/// name and a zero byte as complete name where it has at most 26 bytes, its
/// first 26 bytes and a zero byte as shortened name otherwise.
pub open spec fn device_name_encoding(name: Seq<u8>) -> Seq<u8> {
    if name.len() == 0 {
        Seq::empty()
    } else if name.len() > 26 {
        ad_structure(SHORTENED_LOCAL_NAME, name.subrange(0, 26).push(0))
    } else {
        ad_structure(COMPLETE_LOCAL_NAME, name.push(0))
    }
}

/// The AD structure for the TX power level: one zero byte, which the
/// controller replaces by the level.
pub open spec fn tx_power_encoding() -> Seq<u8> {
    ad_structure(TX_POWER_LEVEL, seq![0u8])
}

/// The two bytes of a manufacturer id, least significant first.
pub open spec fn manufacturer_id_bytes(id: u16) -> Seq<u8> {
    seq![(id % 256) as u8, (id / 256) as u8]
}

/// The AD structure of the manufacturer with number `id`: its id followed by
/// its data; nothing where the map has no such manufacturer.
pub open spec fn manufacturer_entry(m: Map<u16, Seq<u8>>, id: int) -> Seq<u8> {
    if 0 <= id <= 0xffff && m.contains_key(id as u16) {
        ad_structure(MANUFACTURER_SPECIFIC_DATA, manufacturer_id_bytes(id as u16) + m[id as u16])
    } else {
        Seq::empty()
    }
}

/// The AD structures of the manufacturers with an id below `bound`, by
/// ascending id.
pub open spec fn manufacturer_encoding_below(m: Map<u16, Seq<u8>>, bound: int) -> Seq<u8>
    decreases bound,
{
    if bound <= 0 {
        Seq::empty()
    } else {
        manufacturer_encoding_below(m, bound - 1) + manufacturer_entry(m, bound - 1)
    }
}

/// The AD structures of all manufacturers, by ascending id.
pub open spec fn manufacturer_encoding(m: Map<u16, Seq<u8>>) -> Seq<u8> {
    manufacturer_encoding_below(m, 0x10000)
}

/// One AD structure for each blob that is not empty, in the order of the list.
pub open spec fn transport_discovery_encoding(blobs: Seq<Seq<u8>>) -> Seq<u8>
    decreases blobs.len(),
{
    if blobs.len() == 0 {
        Seq::empty()
    } else {
        transport_discovery_encoding(blobs.drop_last()) + ad_structure_unless_empty(
            TRANSPORT_DISCOVERY_DATA,
            blobs.last(),
        )
    }
}

/// The advertising data of a description: device name, TX power level,
/// manufacturer data, service UUIDs, service data, solicitation UUIDs and
/// transport discovery data, in this order.
pub open spec fn adv_encoding(d: AdvertiseDataView, device_name: Seq<u8>) -> Seq<u8> {
    (if d.include_device_name {
        device_name_encoding(device_name)
    } else {
        Seq::empty()
    }) + (if d.include_tx_power_level {
        tx_power_encoding()
    } else {
        Seq::empty()
    }) + manufacturer_encoding(d.manufacturer_data) + uuid_lists_encoding(
        service_ad_types(),
        d.service_uuids,
    ) + service_data_encoding(d.service_data) + uuid_lists_encoding(
        solicit_ad_types(),
        d.solicit_uuids,
    ) + transport_discovery_encoding(d.transport_discovery_data)
}

/// Longest advertising data that a set of the given framing may carry.
pub open spec fn adv_data_len_max(is_legacy: bool) -> int {
    if is_legacy {
        31
    } else {
        254
    }
}

/// Whether a legacy set is promoted to extended: its data exceeds the legacy
/// limit and the controller supports extended advertising.
pub open spec fn upgrades(is_legacy: bool, adv_len: int, extended_supported: bool) -> bool {
    is_legacy && extended_supported && adv_len > 31
}

/// Between two neighbours of an ascending walk over the ids of a map there is
/// no manufacturer, so the encoding up to the second is the encoding up to
/// and including the first.
proof fn lemma_manufacturer_gap(m: Map<u16, Seq<u8>>, from: int, to: int)
    requires
        from <= to,
        forall|id: u16| from <= id < to ==> !m.contains_key(id),
    ensures
        manufacturer_encoding_below(m, to) == manufacturer_encoding_below(m, from),
    decreases to - from,
{
    if from < to {
        lemma_manufacturer_gap(m, from, to - 1);
        if to - 1 >= 0 {
            assert(manufacturer_entry(m, to - 1) =~= Seq::<u8>::empty());
            assert(manufacturer_encoding_below(m, to) =~= manufacturer_encoding_below(m, to - 1));
        } else {
            assert(manufacturer_encoding_below(m, to) =~= Seq::<u8>::empty());
            assert(manufacturer_encoding_below(m, to - 1) =~= Seq::<u8>::empty());
        }
    }
}

/// A rearrangement of a list without repetition has no repetition either,
/// and holds the same items.
proof fn lemma_rearranged(before: Seq<u16>, after: Seq<u16>)
    requires
        before.no_duplicates(),
        after.to_multiset() == before.to_multiset(),
    ensures
        after.no_duplicates(),
        forall|x: u16| after.contains(x) <==> before.contains(x),
{
    before.lemma_multiset_has_no_duplicates();
    after.lemma_multiset_has_no_duplicates_conv();
    before.to_multiset_ensures();
    after.to_multiset_ensures();
    assert forall|x: u16| after.contains(x) <==> before.contains(x) by {
        assert(after.contains(x) <==> after.to_multiset().count(x) > 0);
        assert(before.contains(x) <==> before.to_multiset().count(x) > 0);
    }
}

fn reversed(s: &[u8]) -> (r: Vec<u8>)
    ensures
        r@ == s@.reverse(),
{
    let mut r: Vec<u8> = Vec::new();
    let mut i: usize = s.len();
    while i > 0
        invariant
            i <= s@.len(),
            r@.len() == s@.len() - i,
            forall|j: int| 0 <= j < r@.len() ==> r@[j] == s@[s@.len() - 1 - j],
        decreases i,
    {
        i = i - 1;
        r.push(s[i]);
    }
    assert(r@ =~= s@.reverse());
    r
}

impl AdvertiseData {
    /// Whether the description is well formed: its service data holds no
    /// UUID text twice.
    pub open spec fn wf(&self) -> bool {
        distinct_service_data_keys(self.service_data@)
    }

    /// Puts service data under the text of a UUID. Data that stood under
    /// the same text is replaced, in its place, and handed back; else the
    /// entry is added at the end.
    pub fn insert_service_data(&mut self, uuid: String, data: Vec<u8>) -> (replaced: Option<Vec<u8>>)
        requires
            old(self).wf(),
        ensures
            final(self).wf(),
            final(self)@ == (AdvertiseDataView { service_data: final(self)@.service_data, ..old(self)@ }),
            match replaced {
                Some(previous) => exists|i: int|
                    service_data_index(old(self).service_data@, uuid@, i) && previous@ == (
                    #[trigger] old(self).service_data@[i]).1@ && final(self)@.service_data == old(
                        self,
                    )@.service_data.update(i, (vstd::utf8::encode_utf8(uuid@), data@)),
                None => (forall|i: int|
                    0 <= i < old(self).service_data@.len() ==> (#[trigger] old(self).service_data@[i]).0@ != uuid@)
                    && final(self)@.service_data == old(self)@.service_data.push(
                    (vstd::utf8::encode_utf8(uuid@), data@),
                ),
            },
    {
        let ghost entries = self.service_data@;
        let mut i: usize = 0;
        while i < self.service_data.len()
            invariant
                i <= self.service_data@.len(),
                *self == *old(self),
                entries == self.service_data@,
                distinct_service_data_keys(entries),
                forall|j: int| 0 <= j < i ==> (#[trigger] entries[j]).0@ != uuid@,
            decreases self.service_data@.len() - i,
        {
            if self.service_data[i].0 == uuid {
                let previous = self.service_data.remove(i);
                self.service_data.insert(i, (uuid, data));
                proof {
                    let after = self.service_data@;
                    assert(after =~= entries.update(i as int, (uuid, data)));
                    assert(service_data_index(entries, uuid@, i as int));
                    assert forall|a: int, b: int| 0 <= a < b < after.len() implies (#[trigger] after[a]).0@ != (
                    #[trigger] after[b]).0@ by {
                        assert(after[a].0@ == entries[a].0@);
                        assert(after[b].0@ == entries[b].0@);
                    }
                    assert(service_data_values(after) =~= service_data_values(entries).update(
                        i as int,
                        (vstd::utf8::encode_utf8(uuid@), data@),
                    ));
                }
                return Some(previous.1);
            }
            i = i + 1;
        }
        self.service_data.push((uuid, data));
        proof {
            let after = self.service_data@;
            assert forall|a: int, b: int| 0 <= a < b < after.len() implies (#[trigger] after[a]).0@ != (
            #[trigger] after[b]).0@ by {
                assert(after[a] == entries[a]);
                if b < entries.len() {
                    assert(after[b] == entries[b]);
                }
            }
            assert(service_data_values(after) =~= service_data_values(entries).push(
                (vstd::utf8::encode_utf8(uuid@), data@),
            ));
        }
        None
    }

    /// Appends one AD structure to `dest`.
    pub fn append_adv_data(dest: &mut Vec<u8>, ad_type: u8, ad_payload: &[u8])
        ensures
            final(dest)@ == old(dest)@ + ad_structure(ad_type, ad_payload@),
    {
        let len: usize = clamp(ad_payload.len(), 0, AD_PAYLOAD_MAX);
        dest.push((len + 1) as u8);
        dest.push(ad_type);
        let head = vstd::slice::slice_subrange(ad_payload, 0, len);
        dest.extend_from_slice(head);
        assert(dest@ =~= old(dest)@ + ad_structure(ad_type, ad_payload@));
    }

    /// Appends the UUID lists of `uuids`, by ascending width, under the
    /// three AD types given.
    pub fn append_uuids(dest: &mut Vec<u8>, ad_types: &[u8; 3], uuids: &Vec<Uuid>)
        ensures
            final(dest)@ == old(dest)@ + uuid_lists_encoding(ad_types@, uuid_values(uuids@)),
    {
        let mut uuid16_bytes: Vec<u8> = Vec::new();
        let mut uuid32_bytes: Vec<u8> = Vec::new();
        let mut uuid128_bytes: Vec<u8> = Vec::new();
        let ghost values = uuid_values(uuids@);

        let mut i: usize = 0;
        while i < uuids.len()
            invariant
                i <= uuids@.len(),
                values == uuid_values(uuids@),
                uuid16_bytes@ == uuid_bucket(values.take(i as int), 2),
                uuid32_bytes@ == uuid_bucket(values.take(i as int), 4),
                uuid128_bytes@ == uuid_bucket(values.take(i as int), 16),
            decreases uuids@.len() - i,
        {
            let uuid_slice = UuidHelper::get_shortest_slice(&uuids[i].uu);
            let id = reversed(uuid_slice);
            proof {
                assert(values.take(i + 1).drop_last() =~= values.take(i as int));
                assert(values.take(i + 1).last() == uuids@[i as int]@);
                assert(id@ == compact_uuid(uuids@[i as int]@));
            }
            if id.len() == 2 {
                uuid16_bytes.extend_from_slice(id.as_slice());
            } else if id.len() == 4 {
                uuid32_bytes.extend_from_slice(id.as_slice());
            } else if id.len() == 16 {
                uuid128_bytes.extend_from_slice(id.as_slice());
            }
            proof {
                assert(uuid16_bytes@ =~= uuid_bucket(values.take(i + 1), 2));
                assert(uuid32_bytes@ =~= uuid_bucket(values.take(i + 1), 4));
                assert(uuid128_bytes@ =~= uuid_bucket(values.take(i + 1), 16));
            }
            i = i + 1;
        }
        assert(values.take(i as int) =~= values);

        if uuid16_bytes.len() > 0 {
            AdvertiseData::append_adv_data(dest, ad_types[0], uuid16_bytes.as_slice());
        }
        if uuid32_bytes.len() > 0 {
            AdvertiseData::append_adv_data(dest, ad_types[1], uuid32_bytes.as_slice());
        }
        if uuid128_bytes.len() > 0 {
            AdvertiseData::append_adv_data(dest, ad_types[2], uuid128_bytes.as_slice());
        }
        assert(dest@ =~= old(dest)@ + uuid_lists_encoding(ad_types@, values));
    }

    /// Appends the lists of service UUIDs.
    pub fn append_service_uuids(dest: &mut Vec<u8>, uuids: &Vec<Uuid>)
        ensures
            final(dest)@ == old(dest)@ + uuid_lists_encoding(service_ad_types(), uuid_values(uuids@)),
    {
        let ad_types: [u8; 3] = [
            COMPLETE_LIST_16_BIT_SERVICE_UUIDS,
            COMPLETE_LIST_32_BIT_SERVICE_UUIDS,
            COMPLETE_LIST_128_BIT_SERVICE_UUIDS,
        ];
        assert(ad_types@ =~= service_ad_types());
        AdvertiseData::append_uuids(dest, &ad_types, uuids);
    }

    /// Appends the lists of service solicitation UUIDs.
    pub fn append_solicit_uuids(dest: &mut Vec<u8>, uuids: &Vec<Uuid>)
        ensures
            final(dest)@ == old(dest)@ + uuid_lists_encoding(solicit_ad_types(), uuid_values(uuids@)),
    {
        let ad_types: [u8; 3] = [
            LIST_16_BIT_SERVICE_SOLICITATION_UUIDS,
            LIST_32_BIT_SERVICE_SOLICITATION_UUIDS,
            LIST_128_BIT_SERVICE_SOLICITATION_UUIDS,
        ];
        assert(ad_types@ =~= solicit_ad_types());
        AdvertiseData::append_uuids(dest, &ad_types, uuids);
    }

    /// Appends one AD structure for each service data entry whose key is a
    /// UUID in textual form, and skips the others.
    pub fn append_service_data(dest: &mut Vec<u8>, service_data: &Vec<(String, Vec<u8>)>)
        ensures
            final(dest)@ == old(dest)@ + service_data_encoding(service_data_values(service_data@)),
    {
        let ghost values = service_data_values(service_data@);
        let mut i: usize = 0;
        while i < service_data.len()
            invariant
                i <= service_data@.len(),
                values == service_data_values(service_data@),
                dest@ == old(dest)@ + service_data_encoding(values.take(i as int)),
            decreases service_data@.len() - i,
        {
            let ghost before = dest@;
            let entry = &service_data[i];
            proof {
                assert(values.take(i + 1).drop_last() =~= values.take(i as int));
                assert(values.take(i + 1).last() == (
                    vstd::utf8::encode_utf8(service_data@[i as int].0@),
                    service_data@[i as int].1@,
                ));
            }
            match UuidHelper::parse_string(entry.0.as_str()) {
                Some(uuid) => {
                    let uuid_slice = UuidHelper::get_shortest_slice(&uuid.uu);
                    let mut concated = reversed(uuid_slice);
                    concated.extend_from_slice(entry.1.as_slice());
                    if uuid_slice.len() == 2 {
                        AdvertiseData::append_adv_data(dest, SERVICE_DATA_16_BIT_UUID, concated.as_slice());
                    } else if uuid_slice.len() == 4 {
                        AdvertiseData::append_adv_data(dest, SERVICE_DATA_32_BIT_UUID, concated.as_slice());
                    } else if uuid_slice.len() == 16 {
                        AdvertiseData::append_adv_data(dest, SERVICE_DATA_128_BIT_UUID, concated.as_slice());
                    }
                },
                None => {},
            }
            proof {
                assert(dest@ =~= before + service_data_entry(
                    values.take(i + 1).last().0,
                    values.take(i + 1).last().1,
                ));
                assert(dest@ =~= old(dest)@ + service_data_encoding(values.take(i + 1)));
            }
            i = i + 1;
        }
        assert(values.take(i as int) =~= values);
    }

    /// Appends the device name, shortened to 26 bytes where it is longer.
    pub fn append_device_name(dest: &mut Vec<u8>, device_name: &String)
        ensures
            final(dest)@ == old(dest)@ + device_name_encoding(vstd::utf8::encode_utf8(device_name@)),
    {
        let bytes = device_name.as_str().as_bytes();
        if bytes.len() == 0 {
            assert(dest@ =~= old(dest)@ + device_name_encoding(bytes@));
            return ;
        }
        let mut name: Vec<u8> = Vec::new();
        if bytes.len() > DEVICE_NAME_MAX {
            name.extend_from_slice(vstd::slice::slice_subrange(bytes, 0, DEVICE_NAME_MAX));
            name.push(0);
            assert(name@ =~= bytes@.subrange(0, 26).push(0));
            AdvertiseData::append_adv_data(dest, SHORTENED_LOCAL_NAME, name.as_slice());
        } else {
            name.extend_from_slice(bytes);
            name.push(0);
            assert(name@ =~= bytes@.push(0));
            AdvertiseData::append_adv_data(dest, COMPLETE_LOCAL_NAME, name.as_slice());
        }
    }

    /// Appends one AD structure for each manufacturer, by ascending id.
    pub fn append_manufacturer_data(dest: &mut Vec<u8>, manufacturer_data: &HashMap<ManfId, Vec<u8>>)
        ensures
            final(dest)@ == old(dest)@ + manufacturer_encoding(manufacturer_values(manufacturer_data@)),
    {
        broadcast use vstd::std_specs::hash::group_hash_axioms;

        let ghost values = manufacturer_values(manufacturer_data@);
        let mut ids: Vec<u16> = Vec::new();
        for k in it: manufacturer_data.keys()
            invariant
                ids@ == it.history().unref(),
        {
            ids.push(*k);
        }
        assert(ids@ == vstd::std_specs::hash::spec_keys_iter(manufacturer_data).remaining().unref());
        assert(ids@.to_set() == manufacturer_data@.dom());
        let ghost unsorted = ids@;
        let ids = sorted_u16(ids);
        proof {
            lemma_rearranged(unsorted, ids@);
            assert forall|id: u16| ids@.contains(id) <==> values.contains_key(id) by {
                assert(unsorted.contains(id) <==> unsorted.to_set().contains(id));
            }
            let first: int = if 0 < ids@.len() {
                ids@[0] as int
            } else {
                0x10000
            };
            assert forall|x: u16| 0 <= x < first implies !values.contains_key(x) by {
                if values.contains_key(x) {
                    let j = choose|j: int| 0 <= j < ids@.len() && ids@[j] == x;
                    assert(ids@[0] <= ids@[j]);
                }
            }
            lemma_manufacturer_gap(values, 0, first);
            assert(dest@ =~= old(dest)@ + manufacturer_encoding_below(values, first));
        }

        let mut i: usize = 0;
        while i < ids.len()
            invariant
                i <= ids@.len(),
                values == manufacturer_values(manufacturer_data@),
                forall|a: int, b: int| 0 <= a <= b < ids@.len() ==> ids@[a] <= ids@[b],
                ids@.no_duplicates(),
                forall|id: u16| ids@.contains(id) <==> values.contains_key(id),
                dest@ == old(dest)@ + manufacturer_encoding_below(
                    values,
                    if i < ids@.len() {
                        ids@[i as int] as int
                    } else {
                        0x10000
                    },
                ),
            decreases ids@.len() - i,
        {
            let id: u16 = ids[i];
            assert(ids@.contains(id));
            let data = match manufacturer_data.get(&id) {
                Some(data) => data,
                None => {
                    assert(false);
                    return ;
                },
            };
            let mut concated: Vec<u8> = Vec::new();
            concated.push((id % 256) as u8);
            concated.push((id / 256) as u8);
            concated.extend_from_slice(data.as_slice());
            assert(concated@ =~= manufacturer_id_bytes(id) + values[id]);
            AdvertiseData::append_adv_data(dest, MANUFACTURER_SPECIFIC_DATA, concated.as_slice());
            proof {
                let next: int = if i + 1 < ids@.len() {
                    ids@[i + 1] as int
                } else {
                    0x10000
                };
                assert(id < next) by {
                    if i + 1 < ids@.len() {
                        assert(ids@[i as int] <= ids@[i + 1]);
                        assert(ids@[i as int] != ids@[i + 1]);
                    }
                }
                assert forall|x: u16| id + 1 <= x < next implies !values.contains_key(x) by {
                    if values.contains_key(x) {
                        let j = choose|j: int| 0 <= j < ids@.len() && ids@[j] == x;
                        if j <= i {
                            assert(ids@[j] <= ids@[i as int]);
                        } else {
                            assert(ids@[i + 1] <= ids@[j]);
                        }
                    }
                }
                lemma_manufacturer_gap(values, id + 1, next);
                assert(dest@ =~= old(dest)@ + manufacturer_encoding_below(values, id + 1));
            }
            i = i + 1;
        }
    }

    /// Appends one AD structure for each transport discovery blob that is not empty.
    pub fn append_transport_discovery_data(dest: &mut Vec<u8>, transport_discovery_data: &Vec<Vec<u8>>)
        ensures
            final(dest)@ == old(dest)@ + transport_discovery_encoding(
                blob_values(transport_discovery_data@),
            ),
    {
        let ghost values = blob_values(transport_discovery_data@);
        let mut i: usize = 0;
        while i < transport_discovery_data.len()
            invariant
                i <= transport_discovery_data@.len(),
                values == blob_values(transport_discovery_data@),
                dest@ == old(dest)@ + transport_discovery_encoding(values.take(i as int)),
            decreases transport_discovery_data@.len() - i,
        {
            let ghost before = dest@;
            let tdd = &transport_discovery_data[i];
            proof {
                assert(values.take(i + 1).drop_last() =~= values.take(i as int));
                assert(values.take(i + 1).last() == tdd@);
            }
            if tdd.len() > 0 {
                AdvertiseData::append_adv_data(dest, TRANSPORT_DISCOVERY_DATA, tdd.as_slice());
            }
            proof {
                assert(dest@ =~= before + ad_structure_unless_empty(TRANSPORT_DISCOVERY_DATA, tdd@));
                assert(dest@ =~= old(dest)@ + transport_discovery_encoding(values.take(i + 1)));
            }
            i = i + 1;
        }
        assert(values.take(i as int) =~= values);
    }

    /// Creates raw data from the AdvertiseData.
    pub fn make_with(&self, device_name: &String) -> (bytes: Vec<u8>)
        ensures
            bytes@ == adv_encoding(self@, vstd::utf8::encode_utf8(device_name@)),
    {
        let mut bytes: Vec<u8> = Vec::new();
        if self.include_device_name {
            AdvertiseData::append_device_name(&mut bytes, device_name);
        }
        if self.include_tx_power_level {
            let zero: [u8; 1] = [0];
            assert(zero@ =~= seq![0u8]);
            AdvertiseData::append_adv_data(&mut bytes, TX_POWER_LEVEL, zero.as_slice());
        }
        AdvertiseData::append_manufacturer_data(&mut bytes, &self.manufacturer_data);
        AdvertiseData::append_service_uuids(&mut bytes, &self.service_uuids);
        AdvertiseData::append_service_data(&mut bytes, &self.service_data);
        AdvertiseData::append_solicit_uuids(&mut bytes, &self.solicit_uuids);
        AdvertiseData::append_transport_discovery_data(&mut bytes, &self.transport_discovery_data);
        assert(bytes@ =~= adv_encoding(self@, vstd::utf8::encode_utf8(device_name@)));
        bytes
    }

    /// Validates the raw data as advertisement data.
    pub fn validate_raw_data(is_legacy: bool, bytes: &Vec<u8>) -> (valid: bool)
        ensures
            valid == (bytes@.len() <= adv_data_len_max(is_legacy)),
    {
        bytes.len() <= if is_legacy {
            LEGACY_ADV_DATA_LEN_MAX
        } else {
            EXT_ADV_DATA_LEN_MAX
        }
    }

    /// Checks if the advertisement can be upgraded to extended, and clears
    /// the legacy flag of the parameters if so.
    pub fn can_upgrade(
        parameters: &mut AdvertisingSetParameters,
        adv_bytes: &Vec<u8>,
        is_le_extended_advertising_supported: bool,
    ) -> (upgraded: bool)
        ensures
            upgraded == upgrades(
                old(parameters).is_legacy,
                adv_bytes@.len() as int,
                is_le_extended_advertising_supported,
            ),
            *final(parameters) == (AdvertisingSetParameters {
                is_legacy: old(parameters).is_legacy && !upgraded,
                ..*old(parameters)
            }),
    {
        if parameters.is_legacy && is_le_extended_advertising_supported
            && !AdvertiseData::validate_raw_data(true, adv_bytes) {
            parameters.is_legacy = false;
            return true;
        }
        false
    }
}

} // verus!
