//! What holds of the advertising-data encoding for every description.

use vstd::prelude::*;
use crate::adv_data::AdvertiseData;
use crate::adv_data::ad_structure;
use crate::adv_data::adv_data_len_max;
use crate::adv_data::adv_encoding;
use crate::adv_data::compact_uuid;
use crate::adv_data::device_name_encoding;
use crate::adv_data::manufacturer_encoding;
use crate::adv_data::manufacturer_encoding_below;
use crate::adv_data::manufacturer_entry;
use crate::adv_data::manufacturer_id_bytes;
use crate::adv_data::uuid_bucket;
use crate::adv_data::uuid_lists_encoding;
use crate::seq_lemmas::lemma_filter_push;

verus! {

/// The encoding depends on the contents of a description and on the device
/// name alone: two descriptions with equal contents, encoded under names
/// with equal text, give the same bytes.
pub proof fn law_encoding_deterministic(a: AdvertiseData, b: AdvertiseData, name_a: String, name_b: String)
    requires
        a@ == b@,
        name_a@ == name_b@,
    ensures
        adv_encoding(a@, vstd::utf8::encode_utf8(name_a@)) == adv_encoding(
            b@,
            vstd::utf8::encode_utf8(name_b@),
        ),
{
}

/// An AD structure is two bytes longer than its payload, which is cut to
/// 254 bytes; its first byte counts the type byte and the payload, its
/// second byte is the type, and the payload follows unchanged.
pub proof fn law_ad_structure_shape(ad_type: u8, payload: Seq<u8>)
    ensures
        payload.len() <= 254 ==> ad_structure(ad_type, payload) == seq![(payload.len() + 1) as u8, ad_type]
            + payload,
        payload.len() > 254 ==> ad_structure(ad_type, payload) == seq![255u8, ad_type] + payload.subrange(
            0,
            254,
        ),
        ad_structure(ad_type, payload).len() == (if payload.len() > 254 {
            256nat
        } else {
            payload.len() + 2
        }),
        ad_structure(ad_type, payload)[0] == ad_structure(ad_type, payload).len() - 1,
        ad_structure(ad_type, payload)[1] == ad_type,
{
    if payload.len() <= 254 {
        assert(payload.subrange(0, payload.len() as int) =~= payload);
    }
}

/// A name of at most 26 bytes is sent whole as complete name, a longer one
/// as shortened name with its first 26 bytes; a zero byte ends either.
pub proof fn law_device_name_shape(name: Seq<u8>)
    ensures
        name.len() == 0 ==> device_name_encoding(name) == Seq::<u8>::empty(),
        0 < name.len() <= 26 ==> device_name_encoding(name) == seq![(name.len() + 2) as u8, 0x09u8] + name
            + seq![0u8],
        name.len() > 26 ==> device_name_encoding(name) == seq![28u8, 0x08u8] + name.subrange(0, 26) + seq![
            0u8,
        ],
{
    if 0 < name.len() <= 26 {
        law_ad_structure_shape(0x09, name.push(0));
        assert(seq![(name.len() + 2) as u8, 0x09u8] + name.push(0) =~= seq![(name.len() + 2) as u8, 0x09u8]
            + name + seq![0u8]);
    }
    if name.len() > 26 {
        let cut = name.subrange(0, 26).push(0);
        law_ad_structure_shape(0x08, cut);
        assert(seq![28u8, 0x08u8] + cut =~= seq![28u8, 0x08u8] + name.subrange(0, 26) + seq![0u8]);
    }
}

/// No manufacturer below a bound gives no bytes below that bound.
proof fn lemma_no_manufacturer_below(m: Map<u16, Seq<u8>>, bound: int)
    requires
        forall|id: u16| id < bound ==> !m.contains_key(id),
    ensures
        manufacturer_encoding_below(m, bound) == Seq::<u8>::empty(),
    decreases bound,
{
    if bound > 0 {
        lemma_no_manufacturer_below(m, bound - 1);
        assert(manufacturer_entry(m, bound - 1) =~= Seq::<u8>::empty());
        assert(manufacturer_encoding_below(m, bound) =~= Seq::<u8>::empty());
    }
}

/// The bytes below a bound above the only manufacturer are its AD structure.
proof fn lemma_one_manufacturer_below(m: Map<u16, Seq<u8>>, id: u16, bound: int)
    requires
        m.contains_key(id),
        forall|other: u16| other != id ==> !m.contains_key(other),
        id < bound,
    ensures
        manufacturer_encoding_below(m, bound) == manufacturer_entry(m, id as int),
    decreases bound,
{
    if bound - 1 == id {
        lemma_no_manufacturer_below(m, id as int);
        assert(manufacturer_encoding_below(m, bound) =~= manufacturer_entry(m, id as int));
    } else {
        lemma_one_manufacturer_below(m, id, bound - 1);
        assert(manufacturer_entry(m, bound - 1) =~= Seq::<u8>::empty());
        assert(manufacturer_encoding_below(m, bound) =~= manufacturer_entry(m, id as int));
    }
}

/// The data of a single manufacturer is sent as one AD structure of type
/// 0xff: the id, least significant byte first, then the data.
pub proof fn law_single_manufacturer(id: u16, data: Seq<u8>)
    ensures
        manufacturer_encoding(Map::<u16, Seq<u8>>::empty().insert(id, data)) == ad_structure(
            0xff,
            manufacturer_id_bytes(id) + data,
        ),
{
    let m = Map::<u16, Seq<u8>>::empty().insert(id, data);
    lemma_one_manufacturer_below(m, id, 0x10000);
}

/// Whether the compact form of a UUID is `width` bytes long.
pub open spec fn has_width(width: int) -> spec_fn(Seq<u8>) -> bool {
    |uu: Seq<u8>| compact_uuid(uu).len() == width
}

/// The bucket of a width is made of the UUIDs of that width alone.
proof fn lemma_bucket_of_filtered(uuids: Seq<Seq<u8>>, width: int)
    ensures
        uuid_bucket(uuids.filter(has_width(width)), width) == uuid_bucket(uuids, width),
    decreases uuids.len(),
{
    reveal(Seq::filter);
    if uuids.len() > 0 {
        let rest = uuids.drop_last();
        lemma_bucket_of_filtered(rest, width);
        assert(rest.push(uuids.last()) =~= uuids);
        lemma_filter_push(rest, has_width(width), uuids.last());
        if has_width(width)(uuids.last()) {
            let kept = rest.filter(has_width(width)).push(uuids.last());
            assert(kept.drop_last() =~= rest.filter(has_width(width)));
            assert(kept.last() == uuids.last());
        } else {
            assert(uuid_bucket(uuids, width) =~= uuid_bucket(rest, width));
        }
    }
}

/// The lists of UUIDs are sent by ascending width whatever the order of the
/// UUIDs of different widths among each other: two lists that hold the same
/// 16-bit UUIDs in the same order, the same 32-bit UUIDs in the same order
/// and the same 128-bit UUIDs in the same order are sent as the same bytes.
pub proof fn law_uuid_lists_ignore_interleaving(ad_types: Seq<u8>, a: Seq<Seq<u8>>, b: Seq<Seq<u8>>)
    requires
        a.filter(has_width(2)) == b.filter(has_width(2)),
        a.filter(has_width(4)) == b.filter(has_width(4)),
        a.filter(has_width(16)) == b.filter(has_width(16)),
    ensures
        uuid_lists_encoding(ad_types, a) == uuid_lists_encoding(ad_types, b),
{
    lemma_bucket_of_filtered(a, 2);
    lemma_bucket_of_filtered(b, 2);
    lemma_bucket_of_filtered(a, 4);
    lemma_bucket_of_filtered(b, 4);
    lemma_bucket_of_filtered(a, 16);
    lemma_bucket_of_filtered(b, 16);
}

/// Data passes the check exactly where it is no longer than 31 bytes for a
/// legacy set and 254 bytes for an extended one.
pub proof fn law_validation_limits(is_legacy: bool, len: int)
    ensures
        (len <= adv_data_len_max(is_legacy)) <==> (if is_legacy {
            len <= 31
        } else {
            len <= 254
        }),
{
}

} // verus!
