//! UUID values, their textual form, and the table of known profiles.

use vstd::prelude::*;
use vstd::string::StringExecFns;
use vstd::string::StringSliceAdditionalSpecFns;

verus! {

/// The lower-case hexadecimal digit for a value below 16.
pub open spec fn hex_lower(v: int) -> u8 {
    if v < 10 {
        (0x30 + v) as u8
    } else {
        (0x61 + v - 10) as u8
    }
}

/// Which hexadecimal digit of a textual UUID stands at a position that
/// holds no hyphen.
pub open spec fn digit_at(i: int) -> int {
    i - (if i > 8 { 1int } else { 0 }) - (if i > 13 { 1int } else { 0 }) - (if i > 18 { 1int } else { 0 })
        - (if i > 23 { 1int } else { 0 })
}

/// The textual form of a UUID: 32 lower-case hexadecimal digits in groups of
/// 8, 4, 4, 4 and 12, with a hyphen between neighbouring groups.
pub open spec fn uuid_text(uu: Seq<u8>) -> Seq<u8> {
    Seq::new(
        36,
        |i: int|
            if is_hyphen_position(i) {
                0x2du8
            } else if digit_at(i) % 2 == 0 {
                hex_lower(uu[digit_at(i) / 2] as int / 16)
            } else {
                hex_lower(uu[digit_at(i) / 2] as int % 16)
            },
    )
}

fn hex_lower_digit(v: u8) -> (r: u8)
    requires
        v < 16,
    ensures
        r == hex_lower(v as int),
        r < 128,
        is_hex_digit(r),
        hex_value(r) == v,
{
    if v < 10 {
        0x30 + v
    } else {
        0x61 + v - 10
    }
}

/// Reading the textual form of a UUID gives the UUID back.
pub proof fn law_uuid_text_round_trip(uu: Seq<u8>)
    requires
        uu.len() == 16,
    ensures
        is_uuid_text(uuid_text(uu)),
        uuid_from_text(uuid_text(uu)) == uu,
{
    let text = uuid_text(uu);
    assert forall|i: int| 0 <= i < 36 implies (if is_hyphen_position(i) {
        #[trigger] text[i] == 0x2d
    } else {
        is_hex_digit(text[i])
    }) by {
        if !is_hyphen_position(i) {
            let b = uu[digit_at(i) / 2] as int;
            assert(0 <= b / 16 < 16 && 0 <= b % 16 < 16);
        }
    }
    assert forall|k: int| 0 <= k < 16 implies uuid_text_byte(text, k) == uu[k] by {
        let hi = digit_position(2 * k);
        let lo = digit_position(2 * k + 1);
        assert(!is_hyphen_position(hi) && !is_hyphen_position(lo));
        assert(digit_at(hi) == 2 * k);
        assert(digit_at(lo) == 2 * k + 1);
        let b = uu[k] as int;
        assert(0 <= b / 16 < 16 && 0 <= b % 16 < 16);
        assert(hex_value(hex_lower(b / 16)) == b / 16);
        assert(hex_value(hex_lower(b % 16)) == b % 16);
        assert(16 * (b / 16) + b % 16 == b);
    }
    assert(uuid_from_text(text) =~= uu);
}

/// A 128-bit UUID, most significant byte first.
#[derive(Clone, Copy, Debug, PartialEq, Eq, Hash)]
pub struct Uuid {
    pub uu: [u8; 16],
}

impl View for Uuid {
    type V = Seq<u8>;

    open spec fn view(&self) -> Seq<u8> {
        self.uu@
    }
}

impl From<[u8; 16]> for Uuid {
    fn from(uu: [u8; 16]) -> (r: Uuid) {
        Uuid { uu }
    }
}

impl vstd::std_specs::convert::FromSpecImpl<[u8; 16]> for Uuid {
    open spec fn obeys_from_spec() -> bool {
        true
    }

    open spec fn from_spec(uu: [u8; 16]) -> Uuid {
        Uuid { uu }
    }
}

impl Uuid {
    /// Reads a UUID from its textual form
    /// `xxxxxxxx-xxxx-xxxx-xxxx-xxxxxxxxxxxx`, in either case. Any other
    /// text gives `None`.
    pub fn from_string(raw: &str) -> (r: Option<Uuid>)
        ensures
            match r {
                Some(u) => is_uuid_text(raw.spec_bytes()) && u@ == uuid_from_text(raw.spec_bytes()),
                None => !is_uuid_text(raw.spec_bytes()),
            },
    {
        UuidHelper::parse_string(raw)
    }

    /// The UUID in textual form, in lower case.
    pub fn to_string(&self) -> (r: String)
        ensures
            r@ == Seq::new(36, |i: int| uuid_text(self@)[i] as char),
            vstd::utf8::encode_utf8(r@) == uuid_text(self@),
    {
        let mut bytes: Vec<u8> = Vec::new();
        let mut k: usize = 0;
        while k < 16
            invariant
                k <= 16,
                bytes@.len() == digit_position(2 * k as int) - (if k == 4 || k == 6 || k == 8 || k == 10 {
                    1int
                } else {
                    0
                }),
                forall|i: int| 0 <= i < bytes@.len() ==> bytes@[i] < 128,
                forall|i: int| 0 <= i < bytes@.len() ==> bytes@[i] == uuid_text(self@)[i],
            decreases 16 - k,
        {
            if k == 4 || k == 6 || k == 8 || k == 10 {
                bytes.push(0x2d);
            }
            let b: u8 = self.uu[k];
            proof {
                let hi = digit_position(2 * k as int);
                assert(bytes@.len() == hi);
                assert(!is_hyphen_position(hi) && !is_hyphen_position(hi + 1));
                assert(digit_at(hi) == 2 * k);
                assert(digit_at(hi + 1) == 2 * k + 1);
            }
            bytes.push(hex_lower_digit(b / 16));
            bytes.push(hex_lower_digit(b % 16));
            k = k + 1;
        }
        assert(bytes@ =~= uuid_text(self@));
        let r = crate::deps::string_from_ascii(bytes);
        proof {
            assert(r@ =~= Seq::new(36, |i: int| uuid_text(self@)[i] as char));
            assert(vstd::utf8::is_ascii_chars(r@));
            vstd::utf8::is_ascii_chars_encode_utf8(r@);
            assert(vstd::utf8::encode_utf8(r@) =~= uuid_text(self@));
        }
        r
    }
}

/// Bytes 4 to 15 of the Bluetooth base UUID `00000000-0000-1000-8000-00805F9B34FB`.
pub open spec fn base_uuid_tail() -> Seq<u8> {
    seq![0u8, 0u8, 0x10u8, 0u8, 0x80u8, 0u8, 0u8, 0x80u8, 0x5fu8, 0x9bu8, 0x34u8, 0xfbu8]
}

/// Whether a 128-bit UUID differs from the base UUID in its first four bytes only.
pub open spec fn in_32bit_uuid_range(uu: Seq<u8>) -> bool {
    uu.len() == 16 && uu.subrange(4, 16) == base_uuid_tail()
}

/// Whether a 128-bit UUID differs from the base UUID in bytes 2 and 3 only.
pub open spec fn in_16bit_uuid_range(uu: Seq<u8>) -> bool {
    in_32bit_uuid_range(uu) && uu[0] == 0 && uu[1] == 0
}

/// The shortest binary form of a UUID: two bytes, four bytes, or all sixteen.
pub open spec fn shortest_slice(uu: Seq<u8>) -> Seq<u8> {
    if in_16bit_uuid_range(uu) {
        uu.subrange(2, 4)
    } else if in_32bit_uuid_range(uu) {
        uu.subrange(0, 4)
    } else {
        uu
    }
}

/// Whether a byte is an ASCII hexadecimal digit, in either case.
pub open spec fn is_hex_digit(b: u8) -> bool {
    (0x30 <= b <= 0x39) || (0x41 <= b <= 0x46) || (0x61 <= b <= 0x66)
}

/// The value of an ASCII hexadecimal digit.
pub open spec fn hex_value(b: u8) -> int {
    if 0x30 <= b <= 0x39 {
        b - 0x30
    } else if 0x41 <= b <= 0x46 {
        b - 0x41 + 10
    } else {
        b - 0x61 + 10
    }
}

/// Whether a position of the 36-byte textual form holds a hyphen.
pub open spec fn is_hyphen_position(i: int) -> bool {
    i == 8 || i == 13 || i == 18 || i == 23
}

/// Whether the bytes are a UUID in textual form: 36 bytes, hyphens at
/// positions 8, 13, 18 and 23, hexadecimal digits everywhere else.
pub open spec fn is_uuid_text(s: Seq<u8>) -> bool {
    &&& s.len() == 36
    &&& forall|i: int|
        0 <= i < 36 ==> if is_hyphen_position(i) {
            #[trigger] s[i] == 0x2d
        } else {
            is_hex_digit(s[i])
        }
}

/// Where the `k`-th hexadecimal digit of a textual UUID stands.
pub open spec fn digit_position(k: int) -> int {
    k + (if k >= 8 { 1int } else { 0 }) + (if k >= 12 { 1int } else { 0 }) + (if k >= 16 { 1int } else { 0 })
        + (if k >= 20 { 1int } else { 0 })
}

/// Byte `i` of the UUID that a textual form denotes.
pub open spec fn uuid_text_byte(s: Seq<u8>, i: int) -> u8 {
    (16 * hex_value(s[digit_position(2 * i)]) + hex_value(s[digit_position(2 * i + 1)])) as u8
}

/// The UUID that a textual form denotes.
pub open spec fn uuid_from_text(s: Seq<u8>) -> Seq<u8> {
    Seq::new(16, |i: int| uuid_text_byte(s, i))
}

fn hex_digit(b: u8) -> (r: Option<u8>)
    ensures
        match r {
            Some(v) => is_hex_digit(b) && v == hex_value(b),
            None => !is_hex_digit(b),
        },
{
    if 0x30 <= b && b <= 0x39 {
        Some(b - 0x30)
    } else if 0x41 <= b && b <= 0x46 {
        Some(b - 0x41 + 10)
    } else if 0x61 <= b && b <= 0x66 {
        Some(b - 0x61 + 10)
    } else {
        None
    }
}

/// Helpers for UUID values.
pub struct UuidHelper {}

impl UuidHelper {
    /// Reads a UUID from its textual form `xxxxxxxx-xxxx-xxxx-xxxx-xxxxxxxxxxxx`.
    /// Any other text gives `None`.
    pub fn from_string(raw: &str) -> (r: Option<[u8; 16]>)
        ensures
            match r {
                Some(uu) => is_uuid_text(raw.spec_bytes()) && uu@ == uuid_from_text(raw.spec_bytes()),
                None => !is_uuid_text(raw.spec_bytes()),
            },
    {
        let bytes = raw.as_bytes();
        if bytes.len() != 36 {
            return None;
        }
        let mut uu: [u8; 16] = [0u8; 16];
        let mut pos: usize = 0;
        let mut k: usize = 0;
        while k < 16
            invariant
                bytes@.len() == 36,
                bytes@ == raw.spec_bytes(),
                0 <= k <= 16,
                pos == 2 * k + (if k > 4 { 1int } else { 0 }) + (if k > 6 { 1int } else { 0 }) + (if k
                    > 8 { 1int } else { 0 }) + (if k > 10 { 1int } else { 0 }),
                forall|i: int| 0 <= i < pos ==> if is_hyphen_position(i) {
                    #[trigger] bytes@[i] == 0x2d
                } else {
                    is_hex_digit(bytes@[i])
                },
                forall|i: int| 0 <= i < k ==> #[trigger] uu@[i] == uuid_text_byte(bytes@, i),
            decreases 16 - k,
        {
            if k == 4 || k == 6 || k == 8 || k == 10 {
                if bytes[pos] != 0x2d {
                    return None;
                }
                pos = pos + 1;
            }
            assert(pos == digit_position(2 * k as int));
            assert(pos + 1 == digit_position(2 * k as int + 1));
            let hi = match hex_digit(bytes[pos]) {
                Some(v) => v,
                None => {
                    return None;
                },
            };
            let lo = match hex_digit(bytes[pos + 1]) {
                Some(v) => v,
                None => {
                    return None;
                },
            };
            uu[k] = hi * 16 + lo;
            pos = pos + 2;
            k = k + 1;
        }
        assert(pos == 36);
        assert(uu@ =~= uuid_from_text(bytes@));
        Some(uu)
    }

    /// Reads a UUID from its textual form, as [`UuidHelper::from_string`] does.
    pub fn parse_string(raw: &str) -> (r: Option<Uuid>)
        ensures
            match r {
                Some(u) => is_uuid_text(raw.spec_bytes()) && u@ == uuid_from_text(raw.spec_bytes()),
                None => !is_uuid_text(raw.spec_bytes()),
            },
    {
        match UuidHelper::from_string(raw) {
            Some(uu) => Some(Uuid { uu }),
            None => None,
        }
    }

    /// Checks whether the UUID lies in the 32-bit Bluetooth UUID range.
    pub fn in_32bit_uuid_range(uuid: &[u8; 16]) -> (r: bool)
        ensures
            r == in_32bit_uuid_range(uuid@),
    {
        let r = uuid[4] == 0 && uuid[5] == 0 && uuid[6] == 0x10 && uuid[7] == 0 && uuid[8] == 0x80
            && uuid[9] == 0 && uuid[10] == 0 && uuid[11] == 0x80 && uuid[12] == 0x5f && uuid[13]
            == 0x9b && uuid[14] == 0x34 && uuid[15] == 0xfb;
        proof {
            let tail = uuid@.subrange(4, 16);
            if r {
                assert(tail =~= base_uuid_tail());
            } else {
                assert(forall|i: int| 0 <= i < 12 ==> tail[i] == uuid@[i + 4]);
                assert(base_uuid_tail()[0] == 0 && base_uuid_tail()[1] == 0 && base_uuid_tail()[2]
                    == 0x10 && base_uuid_tail()[3] == 0 && base_uuid_tail()[4] == 0x80
                    && base_uuid_tail()[5] == 0 && base_uuid_tail()[6] == 0 && base_uuid_tail()[7]
                    == 0x80 && base_uuid_tail()[8] == 0x5f && base_uuid_tail()[9] == 0x9b
                    && base_uuid_tail()[10] == 0x34 && base_uuid_tail()[11] == 0xfb);
            }
        }
        r
    }

    /// Checks whether the UUID lies in the 16-bit Bluetooth UUID range.
    pub fn in_16bit_uuid_range(uuid: &[u8; 16]) -> (r: bool)
        ensures
            r == in_16bit_uuid_range(uuid@),
    {
        if !UuidHelper::in_32bit_uuid_range(uuid) {
            return false;
        }
        uuid[0] == 0 && uuid[1] == 0
    }

    /// Gives the shortest binary form of a 128-bit UUID.
    pub fn get_shortest_slice(uuid: &[u8; 16]) -> (r: &[u8])
        ensures
            r@ == shortest_slice(uuid@),
    {
        let all = uuid.as_slice();
        if UuidHelper::in_16bit_uuid_range(uuid) {
            vstd::slice::slice_subrange(all, 2, 4)
        } else if UuidHelper::in_32bit_uuid_range(uuid) {
            vstd::slice::slice_subrange(all, 0, 4)
        } else {
            all
        }
    }
}

/// List of profiles with known uuids.
#[derive(Clone, Copy, Debug, Hash, PartialEq, Eq, PartialOrd, Ord, Structural)]
pub enum Profile {
    A2dpSink,
    A2dpSource,
    AdvAudioDist,
    Bas,
    Dis,
    Hsp,
    HspAg,
    Hfp,
    HfpAg,
    AvrcpController,
    AvrcpTarget,
    ObexObjectPush,
    Hid,
    Hogp,
    Panu,
    Nap,
    Bnep,
    PbapPce,
    PbapPse,
    MessageAccess,
    Mns,
    Mas,
    Sap,
    HearingAid,
    LeAudio,
    Dip,
    VolumeControl,
    GenericMediaControl,
    MediaControl,
    CoordinatedSet,
}

impl Profile {
    /// The name the profile goes by.
    pub open spec fn spec_name(self) -> Seq<char> {
        match self {
            Profile::A2dpSink => "A2dpSink"@,
            Profile::A2dpSource => "A2dpSource"@,
            Profile::AdvAudioDist => "AdvAudioDist"@,
            Profile::Bas => "Bas"@,
            Profile::Dis => "Dis"@,
            Profile::Hsp => "Hsp"@,
            Profile::HspAg => "HspAg"@,
            Profile::Hfp => "Hfp"@,
            Profile::HfpAg => "HfpAg"@,
            Profile::AvrcpController => "AvrcpController"@,
            Profile::AvrcpTarget => "AvrcpTarget"@,
            Profile::ObexObjectPush => "ObexObjectPush"@,
            Profile::Hid => "Hid"@,
            Profile::Hogp => "Hogp"@,
            Profile::Panu => "Panu"@,
            Profile::Nap => "Nap"@,
            Profile::Bnep => "Bnep"@,
            Profile::PbapPce => "PbapPce"@,
            Profile::PbapPse => "PbapPse"@,
            Profile::MessageAccess => "Map"@,
            Profile::Mns => "Mns"@,
            Profile::Mas => "Mas"@,
            Profile::Sap => "Sap"@,
            Profile::HearingAid => "HearingAid"@,
            Profile::LeAudio => "LeAudio"@,
            Profile::Dip => "Dip"@,
            Profile::VolumeControl => "VolumeControl"@,
            Profile::GenericMediaControl => "GenericMediaControl"@,
            Profile::MediaControl => "MediaControl"@,
            Profile::CoordinatedSet => "CoordinatedSet"@,
        }
    }

    /// The name the profile goes by.
    pub fn name(&self) -> (r: &'static str)
        ensures
            r@ == self.spec_name(),
    {
        match self {
            Profile::A2dpSink => "A2dpSink",
            Profile::A2dpSource => "A2dpSource",
            Profile::AdvAudioDist => "AdvAudioDist",
            Profile::Bas => "Bas",
            Profile::Dis => "Dis",
            Profile::Hsp => "Hsp",
            Profile::HspAg => "HspAg",
            Profile::Hfp => "Hfp",
            Profile::HfpAg => "HfpAg",
            Profile::AvrcpController => "AvrcpController",
            Profile::AvrcpTarget => "AvrcpTarget",
            Profile::ObexObjectPush => "ObexObjectPush",
            Profile::Hid => "Hid",
            Profile::Hogp => "Hogp",
            Profile::Panu => "Panu",
            Profile::Nap => "Nap",
            Profile::Bnep => "Bnep",
            Profile::PbapPce => "PbapPce",
            Profile::PbapPse => "PbapPse",
            Profile::MessageAccess => "Map",
            Profile::Mns => "Mns",
            Profile::Mas => "Mas",
            Profile::Sap => "Sap",
            Profile::HearingAid => "HearingAid",
            Profile::LeAudio => "LeAudio",
            Profile::Dip => "Dip",
            Profile::VolumeControl => "VolumeControl",
            Profile::GenericMediaControl => "GenericMediaControl",
            Profile::MediaControl => "MediaControl",
            Profile::CoordinatedSet => "CoordinatedSet",
        }
    }

    /// The name the profile goes by, as an owned text.
    pub fn to_string(&self) -> (r: String)
        ensures
            r@ == self.spec_name(),
    {
        String::from_str(self.name())
    }
}

/// The 16-bit UUID assigned to a profile.
pub open spec fn profile_short_uuid(profile: Profile) -> u16 {
    match profile {
        Profile::A2dpSink => 0x110b,
        Profile::A2dpSource => 0x110a,
        Profile::AdvAudioDist => 0x110d,
        Profile::Bas => 0x180f,
        Profile::Dis => 0x180a,
        Profile::Hsp => 0x1108,
        Profile::HspAg => 0x1112,
        Profile::Hfp => 0x111e,
        Profile::HfpAg => 0x111f,
        Profile::AvrcpController => 0x110e,
        Profile::AvrcpTarget => 0x110c,
        Profile::ObexObjectPush => 0x1105,
        Profile::Hid => 0x1124,
        Profile::Hogp => 0x1812,
        Profile::Panu => 0x1115,
        Profile::Nap => 0x1116,
        Profile::Bnep => 0x000f,
        Profile::PbapPce => 0x112e,
        Profile::PbapPse => 0x112f,
        Profile::MessageAccess => 0x1134,
        Profile::Mns => 0x1133,
        Profile::Mas => 0x1132,
        Profile::Sap => 0x112d,
        Profile::HearingAid => 0xfdf0,
        Profile::LeAudio => 0x184e,
        Profile::Dip => 0x1200,
        Profile::VolumeControl => 0x1844,
        Profile::GenericMediaControl => 0x1849,
        Profile::MediaControl => 0x1848,
        Profile::CoordinatedSet => 0x1846,
    }
}

/// The 128-bit UUID of a profile: the base UUID with the profile's 16-bit
/// UUID in bytes 2 and 3.
pub open spec fn profile_uuid(profile: Profile) -> Seq<u8> {
    seq![0u8, 0u8, (profile_short_uuid(profile) / 256) as u8, (profile_short_uuid(profile) % 256) as u8]
        + base_uuid_tail()
}

/// The supported profiles, in the order in which they are started.
pub open spec fn ordered_supported_profiles() -> Seq<Profile> {
    seq![
        Profile::A2dpSink,
        Profile::A2dpSource,
        Profile::AvrcpController,
        Profile::AvrcpTarget,
        Profile::Bas,
        Profile::Hsp,
        Profile::Hfp,
        Profile::Hid,
        Profile::Hogp,
        Profile::LeAudio,
        Profile::Panu,
        Profile::PbapPce,
        Profile::MessageAccess,
        Profile::HearingAid,
        Profile::VolumeControl,
        Profile::CoordinatedSet,
    ]
}

fn short_uuid_of(profile: Profile) -> (r: u16)
    ensures
        r == profile_short_uuid(profile),
{
    match profile {
        Profile::A2dpSink => 0x110b,
        Profile::A2dpSource => 0x110a,
        Profile::AdvAudioDist => 0x110d,
        Profile::Bas => 0x180f,
        Profile::Dis => 0x180a,
        Profile::Hsp => 0x1108,
        Profile::HspAg => 0x1112,
        Profile::Hfp => 0x111e,
        Profile::HfpAg => 0x111f,
        Profile::AvrcpController => 0x110e,
        Profile::AvrcpTarget => 0x110c,
        Profile::ObexObjectPush => 0x1105,
        Profile::Hid => 0x1124,
        Profile::Hogp => 0x1812,
        Profile::Panu => 0x1115,
        Profile::Nap => 0x1116,
        Profile::Bnep => 0x000f,
        Profile::PbapPce => 0x112e,
        Profile::PbapPse => 0x112f,
        Profile::MessageAccess => 0x1134,
        Profile::Mns => 0x1133,
        Profile::Mas => 0x1132,
        Profile::Sap => 0x112d,
        Profile::HearingAid => 0xfdf0,
        Profile::LeAudio => 0x184e,
        Profile::Dip => 0x1200,
        Profile::VolumeControl => 0x1844,
        Profile::GenericMediaControl => 0x1849,
        Profile::MediaControl => 0x1848,
        Profile::CoordinatedSet => 0x1846,
    }
}

fn profile_of_short_uuid(short: u16) -> (r: Option<Profile>)
    ensures
        match r {
            Some(p) => profile_short_uuid(p) == short,
            None => forall|p: Profile| profile_short_uuid(p) != short,
        },
{
    match short {
        0x110b => Some(Profile::A2dpSink),
        0x110a => Some(Profile::A2dpSource),
        0x110d => Some(Profile::AdvAudioDist),
        0x180f => Some(Profile::Bas),
        0x180a => Some(Profile::Dis),
        0x1108 => Some(Profile::Hsp),
        0x1112 => Some(Profile::HspAg),
        0x111e => Some(Profile::Hfp),
        0x111f => Some(Profile::HfpAg),
        0x110e => Some(Profile::AvrcpController),
        0x110c => Some(Profile::AvrcpTarget),
        0x1105 => Some(Profile::ObexObjectPush),
        0x1124 => Some(Profile::Hid),
        0x1812 => Some(Profile::Hogp),
        0x1115 => Some(Profile::Panu),
        0x1116 => Some(Profile::Nap),
        0x000f => Some(Profile::Bnep),
        0x112e => Some(Profile::PbapPce),
        0x112f => Some(Profile::PbapPse),
        0x1134 => Some(Profile::MessageAccess),
        0x1133 => Some(Profile::Mns),
        0x1132 => Some(Profile::Mas),
        0x112d => Some(Profile::Sap),
        0xfdf0 => Some(Profile::HearingAid),
        0x184e => Some(Profile::LeAudio),
        0x1200 => Some(Profile::Dip),
        0x1844 => Some(Profile::VolumeControl),
        0x1849 => Some(Profile::GenericMediaControl),
        0x1848 => Some(Profile::MediaControl),
        0x1846 => Some(Profile::CoordinatedSet),
        _ => None,
    }
}

impl UuidHelper {
    /// The supported profiles in the order in which they are started:
    /// A2DP comes before AVRCP.
    pub fn get_ordered_supported_profiles() -> (r: Vec<Profile>)
        ensures
            r@ == ordered_supported_profiles(),
    {
        let mut r: Vec<Profile> = Vec::new();
        r.push(Profile::A2dpSink);
        r.push(Profile::A2dpSource);
        r.push(Profile::AvrcpController);
        r.push(Profile::AvrcpTarget);
        r.push(Profile::Bas);
        r.push(Profile::Hsp);
        r.push(Profile::Hfp);
        r.push(Profile::Hid);
        r.push(Profile::Hogp);
        r.push(Profile::LeAudio);
        r.push(Profile::Panu);
        r.push(Profile::PbapPce);
        r.push(Profile::MessageAccess);
        r.push(Profile::HearingAid);
        r.push(Profile::VolumeControl);
        r.push(Profile::CoordinatedSet);
        assert(r@ =~= ordered_supported_profiles());
        r
    }

    /// Checks whether a profile is currently enabled.
    pub fn is_profile_supported(profile: &Profile) -> (r: bool)
        ensures
            r == ordered_supported_profiles().contains(*profile),
    {
        let supported = UuidHelper::get_ordered_supported_profiles();
        let mut i: usize = 0;
        while i < supported.len()
            invariant
                i <= supported@.len(),
                supported@ == ordered_supported_profiles(),
                forall|j: int| 0 <= j < i ==> supported@[j] != *profile,
            decreases supported@.len() - i,
        {
            if supported[i] == *profile {
                return true;
            }
            i = i + 1;
        }
        false
    }

    /// The supported profiles as a set: each of them once.
    pub fn get_supported_profiles() -> (r: Vec<Profile>)
        ensures
            r@.no_duplicates(),
            forall|p: Profile| r@.contains(p) <==> ordered_supported_profiles().contains(p),
    {
        let ordered = UuidHelper::get_ordered_supported_profiles();
        let mut r: Vec<Profile> = Vec::new();
        let mut i: usize = 0;
        while i < ordered.len()
            invariant
                i <= ordered@.len(),
                r@.no_duplicates(),
                forall|p: Profile| r@.contains(p) <==> ordered@.take(i as int).contains(p),
            decreases ordered@.len() - i,
        {
            let p = ordered[i];
            let mut known = false;
            let mut j: usize = 0;
            while j < r.len()
                invariant
                    j <= r@.len(),
                    known == r@.take(j as int).contains(p),
                decreases r@.len() - j,
            {
                proof {
                    assert(r@.take(j + 1) =~= r@.take(j as int).push(r@[j as int]));
                    if r@.take(j as int).contains(p) {
                        let k = choose|k: int| 0 <= k < j && r@.take(j as int)[k] == p;
                        assert(r@.take(j + 1)[k] == p);
                    }
                    if r@[j as int] == p {
                        assert(r@.take(j + 1)[j as int] == p);
                    }
                }
                if r[j] == p {
                    known = true;
                }
                j = j + 1;
            }
            proof {
                assert(r@.take(j as int) =~= r@);
                assert(ordered@.take(i + 1) =~= ordered@.take(i as int).push(p));
            }
            let ghost before = r@;
            if !known {
                r.push(p);
                proof {
                    assert forall|a: int, b: int| 0 <= a < r@.len() && 0 <= b < r@.len() && a != b implies r@[a]
                        != r@[b] by {
                        if a < before.len() && b < before.len() {
                            assert(before[a] != before[b]);
                        } else if a < before.len() {
                            assert(before.contains(before[a]));
                        } else {
                            assert(before.contains(before[b]));
                        }
                    }
                }
            }
            proof {
                assert forall|q: Profile| r@.contains(q) <==> ordered@.take(i + 1).contains(q) by {
                    let next = ordered@.take(i + 1);
                    if r@.contains(q) {
                        let k = choose|k: int| 0 <= k < r@.len() && r@[k] == q;
                        if k < before.len() {
                            assert(before.contains(q));
                            let m = choose|m: int| 0 <= m < i && ordered@.take(i as int)[m] == q;
                            assert(next[m] == q);
                        } else {
                            assert(next[i as int] == q);
                        }
                    }
                    if next.contains(q) {
                        let m = choose|m: int| 0 <= m < next.len() && next[m] == q;
                        if m < i {
                            assert(ordered@.take(i as int)[m] == q);
                            assert(ordered@.take(i as int).contains(q));
                            assert(before.contains(q));
                            let k = choose|k: int| 0 <= k < before.len() && before[k] == q;
                            assert(r@[k] == q);
                        } else {
                            if known {
                                assert(before.contains(q));
                            } else {
                                assert(r@[before.len() as int] == q);
                            }
                        }
                    }
                }
            }
            i = i + 1;
        }
        proof {
            assert(ordered@.take(i as int) =~= ordered@);
        }
        r
    }

    /// Converts a profile enum to its UUID.
    pub fn get_profile_uuid(profile: &Profile) -> (r: Option<Uuid>)
        ensures
            r matches Some(u) && u@ == profile_uuid(*profile),
    {
        let short = short_uuid_of(*profile);
        let uu: [u8; 16] = [
            0,
            0,
            (short / 256) as u8,
            (short % 256) as u8,
            0,
            0,
            0x10,
            0,
            0x80,
            0,
            0,
            0x80,
            0x5f,
            0x9b,
            0x34,
            0xfb,
        ];
        assert(uu@ =~= profile_uuid(*profile));
        Some(Uuid { uu })
    }

    /// If a uuid is known to be a certain service, gives the text of the
    /// uuid, a colon, a blank and the name of the service. Else just the
    /// text of the uuid.
    pub fn known_uuid_to_string(uuid: &Uuid) -> (r: String)
        ensures
            forall|p: Profile| profile_uuid(p) == uuid@ ==> r@ == Seq::new(36, |i: int| uuid_text(uuid@)[i] as char)
                + ": "@ + p.spec_name(),
            (forall|p: Profile| profile_uuid(p) != uuid@) ==> r@ == Seq::new(
                36,
                |i: int| uuid_text(uuid@)[i] as char,
            ),
    {
        match UuidHelper::is_known_profile(uuid) {
            Some(profile) => {
                proof {
                    assert forall|p: Profile| profile_uuid(p) == uuid@ implies p == profile by {
                        assert(profile_uuid(p)[2] == profile_uuid(profile)[2]);
                        assert(profile_uuid(p)[3] == profile_uuid(profile)[3]);
                        assert(profile_short_uuid(p) == profile_short_uuid(profile));
                    }
                }
                let mut text = uuid.to_string();
                text.append(": ");
                text.append(profile.name());
                text
            },
            None => uuid.to_string(),
        }
    }

    /// Converts a UUID to a known profile enum.
    pub fn is_known_profile(uuid: &Uuid) -> (r: Option<Profile>)
        ensures
            match r {
                Some(p) => profile_uuid(p) == uuid@,
                None => forall|p: Profile| profile_uuid(p) != uuid@,
            },
    {
        if !UuidHelper::in_16bit_uuid_range(&uuid.uu) {
            proof {
                assert forall|p: Profile| profile_uuid(p) != uuid@ by {
                    assert(profile_uuid(p).subrange(4, 16) =~= base_uuid_tail());
                }
            }
            return None;
        }
        let hi: u16 = uuid.uu[2] as u16;
        let lo: u16 = uuid.uu[3] as u16;
        let short: u16 = hi * 256 + lo;
        let r = profile_of_short_uuid(short);
        proof {
            let tail = uuid@.subrange(4, 16);
            assert(forall|i: int| 0 <= i < 12 ==> tail[i] == uuid@[i + 4]);
            match r {
                Some(p) => {
                    assert(profile_uuid(p) =~= uuid@);
                },
                None => {
                    assert forall|p: Profile| profile_uuid(p) != uuid@ by {
                        if profile_uuid(p) == uuid@ {
                            assert(profile_uuid(p)[2] == uuid@[2]);
                            assert(profile_uuid(p)[3] == uuid@[3]);
                            assert(profile_short_uuid(p) == short);
                        }
                    }
                },
            }
        }
        r
    }
}

} // verus!
