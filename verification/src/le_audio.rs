//! Values of the LE Audio profile as they cross the boundary to the
//! Bluetooth stack.

use vstd::prelude::*;
use crate::gatt::RawAddress;

verus! {

/// Codec of an LE Audio stream.
#[derive(Debug, Copy, Clone, PartialEq, Eq, Structural)]
pub enum BtLeAudioCodecIndex {
    SrcLc3,
    SrcInvalid,
}

/// Codec configuration of an LE Audio stream.
#[derive(Debug, Copy, Clone, PartialEq, Eq, Structural)]
pub struct BtLeAudioCodecConfig {
    pub codec_type: i32,
}

/// Connection state of an LE Audio device.
#[derive(Debug, Copy, Clone, PartialEq, Eq, Structural)]
pub enum BtLeAudioConnectionState {
    Disconnected,
    Connecting,
    Connected,
    Disconnecting,
}

/// Status of an LE Audio group.
#[derive(Debug, Copy, Clone, PartialEq, Eq, Structural)]
pub enum BtLeAudioGroupStatus {
    Inactive,
    Active,
    TurnedIdleDuringCall,
}

impl BtLeAudioGroupStatus {
    /// The number that stands for the value on the wire.
    pub open spec fn number(self) -> i32 {
        match self {
            BtLeAudioGroupStatus::Inactive => 0,
            BtLeAudioGroupStatus::Active => 1,
            BtLeAudioGroupStatus::TurnedIdleDuringCall => 2,
        }
    }

    /// Whether a number stands for a value.
    pub open spec fn is_number(value: i32) -> bool {
        0 <= value <= 2
    }

    /// The value that a number stands for.
    pub fn from(value: i32) -> (r: Self)
        requires
            BtLeAudioGroupStatus::is_number(value),
        ensures
            r.number() == value,
    {
        if value == 0 {
            BtLeAudioGroupStatus::Inactive
        } else if value == 1 {
            BtLeAudioGroupStatus::Active
        } else {
            BtLeAudioGroupStatus::TurnedIdleDuringCall
        }
    }
}

impl From<BtLeAudioGroupStatus> for i32 {
    fn from(value: BtLeAudioGroupStatus) -> (r: i32) {
        match value {
            BtLeAudioGroupStatus::Inactive => 0,
            BtLeAudioGroupStatus::Active => 1,
            BtLeAudioGroupStatus::TurnedIdleDuringCall => 2,
        }
    }
}

impl vstd::std_specs::convert::FromSpecImpl<BtLeAudioGroupStatus> for i32 {
    open spec fn obeys_from_spec() -> bool {
        true
    }

    open spec fn from_spec(value: BtLeAudioGroupStatus) -> i32 {
        value.number()
    }
}

impl Default for BtLeAudioGroupStatus {
    fn default() -> (r: Self)
        ensures
            r == BtLeAudioGroupStatus::Inactive,
    {
        BtLeAudioGroupStatus::Inactive
    }
}

/// Whether a device joined or left a group.
#[derive(Debug, Copy, Clone, PartialEq, Eq, Structural)]
pub enum BtLeAudioGroupNodeStatus {
    Added,
    Removed,
}

impl BtLeAudioGroupNodeStatus {
    /// The number that stands for the value on the wire.
    pub open spec fn number(self) -> i32 {
        match self {
            BtLeAudioGroupNodeStatus::Added => 1,
            BtLeAudioGroupNodeStatus::Removed => 2,
        }
    }

    /// Whether a number stands for a value.
    pub open spec fn is_number(value: i32) -> bool {
        1 <= value <= 2
    }

    /// The value that a number stands for.
    pub fn from(value: i32) -> (r: Self)
        requires
            BtLeAudioGroupNodeStatus::is_number(value),
        ensures
            r.number() == value,
    {
        if value == 1 {
            BtLeAudioGroupNodeStatus::Added
        } else {
            BtLeAudioGroupNodeStatus::Removed
        }
    }
}

impl From<BtLeAudioGroupNodeStatus> for i32 {
    fn from(value: BtLeAudioGroupNodeStatus) -> (r: i32) {
        match value {
            BtLeAudioGroupNodeStatus::Added => 1,
            BtLeAudioGroupNodeStatus::Removed => 2,
        }
    }
}

impl vstd::std_specs::convert::FromSpecImpl<BtLeAudioGroupNodeStatus> for i32 {
    open spec fn obeys_from_spec() -> bool {
        true
    }

    open spec fn from_spec(value: BtLeAudioGroupNodeStatus) -> i32 {
        value.number()
    }
}

/// What an audio stream is used for.
#[derive(Debug, Copy, Clone, PartialEq, Eq, Structural)]
pub enum BtLeAudioUsage {
    AudioUsageUnknown,
    AudioUsageMedia,
    AudioUsageVoiceCommunication,
}

impl BtLeAudioUsage {
    /// The number that stands for the value on the wire.
    pub open spec fn number(self) -> i32 {
        match self {
            BtLeAudioUsage::AudioUsageUnknown => 0,
            BtLeAudioUsage::AudioUsageMedia => 1,
            BtLeAudioUsage::AudioUsageVoiceCommunication => 2,
        }
    }

    /// Whether a number stands for a value.
    pub open spec fn is_number(value: i32) -> bool {
        0 <= value <= 2
    }

    /// The value that a number stands for.
    pub fn from(value: i32) -> (r: Self)
        requires
            BtLeAudioUsage::is_number(value),
        ensures
            r.number() == value,
    {
        if value == 0 {
            BtLeAudioUsage::AudioUsageUnknown
        } else if value == 1 {
            BtLeAudioUsage::AudioUsageMedia
        } else {
            BtLeAudioUsage::AudioUsageVoiceCommunication
        }
    }
}

impl From<BtLeAudioUsage> for i32 {
    fn from(value: BtLeAudioUsage) -> (r: i32) {
        match value {
            BtLeAudioUsage::AudioUsageUnknown => 0,
            BtLeAudioUsage::AudioUsageMedia => 1,
            BtLeAudioUsage::AudioUsageVoiceCommunication => 2,
        }
    }
}

impl vstd::std_specs::convert::FromSpecImpl<BtLeAudioUsage> for i32 {
    open spec fn obeys_from_spec() -> bool {
        true
    }

    open spec fn from_spec(value: BtLeAudioUsage) -> i32 {
        value.number()
    }
}

/// What an audio stream carries.
#[derive(Debug, Copy, Clone, PartialEq, Eq, Structural)]
pub enum BtLeAudioContentType {
    AudioContentTypeUnknown,
    AudioContentTypeSpeech,
    AudioContentTypeMusic,
    AudioContentTypeMovie,
    AudioContentTypeSonification,
}

impl BtLeAudioContentType {
    /// The number that stands for the value on the wire.
    pub open spec fn number(self) -> i32 {
        match self {
            BtLeAudioContentType::AudioContentTypeUnknown => 0,
            BtLeAudioContentType::AudioContentTypeSpeech => 1,
            BtLeAudioContentType::AudioContentTypeMusic => 2,
            BtLeAudioContentType::AudioContentTypeMovie => 3,
            BtLeAudioContentType::AudioContentTypeSonification => 4,
        }
    }

    /// Whether a number stands for a value.
    pub open spec fn is_number(value: i32) -> bool {
        0 <= value <= 4
    }

    /// The value that a number stands for.
    pub fn from(value: i32) -> (r: Self)
        requires
            BtLeAudioContentType::is_number(value),
        ensures
            r.number() == value,
    {
        if value == 0 {
            BtLeAudioContentType::AudioContentTypeUnknown
        } else if value == 1 {
            BtLeAudioContentType::AudioContentTypeSpeech
        } else if value == 2 {
            BtLeAudioContentType::AudioContentTypeMusic
        } else if value == 3 {
            BtLeAudioContentType::AudioContentTypeMovie
        } else {
            BtLeAudioContentType::AudioContentTypeSonification
        }
    }
}

impl From<BtLeAudioContentType> for i32 {
    fn from(value: BtLeAudioContentType) -> (r: i32) {
        match value {
            BtLeAudioContentType::AudioContentTypeUnknown => 0,
            BtLeAudioContentType::AudioContentTypeSpeech => 1,
            BtLeAudioContentType::AudioContentTypeMusic => 2,
            BtLeAudioContentType::AudioContentTypeMovie => 3,
            BtLeAudioContentType::AudioContentTypeSonification => 4,
        }
    }
}

impl vstd::std_specs::convert::FromSpecImpl<BtLeAudioContentType> for i32 {
    open spec fn obeys_from_spec() -> bool {
        true
    }

    open spec fn from_spec(value: BtLeAudioContentType) -> i32 {
        value.number()
    }
}

/// Where recorded audio comes from.
#[derive(Debug, Copy, Clone, PartialEq, Eq, Structural)]
pub enum BtLeAudioSource {
    AudioSourceDefault,
    AudioSourceMic,
    AudioSourceVoiceUplink,
    AudioSourceVoiceDownlink,
    AudioSourceVoiceCall,
    AudioSourceCamcorder,
    AudioSourceVoiceRecognition,
    AudioSourceVoiceCommunication,
}

impl BtLeAudioSource {
    /// The number that stands for the value on the wire.
    pub open spec fn number(self) -> i32 {
        match self {
            BtLeAudioSource::AudioSourceDefault => 0,
            BtLeAudioSource::AudioSourceMic => 1,
            BtLeAudioSource::AudioSourceVoiceUplink => 2,
            BtLeAudioSource::AudioSourceVoiceDownlink => 3,
            BtLeAudioSource::AudioSourceVoiceCall => 4,
            BtLeAudioSource::AudioSourceCamcorder => 5,
            BtLeAudioSource::AudioSourceVoiceRecognition => 6,
            BtLeAudioSource::AudioSourceVoiceCommunication => 7,
        }
    }

    /// Whether a number stands for a value.
    pub open spec fn is_number(value: i32) -> bool {
        0 <= value <= 7
    }

    /// The value that a number stands for.
    pub fn from(value: i32) -> (r: Self)
        requires
            BtLeAudioSource::is_number(value),
        ensures
            r.number() == value,
    {
        if value == 0 {
            BtLeAudioSource::AudioSourceDefault
        } else if value == 1 {
            BtLeAudioSource::AudioSourceMic
        } else if value == 2 {
            BtLeAudioSource::AudioSourceVoiceUplink
        } else if value == 3 {
            BtLeAudioSource::AudioSourceVoiceDownlink
        } else if value == 4 {
            BtLeAudioSource::AudioSourceVoiceCall
        } else if value == 5 {
            BtLeAudioSource::AudioSourceCamcorder
        } else if value == 6 {
            BtLeAudioSource::AudioSourceVoiceRecognition
        } else {
            BtLeAudioSource::AudioSourceVoiceCommunication
        }
    }
}

impl From<BtLeAudioSource> for i32 {
    fn from(value: BtLeAudioSource) -> (r: i32) {
        match value {
            BtLeAudioSource::AudioSourceDefault => 0,
            BtLeAudioSource::AudioSourceMic => 1,
            BtLeAudioSource::AudioSourceVoiceUplink => 2,
            BtLeAudioSource::AudioSourceVoiceDownlink => 3,
            BtLeAudioSource::AudioSourceVoiceCall => 4,
            BtLeAudioSource::AudioSourceCamcorder => 5,
            BtLeAudioSource::AudioSourceVoiceRecognition => 6,
            BtLeAudioSource::AudioSourceVoiceCommunication => 7,
        }
    }
}

impl vstd::std_specs::convert::FromSpecImpl<BtLeAudioSource> for i32 {
    open spec fn obeys_from_spec() -> bool {
        true
    }

    open spec fn from_spec(value: BtLeAudioSource) -> i32 {
        value.number()
    }
}

/// Whether a requested stream has started.
#[derive(Debug, Copy, Clone, PartialEq, Eq, Structural)]
pub enum BtLeStreamStartedStatus {
    Canceled,
    Idle,
    Started,
}

impl BtLeStreamStartedStatus {
    /// The number that stands for the value on the wire.
    pub open spec fn number(self) -> i32 {
        match self {
            BtLeStreamStartedStatus::Canceled => -1i32,
            BtLeStreamStartedStatus::Idle => 0,
            BtLeStreamStartedStatus::Started => 1,
        }
    }

    /// Whether a number stands for a value.
    pub open spec fn is_number(value: i32) -> bool {
        -1 <= value <= 1
    }

    /// The value that a number stands for.
    pub fn from(value: i32) -> (r: Self)
        requires
            BtLeStreamStartedStatus::is_number(value),
        ensures
            r.number() == value,
    {
        if value == -1 {
            BtLeStreamStartedStatus::Canceled
        } else if value == 0 {
            BtLeStreamStartedStatus::Idle
        } else {
            BtLeStreamStartedStatus::Started
        }
    }
}

impl From<BtLeStreamStartedStatus> for i32 {
    fn from(value: BtLeStreamStartedStatus) -> (r: i32) {
        match value {
            BtLeStreamStartedStatus::Canceled => -1i32,
            BtLeStreamStartedStatus::Idle => 0,
            BtLeStreamStartedStatus::Started => 1,
        }
    }
}

impl vstd::std_specs::convert::FromSpecImpl<BtLeStreamStartedStatus> for i32 {
    open spec fn obeys_from_spec() -> bool {
        true
    }

    open spec fn from_spec(value: BtLeStreamStartedStatus) -> i32 {
        value.number()
    }
}

/// PCM configuration of a stream.
#[derive(Debug, Copy, Clone, PartialEq, Eq, Structural)]
pub struct BtLePcmConfig {
    pub data_interval_us: u32,
    pub sample_rate: u32,
    pub bits_per_sample: u8,
    pub channels_count: u8,
}

impl Default for BtLePcmConfig {
    fn default() -> (r: Self)
        ensures
            r == (BtLePcmConfig { data_interval_us: 0, sample_rate: 0, bits_per_sample: 0, channels_count: 0 }),
    {
        BtLePcmConfig { data_interval_us: 0, sample_rate: 0, bits_per_sample: 0, channels_count: 0 }
    }
}

/// Status of the unicast monitor mode.
#[derive(Debug, Copy, Clone, PartialEq, Eq, Structural)]
pub enum BtLeAudioUnicastMonitorModeStatus {
    StreamingRequested,
    Streaming,
    StreamingSuspended,
}

impl BtLeAudioUnicastMonitorModeStatus {
    /// The number that stands for the value on the wire.
    pub open spec fn number(self) -> i32 {
        match self {
            BtLeAudioUnicastMonitorModeStatus::StreamingRequested => 0,
            BtLeAudioUnicastMonitorModeStatus::Streaming => 1,
            BtLeAudioUnicastMonitorModeStatus::StreamingSuspended => 2,
        }
    }

    /// Whether a number stands for a value.
    pub open spec fn is_number(value: i32) -> bool {
        0 <= value <= 2
    }

    /// The value that a number stands for.
    pub fn from(value: i32) -> (r: Self)
        requires
            BtLeAudioUnicastMonitorModeStatus::is_number(value),
        ensures
            r.number() == value,
    {
        if value == 0 {
            BtLeAudioUnicastMonitorModeStatus::StreamingRequested
        } else if value == 1 {
            BtLeAudioUnicastMonitorModeStatus::Streaming
        } else {
            BtLeAudioUnicastMonitorModeStatus::StreamingSuspended
        }
    }
}

impl From<BtLeAudioUnicastMonitorModeStatus> for i32 {
    fn from(value: BtLeAudioUnicastMonitorModeStatus) -> (r: i32) {
        match value {
            BtLeAudioUnicastMonitorModeStatus::StreamingRequested => 0,
            BtLeAudioUnicastMonitorModeStatus::Streaming => 1,
            BtLeAudioUnicastMonitorModeStatus::StreamingSuspended => 2,
        }
    }
}

impl vstd::std_specs::convert::FromSpecImpl<BtLeAudioUnicastMonitorModeStatus> for i32 {
    open spec fn obeys_from_spec() -> bool {
        true
    }

    open spec fn from_spec(value: BtLeAudioUnicastMonitorModeStatus) -> i32 {
        value.number()
    }
}

/// Direction of an audio stream.
#[derive(Debug, Copy, Clone, PartialEq, Eq, Structural)]
pub enum BtLeAudioDirection {
    Sink,
    Source,
    Both,
}

impl BtLeAudioDirection {
    /// The number that stands for the value on the wire.
    pub open spec fn number(self) -> i32 {
        match self {
            BtLeAudioDirection::Sink => 1,
            BtLeAudioDirection::Source => 2,
            BtLeAudioDirection::Both => 3,
        }
    }

    /// Whether a number stands for a value.
    pub open spec fn is_number(value: i32) -> bool {
        1 <= value <= 3
    }

    /// The value that a number stands for.
    pub fn from(value: i32) -> (r: Self)
        requires
            BtLeAudioDirection::is_number(value),
        ensures
            r.number() == value,
    {
        if value == 1 {
            BtLeAudioDirection::Sink
        } else if value == 2 {
            BtLeAudioDirection::Source
        } else {
            BtLeAudioDirection::Both
        }
    }
}

impl From<BtLeAudioDirection> for i32 {
    fn from(value: BtLeAudioDirection) -> (r: i32) {
        match value {
            BtLeAudioDirection::Sink => 1,
            BtLeAudioDirection::Source => 2,
            BtLeAudioDirection::Both => 3,
        }
    }
}

impl vstd::std_specs::convert::FromSpecImpl<BtLeAudioDirection> for i32 {
    open spec fn obeys_from_spec() -> bool {
        true
    }

    open spec fn from_spec(value: BtLeAudioDirection) -> i32 {
        value.number()
    }
}

/// Stream status of an LE Audio group.
#[derive(Debug, Copy, Clone, PartialEq, Eq, Structural)]
pub enum BtLeAudioGroupStreamStatus {
    Idle,
    Streaming,
    Releasing,
    Suspending,
    Suspended,
    ConfiguredAutonomous,
    ConfiguredByUser,
    Destroyed,
}

impl BtLeAudioGroupStreamStatus {
    /// The number that stands for the value on the wire.
    pub open spec fn number(self) -> i32 {
        match self {
            BtLeAudioGroupStreamStatus::Idle => 0,
            BtLeAudioGroupStreamStatus::Streaming => 1,
            BtLeAudioGroupStreamStatus::Releasing => 2,
            BtLeAudioGroupStreamStatus::Suspending => 3,
            BtLeAudioGroupStreamStatus::Suspended => 4,
            BtLeAudioGroupStreamStatus::ConfiguredAutonomous => 5,
            BtLeAudioGroupStreamStatus::ConfiguredByUser => 6,
            BtLeAudioGroupStreamStatus::Destroyed => 7,
        }
    }

    /// Whether a number stands for a value.
    pub open spec fn is_number(value: i32) -> bool {
        0 <= value <= 7
    }

    /// The value that a number stands for.
    pub fn from(value: i32) -> (r: Self)
        requires
            BtLeAudioGroupStreamStatus::is_number(value),
        ensures
            r.number() == value,
    {
        if value == 0 {
            BtLeAudioGroupStreamStatus::Idle
        } else if value == 1 {
            BtLeAudioGroupStreamStatus::Streaming
        } else if value == 2 {
            BtLeAudioGroupStreamStatus::Releasing
        } else if value == 3 {
            BtLeAudioGroupStreamStatus::Suspending
        } else if value == 4 {
            BtLeAudioGroupStreamStatus::Suspended
        } else if value == 5 {
            BtLeAudioGroupStreamStatus::ConfiguredAutonomous
        } else if value == 6 {
            BtLeAudioGroupStreamStatus::ConfiguredByUser
        } else {
            BtLeAudioGroupStreamStatus::Destroyed
        }
    }
}

impl From<BtLeAudioGroupStreamStatus> for i32 {
    fn from(value: BtLeAudioGroupStreamStatus) -> (r: i32) {
        match value {
            BtLeAudioGroupStreamStatus::Idle => 0,
            BtLeAudioGroupStreamStatus::Streaming => 1,
            BtLeAudioGroupStreamStatus::Releasing => 2,
            BtLeAudioGroupStreamStatus::Suspending => 3,
            BtLeAudioGroupStreamStatus::Suspended => 4,
            BtLeAudioGroupStreamStatus::ConfiguredAutonomous => 5,
            BtLeAudioGroupStreamStatus::ConfiguredByUser => 6,
            BtLeAudioGroupStreamStatus::Destroyed => 7,
        }
    }
}

impl vstd::std_specs::convert::FromSpecImpl<BtLeAudioGroupStreamStatus> for i32 {
    open spec fn obeys_from_spec() -> bool {
        true
    }

    open spec fn from_spec(value: BtLeAudioGroupStreamStatus) -> i32 {
        value.number()
    }
}

impl Default for BtLeAudioGroupStreamStatus {
    fn default() -> (r: Self)
        ensures
            r == BtLeAudioGroupStreamStatus::Idle,
    {
        BtLeAudioGroupStreamStatus::Idle
    }
}

/// What the LE Audio client reports.
#[derive(Debug, Clone)]
pub enum LeAudioClientCallbacks {
    Initialized(),
    ConnectionState(BtLeAudioConnectionState, RawAddress),
    GroupStatus(i32, BtLeAudioGroupStatus),
    GroupNodeStatus(RawAddress, i32, BtLeAudioGroupNodeStatus),
    AudioConf(u8, i32, u32, u32, u16),
    SinkAudioLocationAvailable(RawAddress, u32),
    AudioLocalCodecCapabilities(Vec<BtLeAudioCodecConfig>, Vec<BtLeAudioCodecConfig>),
    AudioGroupCodecConf(
        i32,
        BtLeAudioCodecConfig,
        BtLeAudioCodecConfig,
        Vec<BtLeAudioCodecConfig>,
        Vec<BtLeAudioCodecConfig>,
    ),
    UnicastMonitorModeStatus(BtLeAudioDirection, BtLeAudioUnicastMonitorModeStatus),
    GroupStreamStatus(i32, BtLeAudioGroupStreamStatus),
}

} // verus!
