//! The system properties that the stack reads, with the value each has
//! where it is not set.

use vstd::prelude::*;

verus! {

/// Integer properties.
#[derive(Debug, Copy, Clone, PartialEq, Eq, Structural)]
pub enum PropertyI32 {
    LeInquiryScanInterval,
    LeInquiryScanWindow,
    LeAdvMonScanInterval,
    LeAdvMonScanWindow,
    ProductId,
    ProductVersion,
    VendorId,
    VendorIdSource,
}

impl PropertyI32 {
    /// The value of the property where it is not set. Scan intervals and
    /// windows are in 0.625 ms units; the vendor id defaults to 0xE0, its
    /// source to 1.
    pub open spec fn default_value(self) -> i32 {
        match self {
            PropertyI32::LeInquiryScanInterval => 36,
            PropertyI32::LeInquiryScanWindow => 18,
            PropertyI32::LeAdvMonScanInterval => 40,
            PropertyI32::LeAdvMonScanWindow => 20,
            PropertyI32::ProductId => 0,
            PropertyI32::ProductVersion => 0,
            PropertyI32::VendorId => 0xE0,
            PropertyI32::VendorIdSource => 0x1,
        }
    }

    /// The name of the property.
    pub open spec fn key(self) -> Seq<char> {
        match self {
            PropertyI32::LeInquiryScanInterval => "bluetooth.core.le.inquiry_scan_interval"@,
            PropertyI32::LeInquiryScanWindow => "bluetooth.core.le.inquiry_scan_window"@,
            PropertyI32::LeAdvMonScanInterval => "bluetooth.core.le.adv_mon_scan_interval"@,
            PropertyI32::LeAdvMonScanWindow => "bluetooth.core.le.adv_mon_scan_window"@,
            PropertyI32::ProductId => "bluetooth.device_id.product_id"@,
            PropertyI32::ProductVersion => "bluetooth.device_id.product_version"@,
            PropertyI32::VendorId => "bluetooth.device_id.vendor_id"@,
            PropertyI32::VendorIdSource => "bluetooth.device_id.vendor_id_source"@,
        }
    }

    /// Convert the property into the property key name and a default value.
    pub fn into(self) -> (r: (&'static str, i32))
        ensures
            r.0@ == self.key(),
            r.1 == self.default_value(),
    {
        match self {
            PropertyI32::LeInquiryScanInterval => ("bluetooth.core.le.inquiry_scan_interval", 36),
            PropertyI32::LeInquiryScanWindow => ("bluetooth.core.le.inquiry_scan_window", 18),
            PropertyI32::LeAdvMonScanInterval => ("bluetooth.core.le.adv_mon_scan_interval", 40),
            PropertyI32::LeAdvMonScanWindow => ("bluetooth.core.le.adv_mon_scan_window", 20),
            PropertyI32::ProductId => ("bluetooth.device_id.product_id", 0),
            PropertyI32::ProductVersion => ("bluetooth.device_id.product_version", 0),
            PropertyI32::VendorId => ("bluetooth.device_id.vendor_id", 0xE0),
            PropertyI32::VendorIdSource => ("bluetooth.device_id.vendor_id_source", 0x1),
        }
    }
}

/// Boolean properties.
#[derive(Debug, Copy, Clone, PartialEq, Eq, Structural)]
pub enum PropertyBool {
    LeAdvMonRtlQuirk,
    LeAdvMonQcaQuirk,
    LeAudioEnableLeAudioOnly,
}

impl PropertyBool {
    /// The name of the property.
    pub open spec fn key(self) -> Seq<char> {
        match self {
            PropertyBool::LeAdvMonRtlQuirk => "bluetooth.core.le.adv_mon_rtl_quirk"@,
            PropertyBool::LeAdvMonQcaQuirk => "bluetooth.core.le.adv_mon_qca_quirk"@,
            PropertyBool::LeAudioEnableLeAudioOnly => "bluetooth.le_audio.enable_le_audio_only"@,
        }
    }

    /// Convert the property into the property key name and a default value,
    /// which is `false` for each of them.
    pub fn into(self) -> (r: (&'static str, bool))
        ensures
            r.0@ == self.key(),
            !r.1,
    {
        match self {
            PropertyBool::LeAdvMonRtlQuirk => ("bluetooth.core.le.adv_mon_rtl_quirk", false),
            PropertyBool::LeAdvMonQcaQuirk => ("bluetooth.core.le.adv_mon_qca_quirk", false),
            PropertyBool::LeAudioEnableLeAudioOnly => ("bluetooth.le_audio.enable_le_audio_only", false),
        }
    }
}

} // verus!
