//! The record that the manager keeps for each advertising set.

use vstd::prelude::*;

verus! {

/// Identifier that the controller gives an advertising set once it has started.
pub type AdvertiserId = i32;

/// Identifier of a registered callback sink.
pub type CallbackId = u32;

/// Identifier that the manager gives an advertising set when it is registered.
pub type RegId = i32;

/// Advertiser id reported for a set that the controller has not confirmed.
pub const INVALID_ADV_ID: i32 = 0xff;

/// Registration id returned when no set was registered.
pub const INVALID_REG_ID: i32 = -1;

/// Keeps information of an advertising set.
#[derive(Debug, PartialEq, Eq, Copy, Clone, Structural)]
pub struct AdvertisingSetInfo {
    /// Identifies the advertising set when it's started successfully.
    pub adv_id: Option<AdvertiserId>,
    /// Identifies callback associated.
    pub callback_id: CallbackId,
    /// Identifies the advertising set when it's registered.
    pub reg_id: RegId,
    /// Whether the advertising set has been enabled.
    pub enabled: bool,
    /// Whether the advertising set has been paused.
    pub paused: bool,
    /// Whether the stop of advertising set is held, because the system is
    /// suspending or suspended, or because the set has not started yet.
    pub stopped: bool,
    /// Advertising duration, in 10 ms unit.
    pub adv_timeout: u16,
    /// Maximum number of extended advertising events the controller
    /// shall attempt to send before terminating the extended advertising.
    pub adv_events: u8,
    /// Whether the legacy advertisement will be used.
    pub legacy: bool,
}

impl AdvertisingSetInfo {
    /// A record for a set that has just been registered: not yet confirmed by
    /// the controller, not enabled, not paused, not stopped.
    pub fn new(callback_id: CallbackId, adv_timeout: u16, adv_events: u8, legacy: bool, reg_id: RegId) -> (r:
        Self)
        ensures
            r == (AdvertisingSetInfo {
                adv_id: None,
                callback_id,
                reg_id,
                enabled: false,
                paused: false,
                stopped: false,
                adv_timeout,
                adv_events,
                legacy,
            }),
    {
        AdvertisingSetInfo {
            adv_id: None,
            callback_id,
            reg_id,
            enabled: false,
            paused: false,
            stopped: false,
            adv_timeout,
            adv_events,
            legacy,
        }
    }

    /// Gets advertising set registration ID.
    pub fn reg_id(&self) -> (r: RegId)
        ensures
            r == self.reg_id,
    {
        self.reg_id
    }

    /// Gets associated callback ID.
    pub fn callback_id(&self) -> (r: CallbackId)
        ensures
            r == self.callback_id,
    {
        self.callback_id
    }

    /// Updates advertiser ID.
    pub fn set_adv_id(&mut self, id: Option<AdvertiserId>)
        ensures
            *final(self) == (AdvertisingSetInfo { adv_id: id, ..*old(self) }),
    {
        self.adv_id = id;
    }

    /// The advertiser id as the controller takes it: the low byte of the
    /// stored id, or 0xff where the set has none.
    pub open spec fn controller_id(self) -> u8 {
        match self.adv_id {
            Some(id) => id as u8,
            None => INVALID_ADV_ID as u8,
        }
    }

    /// Gets advertiser ID, as the controller's interface takes it.
    pub fn adv_id(&self) -> (r: u8)
        ensures
            r == self.controller_id(),
    {
        match self.adv_id {
            Some(id) => #[verifier::truncate] (id as u8),
            None => INVALID_ADV_ID as u8,
        }
    }

    /// Updates advertising set status.
    pub fn set_enabled(&mut self, enabled: bool)
        ensures
            *final(self) == (AdvertisingSetInfo { enabled, ..*old(self) }),
    {
        self.enabled = enabled;
    }

    /// Returns true if the advertising set has been enabled, false otherwise.
    pub fn is_enabled(&self) -> (r: bool)
        ensures
            r == self.enabled,
    {
        self.enabled
    }

    /// Marks the advertising set as paused or not.
    pub fn set_paused(&mut self, paused: bool)
        ensures
            *final(self) == (AdvertisingSetInfo { paused, ..*old(self) }),
    {
        self.paused = paused;
    }

    /// Returns true if the advertising set has been paused, false otherwise.
    pub fn is_paused(&self) -> (r: bool)
        ensures
            r == self.paused,
    {
        self.paused
    }

    /// Marks the advertising set as stopped.
    pub fn set_stopped(&mut self)
        ensures
            *final(self) == (AdvertisingSetInfo { stopped: true, ..*old(self) }),
    {
        self.stopped = true;
    }

    /// Returns true if the advertising set has been stopped, false otherwise.
    pub fn is_stopped(&self) -> (r: bool)
        ensures
            r == self.stopped,
    {
        self.stopped
    }

    /// Gets adv_timeout.
    pub fn adv_timeout(&self) -> (r: u16)
        ensures
            r == self.adv_timeout,
    {
        self.adv_timeout
    }

    /// Gets adv_events.
    pub fn adv_events(&self) -> (r: u8)
        ensures
            r == self.adv_events,
    {
        self.adv_events
    }

    /// Returns whether the legacy advertisement will be used.
    pub fn is_legacy(&self) -> (r: bool)
        ensures
            r == self.legacy,
    {
        self.legacy
    }

    /// Whether the controller has confirmed the set and given it an id.
    pub open spec fn valid(self) -> bool {
        self.adv_id is Some
    }

    /// Returns whether the advertising set is valid.
    pub fn is_valid(&self) -> (r: bool)
        ensures
            r == self.valid(),
    {
        self.adv_id.is_some()
    }
}

} // verus!
