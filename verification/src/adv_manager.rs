//! The advertising manager: owns the records of all advertising sets, gives
//! out registration ids, checks and encodes what clients ask for, follows the
//! confirmations of the controller, and drives the suspend protocol.
//!
//! The manager does no input or output. Every command for the controller and
//! every notification for a sink is queued; the caller takes the queue with
//! [`AdvertiseManager::take_actions`] and carries the actions out in order.

use vstd::prelude::*;
use crate::SuspendMode;
use crate::actions::Action;
use crate::actions::AdvertisingSetEvent;
use crate::actions::action_views;
use crate::adv_data::AdvertiseData;
use crate::adv_data::AdvertiseDataView;
use crate::adv_model::AdapterView;
use crate::adv_model::ManagerState;
use crate::adv_model::StartRequest;
use crate::adv_model::ascending;
use crate::adv_model::enable_command;
use crate::adv_model::index_of_adv_id;
use crate::adv_model::index_of_reg_id;
use crate::adv_model::is_first_with_adv_id;
use crate::adv_model::is_held_stop;
use crate::adv_model::is_on_air;
use crate::adv_model::is_other_callback;
use crate::adv_model::is_paused_set;
use crate::adv_model::is_smallest_free_reg_id;
use crate::adv_model::lemma_index_of_adv_id;
use crate::adv_model::lemma_index_of_reg_id;
use crate::adv_model::lemma_no_index_of_adv_id;
use crate::adv_model::lemma_remove_ascending;
use crate::adv_model::lemma_smallest_free_reg_id;
use crate::adv_model::record_at;
use crate::adv_model::smallest_free_reg_id;
use crate::adv_model::unregister_command;
use crate::adv_model::uses_reg_id;
use crate::adv_model::with_record;
use crate::adv_model::without_adv_ids;
use crate::adv_params::AdvertisingSetParameters;
use crate::adv_params::PeriodicAdvertisingParameters;
use crate::adv_set::AdvertiserId;
use crate::adv_set::AdvertisingSetInfo;
use crate::adv_set::CallbackId;
use crate::adv_set::INVALID_REG_ID;
use crate::adv_set::RegId;
use crate::gatt::AdvertiseParameters;
use crate::gatt::AdvertisingStatus;
use crate::gatt::RawAddress;
use crate::seq_lemmas::lemma_filter_prefix;
use crate::seq_lemmas::lemma_filter_suffix;
use crate::seq_lemmas::lemma_filter_take_next;
use num_traits::clamp;

verus! {

/// What the adapter reports of itself.
#[derive(Clone, Debug)]
pub struct AdapterInfo {
    /// The name of the device.
    pub name: String,
    /// Whether the controller supports extended advertising.
    pub le_extended_advertising_supported: bool,
}

impl View for AdapterInfo {
    type V = AdapterView;

    open spec fn view(&self) -> AdapterView {
        AdapterView {
            name: self.name@,
            le_extended_advertising_supported: self.le_extended_advertising_supported,
        }
    }
}

/// An index of a vector as an index of its view.
pub open spec fn as_int_index(index: Option<usize>) -> Option<int> {
    match index {
        Some(i) => Some(i as int),
        None => None,
    }
}

/// The plain values of a description that may be absent.
pub open spec fn optional_view(data: Option<AdvertiseData>) -> Option<AdvertiseDataView> {
    match data {
        Some(d) => Some(d@),
        None => None,
    }
}

/// Manages advertising sets and the callbacks.
pub struct AdvertiseManager {
    callbacks: Vec<CallbackId>,
    sets: Vec<AdvertisingSetInfo>,
    suspend_mode: SuspendMode,
    adapter: Option<AdapterInfo>,
    outbox: Vec<Action>,
}

impl View for AdvertiseManager {
    type V = ManagerState;

    closed spec fn view(&self) -> ManagerState {
        ManagerState {
            callbacks: self.callbacks@,
            sets: self.sets@,
            suspend_mode: self.suspend_mode,
            adapter: match self.adapter {
                Some(a) => Some(a@),
                None => None,
            },
            outbox: action_views(self.outbox@),
        }
    }
}

impl AdvertiseManager {
    /// A manager without sets, sinks or adapter, in normal mode.
    pub fn new() -> (r: Self)
        ensures
            r@ == ManagerState::initial(),
            r@.wf(),
    {
        let r = AdvertiseManager {
            callbacks: Vec::new(),
            sets: Vec::new(),
            suspend_mode: SuspendMode::Normal,
            adapter: None,
            outbox: Vec::new(),
        };
        assert(r@.outbox =~= Seq::empty());
        r
    }

    /// Takes note of what the adapter reports: its name and whether it
    /// supports extended advertising. `None` stands for no adapter.
    pub fn initialize(&mut self, adapter: Option<AdapterInfo>)
        ensures
            final(self)@ == old(self)@.initialize(
                match adapter {
                    Some(a) => Some(a@),
                    None => None,
                },
            ),
            old(self)@.wf() ==> final(self)@.wf(),
    {
        self.adapter = adapter;
    }

    /// Hands over the queued actions, oldest first, and empties the queue.
    pub fn take_actions(&mut self) -> (actions: Vec<Action>)
        ensures
            action_views(actions@) == old(self)@.outbox,
            final(self)@ == (ManagerState { outbox: Seq::empty(), ..old(self)@ }),
            old(self)@.wf() ==> final(self)@.wf(),
    {
        let mut actions: Vec<Action> = Vec::new();
        std::mem::swap(&mut actions, &mut self.outbox);
        assert(self@.outbox =~= Seq::empty());
        actions
    }

    /// The number of records.
    pub fn len(&self) -> (n: usize)
        ensures
            n == self@.sets.len(),
    {
        self.sets.len()
    }

    fn emit(&mut self, action: Action)
        ensures
            final(self)@ == old(self)@.emit(seq![action@]),
            old(self)@.wf() ==> final(self)@.wf(),
    {
        self.outbox.push(action);
        assert(self@.outbox =~= old(self)@.outbox + seq![action@]);
    }

    fn has_callback(&self, callback_id: CallbackId) -> (r: bool)
        ensures
            r == self@.callbacks.contains(callback_id),
    {
        let mut i: usize = 0;
        while i < self.callbacks.len()
            invariant
                i <= self.callbacks@.len(),
                forall|j: int| 0 <= j < i ==> self.callbacks@[j] != callback_id,
            decreases self.callbacks@.len() - i,
        {
            if self.callbacks[i] == callback_id {
                return true;
            }
            i = i + 1;
        }
        false
    }

    fn notify(&mut self, callback_id: CallbackId, event: AdvertisingSetEvent)
        ensures
            final(self)@ == old(self)@.notify(callback_id, event@),
            old(self)@.wf() ==> final(self)@.wf(),
    {
        if self.has_callback(callback_id) {
            self.emit(Action::Notify { callback_id, event });
        }
    }

    /// Returns the minimum unoccupied register ID from 0. The registry must
    /// hold fewer than 2^31 records, so that such an id exists.
    pub fn new_reg_id(&self) -> (r: RegId)
        requires
            self@.wf(),
            self@.sets.len() <= i32::MAX,
        ensures
            is_smallest_free_reg_id(self@.sets, r as int),
            r == smallest_free_reg_id(self@.sets),
    {
        let mut candidate: i32 = 0;
        let mut i: usize = 0;
        while i < self.sets.len() && self.sets[i].reg_id <= candidate
            invariant
                ascending(self.sets@),
                self.sets@.len() <= i32::MAX,
                0 <= candidate <= i <= self.sets@.len(),
                forall|k: int| 0 <= k < i ==> (#[trigger] self.sets@[k]).reg_id < candidate,
                forall|j: int| 0 <= j < candidate ==> #[trigger] uses_reg_id(self.sets@, j),
            decreases self.sets@.len() - i,
        {
            if self.sets[i].reg_id == candidate {
                candidate = candidate + 1;
            }
            i = i + 1;
        }
        proof {
            if uses_reg_id(self.sets@, candidate as int) {
                let k = choose|k: int| 0 <= k < self.sets@.len() && #[trigger] self.sets@[k].reg_id == candidate;
                if k > i {
                    assert(self.sets@[i as int].reg_id < self.sets@[k].reg_id);
                }
            }
            lemma_smallest_free_reg_id(self.sets@, candidate as int);
        }
        candidate
    }

    /// Where the record with a registration id stands.
    fn position_of_reg_id(&self, reg_id: RegId) -> (r: Option<usize>)
        requires
            self@.wf(),
        ensures
            as_int_index(r) == index_of_reg_id(self@.sets, reg_id),
            r matches Some(i) ==> i < self@.sets.len() && self@.sets[i as int].reg_id == reg_id,
    {
        let mut i: usize = 0;
        while i < self.sets.len()
            invariant
                i <= self.sets@.len(),
                ascending(self.sets@),
                forall|k: int| 0 <= k < i ==> (#[trigger] self.sets@[k]).reg_id != reg_id,
            decreases self.sets@.len() - i,
        {
            if self.sets[i].reg_id == reg_id {
                proof {
                    lemma_index_of_reg_id(self.sets@, reg_id, i as int);
                }
                return Some(i);
            }
            i = i + 1;
        }
        None
    }

    /// Where the first record with an advertiser id stands.
    fn position_of_adv_id(&self, adv_id: AdvertiserId) -> (r: Option<usize>)
        ensures
            as_int_index(r) == index_of_adv_id(self@.sets, adv_id),
            r matches Some(i) ==> is_first_with_adv_id(self@.sets, adv_id, i as int),
    {
        let mut i: usize = 0;
        while i < self.sets.len()
            invariant
                i <= self.sets@.len(),
                forall|k: int| 0 <= k < i ==> (#[trigger] self.sets@[k]).adv_id != Some(adv_id),
            decreases self.sets@.len() - i,
        {
            match self.sets[i].adv_id {
                Some(id) => {
                    if id == adv_id {
                        proof {
                            lemma_index_of_adv_id(self.sets@, adv_id, i as int);
                        }
                        return Some(i);
                    }
                },
                None => {},
            }
            i = i + 1;
        }
        proof {
            lemma_no_index_of_adv_id(self.sets@, adv_id);
        }
        None
    }

    /// Adds an advertising set. A record with the same registration id is
    /// replaced.
    pub fn add(&mut self, s: AdvertisingSetInfo)
        requires
            old(self)@.wf(),
        ensures
            final(self)@ == old(self)@.add(s),
            final(self)@.wf(),
    {
        let mut p: usize = 0;
        while p < self.sets.len() && self.sets[p].reg_id < s.reg_id
            invariant
                p <= self.sets@.len(),
                forall|k: int| 0 <= k < p ==> (#[trigger] self.sets@[k]).reg_id < s.reg_id,
            decreases self.sets@.len() - p,
        {
            p = p + 1;
        }
        let ghost before = self.sets@;
        let ghost below = |x: AdvertisingSetInfo| x.reg_id < s.reg_id;
        let ghost above = |x: AdvertisingSetInfo| x.reg_id > s.reg_id;
        proof {
            assert forall|k: int| p <= k < before.len() implies !below(#[trigger] before[k]) by {
                if p < k {
                    assert(before[p as int].reg_id < before[k].reg_id);
                }
            }
            lemma_filter_prefix(before, below, p as int);
        }
        if p < self.sets.len() && self.sets[p].reg_id == s.reg_id {
            self.sets[p] = s;
            proof {
                assert forall|k: int| p + 1 <= k < before.len() implies above(#[trigger] before[k]) by {
                    assert(before[p as int].reg_id < before[k].reg_id);
                }
                lemma_filter_suffix(before, above, p + 1);
                assert(self.sets@ =~= with_record(before, s));
            }
        } else {
            self.sets.insert(p, s);
            proof {
                assert forall|k: int| p <= k < before.len() implies above(#[trigger] before[k]) by {
                    if p < k {
                        assert(before[p as int].reg_id < before[k].reg_id);
                    }
                }
                lemma_filter_suffix(before, above, p as int);
                assert(self.sets@ =~= with_record(before, s));
            }
        }
        proof {
            let after = self.sets@;
            assert forall|a: int, b: int| 0 <= a < b < after.len() implies after[a].reg_id < after[b].reg_id by {
                if before.len() == after.len() {
                    assert(after[a].reg_id == before[a].reg_id);
                    assert(after[b].reg_id == before[b].reg_id);
                } else {
                    let a0 = if a < p { a } else { a - 1 };
                    let b0 = if b < p { b } else { b - 1 };
                    if a != p {
                        assert(after[a] == before[a0]);
                    }
                    if b != p {
                        assert(after[b] == before[b0]);
                    }
                }
            }
        }
    }

    /// Returns the valid advertising sets, by ascending registration id.
    pub fn valid_sets(&self) -> (r: Vec<AdvertisingSetInfo>)
        ensures
            r@ == self@.sets.filter(|s: AdvertisingSetInfo| s.valid()),
    {
        let ghost pred = |s: AdvertisingSetInfo| s.valid();
        let mut r: Vec<AdvertisingSetInfo> = Vec::new();
        let mut i: usize = 0;
        while i < self.sets.len()
            invariant
                i <= self.sets@.len(),
                pred == (|s: AdvertisingSetInfo| s.valid()),
                r@ == self.sets@.take(i as int).filter(pred),
            decreases self.sets@.len() - i,
        {
            proof {
                lemma_filter_take_next(self.sets@, pred, i as int);
            }
            if self.sets[i].is_valid() {
                r.push(self.sets[i]);
            }
            i = i + 1;
        }
        assert(self.sets@.take(i as int) =~= self.sets@);
        r
    }

    /// Returns the enabled advertising sets, by ascending registration id.
    pub fn enabled_sets(&self) -> (r: Vec<AdvertisingSetInfo>)
        ensures
            r@ == self@.sets.filter(|s: AdvertisingSetInfo| is_on_air(s)),
            r@.len() == self@.enabled_count(),
    {
        let ghost pred = |s: AdvertisingSetInfo| is_on_air(s);
        let mut r: Vec<AdvertisingSetInfo> = Vec::new();
        let mut i: usize = 0;
        while i < self.sets.len()
            invariant
                i <= self.sets@.len(),
                pred == (|s: AdvertisingSetInfo| is_on_air(s)),
                r@ == self.sets@.take(i as int).filter(pred),
            decreases self.sets@.len() - i,
        {
            proof {
                lemma_filter_take_next(self.sets@, pred, i as int);
            }
            if self.sets[i].is_valid() && self.sets[i].is_enabled() {
                r.push(self.sets[i]);
            }
            i = i + 1;
        }
        assert(self.sets@.take(i as int) =~= self.sets@);
        r
    }

    /// Returns the stopped advertising sets, by ascending registration id.
    pub fn stopped_sets(&self) -> (r: Vec<AdvertisingSetInfo>)
        ensures
            r@ == self@.sets.filter(|s: AdvertisingSetInfo| is_held_stop(s)),
    {
        let ghost pred = |s: AdvertisingSetInfo| is_held_stop(s);
        let mut r: Vec<AdvertisingSetInfo> = Vec::new();
        let mut i: usize = 0;
        while i < self.sets.len()
            invariant
                i <= self.sets@.len(),
                pred == (|s: AdvertisingSetInfo| is_held_stop(s)),
                r@ == self.sets@.take(i as int).filter(pred),
            decreases self.sets@.len() - i,
        {
            proof {
                lemma_filter_take_next(self.sets@, pred, i as int);
            }
            if self.sets[i].is_valid() && self.sets[i].is_stopped() {
                r.push(self.sets[i]);
            }
            i = i + 1;
        }
        assert(self.sets@.take(i as int) =~= self.sets@);
        r
    }

    /// The registration id of the first set with an advertiser id.
    pub fn find_reg_id(&self, adv_id: AdvertiserId) -> (r: Option<RegId>)
        ensures
            r == match record_at(self@.sets, index_of_adv_id(self@.sets, adv_id)) {
                Some(s) => Some(s.reg_id),
                None => None,
            },
    {
        match self.position_of_adv_id(adv_id) {
            Some(i) => Some(self.sets[i].reg_id()),
            None => None,
        }
    }

    /// Returns a shared reference to the advertising set with the reg_id specified.
    pub fn get_by_reg_id(&self, reg_id: RegId) -> (r: Option<&AdvertisingSetInfo>)
        requires
            self@.wf(),
        ensures
            match r {
                Some(s) => Some(*s),
                None => None,
            } == record_at(self@.sets, index_of_reg_id(self@.sets, reg_id)),
    {
        match self.position_of_reg_id(reg_id) {
            Some(i) => Some(&self.sets[i]),
            None => None,
        }
    }

    /// Returns a shared reference to the first advertising set with the
    /// advertiser ID specified.
    pub fn get_by_advertiser_id(&self, adv_id: AdvertiserId) -> (r: Option<&AdvertisingSetInfo>)
        ensures
            match r {
                Some(s) => Some(*s),
                None => None,
            } == record_at(self@.sets, index_of_adv_id(self@.sets, adv_id)),
    {
        match self.position_of_adv_id(adv_id) {
            Some(i) => Some(&self.sets[i]),
            None => None,
        }
    }

    /// Returns a mutable reference to the advertising set with the reg_id
    /// specified. The registry stays ascending as long as the registration
    /// id of the record is left as it is.
    pub(crate) fn get_mut_by_reg_id(&mut self, reg_id: RegId) -> (r: Option<&mut AdvertisingSetInfo>)
        requires
            old(self)@.wf(),
        ensures
            match index_of_reg_id(old(self)@.sets, reg_id) {
                Some(i) => r is Some && *r.unwrap() == old(self)@.sets[i] && final(self)@ == old(self)@.with_sets(
                    old(self)@.sets.update(i, *final(r.unwrap())),
                ),
                None => r is None && final(self)@ == old(self)@,
            },
    {
        match self.position_of_reg_id(reg_id) {
            Some(i) => Some(&mut self.sets[i]),
            None => None,
        }
    }

    /// Returns a mutable reference to the first advertising set with the
    /// advertiser ID specified. The registry stays ascending as long as the
    /// registration id of the record is left as it is.
    pub(crate) fn get_mut_by_advertiser_id(&mut self, adv_id: AdvertiserId) -> (r: Option<
        &mut AdvertisingSetInfo,
    >)
        ensures
            match index_of_adv_id(old(self)@.sets, adv_id) {
                Some(i) => r is Some && *r.unwrap() == old(self)@.sets[i] && final(self)@ == old(self)@.with_sets(
                    old(self)@.sets.update(i, *final(r.unwrap())),
                ),
                None => r is None && final(self)@ == old(self)@,
            },
    {
        match self.position_of_adv_id(adv_id) {
            Some(i) => Some(&mut self.sets[i]),
            None => None,
        }
    }

    /// Removes the advertising set with the reg_id specified.
    ///
    /// Returns the advertising set if found, None otherwise.
    pub fn remove_by_reg_id(&mut self, reg_id: RegId) -> (r: Option<AdvertisingSetInfo>)
        requires
            old(self)@.wf(),
        ensures
            r == record_at(old(self)@.sets, index_of_reg_id(old(self)@.sets, reg_id)),
            final(self)@ == old(self)@.remove_by_reg_id(reg_id),
            final(self)@.wf(),
    {
        match self.position_of_reg_id(reg_id) {
            Some(i) => {
                proof {
                    lemma_remove_ascending(self.sets@, i as int);
                }
                Some(self.sets.remove(i))
            },
            None => None,
        }
    }

    /// Removes the first advertising set with the specified advertiser ID.
    ///
    /// Returns the advertising set if found, None otherwise.
    pub fn remove_by_advertiser_id(&mut self, adv_id: AdvertiserId) -> (r: Option<AdvertisingSetInfo>)
        requires
            old(self)@.wf(),
        ensures
            r == record_at(old(self)@.sets, index_of_adv_id(old(self)@.sets, adv_id)),
            final(self)@ == old(self)@.remove_by_advertiser_id(adv_id),
            final(self)@.wf(),
    {
        match self.position_of_adv_id(adv_id) {
            Some(i) => {
                proof {
                    lemma_remove_ascending(self.sets@, i as int);
                }
                Some(self.sets.remove(i))
            },
            None => None,
        }
    }

    /// Gets current suspend mode.
    pub fn suspend_mode(&self) -> (r: SuspendMode)
        ensures
            r == self@.suspend_mode,
    {
        self.suspend_mode
    }

    /// Notify current suspend mode to all active callbacks.
    pub(crate) fn notify_suspend_mode(&mut self)
        ensures
            final(self)@ == old(self)@.notify_suspend_mode(),
            old(self)@.wf() ==> final(self)@.wf(),
    {
        let ghost event = crate::actions::EventView::SuspendModeChange { suspend_mode: self.suspend_mode };
        let ghost told = |callback_id: CallbackId| crate::actions::ActionView::Notify { callback_id, event };
        let mut i: usize = 0;
        while i < self.callbacks.len()
            invariant
                i <= self.callbacks@.len(),
                event == (crate::actions::EventView::SuspendModeChange { suspend_mode: self.suspend_mode }),
                told == (|callback_id: CallbackId| crate::actions::ActionView::Notify { callback_id, event }),
                self@ == old(self)@.emit(old(self)@.callbacks.take(i as int).map_values(told)),
            decreases self.callbacks@.len() - i,
        {
            let callback_id = self.callbacks[i];
            self.emit(
                Action::Notify {
                    callback_id,
                    event: AdvertisingSetEvent::SuspendModeChange { suspend_mode: self.suspend_mode },
                },
            );
            proof {
                let cbs = old(self)@.callbacks;
                assert(cbs.take(i + 1).map_values(told) =~= cbs.take(i as int).map_values(told) + seq![
                    told(callback_id),
                ]);
                assert(self@.outbox =~= old(self)@.outbox + cbs.take(i + 1).map_values(told));
            }
            i = i + 1;
        }
        proof {
            assert(old(self)@.callbacks.take(i as int) =~= old(self)@.callbacks);
        }
    }

    /// Update suspend mode, and tell every sink where it changes.
    pub(crate) fn set_suspend_mode(&mut self, suspend_mode: SuspendMode)
        ensures
            final(self)@ == old(self)@.set_suspend_mode(suspend_mode),
            old(self)@.wf() ==> final(self)@.wf(),
    {
        if suspend_mode != self.suspend_mode {
            self.suspend_mode = suspend_mode;
            self.notify_suspend_mode();
        }
    }

    /// The name of the adapter; empty where there is no adapter.
    pub fn get_adapter_name(&self) -> (r: String)
        ensures
            r@ == self@.adapter_name(),
    {
        match &self.adapter {
            Some(adapter) => adapter.name.clone(),
            None => String::new(),
        }
    }
    /// Registers callback for BLE advertising. The sink is known to the
    /// manager by its id, which is handed back.
    pub fn register_callback(&mut self, callback_id: CallbackId) -> (r: CallbackId)
        requires
            old(self)@.wf(),
        ensures
            r == callback_id,
            final(self)@ == old(self)@.register_callback(callback_id),
            final(self)@.wf(),
    {
        if !self.has_callback(callback_id) {
            self.callbacks.push(callback_id);
            proof {
                let after = self.callbacks@;
                assert forall|a: int, b: int| 0 <= a < after.len() && 0 <= b < after.len() && a != b implies after[a]
                    != after[b] by {
                    if a < after.len() - 1 {
                        assert(after[a] == old(self)@.callbacks[a]);
                    }
                    if b < after.len() - 1 {
                        assert(after[b] == old(self)@.callbacks[b]);
                    }
                }
            }
        }
        callback_id
    }

    /// Unregisters callback for BLE advertising. Returns whether the sink
    /// was registered.
    pub fn unregister_callback(&mut self, callback_id: CallbackId) -> (r: bool)
        requires
            old(self)@.wf(),
        ensures
            r == old(self)@.callbacks.contains(callback_id),
            final(self)@ == old(self)@.unregister_callback(callback_id),
            final(self)@.wf(),
    {
        let ghost kept_pred = |s: AdvertisingSetInfo| s.callback_id != callback_id || !s.valid();
        let ghost gone_pred = |s: AdvertisingSetInfo| s.callback_id == callback_id && s.valid();
        let ghost mark = |s: AdvertisingSetInfo|
            if s.callback_id == callback_id {
                AdvertisingSetInfo { stopped: true, ..s }
            } else {
                s
            };
        let ghost dispose = |s: AdvertisingSetInfo| unregister_command(s);
        let ghost sets = self.sets@;
        let mut kept: Vec<AdvertisingSetInfo> = Vec::new();
        let mut i: usize = 0;
        while i < self.sets.len()
            invariant
                i <= self.sets@.len(),
                sets == self.sets@,
                sets == old(self)@.sets,
                ascending(sets),
                kept_pred == (|s: AdvertisingSetInfo| s.callback_id != callback_id || !s.valid()),
                gone_pred == (|s: AdvertisingSetInfo| s.callback_id == callback_id && s.valid()),
                mark == (|s: AdvertisingSetInfo|
                    if s.callback_id == callback_id {
                        AdvertisingSetInfo { stopped: true, ..s }
                    } else {
                        s
                    }),
                dispose == (|s: AdvertisingSetInfo| unregister_command(s)),
                kept@ == sets.take(i as int).filter(kept_pred).map_values(mark),
                self@ == old(self)@.emit(sets.take(i as int).filter(gone_pred).map_values(dispose)),
                ascending(kept@),
                i < sets.len() ==> forall|k: int| 0 <= k < kept@.len() ==> (#[trigger] kept@[k]).reg_id < sets[i as int].reg_id,
            decreases self.sets@.len() - i,
        {
            let s = self.sets[i];
            proof {
                lemma_filter_take_next(sets, kept_pred, i as int);
                lemma_filter_take_next(sets, gone_pred, i as int);
                if i + 1 < sets.len() {
                    assert(sets[i as int].reg_id < sets[i + 1].reg_id);
                }
            }
            if s.callback_id() == callback_id {
                if s.is_valid() {
                    self.emit(Action::Unregister { advertiser_id: s.adv_id() });
                    proof {
                        let done = sets.take(i as int).filter(gone_pred);
                        assert(done.push(s).map_values(dispose) =~= done.map_values(dispose) + seq![dispose(s)]);
                        assert(self@.outbox =~= old(self)@.outbox + done.push(s).map_values(dispose));
                    }
                } else {
                    let mut stopped = s;
                    stopped.set_stopped();
                    kept.push(stopped);
                    proof {
                        let done = sets.take(i as int).filter(kept_pred);
                        assert(done.push(s).map_values(mark) =~= done.map_values(mark).push(mark(s)));
                    }
                }
            } else {
                kept.push(s);
                proof {
                    let done = sets.take(i as int).filter(kept_pred);
                    assert(done.push(s).map_values(mark) =~= done.map_values(mark).push(mark(s)));
                }
            }
            i = i + 1;
        }
        proof {
            assert(sets.take(i as int) =~= sets);
        }
        self.sets = kept;

        let ghost other = is_other_callback(callback_id);
        let ghost callbacks = self.callbacks@;
        let mut left: Vec<CallbackId> = Vec::new();
        let mut found = false;
        let mut j: usize = 0;
        while j < self.callbacks.len()
            invariant
                j <= self.callbacks@.len(),
                callbacks == self.callbacks@,
                callbacks == old(self)@.callbacks,
                callbacks.no_duplicates(),
                other == is_other_callback(callback_id),
                left@ == callbacks.take(j as int).filter(other),
                left@.no_duplicates(),
                found == callbacks.take(j as int).contains(callback_id),
            decreases self.callbacks@.len() - j,
        {
            let c = self.callbacks[j];
            proof {
                lemma_filter_take_next(callbacks, other, j as int);
                assert(callbacks.take(j + 1) =~= callbacks.take(j as int).push(c));
                if left@.contains(c) {
                    callbacks.take(j as int).lemma_filter_contains_rev(other, c);
                    let k = choose|k: int| 0 <= k < j && callbacks.take(j as int)[k] == c;
                    assert(callbacks[k] == callbacks[j as int]);
                }
                if callbacks.take(j as int).contains(callback_id) {
                    let k = choose|k: int| 0 <= k < j && callbacks.take(j as int)[k] == callback_id;
                    assert(callbacks.take(j + 1)[k] == callback_id);
                }
                if c == callback_id {
                    assert(callbacks.take(j + 1)[j as int] == callback_id);
                }
            }
            if c == callback_id {
                found = true;
            } else {
                let ghost before = left@;
                left.push(c);
                proof {
                    assert forall|a: int, b: int| 0 <= a < left@.len() && 0 <= b < left@.len() && a != b implies left@[a]
                        != left@[b] by {
                        if a < before.len() && b < before.len() {
                            assert(before[a] != before[b]);
                        } else if a < before.len() {
                            assert(before.contains(before[a]));
                        } else {
                            assert(before.contains(before[b]));
                        }
                    }
                }
            }
            j = j + 1;
        }
        proof {
            assert(callbacks.take(j as int) =~= callbacks);
        }
        self.callbacks = left;
        proof {
            let spec_state = old(self)@.unregister_callback(callback_id);
            assert(self@.suspend_mode == spec_state.suspend_mode);
            assert(self@.outbox == spec_state.outbox);
            assert(self@.sets == spec_state.sets);
            assert(callbacks == old(self)@.callbacks);
            assert(left@ == callbacks.filter(other));
            assert(self@.callbacks == left@);
            assert(self@.callbacks == spec_state.callbacks);
            assert(self@.sets == spec_state.sets);
            assert(self@.outbox == spec_state.outbox);
            assert(self@.suspend_mode == spec_state.suspend_mode);
            assert(self@.adapter == spec_state.adapter);
        }
        found
    }

    /// Creates a new BLE advertising set and start advertising.
    ///
    /// Returns the reg_id for the advertising set, which is used in the
    /// notification of its start to identify the advertising set started, or
    /// -1 where the request is turned down: outside normal mode, or with
    /// data that is too long. The registry must hold fewer than 2^31
    /// records, so that a registration id is free.
    pub fn start_advertising_set(
        &mut self,
        parameters: AdvertisingSetParameters,
        advertise_data: AdvertiseData,
        scan_response: Option<AdvertiseData>,
        periodic_parameters: Option<PeriodicAdvertisingParameters>,
        periodic_data: Option<AdvertiseData>,
        duration: i32,
        max_ext_adv_events: i32,
        callback_id: CallbackId,
    ) -> (r: RegId)
        requires
            old(self)@.wf(),
            old(self)@.sets.len() <= i32::MAX,
        ensures
            r == old(self)@.start_result(
                StartRequest {
                    parameters,
                    advertise_data: advertise_data@,
                    scan_response: optional_view(scan_response),
                    periodic_parameters,
                    periodic_data: optional_view(periodic_data),
                    duration,
                    max_ext_adv_events,
                    callback_id,
                },
            ),
            final(self)@ == old(self)@.start_advertising_set(
                StartRequest {
                    parameters,
                    advertise_data: advertise_data@,
                    scan_response: optional_view(scan_response),
                    periodic_parameters,
                    periodic_data: optional_view(periodic_data),
                    duration,
                    max_ext_adv_events,
                    callback_id,
                },
            ),
            final(self)@.wf(),
    {
        let ghost req = StartRequest {
            parameters,
            advertise_data: advertise_data@,
            scan_response: optional_view(scan_response),
            periodic_parameters,
            periodic_data: optional_view(periodic_data),
            duration,
            max_ext_adv_events,
            callback_id,
        };
        if self.suspend_mode() != SuspendMode::Normal {
            return INVALID_REG_ID;
        }
        let mut parameters = parameters;
        let device_name = self.get_adapter_name();
        let adv_bytes = advertise_data.make_with(&device_name);
        let is_le_extended_advertising_supported = match &self.adapter {
            Some(adapter) => adapter.le_extended_advertising_supported,
            None => false,
        };
        let was_legacy = parameters.is_legacy;
        let upgraded = AdvertiseData::can_upgrade(&mut parameters, &adv_bytes, is_le_extended_advertising_supported);
        let is_legacy = was_legacy && !upgraded;
        assert(is_legacy == self@.start_is_legacy(req));
        let params = AdvertiseParameters::from(parameters);
        if !AdvertiseData::validate_raw_data(is_legacy, &adv_bytes) {
            return INVALID_REG_ID;
        }
        let scan_bytes = match scan_response {
            Some(d) => d.make_with(&device_name),
            None => Vec::new(),
        };
        if !AdvertiseData::validate_raw_data(is_legacy, &scan_bytes) {
            return INVALID_REG_ID;
        }
        let periodic_params = match periodic_parameters {
            Some(p) => crate::gatt::PeriodicAdvertisingParameters::from(p),
            None => crate::gatt::PeriodicAdvertisingParameters::default(),
        };
        let periodic_bytes = match periodic_data {
            Some(d) => d.make_with(&device_name),
            None => Vec::new(),
        };
        if !AdvertiseData::validate_raw_data(false, &periodic_bytes) {
            return INVALID_REG_ID;
        }
        let adv_timeout = clamp(duration, 0, 0xffff) as u16;
        let adv_events = clamp(max_ext_adv_events, 0, 0xff) as u8;

        assert(self@.start_accepted(req));
        let reg_id = self.new_reg_id();
        let s = AdvertisingSetInfo::new(callback_id, adv_timeout, adv_events, is_legacy, reg_id);
        assert(s == self@.start_record(req));
        let action = Action::StartAdvertisingSet {
            reg_id,
            params,
            advertise_data: adv_bytes,
            scan_response: scan_bytes,
            periodic_params,
            periodic_data: periodic_bytes,
            duration: adv_timeout,
            max_ext_adv_events: adv_events,
        };
        assert(action@ == self@.start_command(req));
        self.add(s);
        self.emit(action);
        reg_id
    }

    /// Disposes a BLE advertising set.
    pub fn stop_advertising_set(&mut self, advertiser_id: AdvertiserId)
        requires
            old(self)@.wf(),
        ensures
            final(self)@ == old(self)@.stop_advertising_set(advertiser_id),
            final(self)@.wf(),
    {
        let i = match self.position_of_adv_id(advertiser_id) {
            Some(i) => i,
            None => {
                return ;
            },
        };
        let s = self.sets[i];
        if self.suspend_mode() != SuspendMode::Normal {
            if !s.is_stopped() {
                match self.get_mut_by_advertiser_id(advertiser_id) {
                    Some(held) => {
                        held.set_stopped();
                    },
                    None => {},
                }
                proof {
                    let sets = old(self)@.sets;
                    assert forall|a: int, b: int| 0 <= a < b < self.sets@.len() implies self.sets@[a].reg_id
                        < self.sets@[b].reg_id by {
                        assert(self.sets@[a].reg_id == sets[a].reg_id);
                        assert(self.sets@[b].reg_id == sets[b].reg_id);
                    }
                }
                self.notify(s.callback_id(), AdvertisingSetEvent::AdvertisingSetStopped { advertiser_id });
            }
            return ;
        }
        self.emit(Action::Unregister { advertiser_id: s.adv_id() });
        self.notify(s.callback_id(), AdvertisingSetEvent::AdvertisingSetStopped { advertiser_id });
        proof {
            lemma_remove_ascending(self.sets@, i as int);
        }
        self.sets.remove(i);
    }

    /// Queries address associated with the advertising set.
    pub fn get_own_address(&mut self, advertiser_id: AdvertiserId)
        ensures
            final(self)@ == old(self)@.get_own_address(advertiser_id),
            old(self)@.wf() ==> final(self)@.wf(),
    {
        if self.suspend_mode() != SuspendMode::Normal {
            return ;
        }
        match self.position_of_adv_id(advertiser_id) {
            Some(i) => {
                let s = self.sets[i];
                self.emit(Action::GetOwnAddress { advertiser_id: s.adv_id() });
            },
            None => {},
        }
    }

    /// Enables or disables an advertising set.
    pub fn enable_advertising_set(
        &mut self,
        advertiser_id: AdvertiserId,
        enable: bool,
        duration: i32,
        max_ext_adv_events: i32,
    )
        ensures
            final(self)@ == old(self)@.enable_advertising_set(advertiser_id, enable, duration, max_ext_adv_events),
            old(self)@.wf() ==> final(self)@.wf(),
    {
        if self.suspend_mode() != SuspendMode::Normal {
            return ;
        }
        let adv_timeout = clamp(duration, 0, 0xffff) as u16;
        let adv_events = clamp(max_ext_adv_events, 0, 0xff) as u8;
        match self.position_of_adv_id(advertiser_id) {
            Some(i) => {
                let s = self.sets[i];
                self.emit(
                    Action::Enable {
                        advertiser_id: s.adv_id(),
                        enable,
                        duration: adv_timeout,
                        max_ext_adv_events: adv_events,
                    },
                );
            },
            None => {},
        }
    }

    fn set_raw_data(&mut self, advertiser_id: AdvertiserId, set_scan_rsp: bool, data: Vec<u8>)
        ensures
            final(self)@ == old(self)@.set_raw_data(advertiser_id, set_scan_rsp, data@),
            old(self)@.wf() ==> final(self)@.wf(),
    {
        if self.suspend_mode() != SuspendMode::Normal {
            return ;
        }
        match self.position_of_adv_id(advertiser_id) {
            Some(i) => {
                let s = self.sets[i];
                if !AdvertiseData::validate_raw_data(s.is_legacy(), &data) {
                    assert(self@.outbox + Seq::<crate::actions::ActionView>::empty() =~= self@.outbox);
                    return ;
                }
                self.emit(Action::SetData { advertiser_id: s.adv_id(), set_scan_rsp, data });
            },
            None => {},
        }
    }

    /// Updates advertisement data of the advertising set.
    pub fn set_advertising_data(&mut self, advertiser_id: AdvertiserId, data: AdvertiseData)
        ensures
            final(self)@ == old(self)@.set_advertising_data(advertiser_id, data@),
            old(self)@.wf() ==> final(self)@.wf(),
    {
        if self.suspend_mode() != SuspendMode::Normal {
            return ;
        }
        let device_name = self.get_adapter_name();
        let bytes = data.make_with(&device_name);
        self.set_raw_data(advertiser_id, false, bytes);
    }

    /// Set the advertisement data of the advertising set.
    pub fn set_raw_adv_data(&mut self, advertiser_id: AdvertiserId, data: Vec<u8>)
        ensures
            final(self)@ == old(self)@.set_raw_adv_data(advertiser_id, data@),
            old(self)@.wf() ==> final(self)@.wf(),
    {
        self.set_raw_data(advertiser_id, false, data);
    }

    /// Updates scan response of the advertising set.
    pub fn set_scan_response_data(&mut self, advertiser_id: AdvertiserId, data: AdvertiseData)
        ensures
            final(self)@ == old(self)@.set_scan_response_data(advertiser_id, data@),
            old(self)@.wf() ==> final(self)@.wf(),
    {
        if self.suspend_mode() != SuspendMode::Normal {
            return ;
        }
        let device_name = self.get_adapter_name();
        let bytes = data.make_with(&device_name);
        self.set_raw_data(advertiser_id, true, bytes);
    }

    /// Updates advertising parameters of the advertising set. A set that is
    /// enabled is disabled for the change and enabled again after it.
    pub fn set_advertising_parameters(&mut self, advertiser_id: AdvertiserId, parameters: AdvertisingSetParameters)
        ensures
            final(self)@ == old(self)@.set_advertising_parameters(advertiser_id, parameters),
            old(self)@.wf() ==> final(self)@.wf(),
    {
        if self.suspend_mode() != SuspendMode::Normal {
            return ;
        }
        let params = AdvertiseParameters::from(parameters);
        match self.position_of_adv_id(advertiser_id) {
            Some(i) => {
                let s = self.sets[i];
                let was_enabled = s.is_enabled();
                if was_enabled {
                    self.emit(
                        Action::Enable {
                            advertiser_id: s.adv_id(),
                            enable: false,
                            duration: s.adv_timeout(),
                            max_ext_adv_events: s.adv_events(),
                        },
                    );
                }
                self.emit(Action::SetParameters { advertiser_id: s.adv_id(), params });
                if was_enabled {
                    self.emit(
                        Action::Enable {
                            advertiser_id: s.adv_id(),
                            enable: true,
                            duration: s.adv_timeout(),
                            max_ext_adv_events: s.adv_events(),
                        },
                    );
                }
                proof {
                    let change = crate::actions::ActionView::SetParameters {
                        advertiser_id: s.controller_id(),
                        params: crate::adv_params::controller_parameters(parameters),
                    };
                    if was_enabled {
                        assert(self@.outbox =~= old(self)@.outbox + seq![
                            enable_command(s, false),
                            change,
                            enable_command(s, true),
                        ]);
                    }
                }
            },
            None => {},
        }
    }

    /// Updates periodic advertising parameters.
    pub fn set_periodic_advertising_parameters(
        &mut self,
        advertiser_id: AdvertiserId,
        parameters: PeriodicAdvertisingParameters,
    )
        ensures
            final(self)@ == old(self)@.set_periodic_advertising_parameters(advertiser_id, parameters),
            old(self)@.wf() ==> final(self)@.wf(),
    {
        if self.suspend_mode() != SuspendMode::Normal {
            return ;
        }
        let periodic_params = crate::gatt::PeriodicAdvertisingParameters::from(parameters);
        match self.position_of_adv_id(advertiser_id) {
            Some(i) => {
                let s = self.sets[i];
                self.emit(Action::SetPeriodicAdvertisingParameters { advertiser_id: s.adv_id(), periodic_params });
            },
            None => {},
        }
    }

    /// Updates periodic advertisement data.
    pub fn set_periodic_advertising_data(&mut self, advertiser_id: AdvertiserId, data: AdvertiseData)
        ensures
            final(self)@ == old(self)@.set_periodic_advertising_data(advertiser_id, data@),
            old(self)@.wf() ==> final(self)@.wf(),
    {
        if self.suspend_mode() != SuspendMode::Normal {
            return ;
        }
        let device_name = self.get_adapter_name();
        let bytes = data.make_with(&device_name);
        match self.position_of_adv_id(advertiser_id) {
            Some(i) => {
                let s = self.sets[i];
                if !AdvertiseData::validate_raw_data(false, &bytes) {
                    assert(self@.outbox + Seq::<crate::actions::ActionView>::empty() =~= self@.outbox);
                    return ;
                }
                self.emit(Action::SetPeriodicAdvertisingData { advertiser_id: s.adv_id(), data: bytes });
            },
            None => {},
        }
    }

    /// Enables or disables periodic advertising.
    pub fn set_periodic_advertising_enable(&mut self, advertiser_id: AdvertiserId, enable: bool, include_adi: bool)
        ensures
            final(self)@ == old(self)@.set_periodic_advertising_enable(advertiser_id, enable, include_adi),
            old(self)@.wf() ==> final(self)@.wf(),
    {
        if self.suspend_mode() != SuspendMode::Normal {
            return ;
        }
        match self.position_of_adv_id(advertiser_id) {
            Some(i) => {
                let s = self.sets[i];
                self.emit(Action::SetPeriodicAdvertisingEnable { advertiser_id: s.adv_id(), enable, include_adi });
            },
            None => {},
        }
    }
    /// Begins to suspend: every set on the air is paused and disabled. With
    /// no such set the manager is suspended when this returns; else it is
    /// suspended once the controller has confirmed the last of them disabled.
    pub fn enter_suspend(&mut self)
        requires
            old(self)@.wf(),
        ensures
            final(self)@ == old(self)@.enter_suspend(),
            final(self)@.wf(),
    {
        self.set_suspend_mode(SuspendMode::Suspending);
        let ghost begun = self@;
        let ghost sets = self.sets@;
        let ghost on_air = |s: AdvertisingSetInfo| is_on_air(s);
        let ghost pause = |s: AdvertisingSetInfo|
            if is_on_air(s) {
                AdvertisingSetInfo { paused: true, ..s }
            } else {
                s
            };
        let ghost disable = |s: AdvertisingSetInfo| enable_command(s, false);

        let mut pausing_cnt: usize = 0;
        let mut i: usize = 0;
        assert(sets.take(0).map_values(pause) + sets.skip(0) =~= sets);
        assert(begun.outbox + sets.take(0).filter(on_air).map_values(disable) =~= begun.outbox);
        while i < self.sets.len()
            invariant
                i <= sets.len(),
                self.sets@.len() == sets.len(),
                ascending(sets),
                on_air == (|s: AdvertisingSetInfo| is_on_air(s)),
                pause == (|s: AdvertisingSetInfo|
                    if is_on_air(s) {
                        AdvertisingSetInfo { paused: true, ..s }
                    } else {
                        s
                    }),
                disable == (|s: AdvertisingSetInfo| enable_command(s, false)),
                self@ == (ManagerState {
                    sets: sets.take(i as int).map_values(pause) + sets.skip(i as int),
                    outbox: begun.outbox + sets.take(i as int).filter(on_air).map_values(disable),
                    ..begun
                }),
                pausing_cnt == sets.take(i as int).filter(on_air).len(),
                pausing_cnt <= i,
            decreases sets.len() - i,
        {
            proof {
                lemma_filter_take_next(sets, on_air, i as int);
                assert(self.sets@[i as int] == sets[i as int]);
            }
            if self.sets[i].is_valid() && self.sets[i].is_enabled() {
                self.sets[i].set_paused(true);
                let s = self.sets[i];
                self.emit(
                    Action::Enable {
                        advertiser_id: s.adv_id(),
                        enable: false,
                        duration: s.adv_timeout(),
                        max_ext_adv_events: s.adv_events(),
                    },
                );
                pausing_cnt = pausing_cnt + 1;
                proof {
                    let done = sets.take(i as int).filter(on_air);
                    assert(done.push(sets[i as int]).map_values(disable) =~= done.map_values(disable).push(
                        disable(sets[i as int]),
                    ));
                    assert(self@.outbox =~= begun.outbox + sets.take(i + 1).filter(on_air).map_values(disable));
                }
            }
            proof {
                assert(self@.sets =~= sets.take(i + 1).map_values(pause) + sets.skip(i + 1));
            }
            i = i + 1;
        }
        proof {
            assert(sets.take(i as int) =~= sets);
            assert(sets.map_values(pause) + sets.skip(i as int) =~= sets.map_values(pause));
            assert forall|a: int, b: int| 0 <= a < b < self.sets@.len() implies self.sets@[a].reg_id
                < self.sets@[b].reg_id by {
                assert(self.sets@[a].reg_id == sets[a].reg_id);
                assert(self.sets@[b].reg_id == sets[b].reg_id);
            }
        }
        if pausing_cnt == 0 {
            self.set_suspend_mode(SuspendMode::Suspended);
        }
    }

    /// Resumes: every set whose stop was held back is disposed of, every
    /// paused set is enabled again, and the manager is back in normal mode.
    pub fn exit_suspend(&mut self)
        requires
            old(self)@.wf(),
        ensures
            final(self)@ == old(self)@.exit_suspend(),
            final(self)@.wf(),
    {
        let ghost start = self@;
        let ghost dispose = |s: AdvertisingSetInfo| unregister_command(s);
        let ghost id_of = |s: AdvertisingSetInfo| s.controller_id();
        let held = self.stopped_sets();
        let mut k: usize = 0;
        assert(start.outbox + held@.take(0).map_values(dispose) =~= start.outbox);
        assert(held@.take(0).map_values(id_of) =~= Seq::<u8>::empty());
        while k < held.len()
            invariant
                k <= held@.len(),
                start == old(self)@,
                dispose == (|s: AdvertisingSetInfo| unregister_command(s)),
                id_of == (|s: AdvertisingSetInfo| s.controller_id()),
                self@ == (ManagerState {
                    sets: without_adv_ids(start.sets, held@.take(k as int).map_values(id_of)),
                    outbox: start.outbox + held@.take(k as int).map_values(dispose),
                    ..start
                }),
                self@.wf(),
            decreases held@.len() - k,
        {
            let id: u8 = held[k].adv_id();
            proof {
                let ids = held@.take(k + 1).map_values(id_of);
                assert(ids.drop_last() =~= held@.take(k as int).map_values(id_of));
                assert(ids.last() == id);
                assert(held@.take(k + 1).map_values(dispose) =~= held@.take(k as int).map_values(dispose).push(
                    dispose(held@[k as int]),
                ));
            }
            self.emit(Action::Unregister { advertiser_id: id });
            self.remove_by_advertiser_id(id as AdvertiserId);
            proof {
                assert(self@.outbox =~= start.outbox + held@.take(k + 1).map_values(dispose));
            }
            k = k + 1;
        }
        proof {
            assert(held@.take(k as int) =~= held@);
        }

        let ghost cleared = self@;
        let ghost left = self.sets@;
        let ghost paused = |s: AdvertisingSetInfo| is_paused_set(s);
        let ghost resume = |s: AdvertisingSetInfo|
            if is_paused_set(s) {
                AdvertisingSetInfo { paused: false, ..s }
            } else {
                s
            };
        let ghost enable = |s: AdvertisingSetInfo| enable_command(s, true);
        let mut i: usize = 0;
        assert(left.take(0).map_values(resume) + left.skip(0) =~= left);
        assert(cleared.outbox + left.take(0).filter(paused).map_values(enable) =~= cleared.outbox);
        while i < self.sets.len()
            invariant
                i <= left.len(),
                self.sets@.len() == left.len(),
                paused == (|s: AdvertisingSetInfo| is_paused_set(s)),
                resume == (|s: AdvertisingSetInfo|
                    if is_paused_set(s) {
                        AdvertisingSetInfo { paused: false, ..s }
                    } else {
                        s
                    }),
                enable == (|s: AdvertisingSetInfo| enable_command(s, true)),
                self@ == (ManagerState {
                    sets: left.take(i as int).map_values(resume) + left.skip(i as int),
                    outbox: cleared.outbox + left.take(i as int).filter(paused).map_values(enable),
                    ..cleared
                }),
            decreases left.len() - i,
        {
            proof {
                lemma_filter_take_next(left, paused, i as int);
                assert(self.sets@[i as int] == left[i as int]);
            }
            if self.sets[i].is_valid() && self.sets[i].is_paused() {
                self.sets[i].set_paused(false);
                let s = self.sets[i];
                self.emit(
                    Action::Enable {
                        advertiser_id: s.adv_id(),
                        enable: true,
                        duration: s.adv_timeout(),
                        max_ext_adv_events: s.adv_events(),
                    },
                );
                proof {
                    let done = left.take(i as int).filter(paused);
                    assert(done.push(left[i as int]).map_values(enable) =~= done.map_values(enable).push(
                        enable(left[i as int]),
                    ));
                    assert(self@.outbox =~= cleared.outbox + left.take(i + 1).filter(paused).map_values(enable));
                }
            }
            proof {
                assert(self@.sets =~= left.take(i + 1).map_values(resume) + left.skip(i + 1));
            }
            i = i + 1;
        }
        proof {
            assert(left.take(i as int) =~= left);
            assert(left.map_values(resume) + left.skip(i as int) =~= left.map_values(resume));
            assert forall|a: int, b: int| 0 <= a < b < self.sets@.len() implies self.sets@[a].reg_id
                < self.sets@[b].reg_id by {
                assert(self.sets@[a].reg_id == left[a].reg_id);
                assert(self.sets@[b].reg_id == left[b].reg_id);
            }
            let held_all = start.sets.filter(|s: AdvertisingSetInfo| is_held_stop(s));
            assert(held_all == held@);
            assert(self@.outbox =~= start.outbox + held@.map_values(dispose) + left.filter(paused).map_values(
                enable,
            ));
        }
        self.set_suspend_mode(SuspendMode::Normal);
    }

    /// The controller has answered a request to start a set.
    pub fn on_advertising_set_started(
        &mut self,
        reg_id: RegId,
        advertiser_id: u8,
        tx_power: i8,
        status: AdvertisingStatus,
    )
        requires
            old(self)@.wf(),
        ensures
            final(self)@ == old(self)@.on_advertising_set_started(reg_id, advertiser_id, tx_power, status),
            final(self)@.wf(),
    {
        let ghost sets = self.sets@;
        let ghost found = index_of_reg_id(sets, reg_id);
        let (stopped, callback_id) = match self.get_mut_by_reg_id(reg_id) {
            Some(s) => {
                let stopped = s.is_stopped();
                if !stopped {
                    s.set_adv_id(Some(advertiser_id as AdvertiserId));
                    s.set_enabled(status == AdvertisingStatus::Success);
                }
                (stopped, s.callback_id())
            },
            None => {
                // An unknown advertising set has started. Unregister it anyway.
                self.emit(Action::Unregister { advertiser_id });
                return ;
            },
        };
        proof {
            let i = found.unwrap();
            assert(uses_reg_id(sets, reg_id as int));
            assert(self.sets@[i].reg_id == reg_id);
            assert forall|a: int, b: int| 0 <= a < b < self.sets@.len() implies self.sets@[a].reg_id
                < self.sets@[b].reg_id by {
                assert(self.sets@[a].reg_id == sets[a].reg_id);
                assert(self.sets@[b].reg_id == sets[b].reg_id);
            }
            lemma_index_of_reg_id(self.sets@, reg_id, i);
            assert(self.sets@.remove(i) =~= sets.remove(i));
            if stopped {
                assert(self.sets@ =~= sets);
            }
        }
        if stopped {
            // The set was stopped before it became ready.
            self.emit(Action::Unregister { advertiser_id });
            self.remove_by_reg_id(reg_id);
            return ;
        }
        self.notify(
            callback_id,
            AdvertisingSetEvent::AdvertisingSetStarted {
                reg_id,
                advertiser_id: advertiser_id as i32,
                tx_power: tx_power as i32,
                status,
            },
        );
        if status != AdvertisingStatus::Success {
            self.remove_by_reg_id(reg_id);
        }
    }

    /// The controller has enabled or disabled a set.
    pub fn on_advertising_enabled(&mut self, adv_id: u8, enabled: bool, status: AdvertisingStatus)
        requires
            old(self)@.wf(),
        ensures
            final(self)@ == old(self)@.on_advertising_enabled(adv_id, enabled, status),
            final(self)@.wf(),
    {
        let advertiser_id: i32 = adv_id as i32;
        let ghost sets = self.sets@;
        let callback_id = match self.get_mut_by_advertiser_id(advertiser_id) {
            Some(s) => {
                s.set_enabled(enabled);
                s.callback_id()
            },
            None => {
                return ;
            },
        };
        proof {
            assert forall|a: int, b: int| 0 <= a < b < self.sets@.len() implies self.sets@[a].reg_id
                < self.sets@[b].reg_id by {
                assert(self.sets@[a].reg_id == sets[a].reg_id);
                assert(self.sets@[b].reg_id == sets[b].reg_id);
            }
        }
        self.notify(callback_id, AdvertisingSetEvent::AdvertisingEnabled { advertiser_id, enable: enabled, status });
        if self.suspend_mode() == SuspendMode::Suspending {
            if self.enabled_sets().len() == 0 {
                self.set_suspend_mode(SuspendMode::Suspended);
            }
        }
    }

    fn relay(&mut self, adv_id: u8, event: AdvertisingSetEvent)
        ensures
            final(self)@ == old(self)@.relay(adv_id, event@),
            old(self)@.wf() ==> final(self)@.wf(),
    {
        match self.position_of_adv_id(adv_id as AdvertiserId) {
            Some(i) => {
                let callback_id = self.sets[i].callback_id();
                self.notify(callback_id, event);
            },
            None => {},
        }
    }

    /// The controller has replaced the advertising data of a set.
    pub fn on_advertising_data_set(&mut self, adv_id: u8, status: AdvertisingStatus)
        ensures
            final(self)@ == old(self)@.on_advertising_data_set(adv_id, status),
            old(self)@.wf() ==> final(self)@.wf(),
    {
        self.relay(adv_id, AdvertisingSetEvent::AdvertisingDataSet { advertiser_id: adv_id as i32, status });
    }

    /// The controller has replaced the scan response of a set.
    pub fn on_scan_response_data_set(&mut self, adv_id: u8, status: AdvertisingStatus)
        ensures
            final(self)@ == old(self)@.on_scan_response_data_set(adv_id, status),
            old(self)@.wf() ==> final(self)@.wf(),
    {
        self.relay(adv_id, AdvertisingSetEvent::ScanResponseDataSet { advertiser_id: adv_id as i32, status });
    }

    /// The controller has replaced the parameters of a set.
    pub fn on_advertising_parameters_updated(&mut self, adv_id: u8, tx_power: i8, status: AdvertisingStatus)
        ensures
            final(self)@ == old(self)@.on_advertising_parameters_updated(adv_id, tx_power, status),
            old(self)@.wf() ==> final(self)@.wf(),
    {
        self.relay(
            adv_id,
            AdvertisingSetEvent::AdvertisingParametersUpdated {
                advertiser_id: adv_id as i32,
                tx_power: tx_power as i32,
                status,
            },
        );
    }

    /// The controller has replaced the periodic parameters of a set.
    pub fn on_periodic_advertising_parameters_updated(&mut self, adv_id: u8, status: AdvertisingStatus)
        ensures
            final(self)@ == old(self)@.on_periodic_advertising_parameters_updated(adv_id, status),
            old(self)@.wf() ==> final(self)@.wf(),
    {
        self.relay(
            adv_id,
            AdvertisingSetEvent::PeriodicAdvertisingParametersUpdated { advertiser_id: adv_id as i32, status },
        );
    }

    /// The controller has replaced the periodic data of a set.
    pub fn on_periodic_advertising_data_set(&mut self, adv_id: u8, status: AdvertisingStatus)
        ensures
            final(self)@ == old(self)@.on_periodic_advertising_data_set(adv_id, status),
            old(self)@.wf() ==> final(self)@.wf(),
    {
        self.relay(adv_id, AdvertisingSetEvent::PeriodicAdvertisingDataSet { advertiser_id: adv_id as i32, status });
    }

    /// The controller has enabled or disabled periodic advertising of a set.
    pub fn on_periodic_advertising_enabled(&mut self, adv_id: u8, enabled: bool, status: AdvertisingStatus)
        ensures
            final(self)@ == old(self)@.on_periodic_advertising_enabled(adv_id, enabled, status),
            old(self)@.wf() ==> final(self)@.wf(),
    {
        self.relay(
            adv_id,
            AdvertisingSetEvent::PeriodicAdvertisingEnabled { advertiser_id: adv_id as i32, enable: enabled, status },
        );
    }

    /// The controller has reported the address a set advertises with.
    pub fn on_own_address_read(&mut self, adv_id: u8, addr_type: u8, address: RawAddress)
        ensures
            final(self)@ == old(self)@.on_own_address_read(adv_id, addr_type, address.address@),
            old(self)@.wf() ==> final(self)@.wf(),
    {
        self.relay(
            adv_id,
            AdvertisingSetEvent::OwnAddressRead {
                advertiser_id: adv_id as i32,
                address_type: addr_type as i32,
                address: address.to_string(),
            },
        );
    }
}

} // verus!
