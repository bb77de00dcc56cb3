//! What holds of every state that the manager reaches through requests,
//! confirmations and the suspend protocol, as long as the controller gives
//! each set an advertiser id of its own.

use vstd::prelude::*;
use crate::SuspendMode;
use crate::adv_data::AdvertiseDataView;
use crate::adv_model::ManagerState;
use crate::adv_model::StartRequest;
use crate::adv_model::ascending;
use crate::adv_model::index_of_adv_id;
use crate::adv_model::index_of_reg_id;
use crate::adv_model::is_first_with_adv_id;
use crate::adv_model::is_held_stop;
use crate::adv_model::is_other_callback;
use crate::adv_model::uses_reg_id;
use crate::adv_model::with_record;
use crate::adv_model_laws::distinct_adv_ids;
use crate::adv_model_laws::law_exit_suspend_discards_held_stops;
use crate::adv_model_laws::law_smallest_free_reg_id_exists;
use crate::adv_params::AdvertisingSetParameters;
use crate::adv_params::PeriodicAdvertisingParameters;
use crate::adv_set::AdvertiserId;
use crate::adv_set::AdvertisingSetInfo;
use crate::adv_set::CallbackId;
use crate::adv_set::RegId;
use crate::gatt::AdvertisingStatus;

verus! {

/// Whether no record that the controller knows is marked as stopped.
pub open spec fn no_held_stop(sets: Seq<AdvertisingSetInfo>) -> bool {
    forall|i: int| 0 <= i < sets.len() ==> !is_held_stop(#[trigger] sets[i])
}

/// Whether the state is consistent: one record for each registration id,
/// no sink twice, an advertiser id of its own for every set that the
/// controller knows, and in normal mode no stop that is held back.
pub open spec fn consistent(s: ManagerState) -> bool {
    &&& s.wf()
    &&& distinct_adv_ids(s.sets)
    &&& s.suspend_mode == SuspendMode::Normal ==> no_held_stop(s.sets)
}

/// Whether every record of `part` is a record of `whole`.
spec fn part_of(part: Seq<AdvertisingSetInfo>, whole: Seq<AdvertisingSetInfo>) -> bool {
    forall|i: int| 0 <= i < part.len() ==> whole.contains(#[trigger] part[i])
}

/// Records taken from a registry in order, each once, have distinct ids as
/// the registry has.
proof fn lemma_part_keeps_distinct(part: Seq<AdvertisingSetInfo>, whole: Seq<AdvertisingSetInfo>)
    requires
        ascending(part),
        part_of(part, whole),
        distinct_adv_ids(whole),
    ensures
        distinct_adv_ids(part),
{
    assert forall|i: int| 0 <= i < part.len() && (#[trigger] part[i]).valid() implies 0 <= part[i].adv_id.unwrap()
        <= 255 by {
        assert(whole.contains(part[i]));
        let a = choose|a: int| 0 <= a < whole.len() && whole[a] == part[i];
        assert(whole[a].valid());
    }
    assert forall|i: int, j: int|
        0 <= i < j < part.len() && (#[trigger] part[i]).valid() && (#[trigger] part[j]).valid() implies part[i].adv_id
        != part[j].adv_id by {
        assert(whole.contains(part[i]));
        assert(whole.contains(part[j]));
        let a = choose|a: int| 0 <= a < whole.len() && whole[a] == part[i];
        let b = choose|b: int| 0 <= b < whole.len() && whole[b] == part[j];
        assert(part[i].reg_id < part[j].reg_id);
        assert(whole[a].valid() && whole[b].valid());
        if a < b {
            assert(whole[a].adv_id != whole[b].adv_id);
        } else if b < a {
            assert(whole[b].adv_id != whole[a].adv_id);
        }
    }
}

/// What a filter keeps of an ascending registry is ascending, and part of it.
proof fn lemma_filter_keeps_order(sets: Seq<AdvertisingSetInfo>, pred: spec_fn(AdvertisingSetInfo) -> bool)
    requires
        ascending(sets),
    ensures
        ascending(sets.filter(pred)),
        part_of(sets.filter(pred), sets),
        forall|i: int| 0 <= i < sets.filter(pred).len() ==> pred(#[trigger] sets.filter(pred)[i]),
    decreases sets.len(),
{
    reveal(Seq::filter);
    if sets.len() > 0 {
        let rest = sets.drop_last();
        let last = sets[sets.len() - 1];
        assert forall|i: int, j: int| 0 <= i < j < rest.len() implies rest[i].reg_id < rest[j].reg_id by {
            assert(rest[i] == sets[i] && rest[j] == sets[j]);
        }
        lemma_filter_keeps_order(rest, pred);
        let kept = rest.filter(pred);
        let all = sets.filter(pred);
        assert forall|i: int| 0 <= i < kept.len() implies sets.contains(#[trigger] kept[i]) && kept[i].reg_id
            < last.reg_id by {
            assert(rest.contains(kept[i]));
            let a = choose|a: int| 0 <= a < rest.len() && rest[a] == kept[i];
            assert(sets[a] == kept[i]);
            assert(sets[a].reg_id < sets[sets.len() - 1].reg_id);
        }
        assert forall|i: int| 0 <= i < all.len() implies sets.contains(#[trigger] all[i]) by {
            if i < kept.len() {
                assert(all[i] == kept[i]);
            } else {
                assert(all[i] == sets[sets.len() - 1]);
            }
        }
        assert forall|i: int, j: int| 0 <= i < j < all.len() implies all[i].reg_id < all[j].reg_id by {
            assert(all[i] == kept[i]);
            if j < kept.len() {
                assert(all[j] == kept[j]);
            }
        }
    }
}

/// Changing records without touching their ids keeps the registry
/// ascending and the advertiser ids distinct.
proof fn lemma_map_keeps_ids(sets: Seq<AdvertisingSetInfo>, change: spec_fn(AdvertisingSetInfo) -> AdvertisingSetInfo)
    requires
        forall|r: AdvertisingSetInfo| (#[trigger] change(r)).reg_id == r.reg_id && change(r).adv_id == r.adv_id,
    ensures
        ascending(sets) ==> ascending(sets.map_values(change)),
        distinct_adv_ids(sets) ==> distinct_adv_ids(sets.map_values(change)),
{
    let mapped = sets.map_values(change);
    assert forall|i: int| 0 <= i < sets.len() implies (#[trigger] mapped[i]).reg_id == sets[i].reg_id
        && mapped[i].adv_id == sets[i].adv_id by {
        assert(mapped[i] == change(sets[i]));
    }
    if ascending(sets) {
        assert forall|i: int, j: int| 0 <= i < j < mapped.len() implies mapped[i].reg_id < mapped[j].reg_id by {
            assert(mapped[i].reg_id == sets[i].reg_id);
            assert(mapped[j].reg_id == sets[j].reg_id);
        }
    }
    if distinct_adv_ids(sets) {
        assert forall|i: int| 0 <= i < mapped.len() && (#[trigger] mapped[i]).valid() implies 0
            <= mapped[i].adv_id.unwrap() <= 255 by {
            assert(mapped[i].adv_id == sets[i].adv_id);
            assert(sets[i].valid());
        }
        assert forall|i: int, j: int|
            0 <= i < j < mapped.len() && (#[trigger] mapped[i]).valid() && (#[trigger] mapped[j]).valid() implies mapped[i].adv_id
            != mapped[j].adv_id by {
            assert(mapped[i].adv_id == sets[i].adv_id);
            assert(mapped[j].adv_id == sets[j].adv_id);
            assert(sets[i].valid() && sets[j].valid());
        }
    }
}

/// Replacing a record by one with the same ids keeps the registry ascending
/// and the advertiser ids distinct.
proof fn lemma_update_keeps_ids(sets: Seq<AdvertisingSetInfo>, i: int, r: AdvertisingSetInfo)
    requires
        0 <= i < sets.len(),
        r.reg_id == sets[i].reg_id,
        r.adv_id == sets[i].adv_id,
    ensures
        ascending(sets) ==> ascending(sets.update(i, r)),
        distinct_adv_ids(sets) ==> distinct_adv_ids(sets.update(i, r)),
{
    let after = sets.update(i, r);
    assert forall|k: int| 0 <= k < sets.len() implies (#[trigger] after[k]).reg_id == sets[k].reg_id && after[k].adv_id
        == sets[k].adv_id by {}
    if ascending(sets) {
        assert forall|a: int, b: int| 0 <= a < b < after.len() implies after[a].reg_id < after[b].reg_id by {
            assert(after[a].reg_id == sets[a].reg_id);
            assert(after[b].reg_id == sets[b].reg_id);
        }
    }
    if distinct_adv_ids(sets) {
        assert forall|k: int| 0 <= k < after.len() && (#[trigger] after[k]).valid() implies 0
            <= after[k].adv_id.unwrap() <= 255 by {
            assert(after[k].adv_id == sets[k].adv_id);
            assert(sets[k].valid());
        }
        assert forall|a: int, b: int|
            0 <= a < b < after.len() && (#[trigger] after[a]).valid() && (#[trigger] after[b]).valid() implies after[a].adv_id
            != after[b].adv_id by {
            assert(after[a].adv_id == sets[a].adv_id);
            assert(after[b].adv_id == sets[b].adv_id);
            assert(sets[a].valid() && sets[b].valid());
        }
    }
}

/// Removing a record keeps the registry ascending and the advertiser ids
/// distinct.
proof fn lemma_remove_keeps_ids(sets: Seq<AdvertisingSetInfo>, i: int)
    requires
        0 <= i < sets.len(),
        ascending(sets),
    ensures
        ascending(sets.remove(i)),
        part_of(sets.remove(i), sets),
        distinct_adv_ids(sets) ==> distinct_adv_ids(sets.remove(i)),
{
    crate::adv_model::lemma_remove_ascending(sets, i);
    let after = sets.remove(i);
    assert forall|k: int| 0 <= k < after.len() implies sets.contains(#[trigger] after[k]) by {
        let k0 = if k < i {
            k
        } else {
            k + 1
        };
        assert(sets[k0] == after[k]);
    }
    if distinct_adv_ids(sets) {
        lemma_part_keeps_distinct(after, sets);
    }
}

/// Adding a record that the controller does not know yet keeps the registry
/// ascending and the advertiser ids distinct.
proof fn lemma_with_record_keeps_ids(sets: Seq<AdvertisingSetInfo>, s: AdvertisingSetInfo)
    requires
        ascending(sets),
        !s.valid(),
    ensures
        ascending(with_record(sets, s)),
        distinct_adv_ids(sets) ==> distinct_adv_ids(with_record(sets, s)),
        forall|i: int|
            0 <= i < with_record(sets, s).len() ==> #[trigger] with_record(sets, s)[i] == s || sets.contains(
                with_record(sets, s)[i],
            ),
{
    let below = |x: AdvertisingSetInfo| x.reg_id < s.reg_id;
    let above = |x: AdvertisingSetInfo| x.reg_id > s.reg_id;
    lemma_filter_keeps_order(sets, below);
    lemma_filter_keeps_order(sets, above);
    let head = sets.filter(below);
    let tail = sets.filter(above);
    let all = with_record(sets, s);
    assert(all == head.push(s) + tail);
    assert forall|i: int| 0 <= i < all.len() implies (if i < head.len() {
        #[trigger] all[i] == head[i] && head[i].reg_id < s.reg_id
    } else if i == head.len() {
        all[i] == s
    } else {
        all[i] == tail[i - head.len() - 1] && tail[i - head.len() - 1].reg_id > s.reg_id
    }) by {}
    assert forall|i: int, j: int| 0 <= i < j < all.len() implies all[i].reg_id < all[j].reg_id by {
        assert(all[i].reg_id == all[i].reg_id);
        assert(all[j].reg_id == all[j].reg_id);
    }
    assert forall|i: int| 0 <= i < all.len() implies #[trigger] all[i] == s || sets.contains(all[i]) by {
        if i < head.len() {
            assert(all[i] == head[i]);
        } else if i > head.len() {
            assert(all[i] == tail[i - head.len() - 1]);
        }
    }
    if distinct_adv_ids(sets) {
        assert forall|i: int| 0 <= i < all.len() && (#[trigger] all[i]).valid() implies 0 <= all[i].adv_id.unwrap()
            <= 255 by {
            assert(sets.contains(all[i]));
            let a = choose|a: int| 0 <= a < sets.len() && sets[a] == all[i];
            assert(sets[a].valid());
        }
        assert forall|i: int, j: int|
            0 <= i < j < all.len() && (#[trigger] all[i]).valid() && (#[trigger] all[j]).valid() implies all[i].adv_id
            != all[j].adv_id by {
            assert(sets.contains(all[i]));
            assert(sets.contains(all[j]));
            let a = choose|a: int| 0 <= a < sets.len() && sets[a] == all[i];
            let b = choose|b: int| 0 <= b < sets.len() && sets[b] == all[j];
            assert(all[i].reg_id < all[j].reg_id);
            assert(sets[a].valid() && sets[b].valid());
            if a < b {
                assert(sets[a].adv_id != sets[b].adv_id);
            } else if b < a {
                assert(sets[b].adv_id != sets[a].adv_id);
            }
        }
    }
}

/// A filter keeps a list without repetition free of repetition.
proof fn lemma_filter_keeps_no_duplicates(callbacks: Seq<CallbackId>, pred: spec_fn(CallbackId) -> bool)
    requires
        callbacks.no_duplicates(),
    ensures
        callbacks.filter(pred).no_duplicates(),
    decreases callbacks.len(),
{
    reveal(Seq::filter);
    if callbacks.len() > 0 {
        let rest = callbacks.drop_last();
        assert forall|i: int, j: int| 0 <= i < rest.len() && 0 <= j < rest.len() && i != j implies rest[i]
            != rest[j] by {
            assert(rest[i] == callbacks[i] && rest[j] == callbacks[j]);
        }
        lemma_filter_keeps_no_duplicates(rest, pred);
        let kept = rest.filter(pred);
        let all = callbacks.filter(pred);
        assert forall|i: int, j: int| 0 <= i < all.len() && 0 <= j < all.len() && i != j implies all[i]
            != all[j] by {
            if i < kept.len() && j < kept.len() {
                assert(all[i] == kept[i] && all[j] == kept[j]);
            } else {
                let k = if i < kept.len() {
                    i
                } else {
                    j
                };
                assert(kept.contains(kept[k]));
                rest.lemma_filter_contains_rev(pred, kept[k]);
                let a = choose|a: int| 0 <= a < rest.len() && rest[a] == kept[k];
                assert(callbacks[a] == kept[k]);
                assert(callbacks[a] != callbacks[callbacks.len() - 1]);
            }
        }
    }
}

/// A new manager is consistent.
pub proof fn law_initial_state_is_consistent()
    ensures
        consistent(ManagerState::initial()),
{
}

/// Registering and unregistering a sink keeps the state consistent.
pub proof fn law_callbacks_keep_consistent(s: ManagerState, callback_id: CallbackId)
    requires
        consistent(s),
    ensures
        consistent(s.register_callback(callback_id)),
        consistent(s.unregister_callback(callback_id)),
{
    let added = s.register_callback(callback_id).callbacks;
    assert forall|i: int, j: int| 0 <= i < added.len() && 0 <= j < added.len() && i != j implies added[i]
        != added[j] by {
        if !s.callbacks.contains(callback_id) {
            if i < s.callbacks.len() {
                assert(added[i] == s.callbacks[i]);
            }
            if j < s.callbacks.len() {
                assert(added[j] == s.callbacks[j]);
            }
        }
    }
    lemma_filter_keeps_no_duplicates(s.callbacks, is_other_callback(callback_id));
    let kept_pred = |r: AdvertisingSetInfo| r.callback_id != callback_id || !r.valid();
    let mark = |r: AdvertisingSetInfo|
        if r.callback_id == callback_id {
            AdvertisingSetInfo { stopped: true, ..r }
        } else {
            r
        };
    lemma_filter_keeps_order(s.sets, kept_pred);
    let kept = s.sets.filter(kept_pred);
    lemma_part_keeps_distinct(kept, s.sets);
    lemma_map_keeps_ids(kept, mark);
    let after = s.unregister_callback(callback_id);
    assert(after.sets == kept.map_values(mark));
    if s.suspend_mode == SuspendMode::Normal {
        assert forall|i: int| 0 <= i < after.sets.len() implies !is_held_stop(#[trigger] after.sets[i]) by {
            assert(after.sets[i] == mark(kept[i]));
            assert(kept_pred(kept[i]));
            assert(s.sets.contains(kept[i]));
            let a = choose|a: int| 0 <= a < s.sets.len() && s.sets[a] == kept[i];
            assert(!is_held_stop(s.sets[a]));
        }
    }
}

/// A request to start a set keeps the state consistent.
pub proof fn law_start_keeps_consistent(s: ManagerState, req: StartRequest)
    requires
        consistent(s),
    ensures
        consistent(s.start_advertising_set(req)),
{
    if s.start_accepted(req) {
        let record = s.start_record(req);
        lemma_with_record_keeps_ids(s.sets, record);
        let after = s.start_advertising_set(req);
        assert(after.sets == with_record(s.sets, record));
        assert forall|i: int| 0 <= i < after.sets.len() implies !is_held_stop(#[trigger] after.sets[i]) by {
            if after.sets[i] != record {
                assert(s.sets.contains(after.sets[i]));
                let a = choose|a: int| 0 <= a < s.sets.len() && s.sets[a] == after.sets[i];
                assert(!is_held_stop(s.sets[a]));
            }
        }
    }
}

/// A request to stop a set keeps the state consistent.
pub proof fn law_stop_keeps_consistent(s: ManagerState, advertiser_id: AdvertiserId)
    requires
        consistent(s),
    ensures
        consistent(s.stop_advertising_set(advertiser_id)),
{
    match index_of_adv_id(s.sets, advertiser_id) {
        None => {},
        Some(i) => {
            assert(is_first_with_adv_id(s.sets, advertiser_id, i));
            let after = s.stop_advertising_set(advertiser_id);
            if s.suspend_mode != SuspendMode::Normal {
                lemma_update_keeps_ids(s.sets, i, AdvertisingSetInfo { stopped: true, ..s.sets[i] });
            } else {
                lemma_remove_keeps_ids(s.sets, i);
                assert(after.sets == s.sets.remove(i));
                assert forall|k: int| 0 <= k < after.sets.len() implies !is_held_stop(#[trigger] after.sets[k]) by {
                    assert(s.sets.contains(after.sets[k]));
                    let a = choose|a: int| 0 <= a < s.sets.len() && s.sets[a] == after.sets[k];
                    assert(!is_held_stop(s.sets[a]));
                }
            }
        },
    }
}

/// The requests that only send a command to the controller keep the state
/// consistent.
pub proof fn law_commands_keep_consistent(
    s: ManagerState,
    advertiser_id: AdvertiserId,
    flag: bool,
    other_flag: bool,
    duration: i32,
    max_ext_adv_events: i32,
    data: AdvertiseDataView,
    raw: Seq<u8>,
    parameters: AdvertisingSetParameters,
    periodic_parameters: PeriodicAdvertisingParameters,
)
    requires
        consistent(s),
    ensures
        consistent(s.get_own_address(advertiser_id)),
        consistent(s.enable_advertising_set(advertiser_id, flag, duration, max_ext_adv_events)),
        consistent(s.set_advertising_data(advertiser_id, data)),
        consistent(s.set_raw_adv_data(advertiser_id, raw)),
        consistent(s.set_scan_response_data(advertiser_id, data)),
        consistent(s.set_advertising_parameters(advertiser_id, parameters)),
        consistent(s.set_periodic_advertising_parameters(advertiser_id, periodic_parameters)),
        consistent(s.set_periodic_advertising_data(advertiser_id, data)),
        consistent(s.set_periodic_advertising_enable(advertiser_id, flag, other_flag)),
{
}

/// In a consistent state no command that changes the data or the
/// parameters of a set goes to a set that is marked as stopped.
pub proof fn law_stopped_set_gets_no_changes(
    s: ManagerState,
    advertiser_id: AdvertiserId,
    data: AdvertiseDataView,
    raw: Seq<u8>,
    parameters: AdvertisingSetParameters,
    periodic_parameters: PeriodicAdvertisingParameters,
)
    requires
        consistent(s),
        index_of_adv_id(s.sets, advertiser_id) is Some,
        s.sets[index_of_adv_id(s.sets, advertiser_id).unwrap()].stopped,
    ensures
        s.set_advertising_data(advertiser_id, data) == s,
        s.set_raw_adv_data(advertiser_id, raw) == s,
        s.set_scan_response_data(advertiser_id, data) == s,
        s.set_advertising_parameters(advertiser_id, parameters) == s,
        s.set_periodic_advertising_parameters(advertiser_id, periodic_parameters) == s,
        s.set_periodic_advertising_data(advertiser_id, data) == s,
{
    let i = index_of_adv_id(s.sets, advertiser_id).unwrap();
    assert(is_first_with_adv_id(s.sets, advertiser_id, i));
    assert(is_held_stop(s.sets[i]));
}

/// Suspending and resuming keep the state consistent.
pub proof fn law_suspend_protocol_keeps_consistent(s: ManagerState)
    requires
        consistent(s),
    ensures
        consistent(s.enter_suspend()),
        consistent(s.exit_suspend()),
{
    let pause = |r: AdvertisingSetInfo|
        if crate::adv_model::is_on_air(r) {
            AdvertisingSetInfo { paused: true, ..r }
        } else {
            r
        };
    lemma_map_keeps_ids(s.sets, pause);
    assert(s.enter_suspend().sets == s.sets.map_values(pause));

    law_exit_suspend_discards_held_stops(s);
    let kept_pred = |r: AdvertisingSetInfo| !is_held_stop(r);
    let resume = |r: AdvertisingSetInfo|
        if crate::adv_model::is_paused_set(r) {
            AdvertisingSetInfo { paused: false, ..r }
        } else {
            r
        };
    lemma_filter_keeps_order(s.sets, kept_pred);
    let kept = s.sets.filter(kept_pred);
    lemma_part_keeps_distinct(kept, s.sets);
    lemma_map_keeps_ids(kept, resume);
    let after = s.exit_suspend();
    assert(after.sets == kept.map_values(resume));
    assert(after.callbacks == s.callbacks);
    assert forall|i: int| 0 <= i < after.sets.len() implies !is_held_stop(#[trigger] after.sets[i]) by {
        assert(after.sets[i] == resume(kept[i]));
        assert(kept_pred(kept[i]));
    }
}

/// The confirmation of a start keeps the state consistent, as long as the
/// controller gives the set an advertiser id that no other set has.
pub proof fn law_started_keeps_consistent(
    s: ManagerState,
    reg_id: RegId,
    advertiser_id: u8,
    tx_power: i8,
    status: AdvertisingStatus,
)
    requires
        consistent(s),
        forall|i: int| 0 <= i < s.sets.len() ==> (#[trigger] s.sets[i]).adv_id != Some(advertiser_id as AdvertiserId),
    ensures
        consistent(s.on_advertising_set_started(reg_id, advertiser_id, tx_power, status)),
{
    match index_of_reg_id(s.sets, reg_id) {
        None => {},
        Some(i) => {
            assert(uses_reg_id(s.sets, reg_id as int));
            let after = s.on_advertising_set_started(reg_id, advertiser_id, tx_power, status);
            if s.sets[i].stopped || status != AdvertisingStatus::Success {
                lemma_remove_keeps_ids(s.sets, i);
                assert(after.sets == s.sets.remove(i));
                if s.suspend_mode == SuspendMode::Normal {
                    assert forall|k: int| 0 <= k < after.sets.len() implies !is_held_stop(
                        #[trigger] after.sets[k],
                    ) by {
                        assert(s.sets.contains(after.sets[k]));
                        let a = choose|a: int| 0 <= a < s.sets.len() && s.sets[a] == after.sets[k];
                        assert(!is_held_stop(s.sets[a]));
                    }
                }
            } else {
                let started = AdvertisingSetInfo {
                    adv_id: Some(advertiser_id as AdvertiserId),
                    enabled: true,
                    ..s.sets[i]
                };
                assert(after.sets == s.sets.update(i, started));
                assert forall|a: int, b: int| 0 <= a < b < after.sets.len() implies after.sets[a].reg_id
                    < after.sets[b].reg_id by {
                    assert(after.sets[a].reg_id == s.sets[a].reg_id);
                    assert(after.sets[b].reg_id == s.sets[b].reg_id);
                }
                assert forall|k: int| 0 <= k < after.sets.len() && (#[trigger] after.sets[k]).valid() implies 0
                    <= after.sets[k].adv_id.unwrap() <= 255 by {
                    if k != i {
                        assert(after.sets[k] == s.sets[k]);
                        assert(s.sets[k].valid());
                    }
                }
                assert forall|a: int, b: int|
                    0 <= a < b < after.sets.len() && (#[trigger] after.sets[a]).valid() && (
                    #[trigger] after.sets[b]).valid() implies after.sets[a].adv_id != after.sets[b].adv_id by {
                    if a != i && b != i {
                        assert(after.sets[a] == s.sets[a] && after.sets[b] == s.sets[b]);
                        assert(s.sets[a].valid() && s.sets[b].valid());
                    } else if a == i {
                        assert(after.sets[b] == s.sets[b]);
                    } else {
                        assert(after.sets[a] == s.sets[a]);
                    }
                }
                if s.suspend_mode == SuspendMode::Normal {
                    assert forall|k: int| 0 <= k < after.sets.len() implies !is_held_stop(
                        #[trigger] after.sets[k],
                    ) by {
                        if k != i {
                            assert(after.sets[k] == s.sets[k]);
                        }
                    }
                }
            }
        },
    }
}

/// The confirmations that a set was enabled or disabled, and those that
/// are only passed on, keep the state consistent.
pub proof fn law_confirmations_keep_consistent(
    s: ManagerState,
    adv_id: u8,
    flag: bool,
    tx_power: i8,
    addr_type: u8,
    address: Seq<u8>,
    status: AdvertisingStatus,
)
    requires
        consistent(s),
    ensures
        consistent(s.on_advertising_enabled(adv_id, flag, status)),
        consistent(s.on_advertising_data_set(adv_id, status)),
        consistent(s.on_scan_response_data_set(adv_id, status)),
        consistent(s.on_advertising_parameters_updated(adv_id, tx_power, status)),
        consistent(s.on_periodic_advertising_parameters_updated(adv_id, status)),
        consistent(s.on_periodic_advertising_data_set(adv_id, status)),
        consistent(s.on_periodic_advertising_enabled(adv_id, flag, status)),
        consistent(s.on_own_address_read(adv_id, addr_type, address)),
{
    let a = adv_id as AdvertiserId;
    match index_of_adv_id(s.sets, a) {
        None => {},
        Some(i) => {
            assert(is_first_with_adv_id(s.sets, a, i));
            let changed = AdvertisingSetInfo { enabled: flag, ..s.sets[i] };
            lemma_update_keeps_ids(s.sets, i, changed);
            let after = s.on_advertising_enabled(adv_id, flag, status);
            assert(after.sets == s.sets.update(i, changed));
            if s.suspend_mode == SuspendMode::Normal {
                assert forall|k: int| 0 <= k < after.sets.len() implies !is_held_stop(#[trigger] after.sets[k]) by {
                    assert(!is_held_stop(s.sets[k]));
                }
            }
        },
    }
}

} // verus!
