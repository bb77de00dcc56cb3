//! What holds of the advertising manager in every state.

use vstd::prelude::*;
use crate::SuspendMode;
use crate::actions::ActionView;
use crate::actions::EventView;
use crate::adv_data::adv_data_len_max;
use crate::adv_data::adv_encoding;
use crate::adv_model::ManagerState;
use crate::adv_model::ascending;
use crate::adv_model::index_of_adv_id;
use crate::adv_model::index_of_reg_id;
use crate::adv_model::is_held_stop;
use crate::adv_model::is_on_air;
use crate::adv_model::is_smallest_free_reg_id;
use crate::adv_model::smallest_free_reg_id;
use crate::adv_model::unregister_command;
use crate::adv_model::uses_reg_id;
use crate::adv_set::AdvertiserId;
use crate::adv_set::AdvertisingSetInfo;
use crate::adv_set::CallbackId;
use crate::adv_set::RegId;
use crate::gatt::AdvertisingStatus;
use crate::adv_model::is_paused_set;
use crate::adv_model::without;
use crate::adv_model::without_adv_ids;
use crate::seq_lemmas::lemma_filter_agree;
use crate::seq_lemmas::lemma_filter_all;
use crate::seq_lemmas::lemma_filter_push;
use crate::seq_lemmas::lemma_filter_twice;

verus! {

/// In an ascending registry the record with registration id `j` stands at
/// index `j` or later, where every id from 0 to `j` is in use.
proof fn lemma_position_of_used_id(sets: Seq<AdvertisingSetInfo>, j: int) -> (i: int)
    requires
        ascending(sets),
        0 <= j,
        forall|k: int| 0 <= k <= j ==> #[trigger] uses_reg_id(sets, k),
    ensures
        j <= i < sets.len(),
        sets[i].reg_id == j,
    decreases j,
{
    assert(uses_reg_id(sets, j));
    let i = choose|i: int| 0 <= i < sets.len() && #[trigger] sets[i].reg_id == j;
    if j > 0 {
        let before = lemma_position_of_used_id(sets, j - 1);
        if i <= before {
            if i < before {
                assert(sets[i].reg_id < sets[before].reg_id);
            }
        }
    }
    i
}

/// Some id from 0 to `bound` is the smallest free one, or every id below
/// `bound` is in use.
proof fn lemma_smallest_free_or_all_used(sets: Seq<AdvertisingSetInfo>, bound: int)
    requires
        0 <= bound,
    ensures
        (exists|n: int| 0 <= n < bound && is_smallest_free_reg_id(sets, n)) || (forall|k: int|
            0 <= k < bound ==> #[trigger] uses_reg_id(sets, k)),
    decreases bound,
{
    if bound > 0 {
        lemma_smallest_free_or_all_used(sets, bound - 1);
        if !(exists|n: int| 0 <= n < bound - 1 && is_smallest_free_reg_id(sets, n)) {
            if !uses_reg_id(sets, bound - 1) {
                assert(is_smallest_free_reg_id(sets, bound - 1));
            }
        }
    }
}

/// Every registry has a smallest free registration id, and it is no larger
/// than the number of records.
pub proof fn law_smallest_free_reg_id_exists(sets: Seq<AdvertisingSetInfo>)
    requires
        ascending(sets),
    ensures
        is_smallest_free_reg_id(sets, smallest_free_reg_id(sets)),
        0 <= smallest_free_reg_id(sets) <= sets.len(),
{
    let bound = sets.len() as int + 1;
    lemma_smallest_free_or_all_used(sets, bound);
    if forall|k: int| 0 <= k < bound ==> #[trigger] uses_reg_id(sets, k) {
        let i = lemma_position_of_used_id(sets, bound - 1);
        assert(false);
    }
    let n = choose|n: int| 0 <= n < bound && is_smallest_free_reg_id(sets, n);
    let m = smallest_free_reg_id(sets);
    assert(is_smallest_free_reg_id(sets, m));
    if m < n {
        assert(uses_reg_id(sets, m));
    }
    if n < m {
        assert(uses_reg_id(sets, n));
    }
}

/// A registration id is used again once its record is gone: after the
/// record of an id below the smallest free one has been removed, that id is
/// the smallest free one.
pub proof fn law_reg_id_reused_after_removal(s: ManagerState, reg_id: RegId)
    requires
        s.wf(),
        0 <= reg_id < smallest_free_reg_id(s.sets),
    ensures
        smallest_free_reg_id(s.remove_by_reg_id(reg_id).sets) == reg_id,
{
    law_smallest_free_reg_id_exists(s.sets);
    assert(uses_reg_id(s.sets, reg_id as int));
    let i = choose|i: int| 0 <= i < s.sets.len() && #[trigger] s.sets[i].reg_id == reg_id;
    let after = s.sets.remove(i);
    assert(index_of_reg_id(s.sets, reg_id) == Some(i));
    assert(after == s.remove_by_reg_id(reg_id).sets);
    assert forall|j: int| 0 <= j < reg_id implies #[trigger] uses_reg_id(after, j) by {
        assert(uses_reg_id(s.sets, j));
        let k = choose|k: int| 0 <= k < s.sets.len() && #[trigger] s.sets[k].reg_id == j;
        if k < i {
            assert(after[k].reg_id == j);
        } else {
            assert(after[k - 1].reg_id == j);
        }
    }
    if uses_reg_id(after, reg_id as int) {
        let k = choose|k: int| 0 <= k < after.len() && #[trigger] after[k].reg_id == reg_id;
        let k0 = if k < i {
            k
        } else {
            k + 1
        };
        assert(after[k] == s.sets[k0]);
        if k0 < i {
            assert(s.sets[k0].reg_id < s.sets[i].reg_id);
        } else {
            assert(s.sets[i].reg_id < s.sets[k0].reg_id);
        }
    }
    assert(is_smallest_free_reg_id(after, reg_id as int));
    crate::adv_model::lemma_smallest_free_reg_id(after, reg_id as int);
}

/// Mapping the records by a function that keeps a property keeps the number
/// of records with that property.
proof fn lemma_filter_len_of_mapped(
    sets: Seq<AdvertisingSetInfo>,
    change: spec_fn(AdvertisingSetInfo) -> AdvertisingSetInfo,
    pred: spec_fn(AdvertisingSetInfo) -> bool,
)
    requires
        forall|s: AdvertisingSetInfo| pred(#[trigger] change(s)) == pred(s),
    ensures
        sets.map_values(change).filter(pred).len() == sets.filter(pred).len(),
    decreases sets.len(),
{
    reveal(Seq::filter);
    if sets.len() > 0 {
        let rest = sets.drop_last();
        lemma_filter_len_of_mapped(rest, change, pred);
        assert(sets.map_values(change).drop_last() =~= rest.map_values(change));
        assert(sets.map_values(change).last() == change(sets.last()));
    }
}

/// Replacing one record changes the number of records with a property by
/// what the old and the new record count for.
proof fn lemma_filter_len_of_updated(
    sets: Seq<AdvertisingSetInfo>,
    pred: spec_fn(AdvertisingSetInfo) -> bool,
    i: int,
    s: AdvertisingSetInfo,
)
    requires
        0 <= i < sets.len(),
    ensures
        sets.update(i, s).filter(pred).len() == sets.filter(pred).len() - (if pred(sets[i]) {
            1int
        } else {
            0
        }) + (if pred(s) {
            1int
        } else {
            0
        }),
{
    let head = sets.take(i);
    let tail = sets.skip(i + 1);
    let none = Seq::<AdvertisingSetInfo>::empty();
    assert(sets =~= head.push(sets[i]) + tail);
    assert(sets.update(i, s) =~= head.push(s) + tail);
    Seq::filter_distributes_over_add(head.push(sets[i]), tail, pred);
    Seq::filter_distributes_over_add(head.push(s), tail, pred);
    lemma_filter_push(head, pred, sets[i]);
    lemma_filter_push(head, pred, s);
}

/// Suspending with no set on the air: the manager is suspended when
/// `enter_suspend` returns.
pub proof fn law_enter_suspend_without_enabled_sets(s: ManagerState)
    requires
        s.enabled_count() == 0,
    ensures
        s.enter_suspend().suspend_mode == SuspendMode::Suspended,
{
}

/// Suspending with sets on the air: the manager is suspending when
/// `enter_suspend` returns, and as many sets wait for the controller to
/// confirm them disabled as were on the air.
pub proof fn law_enter_suspend_with_enabled_sets(s: ManagerState)
    requires
        s.enabled_count() > 0,
    ensures
        s.enter_suspend().suspend_mode == SuspendMode::Suspending,
        s.enter_suspend().enabled_count() == s.enabled_count(),
{
    let pause = |r: AdvertisingSetInfo|
        if is_on_air(r) {
            AdvertisingSetInfo { paused: true, ..r }
        } else {
            r
        };
    let on_air = |r: AdvertisingSetInfo| is_on_air(r);
    lemma_filter_len_of_mapped(s.sets, pause, on_air);
    assert(s.enter_suspend().sets == s.sets.map_values(pause));
}

/// While the manager is suspending, each confirmation that a set on the air
/// has been disabled takes one from the number of sets on the air, and the
/// manager is suspended exactly when that number has reached zero. So with
/// K sets on the air the manager stays suspending for K - 1 confirmations
/// and is suspended by the K-th.
pub proof fn law_disable_confirmation_counts_down(s: ManagerState, adv_id: u8, status: AdvertisingStatus)
    requires
        s.suspend_mode == SuspendMode::Suspending,
        index_of_adv_id(s.sets, adv_id as AdvertiserId) is Some,
        is_on_air(s.sets[index_of_adv_id(s.sets, adv_id as AdvertiserId).unwrap()]),
    ensures
        s.on_advertising_enabled(adv_id, false, status).enabled_count() == s.enabled_count() - 1,
        s.enabled_count() > 1 ==> s.on_advertising_enabled(adv_id, false, status).suspend_mode
            == SuspendMode::Suspending,
        s.enabled_count() == 1 ==> s.on_advertising_enabled(adv_id, false, status).suspend_mode
            == SuspendMode::Suspended,
{
    let id = adv_id as AdvertiserId;
    let i = index_of_adv_id(s.sets, id).unwrap();
    assert(crate::adv_model::is_first_with_adv_id(s.sets, id, i));
    let on_air = |r: AdvertisingSetInfo| is_on_air(r);
    lemma_filter_len_of_updated(s.sets, on_air, i, AdvertisingSetInfo { enabled: false, ..s.sets[i] });
}

/// The state after the controller has confirmed, one after the other, that
/// it has disabled the sets with these advertiser ids.
pub open spec fn after_disable_confirmations(s: ManagerState, ids: Seq<u8>, status: AdvertisingStatus) -> ManagerState
    decreases ids.len(),
{
    if ids.len() == 0 {
        s
    } else {
        after_disable_confirmations(s, ids.drop_last(), status).on_advertising_enabled(ids.last(), false, status)
    }
}

/// Whether each of these advertiser ids stands for a set on the air.
pub open spec fn all_on_air(s: ManagerState, ids: Seq<u8>) -> bool {
    forall|k: int|
        0 <= k < ids.len() ==> index_of_adv_id(s.sets, #[trigger] ids[k] as AdvertiserId) is Some && is_on_air(
            s.sets[index_of_adv_id(s.sets, ids[k] as AdvertiserId).unwrap()],
        )
}

/// What a run of disable confirmations leaves as it was: the number of
/// records, their advertiser ids, and every record that no confirmation was
/// for.
proof fn lemma_disable_confirmations(s: ManagerState, ids: Seq<u8>, status: AdvertisingStatus)
    requires
        s.suspend_mode == SuspendMode::Suspending,
        ids.no_duplicates(),
        all_on_air(s, ids),
    ensures
        ({
            let t = after_disable_confirmations(s, ids, status);
            &&& t.sets.len() == s.sets.len()
            &&& forall|i: int| 0 <= i < s.sets.len() ==> (#[trigger] t.sets[i]).adv_id == s.sets[i].adv_id
            &&& forall|i: int|
                0 <= i < s.sets.len() ==> #[trigger] t.sets[i] == s.sets[i] || exists|k: int|
                    0 <= k < ids.len() && s.sets[i].adv_id == Some(#[trigger] ids[k] as AdvertiserId)
            &&& t.enabled_count() == s.enabled_count() - ids.len()
            &&& t.suspend_mode == (if ids.len() > 0 && t.enabled_count() == 0 {
                SuspendMode::Suspended
            } else {
                SuspendMode::Suspending
            })
        }),
    decreases ids.len(),
{
    if ids.len() > 0 {
        let prev = ids.drop_last();
        let id = ids.last();
        let a = id as AdvertiserId;
        assert forall|k: int| 0 <= k < prev.len() implies index_of_adv_id(
            s.sets,
            #[trigger] prev[k] as AdvertiserId,
        ) is Some && is_on_air(s.sets[index_of_adv_id(s.sets, prev[k] as AdvertiserId).unwrap()]) by {
            assert(prev[k] == ids[k]);
        }
        assert forall|x: int, y: int| 0 <= x < prev.len() && 0 <= y < prev.len() && x != y implies prev[x]
            != prev[y] by {
            assert(prev[x] == ids[x] && prev[y] == ids[y]);
        }
        lemma_disable_confirmations(s, prev, status);
        let t0 = after_disable_confirmations(s, prev, status);
        assert(ids[ids.len() - 1] == id);
        let i = index_of_adv_id(s.sets, a).unwrap();
        assert(crate::adv_model::is_first_with_adv_id(s.sets, a, i));
        assert(crate::adv_model::is_first_with_adv_id(t0.sets, a, i)) by {
            assert(t0.sets[i].adv_id == s.sets[i].adv_id);
            assert forall|j: int| 0 <= j < i implies (#[trigger] t0.sets[j]).adv_id != Some(a) by {
                assert(t0.sets[j].adv_id == s.sets[j].adv_id);
            }
        }
        crate::adv_model::lemma_index_of_adv_id(t0.sets, a, i);
        assert(t0.sets[i] == s.sets[i]) by {
            if t0.sets[i] != s.sets[i] {
                let k = choose|k: int| 0 <= k < prev.len() && s.sets[i].adv_id == Some(#[trigger] prev[k] as AdvertiserId);
                assert(prev[k] == ids[k]);
                assert(ids[k] == ids[ids.len() - 1]);
            }
        }
        let on_air = |r: AdvertisingSetInfo| is_on_air(r);
        t0.sets.lemma_filter_contains(on_air, i);
        assert(t0.enabled_count() > 0);
        assert(t0.suspend_mode == SuspendMode::Suspending);
        law_disable_confirmation_counts_down(t0, id, status);
        let t = t0.on_advertising_enabled(id, false, status);
        assert(t.sets == t0.sets.update(i, AdvertisingSetInfo { enabled: false, ..t0.sets[i] }));
        assert forall|j: int| 0 <= j < s.sets.len() implies #[trigger] t.sets[j] == s.sets[j] || exists|k: int|
            0 <= k < ids.len() && s.sets[j].adv_id == Some(#[trigger] ids[k] as AdvertiserId) by {
            if j == i {
                assert(s.sets[j].adv_id == Some(ids[ids.len() - 1] as AdvertiserId));
            } else if t0.sets[j] != s.sets[j] {
                let k = choose|k: int| 0 <= k < prev.len() && s.sets[j].adv_id == Some(#[trigger] prev[k] as AdvertiserId);
                assert(prev[k] == ids[k]);
            }
        }
    }
}

/// With K sets on the air when the system begins to suspend, the manager
/// stays suspending while the controller confirms fewer than K of them
/// disabled, and is suspended when it has confirmed all K.
pub proof fn law_suspended_after_exactly_k_confirmations(s: ManagerState, ids: Seq<u8>, status: AdvertisingStatus)
    requires
        s.suspend_mode == SuspendMode::Suspending,
        ids.no_duplicates(),
        all_on_air(s, ids),
    ensures
        ids.len() <= s.enabled_count(),
        ids.len() < s.enabled_count() ==> after_disable_confirmations(s, ids, status).suspend_mode
            == SuspendMode::Suspending,
        0 < ids.len() == s.enabled_count() ==> after_disable_confirmations(s, ids, status).suspend_mode
            == SuspendMode::Suspended,
{
    lemma_disable_confirmations(s, ids, status);
}

/// A confirmation from the controller never leaves the manager suspending
/// with no set on the air.
pub proof fn law_suspended_once_nothing_on_air(s: ManagerState, adv_id: u8, enabled: bool, status: AdvertisingStatus)
    requires
        s.suspend_mode == SuspendMode::Suspending,
        index_of_adv_id(s.sets, adv_id as AdvertiserId) is Some,
    ensures
        s.on_advertising_enabled(adv_id, enabled, status).suspend_mode == (if s.on_advertising_enabled(
            adv_id,
            enabled,
            status,
        ).enabled_count() == 0 {
            SuspendMode::Suspended
        } else {
            SuspendMode::Suspending
        }),
{
}

/// A stop that is asked for outside normal mode is held back: the record
/// stays and is marked as stopped, no command goes to the controller, and
/// the sink is told at once that the set has stopped.
pub proof fn law_stop_is_held_while_suspending(s: ManagerState, advertiser_id: AdvertiserId)
    requires
        s.suspend_mode != SuspendMode::Normal,
        index_of_adv_id(s.sets, advertiser_id) is Some,
        !s.sets[index_of_adv_id(s.sets, advertiser_id).unwrap()].stopped,
    ensures
        ({
            let i = index_of_adv_id(s.sets, advertiser_id).unwrap();
            let after = s.stop_advertising_set(advertiser_id);
            &&& after.suspend_mode == s.suspend_mode
            &&& after.sets == s.sets.update(i, AdvertisingSetInfo { stopped: true, ..s.sets[i] })
            &&& after.outbox == s.outbox + (if s.callbacks.contains(s.sets[i].callback_id) {
                seq![
                    ActionView::Notify {
                        callback_id: s.sets[i].callback_id,
                        event: EventView::AdvertisingSetStopped { advertiser_id },
                    },
                ]
            } else {
                Seq::<ActionView>::empty()
            })
        }),
{
    let i = index_of_adv_id(s.sets, advertiser_id).unwrap();
    let after = s.stop_advertising_set(advertiser_id);
    if !s.callbacks.contains(s.sets[i].callback_id) {
        assert(after.outbox =~= s.outbox + Seq::<ActionView>::empty());
    }
}

/// A stop that was held back is carried out on resume: for every record
/// that the controller knows and that is marked as stopped, `exit_suspend`
/// queues the command that disposes of the set, after what was queued
/// before and before any set is enabled again.
pub proof fn law_held_stop_is_carried_out_on_resume(s: ManagerState, i: int)
    requires
        0 <= i < s.sets.len(),
        is_held_stop(s.sets[i]),
    ensures
        ({
            let held = s.sets.filter(|r: AdvertisingSetInfo| is_held_stop(r));
            exists|k: int|
                0 <= k < held.len() && held[k] == s.sets[i] && s.outbox.len() + k < s.exit_suspend().outbox.len()
                    && #[trigger] s.exit_suspend().outbox[s.outbox.len() + k] == unregister_command(s.sets[i])
        }),
{
    let pred = |r: AdvertisingSetInfo| is_held_stop(r);
    let held = s.sets.filter(pred);
    s.sets.lemma_filter_contains(pred, i);
    let k = choose|k: int| 0 <= k < held.len() && held[k] == s.sets[i];
    let dispose = |r: AdvertisingSetInfo| unregister_command(r);
    let first = s.emit(held.map_values(dispose));
    assert(first.outbox[s.outbox.len() + k] == unregister_command(s.sets[i]));
    let out = s.exit_suspend().outbox;
    assert(out.len() >= first.outbox.len());
    assert(out[s.outbox.len() + k] == first.outbox[s.outbox.len() + k]);
}

/// Whether the controller's ids are in order: every advertiser id fits a
/// byte, and no two records have the same.
pub open spec fn distinct_adv_ids(sets: Seq<AdvertisingSetInfo>) -> bool {
    &&& forall|i: int| 0 <= i < sets.len() && (#[trigger] sets[i]).valid() ==> 0 <= sets[i].adv_id.unwrap() <= 255
    &&& forall|i: int, j: int|
        0 <= i < j < sets.len() && (#[trigger] sets[i]).valid() && (#[trigger] sets[j]).valid() ==> sets[i].adv_id
            != sets[j].adv_id
}

/// Whether a record is another than the one the controller knows under an id.
pub open spec fn is_not_set(id: u8) -> spec_fn(AdvertisingSetInfo) -> bool {
    |r: AdvertisingSetInfo| !(r.valid() && r.controller_id() == id)
}

/// Whether a record is none of those the controller knows under some ids.
pub open spec fn is_none_of_sets(ids: Seq<u8>) -> spec_fn(AdvertisingSetInfo) -> bool {
    |r: AdvertisingSetInfo| !(r.valid() && ids.contains(r.controller_id()))
}

/// What a filter keeps of records with distinct ids has distinct ids.
proof fn lemma_filter_keeps_distinct(sets: Seq<AdvertisingSetInfo>, pred: spec_fn(AdvertisingSetInfo) -> bool)
    requires
        distinct_adv_ids(sets),
    ensures
        distinct_adv_ids(sets.filter(pred)),
    decreases sets.len(),
{
    reveal(Seq::filter);
    if sets.len() > 0 {
        let rest = sets.drop_last();
        assert forall|i: int| 0 <= i < rest.len() implies #[trigger] rest[i] == sets[i] by {}
        assert(distinct_adv_ids(rest)) by {
            assert forall|i: int| 0 <= i < rest.len() && (#[trigger] rest[i]).valid() implies 0
                <= rest[i].adv_id.unwrap() <= 255 by {
                assert(rest[i] == sets[i]);
            }
            assert forall|i: int, j: int|
                0 <= i < j < rest.len() && (#[trigger] rest[i]).valid() && (#[trigger] rest[j]).valid() implies rest[i].adv_id
                != rest[j].adv_id by {
                assert(rest[i] == sets[i] && rest[j] == sets[j]);
            }
        }
        lemma_filter_keeps_distinct(rest, pred);
        if pred(sets.last()) {
            let kept = rest.filter(pred);
            let all = kept.push(sets.last());
            assert forall|i: int| 0 <= i < all.len() && (#[trigger] all[i]).valid() implies 0
                <= all[i].adv_id.unwrap() <= 255 by {
                if i < kept.len() {
                    assert(all[i] == kept[i]);
                } else {
                    assert(all[i] == sets[sets.len() - 1]);
                }
            }
            assert forall|i: int, j: int|
                0 <= i < j < all.len() && (#[trigger] all[i]).valid() && (#[trigger] all[j]).valid() implies all[i].adv_id
                != all[j].adv_id by {
                assert(all[i] == kept[i]);
                if j < kept.len() {
                    assert(all[j] == kept[j]);
                } else {
                    assert(all[j] == sets[sets.len() - 1]);
                    assert(kept.contains(kept[i]));
                    rest.lemma_filter_contains_rev(pred, kept[i]);
                    let k = choose|k: int| 0 <= k < rest.len() && rest[k] == kept[i];
                    assert(sets[k] == kept[i]);
                }
            }
        }
    }
}

/// Among records with distinct ids, removing the first record of an id
/// leaves exactly the records that are not the set with that id.
proof fn lemma_without_is_filter(sets: Seq<AdvertisingSetInfo>, id: u8)
    requires
        distinct_adv_ids(sets),
    ensures
        without(sets, index_of_adv_id(sets, id as AdvertiserId)) == sets.filter(is_not_set(id)),
{
    let a = id as AdvertiserId;
    let pred = is_not_set(id);
    assert forall|j: int| 0 <= j < sets.len() implies pred(#[trigger] sets[j]) == (sets[j].adv_id != Some(a)) by {
        if sets[j].valid() {
            assert(0 <= sets[j].adv_id.unwrap() <= 255);
        }
    }
    match index_of_adv_id(sets, a) {
        Some(i) => {
            assert(crate::adv_model::is_first_with_adv_id(sets, a, i));
            let head = sets.take(i);
            let tail = sets.skip(i + 1);
            assert(sets =~= head.push(sets[i]) + tail);
            Seq::filter_distributes_over_add(head.push(sets[i]), tail, pred);
            lemma_filter_push(head, pred, sets[i]);
            assert forall|j: int| 0 <= j < head.len() implies pred(#[trigger] head[j]) by {
                assert(head[j] == sets[j]);
            }
            assert forall|j: int| 0 <= j < tail.len() implies pred(#[trigger] tail[j]) by {
                assert(tail[j] == sets[j + i + 1]);
                assert(sets[i].valid());
            }
            lemma_filter_all(head, pred);
            lemma_filter_all(tail, pred);
            assert(sets.remove(i) =~= head + tail);
        },
        None => {
            assert forall|j: int| 0 <= j < sets.len() implies pred(#[trigger] sets[j]) by {
                if sets[j].adv_id == Some(a) {
                    let first = choose|k: int| 0 <= k <= j && sets[k].adv_id == Some(a) && forall|m: int|
                        0 <= m < k ==> (#[trigger] sets[m]).adv_id != Some(a);
                    assert(crate::adv_model::is_first_with_adv_id(sets, a, first));
                }
            }
            lemma_filter_all(sets, pred);
        },
    }
}

/// Among records with distinct ids, removing the sets with some ids one
/// after the other leaves exactly the records that are none of those sets.
proof fn lemma_without_adv_ids_is_filter(sets: Seq<AdvertisingSetInfo>, ids: Seq<u8>)
    requires
        distinct_adv_ids(sets),
    ensures
        without_adv_ids(sets, ids) == sets.filter(is_none_of_sets(ids)),
    decreases ids.len(),
{
    if ids.len() == 0 {
        assert forall|j: int| 0 <= j < sets.len() implies is_none_of_sets(ids)(#[trigger] sets[j]) by {}
        lemma_filter_all(sets, is_none_of_sets(ids));
    } else {
        let prev = ids.drop_last();
        let id = ids.last();
        lemma_without_adv_ids_is_filter(sets, prev);
        let before = sets.filter(is_none_of_sets(prev));
        lemma_filter_keeps_distinct(sets, is_none_of_sets(prev));
        lemma_without_is_filter(before, id);
        lemma_filter_twice(sets, is_none_of_sets(prev), is_not_set(id));
        let both = |r: AdvertisingSetInfo| is_none_of_sets(prev)(r) && is_not_set(id)(r);
        assert forall|j: int| 0 <= j < sets.len() implies both(#[trigger] sets[j]) == is_none_of_sets(ids)(
            sets[j],
        ) by {
            let c = sets[j].controller_id();
            if prev.contains(c) {
                let k = choose|k: int| 0 <= k < prev.len() && prev[k] == c;
                assert(ids[k] == c);
            }
            if c == id {
                assert(ids[ids.len() - 1] == c);
            }
            if ids.contains(c) {
                let k = choose|k: int| 0 <= k < ids.len() && ids[k] == c;
                if k < prev.len() {
                    assert(prev[k] == c);
                }
            }
        }
        lemma_filter_agree(sets, both, is_none_of_sets(ids));
    }
}

/// Where the controller's ids are in order, resuming leaves exactly the
/// sets whose stop was not held back, none of them paused, and the manager
/// in normal mode.
pub proof fn law_exit_suspend_discards_held_stops(s: ManagerState)
    requires
        distinct_adv_ids(s.sets),
    ensures
        s.exit_suspend().suspend_mode == SuspendMode::Normal,
        s.exit_suspend().sets == s.sets.filter(|r: AdvertisingSetInfo| !is_held_stop(r)).map_values(
            |r: AdvertisingSetInfo|
                if is_paused_set(r) {
                    AdvertisingSetInfo { paused: false, ..r }
                } else {
                    r
                },
        ),
{
    let held_pred = |r: AdvertisingSetInfo| is_held_stop(r);
    let held = s.sets.filter(held_pred);
    let ids = held.map_values(|r: AdvertisingSetInfo| r.controller_id());
    lemma_without_adv_ids_is_filter(s.sets, ids);
    let kept = |r: AdvertisingSetInfo| !is_held_stop(r);
    assert forall|j: int| 0 <= j < s.sets.len() implies is_none_of_sets(ids)(#[trigger] s.sets[j]) == kept(
        s.sets[j],
    ) by {
        let r = s.sets[j];
        if is_held_stop(r) {
            s.sets.lemma_filter_contains(held_pred, j);
            let k = choose|k: int| 0 <= k < held.len() && held[k] == r;
            assert(ids[k] == r.controller_id());
        }
        if r.valid() && ids.contains(r.controller_id()) {
            let k = choose|k: int| 0 <= k < ids.len() && ids[k] == r.controller_id();
            let h = held[k];
            assert(held.contains(h));
            s.sets.lemma_filter_contains_rev(held_pred, h);
            let m = choose|m: int| 0 <= m < s.sets.len() && s.sets[m] == h;
            assert(s.sets[m].valid());
            assert(0 <= s.sets[m].adv_id.unwrap() <= 255);
            assert(0 <= s.sets[j].adv_id.unwrap() <= 255);
            if m < j {
                assert(s.sets[m].adv_id != s.sets[j].adv_id);
            }
            if j < m {
                assert(s.sets[j].adv_id != s.sets[m].adv_id);
            }
        }
    }
    lemma_filter_agree(s.sets, is_none_of_sets(ids), kept);
}

/// After a sink has been unregistered, none of its sets is left that the
/// controller knows, and each of its sets that is left is marked as stopped.
pub proof fn law_unregistered_sink_owns_no_valid_set(s: ManagerState, callback_id: CallbackId, j: int)
    requires
        0 <= j < s.unregister_callback(callback_id).sets.len(),
        s.unregister_callback(callback_id).sets[j].callback_id == callback_id,
    ensures
        !s.unregister_callback(callback_id).sets[j].valid(),
        s.unregister_callback(callback_id).sets[j].stopped,
{
    let kept_pred = |r: AdvertisingSetInfo| r.callback_id != callback_id || !r.valid();
    let kept = s.sets.filter(kept_pred);
    s.sets.lemma_filter_pred(kept_pred, j);
}

/// When a sink is unregistered, each of its sets that the controller knows
/// is disposed of at once, and each of its sets that the controller has not
/// confirmed yet survives, marked as stopped.
pub proof fn law_unregister_callback_by_validity(s: ManagerState, callback_id: CallbackId, i: int)
    requires
        0 <= i < s.sets.len(),
        s.sets[i].callback_id == callback_id,
    ensures
        s.sets[i].valid() ==> s.unregister_callback(callback_id).outbox.contains(unregister_command(s.sets[i])),
        s.sets[i].valid() ==> !s.unregister_callback(callback_id).sets.contains(s.sets[i]),
        !s.sets[i].valid() ==> s.unregister_callback(callback_id).sets.contains(
            AdvertisingSetInfo { stopped: true, ..s.sets[i] },
        ),
{
    let after = s.unregister_callback(callback_id);
    let kept_pred = |r: AdvertisingSetInfo| r.callback_id != callback_id || !r.valid();
    let gone_pred = |r: AdvertisingSetInfo| r.callback_id == callback_id && r.valid();
    let mark = |r: AdvertisingSetInfo|
        if r.callback_id == callback_id {
            AdvertisingSetInfo { stopped: true, ..r }
        } else {
            r
        };
    let dispose = |r: AdvertisingSetInfo| unregister_command(r);
    if s.sets[i].valid() {
        s.sets.lemma_filter_contains(gone_pred, i);
        let gone = s.sets.filter(gone_pred);
        let k = choose|k: int| 0 <= k < gone.len() && gone[k] == s.sets[i];
        assert(gone.map_values(dispose)[k] == unregister_command(s.sets[i]));
        assert(after.outbox[s.outbox.len() + k] == unregister_command(s.sets[i]));
        if after.sets.contains(s.sets[i]) {
            let j = choose|j: int| 0 <= j < after.sets.len() && after.sets[j] == s.sets[i];
            law_unregistered_sink_owns_no_valid_set(s, callback_id, j);
        }
    } else {
        s.sets.lemma_filter_contains(kept_pred, i);
        let kept = s.sets.filter(kept_pred);
        let k = choose|k: int| 0 <= k < kept.len() && kept[k] == s.sets[i];
        assert(after.sets[k] == mark(s.sets[i]));
    }
}

/// A set that was stopped before the controller confirmed it is discarded
/// when the confirmation arrives: the set is disposed of, its record is
/// removed, and no sink is told.
pub proof fn law_stopped_set_is_discarded_on_arrival(
    s: ManagerState,
    reg_id: RegId,
    advertiser_id: u8,
    tx_power: i8,
    status: AdvertisingStatus,
)
    requires
        s.wf(),
        index_of_reg_id(s.sets, reg_id) is Some,
        s.sets[index_of_reg_id(s.sets, reg_id).unwrap()].stopped,
    ensures
        !uses_reg_id(s.on_advertising_set_started(reg_id, advertiser_id, tx_power, status).sets, reg_id as int),
        s.on_advertising_set_started(reg_id, advertiser_id, tx_power, status).outbox == s.outbox + seq![
            ActionView::Unregister { advertiser_id },
        ],
{
    let i = index_of_reg_id(s.sets, reg_id).unwrap();
    assert(uses_reg_id(s.sets, reg_id as int));
    lemma_removed_reg_id_is_free(s.sets, i);
}

/// A confirmation for a set that has no record is answered by disposing of
/// the set; the registry stays as it is.
pub proof fn law_orphan_confirmation(
    s: ManagerState,
    reg_id: RegId,
    advertiser_id: u8,
    tx_power: i8,
    status: AdvertisingStatus,
)
    requires
        !uses_reg_id(s.sets, reg_id as int),
    ensures
        s.on_advertising_set_started(reg_id, advertiser_id, tx_power, status) == s.emit(
            seq![ActionView::Unregister { advertiser_id }],
        ),
{
}

/// Outside normal mode a request to start a set is turned down and changes
/// nothing.
pub proof fn law_start_rejected_outside_normal_mode(s: ManagerState, req: crate::adv_model::StartRequest)
    requires
        s.suspend_mode != SuspendMode::Normal,
    ensures
        s.start_result(req) == -1,
        s.start_advertising_set(req) == s,
{
}

/// An accepted request to start a set returns the smallest registration id
/// that no record has, and the registry holds a record with that id after.
pub proof fn law_start_takes_smallest_free_reg_id(s: ManagerState, req: crate::adv_model::StartRequest)
    requires
        s.wf(),
        s.sets.len() <= i32::MAX,
        s.start_accepted(req),
    ensures
        is_smallest_free_reg_id(s.sets, s.start_result(req)),
        uses_reg_id(s.start_advertising_set(req).sets, s.start_result(req)),
        s.start_advertising_set(req).sets.len() == s.sets.len() + 1,
{
    law_smallest_free_reg_id_exists(s.sets);
    let record = s.start_record(req);
    let n = smallest_free_reg_id(s.sets);
    assert(record.reg_id == n);
    let below = |x: AdvertisingSetInfo| x.reg_id < record.reg_id;
    let above = |x: AdvertisingSetInfo| x.reg_id > record.reg_id;
    let after = s.start_advertising_set(req).sets;
    assert(after == s.sets.filter(below).push(record) + s.sets.filter(above));
    assert(after[s.sets.filter(below).len() as int] == record);
    let either = |x: AdvertisingSetInfo| below(x) || above(x);
    assert forall|i: int| 0 <= i < s.sets.len() implies either(#[trigger] s.sets[i]) by {
        if s.sets[i].reg_id == n {
            assert(uses_reg_id(s.sets, n));
        }
    }
    lemma_filter_len_split(s.sets, below, above);
}

/// Two filters that part a sequence keep, together, as many items as it has.
proof fn lemma_filter_len_split(
    sets: Seq<AdvertisingSetInfo>,
    p: spec_fn(AdvertisingSetInfo) -> bool,
    q: spec_fn(AdvertisingSetInfo) -> bool,
)
    requires
        forall|i: int| 0 <= i < sets.len() ==> p(#[trigger] sets[i]) != q(sets[i]),
    ensures
        sets.filter(p).len() + sets.filter(q).len() == sets.len(),
    decreases sets.len(),
{
    reveal(Seq::filter);
    if sets.len() > 0 {
        let rest = sets.drop_last();
        assert forall|i: int| 0 <= i < rest.len() implies p(#[trigger] rest[i]) != q(rest[i]) by {
            assert(rest[i] == sets[i]);
        }
        lemma_filter_len_split(rest, p, q);
        assert(p(sets[sets.len() - 1]) != q(sets[sets.len() - 1]));
    }
}

/// A request to start a set whose advertising data, scan response or
/// periodic data is too long is turned down and changes nothing.
pub proof fn law_start_rejected_for_oversized_data(s: ManagerState, req: crate::adv_model::StartRequest)
    requires
        adv_encoding(req.advertise_data, s.device_name()).len() > adv_data_len_max(s.start_is_legacy(req))
            || s.optional_encoding(req.scan_response).len() > adv_data_len_max(s.start_is_legacy(req))
            || s.optional_encoding(req.periodic_data).len() > 254,
    ensures
        s.start_result(req) == -1,
        s.start_advertising_set(req) == s,
{
}

/// A set that is asked for as legacy, with advertising data of more than 31
/// bytes, becomes an extended set where the controller supports extended
/// advertising: its record and the parameters sent to the controller are
/// those of an extended set.
pub proof fn law_legacy_set_is_promoted(s: ManagerState, req: crate::adv_model::StartRequest)
    requires
        req.parameters.is_legacy,
        s.extended_supported(),
        adv_encoding(req.advertise_data, s.device_name()).len() > 31,
    ensures
        !s.start_is_legacy(req),
        !s.start_record(req).legacy,
        s.start_command(req) matches ActionView::StartAdvertisingSet { params, .. } && params
            == crate::adv_params::controller_parameters(
            crate::adv_params::AdvertisingSetParameters { is_legacy: false, ..req.parameters },
        ),
{
}

/// Outside normal mode every request but a stop and the removal of a sink
/// is ignored.
pub proof fn law_requests_ignored_outside_normal_mode(
    s: ManagerState,
    advertiser_id: AdvertiserId,
    flag: bool,
    other_flag: bool,
    duration: i32,
    max_ext_adv_events: i32,
    data: crate::adv_data::AdvertiseDataView,
    raw: Seq<u8>,
    parameters: crate::adv_params::AdvertisingSetParameters,
    periodic_parameters: crate::adv_params::PeriodicAdvertisingParameters,
)
    requires
        s.suspend_mode != SuspendMode::Normal,
    ensures
        s.get_own_address(advertiser_id) == s,
        s.enable_advertising_set(advertiser_id, flag, duration, max_ext_adv_events) == s,
        s.set_advertising_data(advertiser_id, data) == s,
        s.set_raw_adv_data(advertiser_id, raw) == s,
        s.set_scan_response_data(advertiser_id, data) == s,
        s.set_advertising_parameters(advertiser_id, parameters) == s,
        s.set_periodic_advertising_parameters(advertiser_id, periodic_parameters) == s,
        s.set_periodic_advertising_data(advertiser_id, data) == s,
        s.set_periodic_advertising_enable(advertiser_id, flag, other_flag) == s,
{
}

/// A start that the controller reports as failed is told to the sink with
/// the status the controller gave, and the record of the set is removed.
pub proof fn law_failed_start_is_reported_and_discarded(
    s: ManagerState,
    reg_id: RegId,
    advertiser_id: u8,
    tx_power: i8,
    status: AdvertisingStatus,
)
    requires
        s.wf(),
        status != AdvertisingStatus::Success,
        index_of_reg_id(s.sets, reg_id) is Some,
        !s.sets[index_of_reg_id(s.sets, reg_id).unwrap()].stopped,
        s.callbacks.contains(s.sets[index_of_reg_id(s.sets, reg_id).unwrap()].callback_id),
    ensures
        !uses_reg_id(s.on_advertising_set_started(reg_id, advertiser_id, tx_power, status).sets, reg_id as int),
        s.on_advertising_set_started(reg_id, advertiser_id, tx_power, status).outbox == s.outbox + seq![
            ActionView::Notify {
                callback_id: s.sets[index_of_reg_id(s.sets, reg_id).unwrap()].callback_id,
                event: EventView::AdvertisingSetStarted {
                    reg_id,
                    advertiser_id: advertiser_id as i32,
                    tx_power: tx_power as i32,
                    status,
                },
            },
        ],
{
    let i = index_of_reg_id(s.sets, reg_id).unwrap();
    assert(uses_reg_id(s.sets, reg_id as int));
    lemma_removed_reg_id_is_free(s.sets, i);
}

/// Once a record is removed from an ascending registry, its registration id
/// is free.
proof fn lemma_removed_reg_id_is_free(sets: Seq<AdvertisingSetInfo>, i: int)
    requires
        ascending(sets),
        0 <= i < sets.len(),
    ensures
        !uses_reg_id(sets.remove(i), sets[i].reg_id as int),
{
    let after = sets.remove(i);
    if uses_reg_id(after, sets[i].reg_id as int) {
        let k = choose|k: int| 0 <= k < after.len() && #[trigger] after[k].reg_id == sets[i].reg_id;
        let k0 = if k < i {
            k
        } else {
            k + 1
        };
        assert(after[k] == sets[k0]);
        if k0 < i {
            assert(sets[k0].reg_id < sets[i].reg_id);
        } else {
            assert(sets[i].reg_id < sets[k0].reg_id);
        }
    }
}

/// The suspend mode moves only with the suspend protocol: no request of a
/// client and no confirmation of the controller but the one that a set was
/// enabled or disabled changes it.
pub proof fn law_suspend_mode_moves_only_with_protocol(
    s: ManagerState,
    req: crate::adv_model::StartRequest,
    callback_id: CallbackId,
    advertiser_id: AdvertiserId,
    reg_id: RegId,
    adv_id: u8,
    tx_power: i8,
    status: AdvertisingStatus,
    parameters: crate::adv_params::AdvertisingSetParameters,
    raw: Seq<u8>,
)
    ensures
        s.register_callback(callback_id).suspend_mode == s.suspend_mode,
        s.unregister_callback(callback_id).suspend_mode == s.suspend_mode,
        s.start_advertising_set(req).suspend_mode == s.suspend_mode,
        s.stop_advertising_set(advertiser_id).suspend_mode == s.suspend_mode,
        s.set_raw_adv_data(advertiser_id, raw).suspend_mode == s.suspend_mode,
        s.set_advertising_parameters(advertiser_id, parameters).suspend_mode == s.suspend_mode,
        s.on_advertising_set_started(reg_id, adv_id, tx_power, status).suspend_mode == s.suspend_mode,
        s.on_advertising_data_set(adv_id, status).suspend_mode == s.suspend_mode,
        s.suspend_mode != SuspendMode::Suspending ==> s.on_advertising_enabled(adv_id, true, status).suspend_mode
            == s.suspend_mode,
        s.suspend_mode != SuspendMode::Suspending ==> s.on_advertising_enabled(adv_id, false, status).suspend_mode
            == s.suspend_mode,
        s.enter_suspend().suspend_mode != SuspendMode::Normal,
        s.exit_suspend().suspend_mode == SuspendMode::Normal,
{
}

/// The suspend mode is told to the sinks only when it changes.
pub proof fn law_no_redundant_mode_broadcast(s: ManagerState)
    ensures
        s.set_suspend_mode(s.suspend_mode) == s,
{
}

} // verus!
