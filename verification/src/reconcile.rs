//! Matching a profile's overrides for single cores with the cores that a change
//! names.

use vstd::prelude::*;
use vstd::set_lib::{lemma_int_range, lemma_len_subset, set_int_range};
use crate::cpu_cores::{unique_ids, CoreSetting};
use crate::profile::Profile;

verus! {

/// A change to the override of one core.
#[derive(Debug, Clone, PartialEq)]
pub enum CoreMutation {
    /// Enforce the core to be online, or to be offline.
    Online(bool),
    /// Enforce this governor.
    Governor(String),
    /// Enforce this energy preference.
    Epp(String),
}

impl CoreMutation {
    /// The record `core` after the change: one field enforced, the others as
    /// they were.
    pub open spec fn mutated(&self, core: CoreSetting) -> CoreSetting {
        match *self {
            CoreMutation::Online(online) => CoreSetting { online: Some(online), ..core },
            CoreMutation::Governor(governor) => CoreSetting { governor: Some(governor), ..core },
            CoreMutation::Epp(epp) => CoreSetting { epp: Some(epp), ..core },
        }
    }

    /// Makes the change to `core`.
    pub fn apply_to(&self, core: &mut CoreSetting)
        ensures
            *final(core) == self.mutated(*old(core)),
    {
        match self {
            CoreMutation::Online(online) => {
                core.online = Some(*online);
            },
            CoreMutation::Governor(governor) => {
                core.governor = Some(governor.clone());
            },
            CoreMutation::Epp(epp) => {
                core.epp = Some(epp.clone());
            },
        }
    }
}

/// One of `cores` is for the core `cpu_id`.
pub open spec fn has_core(cores: Seq<CoreSetting>, cpu_id: u32) -> bool {
    exists|i: int| 0 <= i < cores.len() && (#[trigger] cores[i]).cpu_id == cpu_id
}

/// The record at `index` is the first of `cores` for the core `cpu_id`.
pub open spec fn is_first_core(cores: Seq<CoreSetting>, cpu_id: u32, index: int) -> bool {
    &&& 0 <= index < cores.len()
    &&& cores[index].cpu_id == cpu_id
    &&& forall|j: int| 0 <= j < index ==> (#[trigger] cores[j]).cpu_id != cpu_id
}

/// Where the first record for the core `cpu_id` stands in `cores`, if there is
/// one.
pub open spec fn position(cores: Seq<CoreSetting>, cpu_id: u32) -> Option<int>
    decreases cores.len(),
{
    if cores.len() == 0 {
        None
    } else {
        match position(cores.drop_last(), cpu_id) {
            Some(index) => Some(index),
            None => if cores.last().cpu_id == cpu_id {
                Some(cores.len() - 1)
            } else {
                None
            },
        }
    }
}

/// `position` gives the first record for the core, and nothing where the list
/// has no record for it.
pub proof fn lemma_position_is_first(cores: Seq<CoreSetting>, cpu_id: u32)
    ensures
        match position(cores, cpu_id) {
            Some(index) => is_first_core(cores, cpu_id, index),
            None => !has_core(cores, cpu_id),
        },
    decreases cores.len(),
{
    if cores.len() > 0 {
        let rest = cores.drop_last();
        lemma_position_is_first(rest, cpu_id);
        match position(rest, cpu_id) {
            Some(index) => {
                assert(rest[index] == cores[index]);
                assert forall|j: int| 0 <= j < index implies (#[trigger] cores[j]).cpu_id
                    != cpu_id by {
                    assert(rest[j] == cores[j]);
                }
            },
            None => {
                assert forall|j: int| 0 <= j < rest.len() implies (#[trigger] cores[j]).cpu_id
                    != cpu_id by {
                    assert(rest[j] == cores[j]);
                }
            },
        }
    }
}

/// The first record for a core stands at one place only.
pub proof fn lemma_position(cores: Seq<CoreSetting>, cpu_id: u32, index: int)
    requires
        is_first_core(cores, cpu_id, index),
    ensures
        position(cores, cpu_id) == Some(index),
{
    lemma_position_is_first(cores, cpu_id);
    assert(cores[index].cpu_id == cpu_id);
    match position(cores, cpu_id) {
        Some(found) => {
            if found < index {
                assert(cores[found].cpu_id != cpu_id);
            }
            if index < found {
                assert(cores[index].cpu_id != cpu_id);
            }
        },
        None => {},
    }
}

/// Where the first record for the core `cpu_id` stands in `cores`, if there is
/// one.
pub fn find_core(cores: &Vec<CoreSetting>, cpu_id: u32) -> (found: Option<usize>)
    ensures
        found is Some <==> has_core(cores@, cpu_id),
        found matches Some(index) ==> is_first_core(cores@, cpu_id, index as int),
{
    let mut i: usize = 0;
    while i < cores.len()
        invariant
            i <= cores@.len(),
            forall|j: int| 0 <= j < i ==> (#[trigger] cores@[j]).cpu_id != cpu_id,
        decreases cores@.len() - i,
    {
        if cores[i].cpu_id == cpu_id {
            return Some(i);
        }
        i = i + 1;
    }
    None
}

/// The list `cores` after the change `update` for the core `cpu_id`: the change
/// is made to the record for that core, and where the list has none, to a new
/// record at its end that enforced nothing before.
pub open spec fn touch(cores: Seq<CoreSetting>, cpu_id: u32, update: CoreMutation) -> Seq<
    CoreSetting,
> {
    match position(cores, cpu_id) {
        Some(index) => cores.update(index, update.mutated(cores[index])),
        None => cores.push(update.mutated(CoreSetting::unmanaged(cpu_id))),
    }
}

/// Where the record that `touch` changes stands.
pub open spec fn touched_index(cores: Seq<CoreSetting>, cpu_id: u32) -> int {
    match position(cores, cpu_id) {
        Some(index) => index,
        None => cores.len() as int,
    }
}

/// The list `cores` after the change `update` for each of `cpu_ids`, one after
/// the other.
pub open spec fn reconcile(cores: Seq<CoreSetting>, cpu_ids: Seq<u32>, update: CoreMutation) -> Seq<
    CoreSetting,
>
    decreases cpu_ids.len(),
{
    if cpu_ids.len() == 0 {
        cores
    } else {
        touch(reconcile(cores, cpu_ids.drop_last(), update), cpu_ids.last(), update)
    }
}

/// For each of `cpu_ids`, where the record that was changed for it stands.
pub open spec fn touched(cores: Seq<CoreSetting>, cpu_ids: Seq<u32>, update: CoreMutation) -> Seq<
    int,
>
    decreases cpu_ids.len(),
{
    if cpu_ids.len() == 0 {
        seq![]
    } else {
        touched(cores, cpu_ids.drop_last(), update).push(
            touched_index(reconcile(cores, cpu_ids.drop_last(), update), cpu_ids.last()),
        )
    }
}

/// A change leaves a record with its core.
pub proof fn lemma_mutated_keeps_core(core: CoreSetting, update: CoreMutation)
    ensures
        update.mutated(core).cpu_id == core.cpu_id,
{
}

/// A change leaves each record with its core, and a new record is for a core
/// that had none: a list without two records for one core stays one.
pub proof fn lemma_touch_keeps_unique(cores: Seq<CoreSetting>, cpu_id: u32, update: CoreMutation)
    requires
        unique_ids(cores),
    ensures
        unique_ids(touch(cores, cpu_id, update)),
        forall|i: int| 0 <= i < cores.len() ==> (#[trigger] touch(cores, cpu_id, update)[i]).cpu_id == cores[i].cpu_id,
{
    let after = touch(cores, cpu_id, update);
    lemma_position_is_first(cores, cpu_id);
    assert forall|i: int| 0 <= i < cores.len() implies (#[trigger] after[i]).cpu_id == cores[i].cpu_id by {
        lemma_mutated_keeps_core(cores[i], update);
    }
    lemma_mutated_keeps_core(CoreSetting::unmanaged(cpu_id), update);
    assert forall|i: int, j: int| 0 <= i < j < after.len() implies after[i].cpu_id
        != after[j].cpu_id by {
        if j < cores.len() {
            assert(after[i].cpu_id == cores[i].cpu_id);
            assert(after[j].cpu_id == cores[j].cpu_id);
        } else {
            assert(!has_core(cores, cpu_id));
            assert(after[i].cpu_id == cores[i].cpu_id);
            assert(cores[i].cpu_id != cpu_id);
        }
    }
}

/// There is one index for each of `cpu_ids`.
pub proof fn lemma_touched_len(cores: Seq<CoreSetting>, cpu_ids: Seq<u32>, update: CoreMutation)
    ensures
        touched(cores, cpu_ids, update).len() == cpu_ids.len(),
    decreases cpu_ids.len(),
{
    if cpu_ids.len() > 0 {
        lemma_touched_len(cores, cpu_ids.drop_last(), update);
    }
}

/// A list without two records for one core has no more records than there are
/// numbers of cores.
pub proof fn lemma_unique_ids_bounded(cores: Seq<CoreSetting>)
    requires
        unique_ids(cores),
    ensures
        cores.len() <= 0x1_0000_0000,
{
    let ids = Seq::new(cores.len(), |i: int| cores[i].cpu_id as int);
    assert(ids.no_duplicates());
    ids.unique_seq_to_set();
    lemma_int_range(0, 0x1_0000_0000);
    assert(ids.to_set().subset_of(set_int_range(0, 0x1_0000_0000))) by {
        assert forall|id: int| ids.to_set().contains(id) implies set_int_range(
            0,
            0x1_0000_0000,
        ).contains(id) by {
            let i = choose|i: int| 0 <= i < ids.len() && ids[i] == id;
            assert(ids[i] == cores[i].cpu_id as int);
        }
    }
    lemma_len_subset(ids.to_set(), set_int_range(0, 0x1_0000_0000));
}

/// The overrides of a profile after the change `update` for each of `cpu_ids`.
/// Without a list and without a core to change there is still no list.
pub open spec fn reconciled(
    cores: Option<Vec<CoreSetting>>,
    cpu_ids: Seq<u32>,
    update: CoreMutation,
) -> Option<Seq<CoreSetting>> {
    match cores {
        Some(cores) => Some(reconcile(cores@, cpu_ids, update)),
        None => if cpu_ids.len() == 0 {
            None
        } else {
            Some(reconcile(seq![], cpu_ids, update))
        },
    }
}

/// The list `cores` holds the records `model`, or there is neither.
pub open spec fn holds(cores: Option<Vec<CoreSetting>>, model: Option<Seq<CoreSetting>>) -> bool {
    match cores {
        Some(cores) => model == Some(cores@),
        None => model is None,
    }
}

/// The list that `reconciled` starts from.
pub open spec fn listed(cores: Option<Vec<CoreSetting>>) -> Seq<CoreSetting> {
    match cores {
        Some(cores) => cores@,
        None => seq![],
    }
}

/// Makes the change `update` to the override of each core in `cpu_ids`, in
/// their order. A core without a record gets one at the end of the list, which
/// enforces what the change says and nothing else. Gives back, for each of
/// `cpu_ids`, the index of the record that was changed for it, so that no more
/// than these need to be applied again. The rest of the profile stays as it is.
pub fn update_core_settings(profile: &mut Profile, cpu_ids: &Vec<u32>, update: &CoreMutation) -> (indices:
    Vec<u32>)
    requires
        old(profile).cpu_core_settings.wf(),
    ensures
        final(profile).cpu_core_settings.wf(),
        holds(
            final(profile).cpu_core_settings.cores,
            reconciled(old(profile).cpu_core_settings.cores, cpu_ids@, *update),
        ),
        indices@.len() == cpu_ids@.len(),
        forall|k: int|
            0 <= k < indices@.len() ==> (#[trigger] indices@[k]) as int == touched(
                listed(old(profile).cpu_core_settings.cores),
                cpu_ids@,
                *update,
            )[k],
        *final(profile) == (Profile {
            cpu_core_settings: final(profile).cpu_core_settings,
            ..*old(profile)
        }),
{
    let mut indices: Vec<u32> = Vec::new();
    if cpu_ids.len() == 0 {
        return indices;
    }
    let ghost start = listed(profile.cpu_core_settings.cores);
    let mut cores: Vec<CoreSetting> = match profile.cpu_core_settings.cores.take() {
        Some(cores) => cores,
        None => Vec::new(),
    };
    assert(cores@ =~= start);
    let mut k: usize = 0;
    assert(cpu_ids@.take(0) =~= Seq::<u32>::empty());
    while k < cpu_ids.len()
        invariant
            k <= cpu_ids@.len(),
            unique_ids(cores@),
            cores@ == reconcile(start, cpu_ids@.take(k as int), *update),
            indices@.len() == k,
            forall|j: int|
                0 <= j < k ==> (#[trigger] indices@[j]) as int == touched(
                    start,
                    cpu_ids@.take(k as int),
                    *update,
                )[j],
        decreases cpu_ids@.len() - k,
    {
        let cpu_id = cpu_ids[k];
        let ghost before = cores@;
        let ghost done = cpu_ids@.take(k as int);
        let ghost next = cpu_ids@.take(k + 1);
        proof {
            assert(next.drop_last() =~= done);
            assert(next.last() == cpu_id);
            lemma_touch_keeps_unique(before, cpu_id, *update);
            lemma_unique_ids_bounded(touch(before, cpu_id, *update));
            lemma_position_is_first(before, cpu_id);
            lemma_touched_len(start, done, *update);
            lemma_touched_len(start, next, *update);
        }
        let index = match find_core(&cores, cpu_id) {
            Some(index) => {
                proof {
                    lemma_position(before, cpu_id, index as int);
                }
                index
            },
            None => {
                cores.push(CoreSetting::new(cpu_id));
                cores.len() - 1
            },
        };
        update.apply_to(&mut cores[index]);
        assert(cores@ =~= touch(before, cpu_id, *update));
        assert(index as int == touched_index(before, cpu_id));
        indices.push(index as u32);
        assert forall|j: int| 0 <= j < k + 1 implies (#[trigger] indices@[j]) as int == touched(
            start,
            next,
            *update,
        )[j] by {
            if j < k {
                assert(touched(start, next, *update)[j] == touched(start, done, *update)[j]);
            }
        }
        k = k + 1;
    }
    assert(cpu_ids@.take(k as int) =~= cpu_ids@);
    proof {
        lemma_touched_len(start, cpu_ids@, *update);
    }
    profile.cpu_core_settings.cores = Some(cores);
    indices
}

/// The cores among `cpu_ids` for which `cores` has no record.
pub open spec fn unlisted(cores: Seq<CoreSetting>, cpu_ids: Seq<u32>) -> Set<u32> {
    Set::new(|cpu_id: u32| cpu_ids.contains(cpu_id) && !has_core(cores, cpu_id))
}

/// What `after` has to be for the list `cores` once the change `update` was made
/// for each of `cpu_ids`: the old records stand where they stood, changed where
/// their core is named; behind them stands one record for each named core that
/// had none, and it enforces what the change says and nothing else.
pub open spec fn settled(
    cores: Seq<CoreSetting>,
    cpu_ids: Seq<u32>,
    update: CoreMutation,
    after: Seq<CoreSetting>,
) -> bool {
    &&& unique_ids(after)
    &&& cores.len() <= after.len()
    &&& forall|i: int|
        0 <= i < cores.len() ==> #[trigger] after[i] == if cpu_ids.contains(cores[i].cpu_id) {
            update.mutated(cores[i])
        } else {
            cores[i]
        }
    &&& forall|i: int|
        cores.len() <= i < after.len() ==> {
            &&& cpu_ids.contains((#[trigger] after[i]).cpu_id)
            &&& !has_core(cores, after[i].cpu_id)
            &&& after[i] == update.mutated(CoreSetting::unmanaged(after[i].cpu_id))
        }
    &&& forall|k: int| 0 <= k < cpu_ids.len() ==> has_core(after, #[trigger] cpu_ids[k])
}

/// Making a change twice is making it once.
pub proof fn lemma_mutated_twice(core: CoreSetting, update: CoreMutation)
    ensures
        update.mutated(update.mutated(core)) == update.mutated(core),
{
}

/// Changing the overrides for a set of cores makes exactly one new record for
/// each named core that had none, and no new record for a core that had one:
/// the list ends up as `settled` says.
pub proof fn lemma_reconcile_settles(cores: Seq<CoreSetting>, cpu_ids: Seq<u32>, update: CoreMutation)
    requires
        unique_ids(cores),
    ensures
        settled(cores, cpu_ids, update, reconcile(cores, cpu_ids, update)),
    decreases cpu_ids.len(),
{
    let after = reconcile(cores, cpu_ids, update);
    if cpu_ids.len() == 0 {
        assert forall|i: int| 0 <= i < cores.len() implies !cpu_ids.contains(cores[i].cpu_id) by {}
    } else {
        let done = cpu_ids.drop_last();
        let cpu_id = cpu_ids.last();
        let before = reconcile(cores, done, update);
        lemma_reconcile_settles(cores, done, update);
        lemma_touch_keeps_unique(before, cpu_id, update);
        lemma_position_is_first(before, cpu_id);
        assert(cpu_ids[cpu_ids.len() - 1] == cpu_id);
        assert forall|id: u32| done.contains(id) implies cpu_ids.contains(id) by {
            let k = choose|k: int| 0 <= k < done.len() && done[k] == id;
            assert(cpu_ids[k] == id);
        }
        assert forall|id: u32| cpu_ids.contains(id) && id != cpu_id implies done.contains(id) by {
            let k = choose|k: int| 0 <= k < cpu_ids.len() && cpu_ids[k] == id;
            assert(done[k] == id);
        }
        assert forall|i: int| 0 <= i < cores.len() implies #[trigger] after[i] == if cpu_ids.contains(
            cores[i].cpu_id,
        ) {
            update.mutated(cores[i])
        } else {
            cores[i]
        } by {
            lemma_mutated_twice(cores[i], update);
            lemma_mutated_keeps_core(cores[i], update);
            if position(before, cpu_id) == Some(i) {
                assert(before[i].cpu_id == cpu_id);
            } else {
                assert(after[i] == before[i]);
                if cores[i].cpu_id == cpu_id {
                    assert(before[i].cpu_id == cpu_id);
                    assert(has_core(before, cpu_id));
                    let found = position(before, cpu_id)->0;
                    assert(before[found].cpu_id == before[i].cpu_id);
                    assert(false);
                }
            }
        }
        assert forall|i: int| cores.len() <= i < after.len() implies {
            &&& cpu_ids.contains((#[trigger] after[i]).cpu_id)
            &&& !has_core(cores, after[i].cpu_id)
            &&& after[i] == update.mutated(CoreSetting::unmanaged(after[i].cpu_id))
        } by {
            lemma_mutated_keeps_core(CoreSetting::unmanaged(cpu_id), update);
            if i < before.len() {
                lemma_mutated_twice(CoreSetting::unmanaged(before[i].cpu_id), update);
                lemma_mutated_keeps_core(before[i], update);
            } else {
                assert(!has_core(before, cpu_id));
                if has_core(cores, cpu_id) {
                    let j = choose|j: int| 0 <= j < cores.len() && (#[trigger] cores[j]).cpu_id == cpu_id;
                    lemma_mutated_keeps_core(cores[j], update);
                    assert(before[j].cpu_id == cpu_id);
                }
            }
        }
        assert forall|k: int| 0 <= k < cpu_ids.len() implies has_core(after, #[trigger] cpu_ids[k]) by {
            if k < done.len() {
                assert(done[k] == cpu_ids[k]);
                let j = choose|j: int| 0 <= j < before.len() && (#[trigger] before[j]).cpu_id == done[k];
                assert(after[j].cpu_id == before[j].cpu_id);
            } else {
                let j = touched_index(before, cpu_id);
                assert(after[j].cpu_id == cpu_id);
            }
        }
    }
}

/// The list grows by the number of named cores that had no record.
pub proof fn lemma_reconcile_count(cores: Seq<CoreSetting>, cpu_ids: Seq<u32>, update: CoreMutation)
    requires
        unique_ids(cores),
    ensures
        unlisted(cores, cpu_ids).finite(),
        reconcile(cores, cpu_ids, update).len() == cores.len() + unlisted(cores, cpu_ids).len(),
{
    let after = reconcile(cores, cpu_ids, update);
    lemma_reconcile_settles(cores, cpu_ids, update);
    let added = Seq::new((after.len() - cores.len()) as nat, |j: int| after[cores.len() + j].cpu_id);
    assert(added.no_duplicates());
    added.unique_seq_to_set();
    assert(added.to_set() =~= unlisted(cores, cpu_ids)) by {
        assert forall|id: u32| added.to_set().contains(id) implies unlisted(cores, cpu_ids).contains(
            id,
        ) by {
            let j = choose|j: int| 0 <= j < added.len() && added[j] == id;
            assert(after[cores.len() + j].cpu_id == id);
        }
        assert forall|id: u32| unlisted(cores, cpu_ids).contains(id) implies added.to_set().contains(
            id,
        ) by {
            let k = choose|k: int| 0 <= k < cpu_ids.len() && cpu_ids[k] == id;
            assert(has_core(after, cpu_ids[k]));
            let i = choose|i: int| 0 <= i < after.len() && (#[trigger] after[i]).cpu_id == id;
            if i < cores.len() {
                lemma_mutated_keeps_core(cores[i], update);
                assert(cores[i].cpu_id == id);
            }
            assert(added[i - cores.len()] == id);
        }
    }
}

} // verus!
