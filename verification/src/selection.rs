//! Which cores are selected for a change, and how a click changes that.

use vstd::prelude::*;

verus! {

/// The cores that are selected, in the order in which a change reaches them, and
/// the core that a range is drawn from.
#[derive(Debug, Clone, PartialEq, Eq)]
pub struct Selection {
    pub selected: Vec<u32>,
    pub anchor: Option<u32>,
}

/// The numbers from `low` up to `high`, both included; none where `high` is
/// below `low`.
pub open spec fn id_range(low: u32, high: u32) -> Seq<u32> {
    if low <= high {
        Seq::new((high - low + 1) as nat, |i: int| (low + i) as u32)
    } else {
        seq![]
    }
}

/// `selected` without `cpu_id`, the rest in its order.
pub open spec fn without(selected: Seq<u32>, cpu_id: u32) -> Seq<u32>
    decreases selected.len(),
{
    if selected.len() == 0 {
        seq![]
    } else if selected.last() == cpu_id {
        without(selected.drop_last(), cpu_id)
    } else {
        without(selected.drop_last(), cpu_id).push(selected.last())
    }
}

/// The least of `selected` and `cpu_id`.
pub open spec fn least(selected: Seq<u32>, cpu_id: u32) -> u32
    decreases selected.len(),
{
    if selected.len() == 0 {
        cpu_id
    } else {
        let rest = least(selected.drop_last(), cpu_id);
        if selected.last() < rest {
            selected.last()
        } else {
            rest
        }
    }
}

/// The greatest of `selected` and `cpu_id`.
pub open spec fn greatest(selected: Seq<u32>, cpu_id: u32) -> u32
    decreases selected.len(),
{
    if selected.len() == 0 {
        cpu_id
    } else {
        let rest = greatest(selected.drop_last(), cpu_id);
        if selected.last() > rest {
            selected.last()
        } else {
            rest
        }
    }
}

/// The selection after a plain click on `cpu_id`: that core alone, which is the
/// anchor from now on.
pub open spec fn plain_click(cpu_id: u32) -> (Seq<u32>, Option<u32>) {
    (seq![cpu_id], Some(cpu_id))
}

/// The selection after a click on `cpu_id` with the anchor modifier: the core
/// leaves the selection if it was in it and joins it at the end if it was not;
/// the others stay; the core is the anchor from now on.
pub open spec fn toggle_click(selected: Seq<u32>, cpu_id: u32) -> (Seq<u32>, Option<u32>) {
    let kept = without(selected, cpu_id);
    if kept.len() == selected.len() {
        (kept.push(cpu_id), Some(cpu_id))
    } else {
        (kept, Some(cpu_id))
    }
}

/// The selection after a click on `cpu_id` with the range modifier: the cores
/// from the anchor to the clicked one, in place of what was selected; the anchor
/// stays. Without an anchor the click is a plain one.
pub open spec fn range_click(anchor: Option<u32>, cpu_id: u32) -> (Seq<u32>, Option<u32>) {
    match anchor {
        Some(from) => if from <= cpu_id {
            (id_range(from, cpu_id), anchor)
        } else {
            (id_range(cpu_id, from), anchor)
        },
        None => plain_click(cpu_id),
    }
}

/// The selection after a click on `cpu_id` with both modifiers: the cores from
/// the least to the greatest of what was selected and the clicked one; the
/// anchor stays. With nothing selected, the clicked core alone.
pub open spec fn extend_click(selected: Seq<u32>, anchor: Option<u32>, cpu_id: u32) -> (
    Seq<u32>,
    Option<u32>,
) {
    if selected.len() == 0 {
        (seq![cpu_id], anchor)
    } else {
        (id_range(least(selected, cpu_id), greatest(selected, cpu_id)), anchor)
    }
}

/// The selection after a click on `cpu_id` with the modifiers held.
pub open spec fn clicked(
    selected: Seq<u32>,
    anchor: Option<u32>,
    cpu_id: u32,
    anchor_modifier: bool,
    range_modifier: bool,
) -> (Seq<u32>, Option<u32>) {
    if !anchor_modifier && !range_modifier {
        plain_click(cpu_id)
    } else if anchor_modifier && !range_modifier {
        toggle_click(selected, cpu_id)
    } else if !anchor_modifier {
        range_click(anchor, cpu_id)
    } else {
        extend_click(selected, anchor, cpu_id)
    }
}

/// The numbers from `low` up to `high`, both included.
pub fn collect_range(low: u32, high: u32) -> (ids: Vec<u32>)
    ensures
        ids@ == id_range(low, high),
{
    let mut ids: Vec<u32> = Vec::new();
    if low > high {
        return ids;
    }
    let mut next: u32 = low;
    while next < high
        invariant
            low <= next <= high,
            ids@ =~= Seq::new((next - low) as nat, |i: int| (low + i) as u32),
        decreases high - next,
    {
        ids.push(next);
        next = next + 1;
    }
    ids.push(high);
    assert(ids@ =~= id_range(low, high));
    ids
}

impl Selection {
    /// Nothing selected, and no anchor.
    pub fn new() -> (selection: Selection)
        ensures
            selection.selected@ == Seq::<u32>::empty(),
            selection.anchor is None,
    {
        Selection { selected: Vec::new(), anchor: None }
    }

    fn bounds(&self, cpu_id: u32) -> (ends: (u32, u32))
        ensures
            ends.0 == least(self.selected@, cpu_id),
            ends.1 == greatest(self.selected@, cpu_id),
            ends.0 <= ends.1,
    {
        let mut low: u32 = cpu_id;
        let mut high: u32 = cpu_id;
        let mut i: usize = 0;
        assert(self.selected@.take(0) =~= Seq::<u32>::empty());
        while i < self.selected.len()
            invariant
                i <= self.selected@.len(),
                low == least(self.selected@.take(i as int), cpu_id),
                high == greatest(self.selected@.take(i as int), cpu_id),
                low <= high,
            decreases self.selected@.len() - i,
        {
            proof {
                let next = self.selected@.take(i + 1);
                assert(next.drop_last() =~= self.selected@.take(i as int));
                assert(next.last() == self.selected@[i as int]);
            }
            let id: u32 = self.selected[i];
            if id < low {
                low = id;
            }
            if id > high {
                high = id;
            }
            i = i + 1;
        }
        assert(self.selected@.take(i as int) =~= self.selected@);
        (low, high)
    }

    fn remove(&self, cpu_id: u32) -> (kept: Vec<u32>)
        ensures
            kept@ == without(self.selected@, cpu_id),
    {
        let mut kept: Vec<u32> = Vec::new();
        let mut i: usize = 0;
        assert(self.selected@.take(0) =~= Seq::<u32>::empty());
        while i < self.selected.len()
            invariant
                i <= self.selected@.len(),
                kept@ == without(self.selected@.take(i as int), cpu_id),
            decreases self.selected@.len() - i,
        {
            proof {
                let next = self.selected@.take(i + 1);
                assert(next.drop_last() =~= self.selected@.take(i as int));
                assert(next.last() == self.selected@[i as int]);
            }
            if self.selected[i] != cpu_id {
                kept.push(self.selected[i]);
            }
            i = i + 1;
        }
        assert(self.selected@.take(i as int) =~= self.selected@);
        kept
    }

    /// Takes a click on the core `cpu_id`, with the anchor modifier, the range
    /// modifier, both or none held.
    pub fn click(&mut self, cpu_id: u32, anchor_modifier: bool, range_modifier: bool)
        ensures
            (final(self).selected@, final(self).anchor) == clicked(
                old(self).selected@,
                old(self).anchor,
                cpu_id,
                anchor_modifier,
                range_modifier,
            ),
    {
        if !anchor_modifier && !range_modifier {
            self.selected = vec![cpu_id];
            self.anchor = Some(cpu_id);
        } else if anchor_modifier && !range_modifier {
            let mut kept = self.remove(cpu_id);
            if kept.len() == self.selected.len() {
                kept.push(cpu_id);
            }
            self.selected = kept;
            self.anchor = Some(cpu_id);
        } else if !anchor_modifier {
            match self.anchor {
                Some(from) => {
                    self.selected = if from <= cpu_id {
                        collect_range(from, cpu_id)
                    } else {
                        collect_range(cpu_id, from)
                    };
                },
                None => {
                    self.selected = vec![cpu_id];
                    self.anchor = Some(cpu_id);
                },
            }
        } else {
            if self.selected.len() == 0 {
                self.selected = vec![cpu_id];
            } else {
                let ends = self.bounds(cpu_id);
                self.selected = collect_range(ends.0, ends.1);
            }
        }
    }
}

} // verus!
