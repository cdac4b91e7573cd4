//! The bind group layouts that a device has created, found again by the
//! list of their entries: the same entries in the same order.

use crate::backend::BindGroupLayoutEntry;
use crate::resources::GPUBindGroupLayout;
use vstd::prelude::*;

verus! {

/// One created layout with the entries it was created for.
pub struct CachedLayout {
    pub entries: Vec<BindGroupLayoutEntry>,
    pub layout: GPUBindGroupLayout,
}

/// Where in `cached` the layout for `entries` stands.
pub open spec fn position_of(cached: Seq<CachedLayout>, entries: Seq<BindGroupLayoutEntry>, i: int)
    -> bool {
    0 <= i < cached.len() && cached[i].entries@ == entries
}

/// The layouts by their entries.
pub open spec fn layouts_of(cached: Seq<CachedLayout>) -> Map<
    Seq<BindGroupLayoutEntry>,
    GPUBindGroupLayout,
> {
    Map::new(
        |entries: Seq<BindGroupLayoutEntry>| exists|i: int| position_of(cached, entries, i),
        |entries: Seq<BindGroupLayoutEntry>|
            cached[choose|i: int| position_of(cached, entries, i)].layout,
    )
}

/// No list of entries stands in `cached` twice.
pub open spec fn distinct_entries(cached: Seq<CachedLayout>) -> bool {
    forall|i: int, j: int|
        0 <= i < j < cached.len() ==> (#[trigger] cached[i]).entries@ != (#[trigger] cached[j]).entries@
}

/// The created layouts of one device.
pub struct LayoutCache {
    cached: Vec<CachedLayout>,
}

impl View for LayoutCache {
    type V = Map<Seq<BindGroupLayoutEntry>, GPUBindGroupLayout>;

    closed spec fn view(&self) -> Map<Seq<BindGroupLayoutEntry>, GPUBindGroupLayout> {
        layouts_of(self.cached@)
    }
}

/// Whether two lists hold the same entries in the same order.
pub fn same_entries(a: &Vec<BindGroupLayoutEntry>, b: &Vec<BindGroupLayoutEntry>) -> (same: bool)
    ensures
        same == (a@ == b@),
{
    if a.len() != b.len() {
        return false;
    }
    let mut i: usize = 0;
    while i < a.len()
        invariant
            a.len() == b.len(),
            i <= a.len(),
            forall|j: int| 0 <= j < i ==> a@[j] == b@[j],
        decreases a.len() - i,
    {
        if a[i] != b[i] {
            return false;
        }
        i += 1;
    }
    assert(a@ =~= b@);
    true
}

/// A copy of the entries.
pub fn copy_entries(entries: &Vec<BindGroupLayoutEntry>) -> (copy: Vec<BindGroupLayoutEntry>)
    ensures
        copy@ == entries@,
{
    let mut copy: Vec<BindGroupLayoutEntry> = Vec::new();
    let mut i: usize = 0;
    while i < entries.len()
        invariant
            i <= entries.len(),
            copy@ == entries@.take(i as int),
        decreases entries.len() - i,
    {
        copy.push(entries[i]);
        assert(entries@.take(i + 1) =~= entries@.take(i as int).push(entries@[i as int]));
        i += 1;
    }
    assert(entries@.take(entries@.len() as int) =~= entries@);
    copy
}

impl LayoutCache {
    /// The invariant: every list of entries is cached at most once.
    pub closed spec fn wf(&self) -> bool {
        distinct_entries(self.cached@)
    }

    pub fn new() -> (cache: LayoutCache)
        ensures
            cache.wf(),
            cache@ == Map::<Seq<BindGroupLayoutEntry>, GPUBindGroupLayout>::empty(),
    {
        let cache = LayoutCache { cached: Vec::new() };
        assert(cache@ =~= Map::empty());
        cache
    }

    /// Where the layout for `entries` stands, if it is cached.
    fn find(&self, entries: &Vec<BindGroupLayoutEntry>) -> (found: Option<usize>)
        requires
            self.wf(),
        ensures
            match found {
                Some(i) => position_of(self.cached@, entries@, i as int),
                None => forall|i: int| !position_of(self.cached@, entries@, i),
            },
    {
        let mut i: usize = 0;
        while i < self.cached.len()
            invariant
                i <= self.cached.len(),
                forall|j: int| 0 <= j < i ==> !position_of(self.cached@, entries@, j),
            decreases self.cached.len() - i,
        {
            if same_entries(&self.cached[i].entries, entries) {
                return Some(i);
            }
            i += 1;
        }
        None
    }

    /// The layout that was created for exactly these entries, if there is
    /// one.
    pub fn get(&self, entries: &Vec<BindGroupLayoutEntry>) -> (layout: Option<GPUBindGroupLayout>)
        requires
            self.wf(),
        ensures
            layout == if self@.contains_key(entries@) {
                Some(self@[entries@])
            } else {
                None
            },
    {
        match self.find(entries) {
            Some(i) => {
                proof {
                    lemma_position_is_unique(self.cached@, entries@, i as int);
                }
                Some(self.cached[i].layout)
            },
            None => None,
        }
    }

    /// Remembers `layout` as the one created for `entries`, in place of any
    /// that was remembered for them before.
    pub fn insert(&mut self, entries: Vec<BindGroupLayoutEntry>, layout: GPUBindGroupLayout)
        requires
            old(self).wf(),
        ensures
            final(self).wf(),
            final(self)@ == old(self)@.insert(entries@, layout),
    {
        let ghost key = entries@;
        let ghost at: int;
        match self.find(&entries) {
            Some(i) => {
                proof {
                    at = i as int;
                }
                self.cached.set(i, CachedLayout { entries, layout });
            },
            None => {
                proof {
                    at = self.cached@.len() as int;
                }
                self.cached.push(CachedLayout { entries, layout });
            },
        }
        proof {
            lemma_layouts_after_insert(old(self).cached@, self.cached@, key, layout, at);
        }
    }

    /// How many layouts are remembered.
    pub fn len(&self) -> (n: usize)
        requires
            self.wf(),
        ensures
            n == self@.dom().len(),
            self@.dom().finite(),
    {
        proof {
            lemma_layouts_count(self.cached@);
        }
        self.cached.len()
    }
}

/// Where no list of entries stands twice, a list stands at one place only,
/// and the layout found for it is the one at that place.
pub proof fn lemma_position_is_unique(
    cached: Seq<CachedLayout>,
    entries: Seq<BindGroupLayoutEntry>,
    i: int,
)
    requires
        distinct_entries(cached),
        position_of(cached, entries, i),
    ensures
        forall|j: int| position_of(cached, entries, j) ==> j == i,
        layouts_of(cached).contains_key(entries),
        layouts_of(cached)[entries] == cached[i].layout,
{
    assert forall|j: int| position_of(cached, entries, j) implies j == i by {
        if j < i {
            assert(cached[j].entries@ != cached[i].entries@);
        } else if i < j {
            assert(cached[i].entries@ != cached[j].entries@);
        }
    }
}

/// Putting a layout at the place of its list of entries, or behind all
/// others where the list has no place yet, keeps every list single and gives
/// the old layouts with this one under its list.
pub proof fn lemma_layouts_after_insert(
    before: Seq<CachedLayout>,
    after: Seq<CachedLayout>,
    entries: Seq<BindGroupLayoutEntry>,
    layout: GPUBindGroupLayout,
    at: int,
)
    requires
        distinct_entries(before),
        0 <= at < after.len(),
        after[at].entries@ == entries,
        after[at].layout == layout,
        forall|i: int| 0 <= i < after.len() && i != at ==> i < before.len() && after[i] == before[i],
        if at < before.len() {
            after.len() == before.len() && before[at].entries@ == entries
        } else {
            after.len() == before.len() + 1 && forall|i: int| !position_of(before, entries, i)
        },
    ensures
        distinct_entries(after),
        layouts_of(after) == layouts_of(before).insert(entries, layout),
{
    assert forall|i: int| 0 <= i < after.len() && i != at implies (#[trigger] after[i]).entries@
        != entries by {
        if at < before.len() {
            if i < at {
                assert(before[i].entries@ != before[at].entries@);
            } else {
                assert(before[at].entries@ != before[i].entries@);
            }
        } else {
            assert(!position_of(before, entries, i));
        }
    }
    assert forall|a: int, b: int| 0 <= a < b < after.len() implies (#[trigger] after[a]).entries@ != (
    #[trigger] after[b]).entries@ by {
        if a != at && b != at {
            assert(before[a].entries@ != before[b].entries@);
        }
    }
    let updated = layouts_of(before).insert(entries, layout);
    assert forall|k: Seq<BindGroupLayoutEntry>| #[trigger]
        layouts_of(after).contains_key(k) <==> updated.contains_key(k) by {
        if layouts_of(after).contains_key(k) && k != entries {
            let p = choose|p: int| position_of(after, k, p);
            assert(position_of(before, k, p));
        }
        if layouts_of(before).contains_key(k) && k != entries {
            let p = choose|p: int| position_of(before, k, p);
            assert(position_of(after, k, p));
        }
        if k == entries {
            assert(position_of(after, k, at));
        }
    }
    assert forall|k: Seq<BindGroupLayoutEntry>| #[trigger]
        layouts_of(after).contains_key(k) implies layouts_of(after)[k] == updated[k] by {
        if k == entries {
            lemma_position_is_unique(after, k, at);
        } else {
            let p = choose|p: int| position_of(after, k, p);
            lemma_position_is_unique(after, k, p);
            assert(position_of(before, k, p));
            lemma_position_is_unique(before, k, p);
        }
    }
    assert(layouts_of(after) =~= updated);
}

/// Where no list of entries stands twice, there are as many lists as
/// layouts.
pub proof fn lemma_layouts_count(cached: Seq<CachedLayout>)
    requires
        distinct_entries(cached),
    ensures
        layouts_of(cached).dom().finite(),
        layouts_of(cached).dom().len() == cached.len(),
    decreases cached.len(),
{
    if cached.len() == 0 {
        assert(layouts_of(cached).dom() =~= Set::empty());
    } else {
        let shorter = cached.drop_last();
        let last = cached.last();
        assert forall|i: int, j: int| 0 <= i < j < shorter.len() implies (#[trigger] shorter[i]).entries@
            != (#[trigger] shorter[j]).entries@ by {
            assert(shorter[i] == cached[i]);
            assert(shorter[j] == cached[j]);
        }
        lemma_layouts_count(shorter);
        assert forall|k: Seq<BindGroupLayoutEntry>| #[trigger]
            layouts_of(cached).dom().contains(k) <==> layouts_of(shorter).dom().insert(
                last.entries@,
            ).contains(k) by {
            if layouts_of(cached).dom().contains(k) {
                let p = choose|p: int| position_of(cached, k, p);
                if p < shorter.len() {
                    assert(position_of(shorter, k, p));
                }
            }
            if layouts_of(shorter).dom().contains(k) {
                let p = choose|p: int| position_of(shorter, k, p);
                assert(position_of(cached, k, p));
            }
            if k == last.entries@ {
                assert(position_of(cached, k, cached.len() - 1));
            }
        }
        assert(layouts_of(cached).dom() =~= layouts_of(shorter).dom().insert(last.entries@));
        if layouts_of(shorter).dom().contains(last.entries@) {
            let p = choose|p: int| position_of(shorter, last.entries@, p);
            assert(cached[p].entries@ != cached[cached.len() - 1].entries@);
        }
    }
}

} // verus!
