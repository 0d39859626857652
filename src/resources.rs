//! Bookkeeping of the model and memory handles a device has issued.
//! A handle is valid only until it is unloaded or freed, or the table is cleared.
use vstd::prelude::*;

verus! {

pub open spec fn holds_handle<V>(s: Seq<(u64, V)>, h: u64) -> bool {
    exists|i: int| 0 <= i < s.len() && s[i].0 == h
}

pub open spec fn unique_handles<V>(s: Seq<(u64, V)>) -> bool {
    forall|i: int, j: int| 0 <= i < s.len() && 0 <= j < s.len() && i != j ==> s[i].0 != s[j].0
}

pub open spec fn handles_below<V>(s: Seq<(u64, V)>, bound: u64) -> bool {
    forall|i: int| 0 <= i < s.len() ==> s[i].0 < bound
}

/// Total bytes of a list of (handle, size) allocations.
pub open spec fn sum_sizes(s: Seq<(u64, u64)>) -> int
    decreases s.len(),
{
    if s.len() == 0 {
        0
    } else {
        sum_sizes(s.drop_last()) + s.last().1
    }
}

/// Whether a request of `size` bytes fits: within the per-allocation limit and within
/// what is left of the total.
pub open spec fn can_allocate(reserved: int, total: u64, max_allocation: u64, size: u64) -> bool {
    size <= max_allocation && reserved + size <= total
}

pub proof fn lemma_sum_nonneg(s: Seq<(u64, u64)>)
    ensures
        sum_sizes(s) >= 0,
    decreases s.len(),
{
    if s.len() > 0 {
        lemma_sum_nonneg(s.drop_last());
    }
}

pub proof fn lemma_sum_remove(s: Seq<(u64, u64)>, i: int)
    requires
        0 <= i < s.len(),
    ensures
        sum_sizes(s.remove(i)) == sum_sizes(s) - s[i].1,
    decreases s.len(),
{
    if i == s.len() - 1 {
        assert(s.remove(i) =~= s.drop_last());
    } else {
        lemma_sum_remove(s.drop_last(), i);
        assert(s.remove(i).drop_last() =~= s.drop_last().remove(i));
        assert(s.remove(i).last() == s.last());
    }
}

pub proof fn lemma_sum_push(s: Seq<(u64, u64)>, x: (u64, u64))
    ensures
        sum_sizes(s.push(x)) == sum_sizes(s) + x.1,
{
    assert(s.push(x).drop_last() =~= s);
}

/// Allocating `size` bytes gives a handle that can be freed, and freeing it gives back
/// the allocation list as it was, so the same request fits again: no memory leaks
/// across a cycle.
pub proof fn lemma_allocation_round_trip(
    allocations: Seq<(u64, u64)>,
    handle: u64,
    size: u64,
    total: u64,
    max_allocation: u64,
)
    requires
        unique_handles(allocations),
        !holds_handle(allocations, handle),
        can_allocate(sum_sizes(allocations), total, max_allocation, size),
    ensures
        holds_handle(allocations.push((handle, size)), handle),
        forall|i: int|
            0 <= i < allocations.len() + 1 && #[trigger] allocations.push((handle, size))[i].0 == handle
                ==> allocations.push((handle, size)).remove(i) == allocations,
        can_allocate(sum_sizes(allocations), total, max_allocation, size),
{
    let s2 = allocations.push((handle, size));
    assert(s2[allocations.len() as int].0 == handle);
    assert forall|i: int|
        0 <= i < allocations.len() + 1 && #[trigger] s2[i].0 == handle implies s2.remove(i) == allocations by {
        if i < allocations.len() {
            assert(allocations[i].0 == handle);
        }
        assert(s2.remove(i) =~= allocations);
    }
}

/// Position of `h` in a list of handle entries, if present.
pub fn find_handle<V>(entries: &Vec<(u64, V)>, h: u64) -> (r: Option<usize>)
    ensures
        r matches Some(i) ==> i < entries@.len() && entries@[i as int].0 == h,
        r is None <==> !holds_handle(entries@, h),
{
    let mut i: usize = 0;
    while i < entries.len()
        invariant
            0 <= i <= entries@.len(),
            forall|j: int| 0 <= j < i ==> entries@[j].0 != h,
        decreases entries@.len() - i,
    {
        if entries[i].0 == h {
            return Some(i);
        }
        i = i + 1;
    }
    None
}

/// Live model and memory handles of one device, and the bytes they reserve.
#[derive(Debug)]
pub struct ResourceTable {
    /// Loaded models: handle and model path.
    pub models: Vec<(u64, String)>,
    /// Memory allocations: handle and size in bytes.
    pub allocations: Vec<(u64, u64)>,
    pub reserved_bytes: u64,
    /// The handle the next load or allocation tries first.
    pub next_handle: u64,
}

impl ResourceTable {
    pub open spec fn wf(&self) -> bool {
        &&& unique_handles(self.models@)
        &&& unique_handles(self.allocations@)
        &&& self.reserved_bytes == sum_sizes(self.allocations@)
    }

    pub open spec fn is_live(&self, h: u64) -> bool {
        holds_handle(self.models@, h) || holds_handle(self.allocations@, h)
    }

    pub fn new() -> (r: Self)
        ensures
            r.wf(),
            r.models@.len() == 0,
            r.allocations@.len() == 0,
            r.reserved_bytes == 0,
            r.next_handle == 1,
    {
        ResourceTable { models: Vec::new(), allocations: Vec::new(), reserved_bytes: 0, next_handle: 1 }
    }

    /// Records a loaded model under the next handle; `None` when that handle is the
    /// last one or already taken.
    pub fn add_model(&mut self, path: String) -> (r: Option<u64>)
        requires
            old(self).wf(),
        ensures
            final(self).wf(),
            final(self).allocations == old(self).allocations,
            final(self).reserved_bytes == old(self).reserved_bytes,
            r is None <==> old(self).next_handle == u64::MAX || holds_handle(old(self).models@, old(self).next_handle),
            r is None ==> *final(self) == *old(self),
            r matches Some(h) ==> {
                &&& h == old(self).next_handle
                &&& final(self).next_handle == h + 1
                &&& final(self).models@ == old(self).models@.push((h, path))
            },
    {
        if self.next_handle == u64::MAX {
            return None;
        }
        if find_handle(&self.models, self.next_handle).is_some() {
            return None;
        }
        let h = self.next_handle;
        self.models.push((h, path));
        self.next_handle = h + 1;
        Some(h)
    }

    /// Records a model under a handle chosen by the caller, which no live model holds.
    pub fn insert_model(&mut self, h: u64, path: String)
        requires
            old(self).wf(),
            !holds_handle(old(self).models@, h),
        ensures
            final(self).wf(),
            final(self).allocations == old(self).allocations,
            final(self).reserved_bytes == old(self).reserved_bytes,
            final(self).next_handle == old(self).next_handle,
            final(self).models@ == old(self).models@.push((h, path)),
    {
        self.models.push((h, path));
    }

    /// Forgets a model handle; `false` if it is not live.
    pub fn remove_model(&mut self, h: u64) -> (r: bool)
        requires
            old(self).wf(),
        ensures
            final(self).wf(),
            final(self).allocations == old(self).allocations,
            final(self).reserved_bytes == old(self).reserved_bytes,
            final(self).next_handle == old(self).next_handle,
            r == holds_handle(old(self).models@, h),
            !r ==> *final(self) == *old(self),
            r ==> exists|i: int|
                0 <= i < old(self).models@.len() && old(self).models@[i].0 == h
                    && final(self).models@ == old(self).models@.remove(i),
            !holds_handle(final(self).models@, h),
    {
        match find_handle(&self.models, h) {
            None => false,
            Some(i) => {
                self.models.remove(i);
                proof {
                    let s = old(self).models@;
                    assert forall|a: int| 0 <= a < self.models@.len() implies self.models@[a].0 != h by {
                        if a < i {
                            assert(s[a].0 != s[i as int].0);
                        } else {
                            assert(s[a + 1].0 != s[i as int].0);
                        }
                    }
                }
                true
            },
        }
    }

    /// Reserves `size` bytes under the next handle; `None` when that handle is the last
    /// one or already taken.
    pub fn reserve(&mut self, size: u64) -> (r: Option<u64>)
        requires
            old(self).wf(),
            old(self).reserved_bytes + size <= u64::MAX,
        ensures
            final(self).wf(),
            final(self).models == old(self).models,
            r is None <==> old(self).next_handle == u64::MAX || holds_handle(old(self).allocations@, old(self).next_handle),
            r is None ==> *final(self) == *old(self),
            r matches Some(h) ==> {
                &&& h == old(self).next_handle
                &&& final(self).next_handle == h + 1
                &&& final(self).allocations@ == old(self).allocations@.push((h, size))
                &&& final(self).reserved_bytes == old(self).reserved_bytes + size
            },
    {
        if self.next_handle == u64::MAX {
            return None;
        }
        if find_handle(&self.allocations, self.next_handle).is_some() {
            return None;
        }
        let h = self.next_handle;
        proof {
            lemma_sum_push(self.allocations@, (h, size));
        }
        self.allocations.push((h, size));
        self.reserved_bytes = self.reserved_bytes + size;
        self.next_handle = h + 1;
        Some(h)
    }

    /// Frees an allocation, returning its size; `None` if the handle is not live.
    pub fn release(&mut self, h: u64) -> (r: Option<u64>)
        requires
            old(self).wf(),
        ensures
            final(self).wf(),
            final(self).models == old(self).models,
            final(self).next_handle == old(self).next_handle,
            r is None <==> !holds_handle(old(self).allocations@, h),
            r is None ==> *final(self) == *old(self),
            r matches Some(size) ==> exists|i: int|
                0 <= i < old(self).allocations@.len() && old(self).allocations@[i] == (h, size)
                    && final(self).allocations@ == old(self).allocations@.remove(i)
                    && final(self).reserved_bytes == old(self).reserved_bytes - size,
            !holds_handle(final(self).allocations@, h),
    {
        match find_handle(&self.allocations, h) {
            None => None,
            Some(i) => {
                let size = self.allocations[i].1;
                proof {
                    lemma_sum_remove(self.allocations@, i as int);
                    lemma_sum_nonneg(self.allocations@.remove(i as int));
                }
                self.allocations.remove(i);
                self.reserved_bytes = self.reserved_bytes - size;
                proof {
                    let s = old(self).allocations@;
                    assert forall|a: int| 0 <= a < self.allocations@.len() implies self.allocations@[a].0 != h by {
                        if a < i {
                            assert(s[a].0 != s[i as int].0);
                        } else {
                            assert(s[a + 1].0 != s[i as int].0);
                        }
                    }
                }
                Some(size)
            },
        }
    }

    /// Invalidates every handle.
    pub fn clear(&mut self)
        requires
            old(self).wf(),
        ensures
            final(self).wf(),
            final(self).models@.len() == 0,
            final(self).allocations@.len() == 0,
            final(self).reserved_bytes == 0,
            final(self).next_handle == old(self).next_handle,
    {
        self.models = Vec::new();
        self.allocations = Vec::new();
        self.reserved_bytes = 0;
    }
}

} // verus!
