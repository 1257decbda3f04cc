//! The window registry: the ordered collection of tracked client windows.
//!
//! Insertion order is arrival order; the element at index 0, when present,
//! is the master window. Removal keeps the survivors' relative order.

use vstd::prelude::*;
use crate::geometry::WindowData;

verus! {

/// A freshly tracked window as the registry records it on insertion.
pub open spec fn new_window(id: u32) -> WindowData {
    WindowData { window: id, x: 0, y: 0, w: 0, h: 0 }
}

/// `s` with every window whose id is `id` removed, the others kept in order.
pub open spec fn retained(s: Seq<WindowData>, id: u32) -> Seq<WindowData>
    decreases s.len(),
{
    if s.len() == 0 {
        Seq::empty()
    } else {
        let rest = retained(s.drop_last(), id);
        if s.last().window == id {
            rest
        } else {
            rest.push(s.last())
        }
    }
}

/// Removal is the identity on a sequence that holds no window with id `id`.
pub proof fn lemma_retained_no_match(s: Seq<WindowData>, id: u32)
    requires
        forall|i: int| 0 <= i < s.len() ==> s[i].window != id,
    ensures
        retained(s, id) == s,
    decreases s.len(),
{
    if s.len() > 0 {
        lemma_retained_no_match(s.drop_last(), id);
        assert(retained(s.drop_last(), id).push(s.last()) =~= s);
    }
}

/// When only the last element of `s` carries id `id`, removal drops exactly
/// that element.
pub proof fn lemma_retained_drops_only_last(s: Seq<WindowData>, id: u32)
    requires
        s.len() > 0,
        s.last().window == id,
        forall|i: int| 0 <= i < s.len() - 1 ==> s[i].window != id,
    ensures
        retained(s, id) == s.drop_last(),
{
    lemma_retained_no_match(s.drop_last(), id);
}

/// The ordered collection of tracked windows: the single source of truth for
/// tiling order.
pub struct Registry {
    windows: Vec<WindowData>,
}

impl View for Registry {
    type V = Seq<WindowData>;

    closed spec fn view(&self) -> Seq<WindowData> {
        self.windows@
    }
}

impl Registry {
    /// An empty registry: no window is tracked yet.
    pub fn new() -> (r: Registry)
        ensures
            r@ == Seq::<WindowData>::empty(),
    {
        let r = Registry { windows: Vec::new() };
        proof {
            assert(r@ =~= Seq::<WindowData>::empty());
        }
        r
    }

    /// Appends a newly created window with zeroed geometry at the end of the
    /// order. A duplicate id produces a duplicate entry; the registry does
    /// not deduplicate.
    pub fn insert(&mut self, id: u32)
        ensures
            final(self)@ == old(self)@.push(new_window(id)),
    {
        self.windows.push(WindowData::new(id));
    }

    /// Removes every entry whose id is `id`, keeping the survivors' relative
    /// order. Removing an untracked id leaves the registry unchanged.
    pub fn remove(&mut self, id: u32)
        ensures
            final(self)@ == retained(old(self)@, id),
    {
        let ghost s = self.windows@;
        let n = self.windows.len();
        let mut out: Vec<WindowData> = Vec::new();
        let mut i: usize = 0;
        while i < n
            invariant
                n == s.len(),
                i <= n,
                self.windows@ == s,
                out@ == retained(s.take(i as int), id),
            decreases n - i,
        {
            proof {
                assert(s.take(i + 1).drop_last() =~= s.take(i as int));
            }
            let w = self.windows[i];
            if w.window != id {
                out.push(w);
            }
            i += 1;
        }
        proof {
            assert(s.take(n as int) =~= s);
        }
        self.windows = out;
    }

    /// The tracked windows in tiling order; index 0, when present, is the
    /// master.
    pub fn as_ordered_list(&self) -> (r: &Vec<WindowData>)
        ensures
            r@ == self@,
    {
        &self.windows
    }

    /// Replaces the recorded geometries with the outcome of a tile pass (or
    /// any other full update handed back by the tiling engine).
    pub fn set_all(&mut self, windows: Vec<WindowData>)
        ensures
            final(self)@ == windows@,
    {
        self.windows = windows;
    }
}

} // verus!
