use vstd::prelude::*;

verus! {

/// The backing storage that a fresh graph reserves.
pub const INITIAL_CAPACITY: usize = 1_000_000;

/// A graph that ever held more slots than this gives its storage back on reset.
pub const RELEASE_THRESHOLD: usize = 10_000_000;

/// Append-only node storage that survives resets.
///
/// A reset rewinds the cursor and keeps the slots, which later pushes
/// overwrite; only the items before the cursor are visible.
pub struct GenericComputationGraph<T> {
    nodes: Vec<T>,
    curr_idx: usize,
    curr_len: usize,
}

impl<T> GenericComputationGraph<T> {
    /// The cursor lies within the slots. Every constructor and method keeps this.
    pub closed spec fn wf(&self) -> bool {
        &&& self.curr_idx <= self.curr_len
        &&& self.curr_len == self.nodes@.len()
    }

    /// The items pushed since the last reset, oldest first.
    pub closed spec fn view(&self) -> Seq<T> {
        self.nodes@.take(self.curr_idx as int)
    }

    /// The number of slots that a reset would keep.
    pub closed spec fn retained(&self) -> nat {
        self.curr_len as nat
    }

    /// The visible items can be counted in a machine word.
    pub proof fn lemma_len_bound(&self)
        requires
            self.wf(),
        ensures
            self@.len() <= usize::MAX,
    {
    }

    pub fn new() -> (r: Self)
        ensures
            r.wf(),
            r@ == Seq::<T>::empty(),
            r.retained() == 0,
    {
        let r = Self { nodes: Vec::with_capacity(INITIAL_CAPACITY), curr_idx: 0, curr_len: 0 };
        assert(r.nodes@.take(0) =~= Seq::<T>::empty());
        r
    }

    /// Appends `item`; its index is the former `curr_idx`.
    pub fn push(&mut self, item: T)
        requires
            old(self).wf(),
        ensures
            final(self).wf(),
            final(self)@ == old(self)@.push(item),
            final(self).retained() == if old(self)@.len() == old(self).retained() {
                old(self).retained() + 1
            } else {
                old(self).retained()
            },
    {
        let ghost before = self.nodes@;
        if self.curr_idx == self.curr_len {
            self.nodes.push(item);
            let grown = self.nodes.len();
            self.curr_len = grown;
        } else {
            self.nodes.set(self.curr_idx, item);
        }
        self.curr_idx += 1;
        assert(self.nodes@.take(self.curr_idx as int) =~= before.take(self.curr_idx - 1).push(
            item,
        ));
    }

    /// Hides every item. Storage of more than `RELEASE_THRESHOLD` slots is given
    /// back; smaller storage is kept for the pushes to come.
    pub fn reset(&mut self)
        requires
            old(self).wf(),
        ensures
            final(self).wf(),
            final(self)@ == Seq::<T>::empty(),
            final(self).retained() == if old(self).retained() > RELEASE_THRESHOLD {
                0
            } else {
                old(self).retained()
            },
    {
        if self.curr_len > RELEASE_THRESHOLD {
            self.nodes = Vec::with_capacity(INITIAL_CAPACITY);
            self.curr_idx = 0;
            self.curr_len = 0;
        } else {
            self.curr_idx = 0;
        }
        assert(self.nodes@.take(0) =~= Seq::<T>::empty());
    }

    /// The number of visible items, which is the index of the next push.
    pub fn curr_idx(&self) -> (r: usize)
        requires
            self.wf(),
        ensures
            r == self@.len(),
    {
        self.curr_idx
    }

    /// The item at `idx`.
    pub fn item(&self, idx: usize) -> (r: &T)
        requires
            self.wf(),
            idx < self@.len(),
        ensures
            *r == self@[idx as int],
    {
        &self.nodes[idx]
    }
}

impl<T> GenericComputationGraph<T> {
    /// Puts `item` in the place of the item at `idx`.
    pub fn replace(&mut self, idx: usize, item: T)
        requires
            old(self).wf(),
            idx < old(self)@.len(),
        ensures
            final(self).wf(),
            final(self)@ == old(self)@.update(idx as int, item),
            final(self).retained() == old(self).retained(),
    {
        self.nodes.set(idx, item);
        assert(self.nodes@.take(self.curr_idx as int) =~= old(self)@.update(idx as int, item));
    }
}

} // verus!
