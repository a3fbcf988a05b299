use vstd::prelude::*;

verus! {

/// Supplies the filler value that preallocated slots hold before they are written.
pub trait PreallocatedVecItemDefault: Sized {
    fn preallocated_vec_item_default() -> Self;
}

/// A type with a default value has that value for its filler.
impl<T: Default> PreallocatedVecItemDefault for T {
    fn preallocated_vec_item_default() -> (r: Self)
        ensures
            call_ensures(T::default, (), r),
    {
        T::default()
    }
}

/// A growable sequence with three storage strategies.
///
/// `StandardVec` grows one push at a time. The two preallocating strategies
/// start with `n` filler slots and a cursor `curr_idx`; only the slots before
/// the cursor count as elements.
#[derive(Clone, Debug)]
pub enum PreallocatedVec<T: PreallocatedVecItemDefault + Clone> {
    StandardVec { v: Vec<T> },
    PreallocateThenSinglePushes { v: Vec<T>, curr_idx: usize },
    PreallocateThenReallocateDouble { v: Vec<T>, curr_idx: usize },
}

impl<T: PreallocatedVecItemDefault + Clone> PreallocatedVec<T> {
    /// The backing storage, filler slots included.
    pub open spec fn storage(&self) -> Seq<T> {
        match self {
            PreallocatedVec::StandardVec { v } => v@,
            PreallocatedVec::PreallocateThenSinglePushes { v, .. } => v@,
            PreallocatedVec::PreallocateThenReallocateDouble { v, .. } => v@,
        }
    }

    /// The number of elements.
    pub open spec fn spec_len(&self) -> nat {
        match self {
            PreallocatedVec::StandardVec { v } => v@.len(),
            PreallocatedVec::PreallocateThenSinglePushes { curr_idx, .. } => *curr_idx as nat,
            PreallocatedVec::PreallocateThenReallocateDouble { curr_idx, .. } => *curr_idx as nat,
        }
    }

    /// The elements: the storage up to the cursor.
    pub open spec fn view(&self) -> Seq<T> {
        self.storage().take(self.spec_len() as int)
    }

    /// The cursor never runs past the storage.
    pub open spec fn wf(&self) -> bool {
        self.spec_len() <= self.storage().len()
    }

    pub fn new_standard_vec() -> (r: Self)
        ensures
            r is StandardVec,
            r.storage() == Seq::<T>::empty(),
            r.wf(),
    {
        PreallocatedVec::StandardVec { v: Vec::new() }
    }

    pub fn len(&self) -> (r: usize)
        ensures
            r == self.spec_len(),
    {
        match self {
            PreallocatedVec::StandardVec { v } => v.len(),
            PreallocatedVec::PreallocateThenSinglePushes { curr_idx, .. } => *curr_idx,
            PreallocatedVec::PreallocateThenReallocateDouble { curr_idx, .. } => *curr_idx,
        }
    }
}

impl<T: PreallocatedVecItemDefault + Clone> PreallocatedVec<T> {
    /// Whether `value` is a filler: a value that the filler function returns.
    pub open spec fn is_filler(value: T) -> bool {
        call_ensures(T::preallocated_vec_item_default, (), value)
    }

    /// The slots of `storage` from `from` on are fillers.
    pub open spec fn fillers_from(storage: Seq<T>, from: int) -> bool {
        forall|i: int| from <= i < storage.len() ==> Self::is_filler(#[trigger] storage[i])
    }

    /// Every slot is a clone of `filler`.
    pub open spec fn filled_with(storage: Seq<T>, filler: T) -> bool {
        forall|i: int| 0 <= i < storage.len() ==> cloned(filler, #[trigger] storage[i])
    }

    /// Every slot is a clone of one filler.
    pub open spec fn filled_with_one_value(storage: Seq<T>) -> bool {
        exists|filler: T| Self::is_filler(filler) && #[trigger] Self::filled_with(storage, filler)
    }

    pub fn new_preallocate_then_single_pushes(n: usize) -> (r: Self)
        ensures
            r is PreallocateThenSinglePushes,
            r.storage().len() == n,
            r.spec_len() == 0,
            r.wf(),
            Self::filled_with_one_value(r.storage()),
    {
        let filler = T::preallocated_vec_item_default();
        let r = PreallocatedVec::PreallocateThenSinglePushes { v: vec![filler; n], curr_idx: 0 };
        assert(Self::filled_with(r.storage(), filler));
        r
    }

    pub fn new_preallocate_then_reallocate_double(n: usize) -> (r: Self)
        ensures
            r is PreallocateThenReallocateDouble,
            r.storage().len() == n,
            r.spec_len() == 0,
            r.wf(),
            Self::filled_with_one_value(r.storage()),
    {
        let filler = T::preallocated_vec_item_default();
        let r = PreallocatedVec::PreallocateThenReallocateDouble { v: vec![filler; n], curr_idx: 0 };
        assert(Self::filled_with(r.storage(), filler));
        r
    }

    /// Appends `l` filler slots to `v`.
    fn extend_with_fillers(v: &mut Vec<T>, l: usize)
        ensures
            final(v)@.len() == old(v)@.len() + l,
            final(v)@.take(old(v)@.len() as int) == old(v)@,
            Self::fillers_from(final(v)@, old(v)@.len() as int),
    {
        let ghost before = v@;
        let mut i: usize = 0;
        while i < l
            invariant
                i <= l,
                v@.len() == before.len() + i,
                v@.take(before.len() as int) == before,
                Self::fillers_from(v@, before.len() as int),
            decreases l - i,
        {
            v.push(T::preallocated_vec_item_default());
            i += 1;
            assert(v@.take(before.len() as int) =~= before);
        }
        assert(v@.take(before.len() as int) =~= before);
    }

    /// What one push does to a `PreallocateThenSinglePushes`: it fills the slot
    /// under the cursor, or, when none is left, moves clones of all slots into a
    /// `StandardVec` and appends there.
    pub open spec fn single_push(before: Self, element: T, after: Self) -> bool {
        if before.spec_len() < before.storage().len() {
            &&& after is PreallocateThenSinglePushes
            &&& after.storage() == before.storage().update(before.spec_len() as int, element)
        } else {
            &&& after is StandardVec
            &&& after.storage().len() == before.storage().len() + 1
            &&& forall|i: int|
                0 <= i < before.storage().len() ==> cloned(
                    before.storage()[i],
                    #[trigger] after.storage()[i],
                )
        }
    }

    /// The storage length of a `PreallocateThenReallocateDouble` after one push.
    pub open spec fn doubled_len(before: Self) -> nat {
        if before.spec_len() < before.storage().len() {
            before.storage().len()
        } else {
            2 * before.storage().len()
        }
    }

    /// Appends `element`.
    ///
    /// A full `PreallocateThenSinglePushes` turns into a `StandardVec` holding
    /// clones of its slots; a full `PreallocateThenReallocateDouble` doubles its
    /// storage first, which needs at least one slot to double.
    pub fn push(&mut self, element: T)
        requires
            old(self).wf(),
            *old(self) is PreallocateThenReallocateDouble ==> old(self).storage().len() > 0,
        ensures
            final(self).wf(),
            final(self).spec_len() == old(self).spec_len() + 1,
            final(self).view().last() == element,
            *old(self) is StandardVec ==> *final(self) is StandardVec,
            *old(self) is StandardVec ==> final(self).storage() == old(self).storage().push(element),
            *old(self) is PreallocateThenReallocateDouble ==> *final(self)
                is PreallocateThenReallocateDouble,
            !(*old(self) is PreallocateThenSinglePushes) ==> final(self).view() == old(
                self).view().push(element),
            *old(self) is PreallocateThenSinglePushes ==> Self::single_push(
                *old(self),
                element,
                *final(self),
            ),
            *old(self) is PreallocateThenReallocateDouble ==> final(self).storage().len()
                == Self::doubled_len(*old(self)),
            *old(self) is PreallocateThenReallocateDouble ==> Self::fillers_from(
                final(self).storage(),
                old(self).storage().len() as int + 1,
            ),
    {
        match self {
            PreallocatedVec::StandardVec { v } => {
                v.push(element);
            },
            PreallocatedVec::PreallocateThenSinglePushes { v, curr_idx } => {
                if *curr_idx < v.len() {
                    v.set(*curr_idx, element);
                    *curr_idx += 1;
                } else {
                    let mut w = v.clone();
                    w.push(element);
                    *self = PreallocatedVec::StandardVec { v: w };
                }
            },
            PreallocatedVec::PreallocateThenReallocateDouble { v, curr_idx } => {
                let ghost before = v@;
                if *curr_idx >= v.len() {
                    let l = v.len();
                    Self::extend_with_fillers(v, l);
                }
                let capacity = v.len();
                assert(*curr_idx < capacity);
                v.set(*curr_idx, element);
                *curr_idx += 1;
                assert(v@.take(*curr_idx as int) =~= before.take(*curr_idx - 1).push(element));
            },
        }
    }
}

impl<T: PreallocatedVecItemDefault + Clone> PreallocatedVec<T> {
    /// What `softpush` does to a `PreallocateThenSinglePushes`: while a slot lies
    /// beyond the one under the cursor it only advances the cursor; otherwise it
    /// moves clones of all slots into a `StandardVec` and appends one filler.
    pub open spec fn single_softpush(before: Self, after: Self) -> bool {
        if before.spec_len() + 1 < before.storage().len() {
            &&& after is PreallocateThenSinglePushes
            &&& after.storage() == before.storage()
            &&& after.spec_len() == before.spec_len() + 1
        } else {
            &&& after is StandardVec
            &&& after.storage().len() == before.storage().len() + 1
            &&& forall|i: int|
                0 <= i < before.storage().len() ==> cloned(
                    before.storage()[i],
                    #[trigger] after.storage()[i],
                )
            &&& Self::is_filler(after.storage().last())
        }
    }

    /// What `softpush` does to a `PreallocateThenReallocateDouble`: it advances
    /// the cursor, and doubles the storage with fillers first unless a slot
    /// lies beyond the one under the cursor. Empty storage stays empty when
    /// doubled, and the cursor then runs past it.
    pub open spec fn double_softpush(before: Self, after: Self) -> bool {
        &&& after is PreallocateThenReallocateDouble
        &&& after.spec_len() == before.spec_len() + 1
        &&& after.storage().take(before.storage().len() as int) == before.storage()
        &&& after.storage().len() == if before.spec_len() + 1 < before.storage().len() {
            before.storage().len()
        } else {
            2 * before.storage().len()
        }
        &&& Self::fillers_from(after.storage(), before.storage().len() as int)
        &&& after.wf() <==> before.storage().len() > 0
    }

    /// Makes room for one more element without writing it: the new last element
    /// is whatever the storage held there, or a filler.
    pub fn softpush(&mut self)
        requires
            old(self).wf(),
        ensures
            !(*old(self) is PreallocateThenReallocateDouble) ==> final(self).wf(),
            *old(self) is StandardVec ==> *final(self) is StandardVec,
            *old(self) is StandardVec ==> Self::is_filler(final(self).storage().last()),
            *old(self) is StandardVec ==> final(self).storage().len() == old(self).storage().len()
                + 1,
            *old(self) is StandardVec ==> final(self).storage().take(
                old(self).storage().len() as int,
            ) == old(self).storage(),
            *old(self) is PreallocateThenSinglePushes ==> Self::single_softpush(
                *old(self),
                *final(self),
            ),
            *old(self) is PreallocateThenReallocateDouble ==> Self::double_softpush(
                *old(self),
                *final(self),
            ),
    {
        match self {
            PreallocatedVec::StandardVec { v } => {
                let ghost before = v@;
                v.push(T::preallocated_vec_item_default());
                assert(v@.take(before.len() as int) =~= before);
            },
            PreallocatedVec::PreallocateThenSinglePushes { v, curr_idx } => {
                if *curr_idx < v.len() && *curr_idx + 1 < v.len() {
                    *curr_idx += 1;
                } else {
                    let mut w = v.clone();
                    w.push(T::preallocated_vec_item_default());
                    *self = PreallocatedVec::StandardVec { v: w };
                }
            },
            PreallocatedVec::PreallocateThenReallocateDouble { v, curr_idx } => {
                let ghost before = v@;
                if !(*curr_idx < v.len() && *curr_idx + 1 < v.len()) {
                    let l = v.len();
                    Self::extend_with_fillers(v, l);
                }
                let capacity = v.len();
                assert(*curr_idx < capacity || *curr_idx == 0);
                *curr_idx += 1;
                assert(v@.take(before.len() as int) =~= before);
            },
        }
    }

    /// Forgets the elements; the preallocating strategies keep their storage.
    pub fn softclear(&mut self)
        ensures
            final(self).spec_len() == 0,
            final(self).wf(),
            *old(self) is StandardVec ==> *final(self) is StandardVec,
            *old(self) is PreallocateThenSinglePushes ==> *final(self)
                is PreallocateThenSinglePushes,
            *old(self) is PreallocateThenReallocateDouble ==> *final(self)
                is PreallocateThenReallocateDouble,
            !(*old(self) is StandardVec) ==> final(self).storage() == old(self).storage(),
    {
        match self {
            PreallocatedVec::StandardVec { v } => {
                v.clear();
            },
            PreallocatedVec::PreallocateThenSinglePushes { v, curr_idx } => {
                *curr_idx = 0;
            },
            PreallocatedVec::PreallocateThenReallocateDouble { v, curr_idx } => {
                *curr_idx = 0;
            },
        }
    }

    /// Forgets the elements and empties the storage.
    pub fn hardclear(&mut self)
        ensures
            final(self).spec_len() == 0,
            final(self).storage() == Seq::<T>::empty(),
            final(self).wf(),
            *old(self) is StandardVec ==> *final(self) is StandardVec,
            *old(self) is PreallocateThenSinglePushes ==> *final(self)
                is PreallocateThenSinglePushes,
            *old(self) is PreallocateThenReallocateDouble ==> *final(self)
                is PreallocateThenReallocateDouble,
    {
        match self {
            PreallocatedVec::StandardVec { v } => {
                v.clear();
            },
            PreallocatedVec::PreallocateThenSinglePushes { v, curr_idx } => {
                v.clear();
                *curr_idx = 0;
            },
            PreallocatedVec::PreallocateThenReallocateDouble { v, curr_idx } => {
                v.clear();
                *curr_idx = 0;
            },
        }
    }
}

impl<T: PreallocatedVecItemDefault + Clone> PreallocatedVec<T> {
    /// Whether the two use one storage strategy.
    pub open spec fn same_strategy(&self, other: Self) -> bool {
        &&& *self is StandardVec <==> other is StandardVec
        &&& *self is PreallocateThenSinglePushes <==> other is PreallocateThenSinglePushes
        &&& *self is PreallocateThenReallocateDouble <==> other is PreallocateThenReallocateDouble
    }

    /// The storage slot that `curr_item_mut_ref` hands out: the last element of a
    /// `StandardVec`, the slot under the cursor otherwise.
    pub open spec fn curr_slot(&self) -> int {
        if *self is StandardVec {
            self.storage().len() - 1
        } else {
            self.spec_len() as int
        }
    }

    /// The slot under the cursor of a preallocating strategy: the one that the
    /// next push writes. A `StandardVec` has no such slot.
    pub fn curr_item_ref(&self) -> (r: &T)
        requires
            !(*self is StandardVec),
            self.spec_len() < self.storage().len(),
        ensures
            *r == self.storage()[self.spec_len() as int],
    {
        match self {
            PreallocatedVec::StandardVec { v } => &v[0],
            PreallocatedVec::PreallocateThenSinglePushes { v, curr_idx } => &v[*curr_idx],
            PreallocatedVec::PreallocateThenReallocateDouble { v, curr_idx } => &v[*curr_idx],
        }
    }

    /// The element at `index`.
    pub fn index(&self, index: usize) -> (r: &T)
        requires
            index < self.spec_len(),
            self.wf(),
        ensures
            *r == self.view()[index as int],
    {
        match self {
            PreallocatedVec::StandardVec { v } => &v[index],
            PreallocatedVec::PreallocateThenSinglePushes { v, curr_idx } => &v[index],
            PreallocatedVec::PreallocateThenReallocateDouble { v, curr_idx } => &v[index],
        }
    }

    /// Write access to the slot `curr_slot`.
    pub fn curr_item_mut_ref(&mut self) -> (r: &mut T)
        requires
            0 <= old(self).curr_slot() < old(self).storage().len(),
        ensures
            *r == old(self).storage()[old(self).curr_slot()],
            final(self).storage() == old(self).storage().update(old(self).curr_slot(), *final(r)),
            final(self).spec_len() == old(self).spec_len(),
            final(self).same_strategy(*old(self)),
    {
        match self {
            PreallocatedVec::StandardVec { v } => {
                let l = v.len();
                &mut v[l - 1]
            },
            PreallocatedVec::PreallocateThenSinglePushes { v, curr_idx } => &mut v[*curr_idx],
            PreallocatedVec::PreallocateThenReallocateDouble { v, curr_idx } => &mut v[*curr_idx],
        }
    }

    /// Write access to the element at `index`.
    pub fn index_mut(&mut self, index: usize) -> (r: &mut T)
        requires
            index < old(self).spec_len(),
            old(self).wf(),
        ensures
            *r == old(self).view()[index as int],
            final(self).storage() == old(self).storage().update(index as int, *final(r)),
            final(self).spec_len() == old(self).spec_len(),
            final(self).same_strategy(*old(self)),
    {
        match self {
            PreallocatedVec::StandardVec { v } => &mut v[index],
            PreallocatedVec::PreallocateThenSinglePushes { v, curr_idx } => &mut v[index],
            PreallocatedVec::PreallocateThenReallocateDouble { v, curr_idx } => &mut v[index],
        }
    }
}

} // verus!
