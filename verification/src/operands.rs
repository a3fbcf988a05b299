use tinyvec::TinyVec;
use vstd::prelude::*;

verus! {

/// The parent indices of a node, in a `tinyvec::TinyVec` that keeps two of
/// them inline. Verus sees nothing inside it; the functions below say what it
/// holds.
#[verifier::external_body]
#[derive(Debug)]
pub struct ParentList {
    items: TinyVec<[usize; 2]>,
}

/// The plain operands of a node, in a `tinyvec::TinyVec` that keeps one of
/// them inline.
#[verifier::external_body]
#[derive(Debug)]
pub struct ConstantList {
    items: TinyVec<[u64; 1]>,
}

/// The parent indices that the list holds, first to last.
pub uninterp spec fn parents_view(v: ParentList) -> Seq<usize>;

/// The plain operands that the list holds, first to last.
pub uninterp spec fn constants_view(v: ConstantList) -> Seq<u64>;

/// `TinyVec::new`: a vector without items.
#[verifier::external_body]
fn parents_new() -> (r: ParentList)
    ensures
        parents_view(r) == Seq::<usize>::empty(),
{
    ParentList { items: TinyVec::new() }
}

/// `TinyVec::push`: appends one item at the end, moving to the heap when the
/// inline room is used up.
#[verifier::external_body]
fn parents_push(v: &mut ParentList, parent: usize)
    ensures
        parents_view(*final(v)) == parents_view(*old(v)).push(parent),
{
    v.items.push(parent)
}

/// `TinyVec::len`: the number of items.
#[verifier::external_body]
fn parents_len(v: &ParentList) -> (r: usize)
    ensures
        r == parents_view(*v).len(),
{
    v.items.len()
}

/// Indexing a `TinyVec`: the item at `i`, which must exist.
#[verifier::external_body]
fn parents_get(v: &ParentList, i: usize) -> (r: usize)
    requires
        i < parents_view(*v).len(),
    ensures
        r == parents_view(*v)[i as int],
{
    v.items[i]
}

/// `TinyVec::new`: a vector without items.
#[verifier::external_body]
fn constants_new() -> (r: ConstantList)
    ensures
        constants_view(r) == Seq::<u64>::empty(),
{
    ConstantList { items: TinyVec::new() }
}

/// `TinyVec::push`: appends one item at the end, moving to the heap when the
/// inline room is used up.
#[verifier::external_body]
fn constants_push(v: &mut ConstantList, constant: u64)
    ensures
        constants_view(*final(v)) == constants_view(*old(v)).push(constant),
{
    v.items.push(constant)
}

/// `TinyVec::len`: the number of items.
#[verifier::external_body]
fn constants_len(v: &ConstantList) -> (r: usize)
    ensures
        r == constants_view(*v).len(),
{
    v.items.len()
}

/// Indexing a `TinyVec`: the item at `i`, which must exist.
#[verifier::external_body]
fn constants_get(v: &ConstantList, i: usize) -> (r: u64)
    requires
        i < constants_view(*v).len(),
    ensures
        r == constants_view(*v)[i as int],
{
    v.items[i]
}

impl ParentList {
    /// The parent indices, first to last.
    pub open spec fn view(&self) -> Seq<usize> {
        parents_view(*self)
    }

    pub fn empty() -> (r: Self)
        ensures
            r@ == Seq::<usize>::empty(),
    {
        parents_new()
    }

    pub fn one(parent: usize) -> (r: Self)
        ensures
            r@ == seq![parent],
    {
        let mut r = parents_new();
        parents_push(&mut r, parent);
        assert(r@ =~= seq![parent]);
        r
    }

    pub fn two(first: usize, second: usize) -> (r: Self)
        ensures
            r@ == seq![first, second],
    {
        let mut r = parents_new();
        parents_push(&mut r, first);
        parents_push(&mut r, second);
        assert(r@ =~= seq![first, second]);
        r
    }

    pub fn len(&self) -> (r: usize)
        ensures
            r == self@.len(),
    {
        parents_len(self)
    }

    /// A list with the same parents.
    pub fn duplicate(&self) -> (r: Self)
        ensures
            r@ == self@,
    {
        let mut r = parents_new();
        let n = parents_len(self);
        let mut i: usize = 0;
        while i < n
            invariant
                n == self@.len(),
                i <= n,
                r@ == self@.take(i as int),
            decreases n - i,
        {
            parents_push(&mut r, parents_get(self, i));
            i += 1;
            assert(r@ =~= self@.take(i as int));
        }
        assert(self@.take(n as int) =~= self@);
        r
    }

    pub fn get(&self, i: usize) -> (r: usize)
        requires
            i < self@.len(),
        ensures
            r == self@[i as int],
    {
        parents_get(self, i)
    }
}

impl ConstantList {
    /// The plain operands, first to last.
    pub open spec fn view(&self) -> Seq<u64> {
        constants_view(*self)
    }

    pub fn empty() -> (r: Self)
        ensures
            r@ == Seq::<u64>::empty(),
    {
        constants_new()
    }

    pub fn one(constant: u64) -> (r: Self)
        ensures
            r@ == seq![constant],
    {
        let mut r = constants_new();
        constants_push(&mut r, constant);
        assert(r@ =~= seq![constant]);
        r
    }

    pub fn len(&self) -> (r: usize)
        ensures
            r == self@.len(),
    {
        constants_len(self)
    }

    /// A list with the same plain operands.
    pub fn duplicate(&self) -> (r: Self)
        ensures
            r@ == self@,
    {
        let mut r = constants_new();
        let n = constants_len(self);
        let mut i: usize = 0;
        while i < n
            invariant
                n == self@.len(),
                i <= n,
                r@ == self@.take(i as int),
            decreases n - i,
        {
            constants_push(&mut r, constants_get(self, i));
            i += 1;
            assert(r@ =~= self@.take(i as int));
        }
        assert(self@.take(n as int) =~= self@);
        r
    }

    pub fn get(&self, i: usize) -> (r: u64)
        requires
            i < self@.len(),
        ensures
            r == self@[i as int],
    {
        constants_get(self, i)
    }
}

} // verus!
