use crate::jacobian::JacobianEntrySignature;
use crate::jacobian_order::{lemma_sig_irreflexive, lemma_sig_total, lemma_sig_transitive, sig_precedes};
use crate::scalar::f64ad;
use vstd::prelude::*;

verus! {

/// One derivative of a Jacobian and the signature that names it.
#[derive(Debug)]
pub struct JacobianEntry {
    signature: JacobianEntrySignature,
    value: f64ad,
}

impl JacobianEntry {
    /// The signature's view and the value.
    pub closed spec fn view(&self) -> ((usize, Seq<usize>), f64ad) {
        (self.signature@, self.value)
    }

    pub fn new(signature: JacobianEntrySignature, value: f64ad) -> (r: Self)
        ensures
            r@ == (signature@, value),
    {
        JacobianEntry { signature, value }
    }

    pub fn signature(&self) -> (r: &JacobianEntrySignature)
        ensures
            r@ == self@.0,
    {
        &self.signature
    }

    pub fn value(&self) -> (r: f64ad)
        ensures
            r == self@.1,
    {
        self.value
    }
}

/// No entry comes after one that its signature precedes.
pub open spec fn sorted(entries: Seq<((usize, Seq<usize>), f64ad)>) -> bool {
    forall|i: int, j: int|
        0 <= i < j < entries.len() ==> !sig_precedes(
            (#[trigger] entries[j]).0,
            (#[trigger] entries[i]).0,
        )
}

/// A table of derivatives.
#[derive(Debug)]
pub struct JacobianOutput {
    entries: Vec<JacobianEntry>,
}

impl JacobianOutput {
    /// The entries, as signature and value.
    pub closed spec fn view(&self) -> Seq<((usize, Seq<usize>), f64ad)> {
        self.entries@.map_values(|e: JacobianEntry| e@)
    }

    pub fn new() -> (r: Self)
        ensures
            r@ == Seq::<((usize, Seq<usize>), f64ad)>::empty(),
    {
        let r = JacobianOutput { entries: Vec::new() };
        assert(r@ =~= Seq::<((usize, Seq<usize>), f64ad)>::empty());
        r
    }

    /// The number of entries.
    pub fn len(&self) -> (r: usize)
        ensures
            r == self@.len(),
    {
        self.entries.len()
    }

    /// The entry at position `i`.
    pub fn entry(&self, i: usize) -> (r: &JacobianEntry)
        requires
            i < self@.len(),
        ensures
            r@ == self@[i as int],
    {
        &self.entries[i]
    }

    /// Appends the entry that `inputs_wrt` and `output` name.
    pub fn push_entry(&mut self, inputs_wrt: Vec<usize>, output: usize, value: f64ad)
        ensures
            final(self)@ == old(self)@.push(((output, inputs_wrt@), value)),
    {
        let entry = JacobianEntry::new(JacobianEntrySignature::new(output, inputs_wrt), value);
        self.entries.push(entry);
        assert(self@ =~= old(self)@.push(((output, inputs_wrt@), value)));
    }

    /// Appends an entry.
    pub fn push(&mut self, entry: JacobianEntry)
        ensures
            final(self)@ == old(self)@.push(entry@),
    {
        self.entries.push(entry);
        assert(self@ =~= old(self)@.push(entry@));
    }

    /// Looks up the entry that `inputs_wrt` and `output` name, by bisection of
    /// the sorted table.
    pub fn get_entry(&self, inputs_wrt: Vec<usize>, output: usize) -> (r: Option<&JacobianEntry>)
        requires
            sorted(self@),
        ensures
            match r {
                Some(e) => e@.0 == (output, inputs_wrt@) && self@.contains(e@),
                None => forall|i: int|
                    0 <= i < self@.len() ==> (#[trigger] self@[i]).0 != (output, inputs_wrt@),
            },
    {
        let signature = JacobianEntrySignature::new(output, inputs_wrt);
        let mut lo: usize = 0;
        let mut hi: usize = self.entries.len();
        while lo < hi
            invariant
                sorted(self@),
                signature@ == (output, inputs_wrt@),
                lo <= hi <= self.entries@.len(),
                self@.len() == self.entries@.len(),
                forall|j: int| 0 <= j < lo ==> sig_precedes((#[trigger] self@[j]).0, signature@),
                forall|j: int|
                    hi <= j < self@.len() ==> sig_precedes(signature@, (#[trigger] self@[j]).0),
            decreases hi - lo,
        {
            let mid = lo + (hi - lo) / 2;
            let candidate = &self.entries[mid];
            assert(candidate@ == self@[mid as int]);
            if candidate.signature().precedes(&signature) {
                assert forall|j: int| 0 <= j < mid + 1 implies sig_precedes(
                    (#[trigger] self@[j]).0,
                    signature@,
                ) by {
                    if j < mid && !sig_precedes(self@[j].0, signature@) {
                        assert(!sig_precedes(self@[mid as int].0, self@[j].0));
                        if sig_precedes(self@[j].0, self@[mid as int].0) {
                            lemma_sig_transitive(self@[j].0, self@[mid as int].0, signature@);
                        } else {
                            lemma_sig_total(self@[j].0, self@[mid as int].0);
                        }
                    }
                }
                lo = mid + 1;
            } else if signature.precedes(candidate.signature()) {
                assert forall|j: int| mid <= j < self@.len() implies sig_precedes(
                    signature@,
                    (#[trigger] self@[j]).0,
                ) by {
                    if j > mid && !sig_precedes(signature@, self@[j].0) {
                        assert(!sig_precedes(self@[j].0, self@[mid as int].0));
                        if sig_precedes(self@[mid as int].0, self@[j].0) {
                            lemma_sig_transitive(signature@, self@[mid as int].0, self@[j].0);
                        } else {
                            lemma_sig_total(self@[mid as int].0, self@[j].0);
                        }
                    }
                }
                hi = mid;
            } else {
                proof {
                    lemma_sig_total(candidate@.0, signature@);
                }
                return Some(candidate);
            }
        }
        assert forall|i: int| 0 <= i < self@.len() implies (#[trigger] self@[i]).0 != (
            output,
            inputs_wrt@,
        ) by {
            lemma_sig_irreflexive(signature@);
        }
        None
    }
}

/// The test that picks the entries with the signature `signature`.
pub open spec fn has_signature(signature: (usize, Seq<usize>)) -> spec_fn(
    ((usize, Seq<usize>), f64ad),
) -> bool {
    |entry: ((usize, Seq<usize>), f64ad)| entry.0 == signature
}

/// The entries with the signature `signature`, in their order.
pub open spec fn with_signature(
    entries: Seq<((usize, Seq<usize>), f64ad)>,
    signature: (usize, Seq<usize>),
) -> Seq<((usize, Seq<usize>), f64ad)> {
    entries.filter(has_signature(signature))
}

/// Entries with one signature stand in `after` in the order in which they
/// stand in `before`.
pub open spec fn same_order_within_signatures(
    before: Seq<((usize, Seq<usize>), f64ad)>,
    after: Seq<((usize, Seq<usize>), f64ad)>,
) -> bool {
    forall|signature: (usize, Seq<usize>)|
        #[trigger] with_signature(after, signature) == with_signature(before, signature)
}

/// Where no item passes a test, the test picks nothing.
pub proof fn lemma_filter_none<A>(s: Seq<A>, pred: spec_fn(A) -> bool)
    requires
        forall|i: int| 0 <= i < s.len() ==> !pred(#[trigger] s[i]),
    ensures
        s.filter(pred) == Seq::<A>::empty(),
    decreases s.len(),
{
    reveal(Seq::filter);
    if s.len() > 0 {
        assert(!pred(s[s.len() - 1]));
        assert forall|i: int| 0 <= i < s.drop_last().len() implies !pred(
            #[trigger] s.drop_last()[i],
        ) by {
            assert(s.drop_last()[i] == s[i]);
        }
        lemma_filter_none(s.drop_last(), pred);
    }
}

/// Moving an item towards the front, past items that a test does not pick
/// together with it, keeps what the test picks and in which order.
pub proof fn lemma_reinsert_keeps_filter<A>(s: Seq<A>, i: int, p: int, pred: spec_fn(A) -> bool)
    requires
        0 <= p <= i < s.len(),
        pred(s[i]) ==> forall|j: int| p <= j < i ==> !pred(#[trigger] s[j]),
    ensures
        s.remove(i).insert(p, s[i]).filter(pred) == s.filter(pred),
{
    let front = s.subrange(0, p);
    let passed = s.subrange(p, i);
    let moved = seq![s[i]];
    let back = s.subrange(i + 1, s.len() as int);
    let t = s.remove(i).insert(p, s[i]);
    assert(s =~= ((front + passed) + moved) + back);
    assert(t =~= ((front + moved) + passed) + back);
    Seq::filter_distributes_over_add((front + passed) + moved, back, pred);
    Seq::filter_distributes_over_add(front + passed, moved, pred);
    Seq::filter_distributes_over_add(front, passed, pred);
    Seq::filter_distributes_over_add((front + moved) + passed, back, pred);
    Seq::filter_distributes_over_add(front + moved, passed, pred);
    Seq::filter_distributes_over_add(front, moved, pred);
    if pred(s[i]) {
        assert forall|j: int| 0 <= j < passed.len() implies !pred(#[trigger] passed[j]) by {
            assert(passed[j] == s[p + j]);
        }
        lemma_filter_none(passed, pred);
        assert(front.filter(pred) + passed.filter(pred) =~= front.filter(pred));
        assert((front.filter(pred) + moved.filter(pred)) + passed.filter(pred) =~= front.filter(
            pred,
        ) + moved.filter(pred));
    } else {
        lemma_filter_none(moved, pred);
        assert(front.filter(pred) + moved.filter(pred) =~= front.filter(pred));
        assert((front.filter(pred) + passed.filter(pred)) + moved.filter(pred) =~= front.filter(
            pred,
        ) + passed.filter(pred));
    }
}

/// Taking an item out and putting it back somewhere keeps the items.
pub proof fn lemma_reinsert_keeps_items<A>(s: Seq<A>, i: int, p: int)
    requires
        0 <= i < s.len(),
        0 <= p < s.len(),
    ensures
        s.remove(i).insert(p, s[i]).to_multiset() == s.to_multiset(),
{
    broadcast use vstd::seq_lib::group_to_multiset_ensures;

    let t = s.remove(i).insert(p, s[i]);
    assert(t.remove(p) =~= s.remove(i));
    assert(t[p] == s[i]);
    assert(t.remove(p).to_multiset() =~= t.to_multiset().remove(t[p]));
    assert(s.remove(i).to_multiset() =~= s.to_multiset().remove(s[i]));
    assert(t.contains(t[p]));
    assert(s.contains(s[i]));
    assert(t.to_multiset() =~= s.to_multiset());
}

impl JacobianOutput {
    /// Sorts the table by signature; entries with one signature keep their
    /// order.
    pub fn sort(&mut self)
        ensures
            sorted(final(self)@),
            final(self)@.to_multiset() == old(self)@.to_multiset(),
            same_order_within_signatures(old(self)@, final(self)@),
    {
        let n = self.entries.len();
        let mut i: usize = 0;
        while i < n
            invariant
                self.entries@.len() == n,
                i <= n,
                sorted(self@.take(i as int)),
                self@.to_multiset() == old(self)@.to_multiset(),
                same_order_within_signatures(old(self)@, self@),
            decreases n - i,
        {
            let ghost before = self@;
            let entry = self.entries.remove(i);
            assert(self@ =~= before.remove(i as int));
            let mut p: usize = 0;
            while p < i && !entry.signature().precedes(self.entries[p].signature())
                invariant
                    p <= i < n,
                    self.entries@.len() == n - 1,
                    self@ == before.remove(i as int),
                    entry@ == before[i as int],
                    forall|j: int| 0 <= j < p ==> !sig_precedes(entry@.0, (#[trigger] self@[j]).0),
                decreases i - p,
            {
                p += 1;
            }
            let ghost removed = self@;
            let ghost e = entry@;
            assert(p < i ==> sig_precedes(e.0, removed[p as int].0));
            self.entries.insert(p, entry);
            let ghost after = self@;
            proof {
                assert(after =~= removed.insert(p as int, e));
                lemma_reinsert_keeps_items(before, i as int, p as int);
                let old_prefix = before.take(i as int);
                let prefix = after.take(i + 1);
                assert forall|k: int| 0 <= k < i implies removed[k] == #[trigger] old_prefix[k] by {}
                assert forall|signature: (usize, Seq<usize>)| #[trigger]
                    with_signature(after, signature) == with_signature(before, signature) by {
                    if e.0 == signature {
                        assert forall|j: int| p <= j < i implies !has_signature(signature)(
                            #[trigger] before[j],
                        ) by {
                            assert(before[j] == removed[j]);
                            assert(sig_precedes(e.0, removed[p as int].0));
                            lemma_sig_irreflexive(e.0);
                            if j > p {
                                assert(old_prefix[j] == removed[j]);
                                assert(old_prefix[p as int] == removed[p as int]);
                                assert(!sig_precedes(old_prefix[j].0, old_prefix[p as int].0));
                            }
                        }
                    }
                    lemma_reinsert_keeps_filter(
                        before,
                        i as int,
                        p as int,
                        has_signature(signature),
                    );
                }
                assert forall|a: int, b: int| 0 <= a < b < prefix.len() implies !sig_precedes(
                    (#[trigger] prefix[b]).0,
                    (#[trigger] prefix[a]).0,
                ) by {
                    if b == p {
                        assert(prefix[b] == e);
                        assert(prefix[a] == removed[a]);
                    } else if a == p {
                        assert(prefix[a] == e);
                        assert(prefix[b] == removed[b - 1]);
                        assert(sig_precedes(e.0, removed[p as int].0));
                        if sig_precedes(removed[b - 1].0, e.0) {
                            lemma_sig_transitive(removed[b - 1].0, e.0, removed[p as int].0);
                            if b - 1 == p {
                                lemma_sig_irreflexive(removed[p as int].0);
                            } else {
                                assert(old_prefix[b - 1] == removed[b - 1]);
                                assert(old_prefix[p as int] == removed[p as int]);
                            }
                        }
                    } else {
                        let a0 = if a < p {
                            a
                        } else {
                            a - 1
                        };
                        let b0 = if b < p {
                            b
                        } else {
                            b - 1
                        };
                        assert(prefix[a] == removed[a0]);
                        assert(prefix[b] == removed[b0]);
                        assert(old_prefix[a0] == removed[a0]);
                        assert(old_prefix[b0] == removed[b0]);
                    }
                }
            }
            i += 1;
        }
        assert(self@.take(n as int) =~= self@);
    }
}

} // verus!
