use crate::jacobian::seq_precedes;
use vstd::prelude::*;

verus! {

/// The order of signatures, on their views: by output, then by inputs.
pub open spec fn sig_precedes(a: (usize, Seq<usize>), b: (usize, Seq<usize>)) -> bool {
    a.0 < b.0 || (a.0 == b.0 && seq_precedes(a.1, b.1))
}

/// No sequence comes before itself.
pub proof fn lemma_seq_irreflexive(a: Seq<usize>)
    ensures
        !seq_precedes(a, a),
    decreases a.len(),
{
    if a.len() > 0 {
        lemma_seq_irreflexive(a.drop_first());
    }
}

/// The order of sequences is transitive.
pub proof fn lemma_seq_transitive(a: Seq<usize>, b: Seq<usize>, c: Seq<usize>)
    requires
        seq_precedes(a, b),
        seq_precedes(b, c),
    ensures
        seq_precedes(a, c),
    decreases a.len(),
{
    if a.len() > 0 && b.len() > 0 && c.len() > 0 && a[0] == b[0] && b[0] == c[0] {
        lemma_seq_transitive(a.drop_first(), b.drop_first(), c.drop_first());
    }
}

/// Of two different sequences one comes before the other.
pub proof fn lemma_seq_total(a: Seq<usize>, b: Seq<usize>)
    requires
        !seq_precedes(a, b),
        !seq_precedes(b, a),
    ensures
        a == b,
    decreases a.len(),
{
    if a.len() > 0 && b.len() > 0 {
        lemma_seq_total(a.drop_first(), b.drop_first());
        assert(a =~= seq![a[0]] + a.drop_first());
        assert(b =~= seq![b[0]] + b.drop_first());
    } else {
        assert(a =~= b);
    }
}

/// No signature comes before itself.
pub proof fn lemma_sig_irreflexive(a: (usize, Seq<usize>))
    ensures
        !sig_precedes(a, a),
{
    lemma_seq_irreflexive(a.1);
}

/// The order of signatures is transitive.
pub proof fn lemma_sig_transitive(
    a: (usize, Seq<usize>),
    b: (usize, Seq<usize>),
    c: (usize, Seq<usize>),
)
    requires
        sig_precedes(a, b),
        sig_precedes(b, c),
    ensures
        sig_precedes(a, c),
{
    if a.0 == b.0 && b.0 == c.0 {
        lemma_seq_transitive(a.1, b.1, c.1);
    }
}

/// Of two different signatures one comes before the other.
pub proof fn lemma_sig_total(a: (usize, Seq<usize>), b: (usize, Seq<usize>))
    requires
        !sig_precedes(a, b),
        !sig_precedes(b, a),
    ensures
        a == b,
{
    lemma_seq_total(a.1, b.1);
}

} // verus!
