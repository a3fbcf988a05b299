use vstd::prelude::*;

verus! {

/// Lexicographic order on sequences: at the first index where they differ the
/// smaller item decides; a proper prefix comes first.
pub open spec fn seq_precedes(a: Seq<usize>, b: Seq<usize>) -> bool
    decreases a.len(),
{
    if b.len() == 0 {
        false
    } else if a.len() == 0 {
        true
    } else if a[0] != b[0] {
        a[0] < b[0]
    } else {
        seq_precedes(a.drop_first(), b.drop_first())
    }
}

/// Which entry of a Jacobian this is: the output that was differentiated and,
/// in the order of differentiation, the inputs it was differentiated by.
#[derive(Clone, Debug)]
pub struct JacobianEntrySignature {
    output: usize,
    inputs_wrt: Vec<usize>,
}

impl JacobianEntrySignature {
    /// The output and the inputs.
    pub closed spec fn view(&self) -> (usize, Seq<usize>) {
        (self.output, self.inputs_wrt@)
    }

    /// The order of signatures: by output, then by inputs.
    pub open spec fn spec_precedes(&self, other: &Self) -> bool {
        self@.0 < other@.0 || (self@.0 == other@.0 && seq_precedes(self@.1, other@.1))
    }

    pub fn new(output: usize, inputs_wrt: Vec<usize>) -> (r: Self)
        ensures
            r@ == (output, inputs_wrt@),
    {
        JacobianEntrySignature { output, inputs_wrt }
    }

    pub fn add_input_wrt(&mut self, input_wrt: usize)
        ensures
            final(self)@ == (old(self)@.0, old(self)@.1.push(input_wrt)),
    {
        self.inputs_wrt.push(input_wrt);
    }

    pub fn inputs_wrt(&self) -> (r: &Vec<usize>)
        ensures
            r@ == self@.1,
    {
        &self.inputs_wrt
    }

    pub fn output(&self) -> (r: usize)
        ensures
            r == self@.0,
    {
        self.output
    }

    /// A signature with the same output and inputs.
    pub fn duplicate(&self) -> (r: Self)
        ensures
            r@ == self@,
    {
        let mut inputs_wrt: Vec<usize> = Vec::new();
        let mut i: usize = 0;
        while i < self.inputs_wrt.len()
            invariant
                i <= self.inputs_wrt@.len(),
                inputs_wrt@ == self.inputs_wrt@.take(i as int),
            decreases self.inputs_wrt@.len() - i,
        {
            inputs_wrt.push(self.inputs_wrt[i]);
            i += 1;
            assert(inputs_wrt@ =~= self.inputs_wrt@.take(i as int));
        }
        assert(self.inputs_wrt@.take(i as int) =~= self.inputs_wrt@);
        JacobianEntrySignature { output: self.output, inputs_wrt }
    }

    /// Whether the two signatures name the same entry.
    pub fn same(&self, other: &Self) -> (r: bool)
        ensures
            r == (self@ == other@),
    {
        if self.output != other.output || self.inputs_wrt.len() != other.inputs_wrt.len() {
            return false;
        }
        let n = self.inputs_wrt.len();
        let mut i: usize = 0;
        while i < n
            invariant
                n == self.inputs_wrt@.len(),
                n == other.inputs_wrt@.len(),
                i <= n,
                self.inputs_wrt@.take(i as int) == other.inputs_wrt@.take(i as int),
            decreases n - i,
        {
            if self.inputs_wrt[i] != other.inputs_wrt[i] {
                assert(self.inputs_wrt@[i as int] != other.inputs_wrt@[i as int]);
                return false;
            }
            i += 1;
            assert(self.inputs_wrt@.take(i as int) =~= self.inputs_wrt@.take(i - 1).push(
                self.inputs_wrt@[i - 1],
            ));
            assert(other.inputs_wrt@.take(i as int) =~= other.inputs_wrt@.take(i - 1).push(
                other.inputs_wrt@[i - 1],
            ));
        }
        assert(self.inputs_wrt@.take(n as int) =~= self.inputs_wrt@);
        assert(other.inputs_wrt@.take(n as int) =~= other.inputs_wrt@);
        true
    }
}

impl JacobianEntrySignature {
    /// Whether this signature comes before `other` in the order of signatures.
    pub fn precedes(&self, other: &Self) -> (r: bool)
        ensures
            r == self.spec_precedes(other),
    {
        if self.output != other.output {
            return self.output < other.output;
        }
        let n = self.inputs_wrt.len();
        let m = other.inputs_wrt.len();
        let mut i: usize = 0;
        assert(self.inputs_wrt@.skip(0) =~= self.inputs_wrt@);
        assert(other.inputs_wrt@.skip(0) =~= other.inputs_wrt@);
        while i < n && i < m
            invariant
                self.output == other.output,
                n == self.inputs_wrt@.len(),
                m == other.inputs_wrt@.len(),
                i <= n,
                i <= m,
                seq_precedes(self.inputs_wrt@, other.inputs_wrt@) == seq_precedes(
                    self.inputs_wrt@.skip(i as int),
                    other.inputs_wrt@.skip(i as int),
                ),
            decreases n - i,
        {
            let ghost a = self.inputs_wrt@.skip(i as int);
            let ghost b = other.inputs_wrt@.skip(i as int);
            assert(a[0] == self.inputs_wrt@[i as int]);
            assert(b[0] == other.inputs_wrt@[i as int]);
            if self.inputs_wrt[i] != other.inputs_wrt[i] {
                return self.inputs_wrt[i] < other.inputs_wrt[i];
            }
            assert(a.drop_first() =~= self.inputs_wrt@.skip(i + 1));
            assert(b.drop_first() =~= other.inputs_wrt@.skip(i + 1));
            i += 1;
        }
        i < m
    }
}

} // verus!
