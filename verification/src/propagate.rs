use crate::grad::{
    all_plain, all_sound, backward_node, forward_node, spec_backward_from, spec_forward_from,
};
use crate::expr::lemma_extended_trans;
use crate::graph::ComputationGraph;
use crate::kernel::{pure_kernel, NodeTypeClass};
use crate::node_type::NodeType;
use crate::record::Tape;
use crate::scalar::{f64ad, AdError};
use crate::word::{is_finite, spec_is_finite, ONE, ZERO};
use vstd::prelude::*;

verus! {

/// Why `seed` cannot be differentiated on `tape`, if it cannot: it is not
/// current, its value is infinite or no number, or it is a plain number.
pub open spec fn spec_grad_error(seed: f64ad, tape: Tape) -> Option<AdError> {
    match seed.spec_value(tape) {
        Err(e) => Some(e),
        Ok(v) => if !spec_is_finite(v) {
            Some(AdError::NonFiniteSeed)
        } else if seed is Plain {
            Some(AdError::NotRecorded)
        } else {
            None
        },
    }
}

/// The derivatives before the walk: zero at every node of the tape but the
/// seed, where it is one. When derivatives are recorded, that one is a new
/// leaf.
pub open spec fn spec_seed(tape: Tape, seed_idx: usize, record: bool) -> (Seq<f64ad>, Tape) {
    let zeros = Seq::new(tape.nodes.len(), |j: int| f64ad::Plain(ZERO));
    if record {
        (
            zeros.update(seed_idx as int, tape.next_handle()),
            tape.append(ONE, NodeType::InputVar, Seq::<usize>::empty(), Seq::<u64>::empty()),
        )
    } else {
        (zeros.update(seed_idx as int, f64ad::Plain(ONE)), tape)
    }
}

/// Forward-mode accumulation from the node `seed_idx`: for every node that the
/// tape holds at the start, its derivative with respect to the seed, and the
/// tape at the end.
pub open spec fn spec_forward_mode_grad<K: Fn(NodeTypeClass, u64, u64) -> u64>(
    kernel: &K,
    tape: Tape,
    seed_idx: usize,
    record: bool,
) -> (Seq<f64ad>, Tape) {
    let (derivs, tape_0) = spec_seed(tape, seed_idx, record);
    spec_forward_from(kernel, tape_0, derivs, 0, tape.nodes.len() as int, record)
}

/// Reverse-mode accumulation from the node `seed_idx`: for every node that the
/// tape holds at the start, the derivative of the seed with respect to it, and
/// the tape at the end.
pub open spec fn spec_backwards_mode_grad<K: Fn(NodeTypeClass, u64, u64) -> u64>(
    kernel: &K,
    tape: Tape,
    seed_idx: usize,
    record: bool,
) -> (Seq<f64ad>, Tape) {
    let (derivs, tape_0) = spec_seed(tape, seed_idx, record);
    spec_backward_from(kernel, tape_0, derivs, tape.nodes.len() as int, record)
}

/// Checks that `seed` can be differentiated and sets up the derivatives.
fn seed_derivs(
    seed: &f64ad,
    add_to_computation_graph: bool,
    computation_graph: &mut ComputationGraph,
) -> (r: Result<Vec<f64ad>, AdError>)
    requires
        old(computation_graph).wf(),
        seed.in_range(old(computation_graph).tape()),
    ensures
        final(computation_graph).wf(),
        final(computation_graph).spec_name() == old(computation_graph).spec_name(),
        match spec_grad_error(*seed, old(computation_graph).tape()) {
            Some(e) => r == Err::<Vec<f64ad>, AdError>(e) && *final(computation_graph) == *old(
                computation_graph,
            ),
            None => r is Ok && (r->Ok_0@, final(computation_graph).tape()) == spec_seed(
                old(computation_graph).tape(),
                seed->Var_0.node_idx,
                add_to_computation_graph,
            ),
        },
        r is Ok ==> all_sound(r->Ok_0@, final(computation_graph).tape()),
        r is Ok ==> old(computation_graph).tape().extended_by(final(computation_graph).tape()),
        r is Ok && !add_to_computation_graph ==> all_plain(r->Ok_0@),
{
    let ghost tape = computation_graph.tape();
    let v = seed.value(computation_graph)?;
    if !is_finite(v) {
        return Err(AdError::NonFiniteSeed);
    }
    let seed_idx = match seed {
        f64ad::Var(var) => var.node_idx,
        f64ad::Plain(_) => {
            return Err(AdError::NotRecorded);
        },
    };
    let l = computation_graph.num_nodes();
    let mut derivs: Vec<f64ad> = Vec::new();
    let mut i: usize = 0;
    while i < l
        invariant
            i <= l,
            derivs@.len() == i,
            forall|j: int| 0 <= j < i ==> derivs@[j] == f64ad::Plain(ZERO),
        decreases l - i,
    {
        derivs.push(f64ad::Plain(ZERO));
        i += 1;
    }
    assert(derivs@ =~= Seq::new(tape.nodes.len(), |j: int| f64ad::Plain(ZERO)));
    if add_to_computation_graph {
        let one = computation_graph.spawn_f64ad_var(ONE);
        derivs.set(seed_idx, one);
    } else {
        derivs.set(seed_idx, f64ad::Plain(ONE));
    }
    proof {
        let after = computation_graph.tape();
        assert(after.nodes.take(tape.nodes.len() as int) =~= tape.nodes);
    }
    Ok(derivs)
}

/// The derivatives that a forward pass computed: one scalar for each node that
/// the graph held when the pass began.
#[derive(Clone, Debug)]
pub struct ForwardModeGradOutput {
    derivs: Vec<f64ad>,
    computation_graph_id: usize,
}

/// The derivatives that a reverse pass computed: one scalar for each node that
/// the graph held when the pass began.
#[derive(Clone, Debug)]
pub struct BackwardsModeGradOutput {
    derivs: Vec<f64ad>,
    computation_graph_id: usize,
}

/// What looking up `other` among `derivs` gives: the derivative at its node.
/// A plain number has no node; a handle issued under another identity than the
/// graph's is stale, and so are derivatives computed under another.
pub open spec fn spec_wrt(
    derivs: Seq<f64ad>,
    derivs_graph_id: usize,
    other: f64ad,
    tape: Tape,
) -> Result<f64ad, AdError> {
    match other {
        f64ad::Plain(_) => Err(AdError::NotRecorded),
        f64ad::Var(v) => if v.computation_graph_id != tape.id {
            Err(AdError::StaleHandle { handle_graph: v.computation_graph_id, graph: tape.id })
        } else if derivs_graph_id != tape.id {
            Err(AdError::StaleHandle { handle_graph: derivs_graph_id, graph: tape.id })
        } else {
            Ok(derivs[v.node_idx as int])
        },
    }
}

impl ForwardModeGradOutput {
    /// The derivatives, by node index.
    pub closed spec fn view(&self) -> Seq<f64ad> {
        self.derivs@
    }

    /// The identity of the graph that the pass walked.
    pub closed spec fn spec_graph_id(&self) -> usize {
        self.computation_graph_id
    }

    /// The number of nodes that the pass walked.
    pub fn len(&self) -> (r: usize)
        ensures
            r == self@.len(),
    {
        self.derivs.len()
    }

    /// The derivative of `output` with respect to the seed of the pass.
    pub fn wrt(&self, output: &f64ad, computation_graph: &ComputationGraph) -> (r: Result<
        f64ad,
        AdError,
    >)
        requires
            spec_wrt(self@, self.spec_graph_id(), *output, computation_graph.tape()) is Ok
                ==> output->Var_0.node_idx < self@.len(),
        ensures
            r == spec_wrt(self@, self.spec_graph_id(), *output, computation_graph.tape()),
    {
        match output {
            f64ad::Plain(_) => Err(AdError::NotRecorded),
            f64ad::Var(v) => {
                let id = computation_graph.id();
                if v.computation_graph_id != id {
                    Err(AdError::StaleHandle { handle_graph: v.computation_graph_id, graph: id })
                } else if self.computation_graph_id != id {
                    Err(AdError::StaleHandle { handle_graph: self.computation_graph_id, graph: id })
                } else {
                    Ok(self.derivs[v.node_idx])
                }
            },
        }
    }
}

impl BackwardsModeGradOutput {
    /// The derivatives, by node index.
    pub closed spec fn view(&self) -> Seq<f64ad> {
        self.derivs@
    }

    /// The identity of the graph that the pass walked.
    pub closed spec fn spec_graph_id(&self) -> usize {
        self.computation_graph_id
    }

    /// The number of nodes that the pass walked.
    pub fn len(&self) -> (r: usize)
        ensures
            r == self@.len(),
    {
        self.derivs.len()
    }

    /// The derivative of the seed of the pass with respect to `input`.
    pub fn wrt(&self, input: &f64ad, computation_graph: &ComputationGraph) -> (r: Result<
        f64ad,
        AdError,
    >)
        requires
            spec_wrt(self@, self.spec_graph_id(), *input, computation_graph.tape()) is Ok
                ==> input->Var_0.node_idx < self@.len(),
        ensures
            r == spec_wrt(self@, self.spec_graph_id(), *input, computation_graph.tape()),
    {
        match input {
            f64ad::Plain(_) => Err(AdError::NotRecorded),
            f64ad::Var(v) => {
                let id = computation_graph.id();
                if v.computation_graph_id != id {
                    Err(AdError::StaleHandle { handle_graph: v.computation_graph_id, graph: id })
                } else if self.computation_graph_id != id {
                    Err(AdError::StaleHandle { handle_graph: self.computation_graph_id, graph: id })
                } else {
                    Ok(self.derivs[v.node_idx])
                }
            },
        }
    }
}

impl f64ad {
    /// Forward-mode accumulation with this scalar as the seed: the derivative of
    /// every node with respect to it. With `add_to_computation_graph` the
    /// derivatives are recorded, so that they can be differentiated again;
    /// without it they are plain numbers and the graph stays as it is.
    pub fn forward_mode_grad<K: Fn(NodeTypeClass, u64, u64) -> u64>(
        &self,
        add_to_computation_graph: bool,
        computation_graph: &mut ComputationGraph,
        kernel: &K,
    ) -> (r: Result<ForwardModeGradOutput, AdError>)
        requires
            pure_kernel(kernel),
            old(computation_graph).wf(),
            self.in_range(old(computation_graph).tape()),
        ensures
            final(computation_graph).wf(),
            final(computation_graph).spec_name() == old(computation_graph).spec_name(),
            match spec_grad_error(*self, old(computation_graph).tape()) {
                Some(e) => r is Err && r->Err_0 == e && *final(computation_graph) == *old(
                    computation_graph,
                ),
                None => r is Ok && (r->Ok_0@, final(computation_graph).tape())
                    == spec_forward_mode_grad(
                    kernel,
                    old(computation_graph).tape(),
                    self->Var_0.node_idx,
                    add_to_computation_graph,
                ) && r->Ok_0.spec_graph_id() == old(computation_graph).spec_id(),
            },
            r is Ok ==> r->Ok_0@.len() == old(computation_graph)@.len(),
            r is Ok ==> all_sound(r->Ok_0@, final(computation_graph).tape()),
            old(computation_graph).tape().extended_by(final(computation_graph).tape()),
            !add_to_computation_graph ==> final(computation_graph).tape() == old(
                computation_graph,
            ).tape(),
            r is Ok && !add_to_computation_graph ==> all_plain(r->Ok_0@),
    {
        let ghost tape = computation_graph.tape();
        proof {
            assert(tape.nodes.take(tape.nodes.len() as int) =~= tape.nodes);
        }
        let l = computation_graph.num_nodes();
        let mut derivs = seed_derivs(self, add_to_computation_graph, computation_graph)?;
        let ghost tape_0 = computation_graph.tape();
        let ghost derivs_0 = derivs@;
        let mut node_idx: usize = 0;
        while node_idx < l
            invariant
                pure_kernel(kernel),
                computation_graph.wf(),
                computation_graph.spec_name() == old(computation_graph).spec_name(),
                node_idx <= l,
                derivs@.len() == l,
                l <= computation_graph@.len(),
                all_sound(derivs@, computation_graph.tape()),
                tape.extended_by(computation_graph.tape()),
                !add_to_computation_graph ==> all_plain(derivs@) && computation_graph.tape()
                    == tape,
                spec_forward_from(
                    kernel,
                    computation_graph.tape(),
                    derivs@,
                    node_idx as int,
                    l as int,
                    add_to_computation_graph,
                ) == spec_forward_from(kernel, tape_0, derivs_0, 0, l as int, add_to_computation_graph),
            decreases l - node_idx,
        {
            let ghost tape_i = computation_graph.tape();
            forward_node(&mut derivs, node_idx, computation_graph, add_to_computation_graph, kernel);
            proof {
                lemma_extended_trans(tape, tape_i, computation_graph.tape());
            }
            node_idx += 1;
        }
        Ok(ForwardModeGradOutput { derivs, computation_graph_id: computation_graph.id() })
    }

    /// Reverse-mode accumulation with this scalar as the seed: its derivative
    /// with respect to every node. With `add_to_computation_graph` the
    /// derivatives are recorded, so that they can be differentiated again;
    /// without it they are plain numbers and the graph stays as it is.
    pub fn backwards_mode_grad<K: Fn(NodeTypeClass, u64, u64) -> u64>(
        &self,
        add_to_computation_graph: bool,
        computation_graph: &mut ComputationGraph,
        kernel: &K,
    ) -> (r: Result<BackwardsModeGradOutput, AdError>)
        requires
            pure_kernel(kernel),
            old(computation_graph).wf(),
            self.in_range(old(computation_graph).tape()),
        ensures
            final(computation_graph).wf(),
            final(computation_graph).spec_name() == old(computation_graph).spec_name(),
            match spec_grad_error(*self, old(computation_graph).tape()) {
                Some(e) => r is Err && r->Err_0 == e && *final(computation_graph) == *old(
                    computation_graph,
                ),
                None => r is Ok && (r->Ok_0@, final(computation_graph).tape())
                    == spec_backwards_mode_grad(
                    kernel,
                    old(computation_graph).tape(),
                    self->Var_0.node_idx,
                    add_to_computation_graph,
                ) && r->Ok_0.spec_graph_id() == old(computation_graph).spec_id(),
            },
            r is Ok ==> r->Ok_0@.len() == old(computation_graph)@.len(),
            r is Ok ==> all_sound(r->Ok_0@, final(computation_graph).tape()),
            old(computation_graph).tape().extended_by(final(computation_graph).tape()),
            !add_to_computation_graph ==> final(computation_graph).tape() == old(
                computation_graph,
            ).tape(),
            r is Ok && !add_to_computation_graph ==> all_plain(r->Ok_0@),
    {
        let ghost tape = computation_graph.tape();
        proof {
            assert(tape.nodes.take(tape.nodes.len() as int) =~= tape.nodes);
        }
        let l = computation_graph.num_nodes();
        let mut derivs = seed_derivs(self, add_to_computation_graph, computation_graph)?;
        let ghost tape_0 = computation_graph.tape();
        let ghost derivs_0 = derivs@;
        let mut remaining: usize = l;
        while remaining > 0
            invariant
                pure_kernel(kernel),
                computation_graph.wf(),
                computation_graph.spec_name() == old(computation_graph).spec_name(),
                remaining <= l,
                derivs@.len() == l,
                l <= computation_graph@.len(),
                all_sound(derivs@, computation_graph.tape()),
                tape.extended_by(computation_graph.tape()),
                !add_to_computation_graph ==> all_plain(derivs@) && computation_graph.tape()
                    == tape,
                spec_backward_from(
                    kernel,
                    computation_graph.tape(),
                    derivs@,
                    remaining as int,
                    add_to_computation_graph,
                ) == spec_backward_from(kernel, tape_0, derivs_0, l as int, add_to_computation_graph),
            decreases remaining,
        {
            let ghost tape_i = computation_graph.tape();
            remaining -= 1;
            backward_node(&mut derivs, remaining, computation_graph, add_to_computation_graph, kernel);
            proof {
                lemma_extended_trans(tape, tape_i, computation_graph.tape());
            }
        }
        Ok(BackwardsModeGradOutput { derivs, computation_graph_id: computation_graph.id() })
    }
}

} // verus!
