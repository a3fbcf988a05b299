use crate::expr::{lemma_extended_trans, lemma_record_2, lemma_record_2_extends};
use crate::graph::ComputationGraph;
use crate::kernel::{pure_kernel, NodeTypeClass};
use crate::record::{f64ad_universal_function_2_operands, spec_record_2, Tape};
use crate::local_derivative::spec_derivatives;
use crate::scalar::f64ad;
use vstd::prelude::*;

verus! {

/// One step of the chain rule: `acc + factor * derivative`, as operations on
/// scalars, and the tape that the two operations leave.
pub open spec fn spec_accumulate<K: Fn(NodeTypeClass, u64, u64) -> u64>(
    kernel: &K,
    tape: Tape,
    acc: f64ad,
    factor: f64ad,
    derivative: f64ad,
) -> (f64ad, Tape) {
    let (product, tape_1) = spec_record_2(kernel, tape, NodeTypeClass::Mul, factor, derivative);
    let (sum, tape_2) = spec_record_2(kernel, tape_1, NodeTypeClass::Add, acc, product->Ok_0);
    (sum->Ok_0, tape_2)
}

/// A chain-rule step on sound scalars gives a sound scalar and continues the
/// tape.
pub proof fn lemma_accumulate<K: Fn(NodeTypeClass, u64, u64) -> u64>(
    kernel: &K,
    tape: Tape,
    acc: f64ad,
    factor: f64ad,
    derivative: f64ad,
)
    requires
        tape.wf(),
        acc.sound_on(tape),
        factor.sound_on(tape),
        derivative.sound_on(tape),
        spec_accumulate(kernel, tape, acc, factor, derivative).1.bounded(),
    ensures
        spec_accumulate(kernel, tape, acc, factor, derivative).1.wf(),
        spec_accumulate(kernel, tape, acc, factor, derivative).0.sound_on(
            spec_accumulate(kernel, tape, acc, factor, derivative).1,
        ),
        tape.extended_by(spec_accumulate(kernel, tape, acc, factor, derivative).1),
        spec_record_2(kernel, tape, NodeTypeClass::Mul, factor, derivative).0 is Ok,
        spec_record_2(
            kernel,
            spec_record_2(kernel, tape, NodeTypeClass::Mul, factor, derivative).1,
            NodeTypeClass::Add,
            acc,
            spec_record_2(kernel, tape, NodeTypeClass::Mul, factor, derivative).0->Ok_0,
        ).0 is Ok,
{
    let (product, tape_1) = spec_record_2(kernel, tape, NodeTypeClass::Mul, factor, derivative);
    lemma_record_2_extends(kernel, tape, NodeTypeClass::Mul, factor, derivative);
    lemma_record_2_extends(kernel, tape_1, NodeTypeClass::Add, acc, product->Ok_0);
    lemma_record_2(kernel, tape, NodeTypeClass::Mul, factor, derivative);
    lemma_record_2(kernel, tape_1, NodeTypeClass::Add, acc, product->Ok_0);
    lemma_extended_trans(
        tape,
        tape_1,
        spec_record_2(kernel, tape_1, NodeTypeClass::Add, acc, product->Ok_0).1,
    );
}

/// Adds `factor * derivative` to `acc`.
pub fn accumulate<K: Fn(NodeTypeClass, u64, u64) -> u64>(
    acc: f64ad,
    factor: f64ad,
    derivative: f64ad,
    computation_graph: &mut ComputationGraph,
    kernel: &K,
) -> (r: f64ad)
    requires
        pure_kernel(kernel),
        old(computation_graph).wf(),
        acc.sound_on(old(computation_graph).tape()),
        factor.sound_on(old(computation_graph).tape()),
        derivative.sound_on(old(computation_graph).tape()),
    ensures
        final(computation_graph).wf(),
        final(computation_graph).spec_name() == old(computation_graph).spec_name(),
        (r, final(computation_graph).tape()) == spec_accumulate(
            kernel,
            old(computation_graph).tape(),
            acc,
            factor,
            derivative,
        ),
        r.sound_on(final(computation_graph).tape()),
        old(computation_graph).tape().extended_by(final(computation_graph).tape()),
        acc is Plain && factor is Plain && derivative is Plain ==> r is Plain,
        acc is Plain && factor is Plain && derivative is Plain ==> final(computation_graph).tape()
            == old(computation_graph).tape(),
{
    let ghost tape = computation_graph.tape();
    let product = f64ad_universal_function_2_operands(
        factor,
        derivative,
        NodeTypeClass::Mul,
        computation_graph,
        kernel,
    );
    let ghost tape_1 = computation_graph.tape();
    proof {
        computation_graph.num_nodes_bound();
        lemma_record_2(kernel, tape, NodeTypeClass::Mul, factor, derivative);
        lemma_record_2_extends(kernel, tape, NodeTypeClass::Mul, factor, derivative);
    }
    let sum = f64ad_universal_function_2_operands(
        acc,
        product.unwrap(),
        NodeTypeClass::Add,
        computation_graph,
        kernel,
    );
    proof {
        computation_graph.num_nodes_bound();
        lemma_accumulate(kernel, tape, acc, factor, derivative);
    }
    sum.unwrap()
}

/// Every scalar of `derivs` is sound on `tape`.
pub open spec fn all_sound(derivs: Seq<f64ad>, tape: Tape) -> bool {
    forall|j: int| 0 <= j < derivs.len() ==> (#[trigger] derivs[j]).sound_on(tape)
}

/// Forward accumulation at node `i`: for each parent, the parent's derivative
/// times the local derivative is added to the derivative of the node. A leaf
/// is passed over.
pub open spec fn spec_forward_node<K: Fn(NodeTypeClass, u64, u64) -> u64>(
    kernel: &K,
    tape: Tape,
    derivs: Seq<f64ad>,
    i: int,
    record: bool,
) -> (Seq<f64ad>, Tape) {
    let node = tape.nodes[i];
    let (local, tape_1) = spec_derivatives(
        kernel,
        tape,
        node.node_type,
        node.parent_nodes,
        node.constant_operands,
        record,
    );
    if !node.node_type.spec_is_operation() {
        (derivs, tape)
    } else {
        let (first, tape_2) = spec_accumulate(
            kernel,
            tape_1,
            derivs[i],
            derivs[node.parent_nodes[0] as int],
            local[0],
        );
        if local.len() == 1 {
            (derivs.update(i, first), tape_2)
        } else {
            let (second, tape_3) = spec_accumulate(
                kernel,
                tape_2,
                first,
                derivs[node.parent_nodes[1] as int],
                local[1],
            );
            (derivs.update(i, second), tape_3)
        }
    }
}

/// Reverse accumulation at node `i`: for each parent, the node's derivative
/// times the local derivative is added to the derivative of the parent. A leaf
/// is passed over.
pub open spec fn spec_backward_node<K: Fn(NodeTypeClass, u64, u64) -> u64>(
    kernel: &K,
    tape: Tape,
    derivs: Seq<f64ad>,
    i: int,
    record: bool,
) -> (Seq<f64ad>, Tape) {
    let node = tape.nodes[i];
    let (local, tape_1) = spec_derivatives(
        kernel,
        tape,
        node.node_type,
        node.parent_nodes,
        node.constant_operands,
        record,
    );
    if !node.node_type.spec_is_operation() {
        (derivs, tape)
    } else {
        let p0 = node.parent_nodes[0] as int;
        let (first, tape_2) = spec_accumulate(kernel, tape_1, derivs[p0], derivs[i], local[0]);
        let derivs_1 = derivs.update(p0, first);
        if local.len() == 1 {
            (derivs_1, tape_2)
        } else {
            let p1 = node.parent_nodes[1] as int;
            let (second, tape_3) = spec_accumulate(
                kernel,
                tape_2,
                derivs_1[p1],
                derivs[i],
                local[1],
            );
            (derivs_1.update(p1, second), tape_3)
        }
    }
}

/// Every scalar of `derivs` is a plain number.
pub open spec fn all_plain(derivs: Seq<f64ad>) -> bool {
    forall|j: int| 0 <= j < derivs.len() ==> (#[trigger] derivs[j]) is Plain
}

/// Scalars that are sound on a tape are sound on every tape that continues it.
pub proof fn lemma_all_sound_extended(derivs: Seq<f64ad>, tape: Tape, later: Tape)
    requires
        all_sound(derivs, tape),
        tape.extended_by(later),
    ensures
        all_sound(derivs, later),
{
    assert forall|j: int| 0 <= j < derivs.len() implies (#[trigger] derivs[j]).sound_on(later) by {
        assert(derivs[j].sound_on(tape));
    }
}

/// Forward accumulation at the node `node_idx`.
pub fn forward_node<K: Fn(NodeTypeClass, u64, u64) -> u64>(
    derivs: &mut Vec<f64ad>,
    node_idx: usize,
    computation_graph: &mut ComputationGraph,
    add_to_computation_graph: bool,
    kernel: &K,
)
    requires
        pure_kernel(kernel),
        old(computation_graph).wf(),
        node_idx < old(derivs)@.len() <= old(computation_graph)@.len(),
        all_sound(old(derivs)@, old(computation_graph).tape()),
    ensures
        final(computation_graph).wf(),
        final(computation_graph).spec_name() == old(computation_graph).spec_name(),
        (final(derivs)@, final(computation_graph).tape()) == spec_forward_node(
            kernel,
            old(computation_graph).tape(),
            old(derivs)@,
            node_idx as int,
            add_to_computation_graph,
        ),
        final(derivs)@.len() == old(derivs)@.len(),
        all_sound(final(derivs)@, final(computation_graph).tape()),
        old(computation_graph).tape().extended_by(final(computation_graph).tape()),
        !add_to_computation_graph && all_plain(old(derivs)@) ==> all_plain(final(derivs)@)
            && final(computation_graph).tape() == old(computation_graph).tape(),
{
    let ghost tape = computation_graph.tape();
    let ghost before = derivs@;
    let node = computation_graph.node(node_idx);
    let node_type = node.node_type();
    assert(tape.nodes[node_idx as int].fits(node_idx as int));
    if !node_type.is_operation() {
        proof {
            assert(tape.nodes.take(tape.nodes.len() as int) =~= tape.nodes);
        }
        return ;
    }
    let parents = node.parent_nodes().duplicate();
    let constants = node.constant_operands().duplicate();
    let local = node_type.compute_derivatives_of_value_wrt_parent_values(
        &parents,
        &constants,
        computation_graph,
        add_to_computation_graph,
        kernel,
    );
    let ghost tape_1 = computation_graph.tape();
    proof {
        lemma_all_sound_extended(before, tape, tape_1);
    }
    assert(local@.len() >= 1);
    let p0 = parents.get(0);
    assert(before[p0 as int].sound_on(tape_1));
    assert(before[node_idx as int].sound_on(tape_1));
    assert(local@[0].sound_on(tape_1));
    let first = accumulate(derivs[node_idx], derivs[p0], local[0], computation_graph, kernel);
    let ghost tape_2 = computation_graph.tape();
    proof {
        lemma_all_sound_extended(before, tape_1, tape_2);
        lemma_extended_trans(tape, tape_1, tape_2);
    }
    if local.len() > 1 {
        let p1 = parents.get(1);
        assert(before[p1 as int].sound_on(tape_2));
        assert(local@[1].sound_on(tape_1));
        let second = accumulate(first, derivs[p1], local[1], computation_graph, kernel);
        proof {
            lemma_all_sound_extended(before, tape_2, computation_graph.tape());
            lemma_extended_trans(tape, tape_2, computation_graph.tape());
        }
        derivs.set(node_idx, second);
    } else {
        derivs.set(node_idx, first);
    }
}

/// Reverse accumulation at the node `node_idx`.
pub fn backward_node<K: Fn(NodeTypeClass, u64, u64) -> u64>(
    derivs: &mut Vec<f64ad>,
    node_idx: usize,
    computation_graph: &mut ComputationGraph,
    add_to_computation_graph: bool,
    kernel: &K,
)
    requires
        pure_kernel(kernel),
        old(computation_graph).wf(),
        node_idx < old(derivs)@.len() <= old(computation_graph)@.len(),
        all_sound(old(derivs)@, old(computation_graph).tape()),
    ensures
        final(computation_graph).wf(),
        final(computation_graph).spec_name() == old(computation_graph).spec_name(),
        (final(derivs)@, final(computation_graph).tape()) == spec_backward_node(
            kernel,
            old(computation_graph).tape(),
            old(derivs)@,
            node_idx as int,
            add_to_computation_graph,
        ),
        final(derivs)@.len() == old(derivs)@.len(),
        all_sound(final(derivs)@, final(computation_graph).tape()),
        old(computation_graph).tape().extended_by(final(computation_graph).tape()),
        !add_to_computation_graph && all_plain(old(derivs)@) ==> all_plain(final(derivs)@)
            && final(computation_graph).tape() == old(computation_graph).tape(),
{
    let ghost tape = computation_graph.tape();
    let ghost before = derivs@;
    let node = computation_graph.node(node_idx);
    let node_type = node.node_type();
    assert(tape.nodes[node_idx as int].fits(node_idx as int));
    if !node_type.is_operation() {
        proof {
            assert(tape.nodes.take(tape.nodes.len() as int) =~= tape.nodes);
        }
        return ;
    }
    let parents = node.parent_nodes().duplicate();
    let constants = node.constant_operands().duplicate();
    let local = node_type.compute_derivatives_of_value_wrt_parent_values(
        &parents,
        &constants,
        computation_graph,
        add_to_computation_graph,
        kernel,
    );
    let ghost tape_1 = computation_graph.tape();
    proof {
        lemma_all_sound_extended(before, tape, tape_1);
    }
    assert(local@.len() >= 1);
    let curr_deriv = derivs[node_idx];
    let p0 = parents.get(0);
    assert(before[p0 as int].sound_on(tape_1));
    assert(before[node_idx as int].sound_on(tape_1));
    assert(local@[0].sound_on(tape_1));
    let first = accumulate(derivs[p0], curr_deriv, local[0], computation_graph, kernel);
    let ghost tape_2 = computation_graph.tape();
    derivs.set(p0, first);
    let ghost middle = derivs@;
    proof {
        lemma_all_sound_extended(before, tape_1, tape_2);
        lemma_extended_trans(tape, tape_1, tape_2);
        assert(all_sound(middle, tape_2));
    }
    if local.len() > 1 {
        let p1 = parents.get(1);
        assert(middle[p1 as int].sound_on(tape_2));
        assert(before[node_idx as int].sound_on(tape_2));
        assert(local@[1].sound_on(tape_1));
        let second = accumulate(derivs[p1], curr_deriv, local[1], computation_graph, kernel);
        proof {
            lemma_all_sound_extended(middle, tape_2, computation_graph.tape());
            lemma_extended_trans(tape, tape_2, computation_graph.tape());
        }
        derivs.set(p1, second);
    }
}

/// Forward accumulation over the nodes `i`, `i + 1`, ... up to `l`, in this
/// order.
pub open spec fn spec_forward_from<K: Fn(NodeTypeClass, u64, u64) -> u64>(
    kernel: &K,
    tape: Tape,
    derivs: Seq<f64ad>,
    i: int,
    l: int,
    record: bool,
) -> (Seq<f64ad>, Tape)
    decreases l - i,
{
    if i >= l {
        (derivs, tape)
    } else {
        let (derivs_1, tape_1) = spec_forward_node(kernel, tape, derivs, i, record);
        spec_forward_from(kernel, tape_1, derivs_1, i + 1, l, record)
    }
}

/// Reverse accumulation over the nodes `i - 1`, `i - 2`, ... down to `0`, in
/// this order.
pub open spec fn spec_backward_from<K: Fn(NodeTypeClass, u64, u64) -> u64>(
    kernel: &K,
    tape: Tape,
    derivs: Seq<f64ad>,
    i: int,
    record: bool,
) -> (Seq<f64ad>, Tape)
    decreases i,
{
    if i <= 0 {
        (derivs, tape)
    } else {
        let (derivs_1, tape_1) = spec_backward_node(kernel, tape, derivs, i - 1, record);
        spec_backward_from(kernel, tape_1, derivs_1, i - 1, record)
    }
}

} // verus!
