use crate::grad::{
    all_plain, spec_accumulate, spec_backward_from, spec_backward_node, spec_forward_from,
    spec_forward_node,
};
use crate::kernel::{kernel_value, NodeTypeClass};
use crate::local_derivative::{differentiable, spec_derivatives, spec_rule_operands};
use crate::node::NodeView;
use crate::node_type::NodeType;
use crate::propagate::{spec_backwards_mode_grad, spec_forward_mode_grad, spec_seed};
use crate::record::Tape;
use crate::scalar::f64ad;
use crate::word::{spec_is_finite, ZERO};
use vstd::prelude::*;

verus! {

/// Whether node `j` is a parent of node `c`.
pub open spec fn feeds(nodes: Seq<NodeView>, j: int, c: int) -> bool {
    exists|k: int| 0 <= k < nodes[c].parent_nodes.len() && #[trigger] nodes[c].parent_nodes[k] == j
}

/// Whether node `j` is the node `seed` or one of the nodes that `seed` was
/// computed from, directly or through other nodes.
pub open spec fn upstream(nodes: Seq<NodeView>, seed: int, j: int) -> bool
    decreases seed - j,
{
    j == seed || (0 <= j < seed && exists|c: int|
        j < c <= seed && c < nodes.len() && #[trigger] feeds(nodes, j, c) && upstream(
            nodes,
            seed,
            c,
        ))
}

/// Adding zero times a finite number to zero gives zero.
pub open spec fn zero_absorbs<K: Fn(NodeTypeClass, u64, u64) -> u64>(kernel: &K) -> bool {
    forall|d: u64|
        spec_is_finite(d) ==> kernel_value(
            kernel,
            NodeTypeClass::Add,
            ZERO,
            #[trigger] kernel_value(kernel, NodeTypeClass::Mul, ZERO, d),
        ) == ZERO
}

/// The local derivatives of node `i` as plain numbers.
pub open spec fn numeric_local<K: Fn(NodeTypeClass, u64, u64) -> u64>(
    kernel: &K,
    tape: Tape,
    i: int,
) -> Seq<f64ad> {
    spec_derivatives(
        kernel,
        tape,
        tape.nodes[i].node_type,
        tape.nodes[i].parent_nodes,
        tape.nodes[i].constant_operands,
        false,
    ).0
}

/// Every local derivative on the tape is a finite number.
pub open spec fn local_derivatives_finite<K: Fn(NodeTypeClass, u64, u64) -> u64>(
    kernel: &K,
    tape: Tape,
) -> bool {
    forall|i: int, k: int|
        0 <= i < tape.nodes.len() && tape.nodes[i].node_type.spec_is_operation() && 0 <= k
            < tape.nodes[i].parent_nodes.len() ==> spec_is_finite(
            (#[trigger] numeric_local(kernel, tape, i)[k])->Plain_0,
        )
}

/// The derivative is the plain zero at every node that is not upstream of the
/// seed.
pub open spec fn zero_off_stream(nodes: Seq<NodeView>, seed: int, derivs: Seq<f64ad>) -> bool {
    forall|j: int|
        0 <= j < derivs.len() && !upstream(nodes, seed, j) ==> #[trigger] derivs[j] == f64ad::Plain(
            ZERO,
        )
}

/// An operation has as many rules as parents.
pub proof fn lemma_rules_count(node_type: NodeType)
    requires
        node_type.spec_is_operation(),
    ensures
        node_type.spec_derivative_rules().len() == node_type.spec_parent_count(),
{
}

/// Without recording, the local derivatives of an operation are plain numbers,
/// one for each parent, and the tape stays as it is.
pub proof fn lemma_numeric_local<K: Fn(NodeTypeClass, u64, u64) -> u64>(
    kernel: &K,
    tape: Tape,
    node_type: NodeType,
    parent_nodes: Seq<usize>,
    constant_operands: Seq<u64>,
)
    requires
        differentiable(tape, node_type, parent_nodes, constant_operands),
    ensures
        spec_derivatives(kernel, tape, node_type, parent_nodes, constant_operands, false).1
            == tape,
        spec_derivatives(kernel, tape, node_type, parent_nodes, constant_operands, false).0.len()
            == parent_nodes.len(),
        all_plain(
            spec_derivatives(kernel, tape, node_type, parent_nodes, constant_operands, false).0,
        ),
{
    lemma_rules_count(node_type);
    let rules = node_type.spec_derivative_rules();
    let operands = spec_rule_operands(tape, parent_nodes, constant_operands, false);
    rules[0].lemma_eval_plain(kernel, tape, operands);
    if rules.len() > 1 {
        rules[1].lemma_eval_plain(kernel, tape, operands);
    }
}

/// The parents of a node upstream of the seed are upstream of it too.
pub proof fn lemma_upstream_parent(nodes: Seq<NodeView>, seed: int, i: int, p: int)
    requires
        upstream(nodes, seed, i),
        0 <= p < i < nodes.len(),
        feeds(nodes, p, i),
    ensures
        upstream(nodes, seed, p),
{
}

/// One step of the reverse pass on plain derivatives leaves plain derivatives
/// and the same tape, and zero stays where the seed does not depend on.
pub proof fn lemma_backward_node_zero<K: Fn(NodeTypeClass, u64, u64) -> u64>(
    kernel: &K,
    tape: Tape,
    derivs: Seq<f64ad>,
    i: int,
    seed: int,
)
    requires
        tape.wf(),
        0 <= i < derivs.len() <= tape.nodes.len(),
        all_plain(derivs),
        zero_off_stream(tape.nodes, seed, derivs),
        zero_absorbs(kernel),
        local_derivatives_finite(kernel, tape),
    ensures
        spec_backward_node(kernel, tape, derivs, i, false).1 == tape,
        spec_backward_node(kernel, tape, derivs, i, false).0.len() == derivs.len(),
        all_plain(spec_backward_node(kernel, tape, derivs, i, false).0),
        zero_off_stream(tape.nodes, seed, spec_backward_node(kernel, tape, derivs, i, false).0),
{
    let node = tape.nodes[i];
    assert(node.fits(i));
    if node.node_type.spec_is_operation() {
        lemma_numeric_local(
            kernel,
            tape,
            node.node_type,
            node.parent_nodes,
            node.constant_operands,
        );
        let local = numeric_local(kernel, tape, i);
        let p0 = node.parent_nodes[0] as int;
        assert(feeds(tape.nodes, p0, i));
        assert(derivs[p0] is Plain && derivs[i] is Plain && local[0] is Plain);
        let (first, tape_2) = spec_accumulate(kernel, tape, derivs[p0], derivs[i], local[0]);
        assert(tape_2 == tape);
        assert(first is Plain);
        if !upstream(tape.nodes, seed, p0) {
            if upstream(tape.nodes, seed, i) {
                lemma_upstream_parent(tape.nodes, seed, i, p0);
            }
            assert(derivs[i] == f64ad::Plain(ZERO));
            assert(derivs[p0] == f64ad::Plain(ZERO));
            assert(spec_is_finite(local[0]->Plain_0));
            assert(first == f64ad::Plain(ZERO));
        }
        let derivs_1 = derivs.update(p0, first);
        assert(all_plain(derivs_1));
        assert(zero_off_stream(tape.nodes, seed, derivs_1));
        if local.len() > 1 {
            let p1 = node.parent_nodes[1] as int;
            assert(feeds(tape.nodes, p1, i));
            assert(derivs_1[p1] is Plain && local[1] is Plain);
            let (second, tape_3) = spec_accumulate(
                kernel,
                tape,
                derivs_1[p1],
                derivs[i],
                local[1],
            );
            assert(tape_3 == tape);
            assert(second is Plain);
            if !upstream(tape.nodes, seed, p1) {
                if upstream(tape.nodes, seed, i) {
                    lemma_upstream_parent(tape.nodes, seed, i, p1);
                }
                assert(derivs[i] == f64ad::Plain(ZERO));
                assert(derivs_1[p1] == f64ad::Plain(ZERO));
                assert(spec_is_finite(local[1]->Plain_0));
                assert(second == f64ad::Plain(ZERO));
            }
            let derivs_2 = derivs_1.update(p1, second);
            assert(all_plain(derivs_2));
            assert(zero_off_stream(tape.nodes, seed, derivs_2));
        }
    }
}

/// The reverse walk over the nodes below `i`, on plain derivatives, leaves
/// plain derivatives and the same tape, and zero stays where the seed does not
/// depend on.
pub proof fn lemma_backward_from_zero<K: Fn(NodeTypeClass, u64, u64) -> u64>(
    kernel: &K,
    tape: Tape,
    derivs: Seq<f64ad>,
    i: int,
    seed: int,
)
    requires
        tape.wf(),
        0 <= i <= derivs.len() <= tape.nodes.len(),
        all_plain(derivs),
        zero_off_stream(tape.nodes, seed, derivs),
        zero_absorbs(kernel),
        local_derivatives_finite(kernel, tape),
    ensures
        spec_backward_from(kernel, tape, derivs, i, false).1 == tape,
        spec_backward_from(kernel, tape, derivs, i, false).0.len() == derivs.len(),
        all_plain(spec_backward_from(kernel, tape, derivs, i, false).0),
        zero_off_stream(tape.nodes, seed, spec_backward_from(kernel, tape, derivs, i, false).0),
    decreases i,
{
    if i > 0 {
        lemma_backward_node_zero(kernel, tape, derivs, i - 1, seed);
        let (derivs_1, tape_1) = spec_backward_node(kernel, tape, derivs, i - 1, false);
        lemma_backward_from_zero(kernel, tape, derivs_1, i - 1, seed);
    }
}

/// A reverse pass that gives plain numbers gives exactly zero at every node
/// that the seed does not depend on, as long as every local derivative is
/// finite and the kernel adds zero times a finite number to zero without
/// residue.
pub proof fn law_reverse_pass_is_zero_off_stream<K: Fn(NodeTypeClass, u64, u64) -> u64>(
    kernel: &K,
    tape: Tape,
    seed_idx: usize,
    j: int,
)
    requires
        tape.wf(),
        seed_idx < tape.nodes.len(),
        0 <= j < tape.nodes.len(),
        !upstream(tape.nodes, seed_idx as int, j),
        zero_absorbs(kernel),
        local_derivatives_finite(kernel, tape),
    ensures
        spec_backwards_mode_grad(kernel, tape, seed_idx, false).1 == tape,
        spec_backwards_mode_grad(kernel, tape, seed_idx, false).0.len() == tape.nodes.len(),
        spec_backwards_mode_grad(kernel, tape, seed_idx, false).0[j] == f64ad::Plain(ZERO),
{
    let (derivs, tape_0) = spec_seed(tape, seed_idx, false);
    assert(upstream(tape.nodes, seed_idx as int, seed_idx as int));
    lemma_backward_from_zero(kernel, tape, derivs, tape.nodes.len() as int, seed_idx as int);
}

/// Whether node `j` is the node `seed` or one of the nodes computed from it,
/// directly or through other nodes.
pub open spec fn downstream(nodes: Seq<NodeView>, seed: int, j: int) -> bool
    decreases j,
{
    j == seed || (seed < j < nodes.len() && exists|p: int|
        0 <= p < j && #[trigger] feeds(nodes, p, j) && downstream(nodes, seed, p))
}

/// The derivative is the plain zero at every node that is not downstream of
/// the seed.
pub open spec fn zero_off_course(nodes: Seq<NodeView>, seed: int, derivs: Seq<f64ad>) -> bool {
    forall|j: int|
        0 <= j < derivs.len() && !downstream(nodes, seed, j) ==> #[trigger] derivs[j]
            == f64ad::Plain(ZERO)
}

/// One step of the forward pass on plain derivatives leaves plain derivatives
/// and the same tape, and zero stays where the seed has no part in.
pub proof fn lemma_forward_node_zero<K: Fn(NodeTypeClass, u64, u64) -> u64>(
    kernel: &K,
    tape: Tape,
    derivs: Seq<f64ad>,
    i: int,
    seed: int,
)
    requires
        tape.wf(),
        0 <= i < derivs.len() <= tape.nodes.len(),
        0 <= seed,
        all_plain(derivs),
        zero_off_course(tape.nodes, seed, derivs),
        zero_absorbs(kernel),
        local_derivatives_finite(kernel, tape),
    ensures
        spec_forward_node(kernel, tape, derivs, i, false).1 == tape,
        spec_forward_node(kernel, tape, derivs, i, false).0.len() == derivs.len(),
        all_plain(spec_forward_node(kernel, tape, derivs, i, false).0),
        zero_off_course(tape.nodes, seed, spec_forward_node(kernel, tape, derivs, i, false).0),
{
    let node = tape.nodes[i];
    assert(node.fits(i));
    if node.node_type.spec_is_operation() {
        lemma_numeric_local(
            kernel,
            tape,
            node.node_type,
            node.parent_nodes,
            node.constant_operands,
        );
        let local = numeric_local(kernel, tape, i);
        let p0 = node.parent_nodes[0] as int;
        assert(feeds(tape.nodes, p0, i));
        assert(derivs[p0] is Plain && derivs[i] is Plain && local[0] is Plain);
        let (first, tape_2) = spec_accumulate(kernel, tape, derivs[i], derivs[p0], local[0]);
        assert(tape_2 == tape);
        assert(first is Plain);
        if !downstream(tape.nodes, seed, i) {
            assert(!downstream(tape.nodes, seed, p0));
            assert(derivs[i] == f64ad::Plain(ZERO));
            assert(derivs[p0] == f64ad::Plain(ZERO));
            assert(spec_is_finite(local[0]->Plain_0));
            assert(first == f64ad::Plain(ZERO));
        }
        if local.len() > 1 {
            let p1 = node.parent_nodes[1] as int;
            assert(feeds(tape.nodes, p1, i));
            assert(derivs[p1] is Plain && local[1] is Plain);
            let (second, tape_3) = spec_accumulate(kernel, tape, first, derivs[p1], local[1]);
            assert(tape_3 == tape);
            assert(second is Plain);
            if !downstream(tape.nodes, seed, i) {
                assert(!downstream(tape.nodes, seed, p1));
                assert(derivs[p1] == f64ad::Plain(ZERO));
                assert(spec_is_finite(local[1]->Plain_0));
                assert(second == f64ad::Plain(ZERO));
            }
            assert(all_plain(derivs.update(i, second)));
            assert(zero_off_course(tape.nodes, seed, derivs.update(i, second)));
        } else {
            assert(all_plain(derivs.update(i, first)));
            assert(zero_off_course(tape.nodes, seed, derivs.update(i, first)));
        }
    }
}

/// The forward walk over the nodes from `i` on, on plain derivatives, leaves
/// plain derivatives and the same tape, and zero stays where the seed has no
/// part in.
pub proof fn lemma_forward_from_zero<K: Fn(NodeTypeClass, u64, u64) -> u64>(
    kernel: &K,
    tape: Tape,
    derivs: Seq<f64ad>,
    i: int,
    seed: int,
)
    requires
        tape.wf(),
        0 <= i <= derivs.len() <= tape.nodes.len(),
        0 <= seed,
        all_plain(derivs),
        zero_off_course(tape.nodes, seed, derivs),
        zero_absorbs(kernel),
        local_derivatives_finite(kernel, tape),
    ensures
        spec_forward_from(kernel, tape, derivs, i, derivs.len() as int, false).1 == tape,
        spec_forward_from(kernel, tape, derivs, i, derivs.len() as int, false).0.len()
            == derivs.len(),
        all_plain(spec_forward_from(kernel, tape, derivs, i, derivs.len() as int, false).0),
        zero_off_course(
            tape.nodes,
            seed,
            spec_forward_from(kernel, tape, derivs, i, derivs.len() as int, false).0,
        ),
    decreases derivs.len() - i,
{
    if i < derivs.len() {
        lemma_forward_node_zero(kernel, tape, derivs, i, seed);
        let (derivs_1, tape_1) = spec_forward_node(kernel, tape, derivs, i, false);
        lemma_forward_from_zero(kernel, tape, derivs_1, i + 1, seed);
    }
}

/// A forward pass that gives plain numbers gives exactly zero at every node
/// that the seed has no part in, as long as every local derivative is finite
/// and the kernel adds zero times a finite number to zero without residue.
pub proof fn law_forward_pass_is_zero_off_course<K: Fn(NodeTypeClass, u64, u64) -> u64>(
    kernel: &K,
    tape: Tape,
    seed_idx: usize,
    j: int,
)
    requires
        tape.wf(),
        seed_idx < tape.nodes.len(),
        0 <= j < tape.nodes.len(),
        !downstream(tape.nodes, seed_idx as int, j),
        zero_absorbs(kernel),
        local_derivatives_finite(kernel, tape),
    ensures
        spec_forward_mode_grad(kernel, tape, seed_idx, false).1 == tape,
        spec_forward_mode_grad(kernel, tape, seed_idx, false).0.len() == tape.nodes.len(),
        spec_forward_mode_grad(kernel, tape, seed_idx, false).0[j] == f64ad::Plain(ZERO),
{
    let (derivs, tape_0) = spec_seed(tape, seed_idx, false);
    assert(downstream(tape.nodes, seed_idx as int, seed_idx as int));
    lemma_forward_from_zero(kernel, tape, derivs, 0, seed_idx as int);
}

} // verus!
