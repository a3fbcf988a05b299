use crate::expr::{Expr, Operands};
use crate::kernel::NodeTypeClass;
use crate::propagate::{spec_grad_error, spec_wrt};
use crate::record::{spec_record_1, spec_record_2, Tape};
use crate::scalar::{f64ad, AdError};
use vstd::prelude::*;

verus! {

/// Operations on plain numbers give a plain number and leave every tape as it
/// is: no node is made.
pub proof fn law_plain_operations_record_nothing<K: Fn(NodeTypeClass, u64, u64) -> u64>(
    kernel: &K,
    tape: Tape,
    class: NodeTypeClass,
    a: u64,
    b: u64,
)
    ensures
        spec_record_2(kernel, tape, class, f64ad::Plain(a), f64ad::Plain(b)).0 is Ok,
        spec_record_2(kernel, tape, class, f64ad::Plain(a), f64ad::Plain(b)).0->Ok_0 is Plain,
        spec_record_2(kernel, tape, class, f64ad::Plain(a), f64ad::Plain(b)).1 == tape,
        spec_record_1(kernel, tape, class, f64ad::Plain(a)).0 is Ok,
        spec_record_1(kernel, tape, class, f64ad::Plain(a)).0->Ok_0 is Plain,
        spec_record_1(kernel, tape, class, f64ad::Plain(a)).1 == tape,
{
}

/// A whole expression over plain operands gives a plain number and makes no
/// node.
pub proof fn law_plain_expressions_record_nothing<K: Fn(NodeTypeClass, u64, u64) -> u64>(
    kernel: &K,
    tape: Tape,
    expr: Expr,
    operands: Operands,
)
    requires
        operands.parent_0 is Plain,
        operands.parent_1 is Plain,
    ensures
        expr.spec_eval(kernel, tape, operands).0 is Ok,
        expr.spec_eval(kernel, tape, operands).0->Ok_0 is Plain,
        expr.spec_eval(kernel, tape, operands).1.nodes.len() == tape.nodes.len(),
        expr.spec_eval(kernel, tape, operands).1 == tape,
{
    expr.lemma_eval_plain(kernel, tape, operands);
}

/// Once a graph has taken a new identity, every handle issued under the former
/// one is turned down: it has no value, it cannot be looked up among
/// derivatives, it cannot seed a pass and no operation accepts it.
pub proof fn law_stale_handles_are_rejected<K: Fn(NodeTypeClass, u64, u64) -> u64>(
    kernel: &K,
    before: Tape,
    after: Tape,
    handle: f64ad,
    other: f64ad,
    class: NodeTypeClass,
    derivs: Seq<f64ad>,
    derivs_graph_id: usize,
)
    requires
        handle.current_on(before),
        after.id != before.id,
        other is Plain || other.current_on(after),
    ensures
        handle.spec_value(after) is Err,
        handle.spec_value(after)->Err_0 is StaleHandle,
        spec_wrt(derivs, derivs_graph_id, handle, after) is Err,
        spec_wrt(derivs, derivs_graph_id, handle, after)->Err_0 is StaleHandle,
        spec_grad_error(handle, after) is Some,
        spec_grad_error(handle, after)->Some_0 is StaleHandle,
        spec_record_1(kernel, after, class, handle).0 is Err,
        spec_record_2(kernel, after, class, handle, other).0 is Err,
        spec_record_2(kernel, after, class, other, handle).0 is Err,
        spec_record_1(kernel, after, class, handle).1 == after,
        spec_record_2(kernel, after, class, handle, other).1 == after,
        spec_record_2(kernel, after, class, other, handle).1 == after,
{
}

/// Recorded scalars of two graphs cannot be combined, whichever tape the
/// operation is tried on, and the tape stays as it is.
pub proof fn law_graph_mismatch_is_rejected<K: Fn(NodeTypeClass, u64, u64) -> u64>(
    kernel: &K,
    tape: Tape,
    class: NodeTypeClass,
    lhs: f64ad,
    rhs: f64ad,
)
    requires
        lhs is Var,
        rhs is Var,
        lhs->Var_0.computation_graph_id != rhs->Var_0.computation_graph_id,
    ensures
        spec_record_2(kernel, tape, class, lhs, rhs).0 is Err,
        spec_record_2(kernel, tape, class, lhs, rhs).1 == tape,
        lhs->Var_0.mode == rhs->Var_0.mode ==> spec_record_2(kernel, tape, class, lhs, rhs).0
            == Err::<f64ad, AdError>(
            AdError::GraphMismatch {
                operation: class,
                lhs_graph: lhs->Var_0.computation_graph_id,
                rhs_graph: rhs->Var_0.computation_graph_id,
            },
        ),
{
}

} // verus!
