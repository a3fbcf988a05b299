use crate::expr::lemma_extended_trans;
use crate::grad::all_sound;
use crate::graph::ComputationGraph;
use crate::jacobian::JacobianEntrySignature;
use crate::jacobian_output::{
    same_order_within_signatures, sorted, JacobianEntry, JacobianOutput,
};
use crate::kernel::{pure_kernel, NodeTypeClass};
use crate::propagate::{
    BackwardsModeGradOutput, ForwardModeGradOutput,
    spec_backwards_mode_grad, spec_forward_mode_grad, spec_grad_error, spec_wrt,
};
use crate::record::Tape;
use crate::scalar::{f64ad, AdError};
use vstd::prelude::*;

verus! {

/// The signature `signature` differentiated once more, by input `input_idx`.
pub open spec fn spec_extend(signature: (usize, Seq<usize>), input_idx: int) -> (
    usize,
    Seq<usize>,
) {
    (signature.0, signature.1.push(input_idx as usize))
}

/// One forward pass from `input` and the row of entries that it adds to
/// `taken`, or the error that ends it.
#[verifier::opaque]
pub open spec fn spec_forward_step<K: Fn(NodeTypeClass, u64, u64) -> u64>(
    kernel: &K,
    tape: Tape,
    taken: Seq<((usize, Seq<usize>), f64ad)>,
    input: f64ad,
    entries: Seq<((usize, Seq<usize>), f64ad)>,
    record: bool,
    input_idx: int,
) -> (Result<Seq<((usize, Seq<usize>), f64ad)>, AdError>, Tape) {
    match spec_grad_error(input, tape) {
        Some(e) => (Err(e), tape),
        None => {
            let (derivs, tape_1) = spec_forward_mode_grad(
                kernel,
                tape,
                input->Var_0.node_idx,
                record,
            );
            (
                spec_forward_row(taken, derivs, tape_1, entries, input_idx, entries.len() as int),
                tape_1,
            )
        },
    }
}

/// One forward pass per input, in the order of the inputs; after each pass,
/// one new entry per entry of `entries`, in their order. The first error ends
/// it. `n` is the number of inputs taken.
pub open spec fn spec_jacobian_forward<K: Fn(NodeTypeClass, u64, u64) -> u64>(
    kernel: &K,
    tape: Tape,
    inputs: Seq<f64ad>,
    entries: Seq<((usize, Seq<usize>), f64ad)>,
    record: bool,
    n: int,
) -> (Result<Seq<((usize, Seq<usize>), f64ad)>, AdError>, Tape)
    decreases n,
{
    if n <= 0 {
        (Ok(Seq::empty()), tape)
    } else {
        let (taken, tape_1) = spec_jacobian_forward(kernel, tape, inputs, entries, record, n - 1);
        match taken {
            Err(e) => (Err(e), tape_1),
            Ok(taken) => spec_forward_step(
                kernel,
                tape_1,
                taken,
                inputs[n - 1],
                entries,
                record,
                n - 1,
            ),
        }
    }
}

/// The entries that one forward pass adds to `taken`: for each of the first
/// `m` entries, its derivative by the input `input_idx`.
pub open spec fn spec_forward_row(
    taken: Seq<((usize, Seq<usize>), f64ad)>,
    derivs: Seq<f64ad>,
    tape: Tape,
    entries: Seq<((usize, Seq<usize>), f64ad)>,
    input_idx: int,
    m: int,
) -> Result<Seq<((usize, Seq<usize>), f64ad)>, AdError>
    decreases m,
{
    if m <= 0 {
        Ok(taken)
    } else {
        match spec_forward_row(taken, derivs, tape, entries, input_idx, m - 1) {
            Err(e) => Err(e),
            Ok(row) => match spec_wrt(derivs, tape.id, entries[m - 1].1, tape) {
                Err(e) => Err(e),
                Ok(value) => Ok(row.push((spec_extend(entries[m - 1].0, input_idx), value))),
            },
        }
    }
}

/// One reverse pass from the entry `entry` and the row of entries that it adds
/// to `taken`, or the error that ends it.
#[verifier::opaque]
pub open spec fn spec_backward_step<K: Fn(NodeTypeClass, u64, u64) -> u64>(
    kernel: &K,
    tape: Tape,
    taken: Seq<((usize, Seq<usize>), f64ad)>,
    inputs: Seq<f64ad>,
    entry: ((usize, Seq<usize>), f64ad),
    record: bool,
) -> (Result<Seq<((usize, Seq<usize>), f64ad)>, AdError>, Tape) {
    match spec_grad_error(entry.1, tape) {
        Some(e) => (Err(e), tape),
        None => {
            let (derivs, tape_1) = spec_backwards_mode_grad(
                kernel,
                tape,
                entry.1->Var_0.node_idx,
                record,
            );
            (
                spec_backward_row(taken, derivs, tape_1, inputs, entry.0, inputs.len() as int),
                tape_1,
            )
        },
    }
}

/// One reverse pass per entry of `entries`, in their order; after each pass,
/// one new entry per input, in the order of the inputs. The first error ends
/// it. `n` is the number of entries taken.
pub open spec fn spec_jacobian_backward<K: Fn(NodeTypeClass, u64, u64) -> u64>(
    kernel: &K,
    tape: Tape,
    inputs: Seq<f64ad>,
    entries: Seq<((usize, Seq<usize>), f64ad)>,
    record: bool,
    n: int,
) -> (Result<Seq<((usize, Seq<usize>), f64ad)>, AdError>, Tape)
    decreases n,
{
    if n <= 0 {
        (Ok(Seq::empty()), tape)
    } else {
        let (taken, tape_1) = spec_jacobian_backward(kernel, tape, inputs, entries, record, n - 1);
        match taken {
            Err(e) => (Err(e), tape_1),
            Ok(taken) => spec_backward_step(kernel, tape_1, taken, inputs, entries[n - 1], record),
        }
    }
}

/// The entries that one reverse pass adds to `taken`: the derivative of the
/// entry `signature` by each of the first `m` inputs.
pub open spec fn spec_backward_row(
    taken: Seq<((usize, Seq<usize>), f64ad)>,
    derivs: Seq<f64ad>,
    tape: Tape,
    inputs: Seq<f64ad>,
    signature: (usize, Seq<usize>),
    m: int,
) -> Result<Seq<((usize, Seq<usize>), f64ad)>, AdError>
    decreases m,
{
    if m <= 0 {
        Ok(taken)
    } else {
        match spec_backward_row(taken, derivs, tape, inputs, signature, m - 1) {
            Err(e) => Err(e),
            Ok(row) => match spec_wrt(derivs, tape.id, inputs[m - 1], tape) {
                Err(e) => Err(e),
                Ok(value) => Ok(row.push((spec_extend(signature, m - 1), value))),
            },
        }
    }
}

/// One more order of differentiation: every entry differentiated by every
/// input, in forward mode when there are no more inputs than entries and in
/// reverse mode otherwise.
pub open spec fn spec_jacobian_round<K: Fn(NodeTypeClass, u64, u64) -> u64>(
    kernel: &K,
    tape: Tape,
    inputs: Seq<f64ad>,
    entries: Seq<((usize, Seq<usize>), f64ad)>,
    record: bool,
) -> (Result<Seq<((usize, Seq<usize>), f64ad)>, AdError>, Tape) {
    if inputs.len() <= entries.len() {
        spec_jacobian_forward(kernel, tape, inputs, entries, record, inputs.len() as int)
    } else {
        spec_jacobian_backward(kernel, tape, inputs, entries, record, entries.len() as int)
    }
}

/// The table before any differentiation: each output under its index.
pub open spec fn spec_jacobian_start(outputs: Seq<f64ad>) -> Seq<((usize, Seq<usize>), f64ad)> {
    Seq::new(outputs.len(), |i: int| ((i as usize, Seq::<usize>::empty()), outputs[i]))
}

/// The first `rounds` of `order` rounds of differentiation. Derivatives are
/// recorded in every round but the last of the `order`.
pub open spec fn spec_jacobian_rounds<K: Fn(NodeTypeClass, u64, u64) -> u64>(
    kernel: &K,
    tape: Tape,
    inputs: Seq<f64ad>,
    outputs: Seq<f64ad>,
    order: int,
    rounds: int,
) -> (Result<Seq<((usize, Seq<usize>), f64ad)>, AdError>, Tape)
    decreases rounds,
{
    if rounds <= 0 {
        (Ok(spec_jacobian_start(outputs)), tape)
    } else {
        let (entries, tape_1) = spec_jacobian_rounds(
            kernel,
            tape,
            inputs,
            outputs,
            order,
            rounds - 1,
        );
        match entries {
            Err(e) => (Err(e), tape_1),
            Ok(entries) => spec_jacobian_round(
                kernel,
                tape_1,
                inputs,
                entries,
                rounds != order,
            ),
        }
    }
}

/// Every value of the table is in range on `tape`.
pub open spec fn values_in_range(entries: Seq<((usize, Seq<usize>), f64ad)>, tape: Tape) -> bool {
    forall|i: int| 0 <= i < entries.len() ==> (#[trigger] entries[i]).1.in_range(tape)
}

/// Every scalar of `scalars` is in range on `tape`.
pub open spec fn all_in_range(scalars: Seq<f64ad>, tape: Tape) -> bool {
    forall|i: int| 0 <= i < scalars.len() ==> (#[trigger] scalars[i]).in_range(tape)
}

/// Once a row has failed, it stays failed.
pub proof fn lemma_forward_row_error_sticks(
    taken: Seq<((usize, Seq<usize>), f64ad)>,
    derivs: Seq<f64ad>,
    tape: Tape,
    entries: Seq<((usize, Seq<usize>), f64ad)>,
    input_idx: int,
    m: int,
    n: int,
)
    requires
        m <= n,
        spec_forward_row(taken, derivs, tape, entries, input_idx, m) is Err,
    ensures
        spec_forward_row(taken, derivs, tape, entries, input_idx, n) == spec_forward_row(
            taken,
            derivs,
            tape,
            entries,
            input_idx,
            m,
        ),
    decreases n - m,
{
    if m < n {
        lemma_forward_row_error_sticks(taken, derivs, tape, entries, input_idx, m, n - 1);
    }
}

/// Once a row has failed, it stays failed.
pub proof fn lemma_backward_row_error_sticks(
    taken: Seq<((usize, Seq<usize>), f64ad)>,
    derivs: Seq<f64ad>,
    tape: Tape,
    inputs: Seq<f64ad>,
    signature: (usize, Seq<usize>),
    m: int,
    n: int,
)
    requires
        m <= n,
        spec_backward_row(taken, derivs, tape, inputs, signature, m) is Err,
    ensures
        spec_backward_row(taken, derivs, tape, inputs, signature, n) == spec_backward_row(
            taken,
            derivs,
            tape,
            inputs,
            signature,
            m,
        ),
    decreases n - m,
{
    if m < n {
        lemma_backward_row_error_sticks(taken, derivs, tape, inputs, signature, m, n - 1);
    }
}

/// Once the forward passes have failed, they stay failed.
pub proof fn lemma_forward_error_sticks<K: Fn(NodeTypeClass, u64, u64) -> u64>(
    kernel: &K,
    tape: Tape,
    inputs: Seq<f64ad>,
    entries: Seq<((usize, Seq<usize>), f64ad)>,
    record: bool,
    m: int,
    n: int,
)
    requires
        m <= n,
        spec_jacobian_forward(kernel, tape, inputs, entries, record, m).0 is Err,
    ensures
        spec_jacobian_forward(kernel, tape, inputs, entries, record, n) == spec_jacobian_forward(
            kernel,
            tape,
            inputs,
            entries,
            record,
            m,
        ),
    decreases n - m,
{
    if m < n {
        lemma_forward_error_sticks(kernel, tape, inputs, entries, record, m, n - 1);
    }
}

/// Once the reverse passes have failed, they stay failed.
pub proof fn lemma_backward_error_sticks<K: Fn(NodeTypeClass, u64, u64) -> u64>(
    kernel: &K,
    tape: Tape,
    inputs: Seq<f64ad>,
    entries: Seq<((usize, Seq<usize>), f64ad)>,
    record: bool,
    m: int,
    n: int,
)
    requires
        m <= n,
        spec_jacobian_backward(kernel, tape, inputs, entries, record, m).0 is Err,
    ensures
        spec_jacobian_backward(kernel, tape, inputs, entries, record, n) == spec_jacobian_backward(
            kernel,
            tape,
            inputs,
            entries,
            record,
            m,
        ),
    decreases n - m,
{
    if m < n {
        lemma_backward_error_sticks(kernel, tape, inputs, entries, record, m, n - 1);
    }
}

/// What a driver function returned, with the table given by its view.
pub open spec fn outcome(r: Result<JacobianOutput, AdError>) -> Result<
    Seq<((usize, Seq<usize>), f64ad)>,
    AdError,
> {
    match r {
        Ok(table) => Ok(table@),
        Err(e) => Err(e),
    }
}

/// Appends to `out` the derivative of every entry of `outputs` by the input
/// `input_idx`, looked up in `grad`.
fn forward_row(
    grad: &ForwardModeGradOutput,
    outputs: &JacobianOutput,
    input_idx: usize,
    out: &mut JacobianOutput,
    computation_graph: &ComputationGraph,
) -> (r: Result<(), AdError>)
    requires
        forall|i: int|
            0 <= i < outputs@.len() && (#[trigger] outputs@[i]).1.current_on(
                computation_graph.tape(),
            ) ==> outputs@[i].1->Var_0.node_idx < grad@.len(),
        grad.spec_graph_id() == computation_graph.spec_id(),
        all_sound(grad@, computation_graph.tape()),
        values_in_range(old(out)@, computation_graph.tape()),
    ensures
        match r {
            Ok(_) => Ok::<Seq<((usize, Seq<usize>), f64ad)>, AdError>(final(out)@),
            Err(e) => Err::<Seq<((usize, Seq<usize>), f64ad)>, AdError>(e),
        } == spec_forward_row(
            old(out)@,
            grad@,
            computation_graph.tape(),
            outputs@,
            input_idx as int,
            outputs@.len() as int,
        ),
        r is Ok ==> values_in_range(final(out)@, computation_graph.tape()),
{
    let ghost tape = computation_graph.tape();
    let ghost taken = out@;
    let mut j: usize = 0;
    while j < outputs.len()
        invariant
            j <= outputs@.len(),
            taken == old(out)@,
            tape == computation_graph.tape(),
            forall|i: int|
                0 <= i < outputs@.len() && (#[trigger] outputs@[i]).1.current_on(tape)
                    ==> outputs@[i].1->Var_0.node_idx < grad@.len(),
            grad.spec_graph_id() == tape.id,
            all_sound(grad@, tape),
            values_in_range(out@, tape),
            Ok::<Seq<((usize, Seq<usize>), f64ad)>, AdError>(out@) == spec_forward_row(
                taken,
                grad@,
                tape,
                outputs@,
                input_idx as int,
                j as int,
            ),
        decreases outputs@.len() - j,
    {
        let output = outputs.entry(j);
        assert(output@ == outputs@[j as int]);
        let value = match grad.wrt(&output.value(), computation_graph) {
            Ok(value) => value,
            Err(e) => {
                proof {
                    assert(spec_forward_row(
                        taken,
                        grad@,
                        tape,
                        outputs@,
                        input_idx as int,
                        j + 1,
                    ) == Err::<Seq<((usize, Seq<usize>), f64ad)>, AdError>(e));
                    lemma_forward_row_error_sticks(
                        taken,
                        grad@,
                        tape,
                        outputs@,
                        input_idx as int,
                        j + 1,
                        outputs@.len() as int,
                    );
                }
                return Err(e);
            },
        };
        let mut signature = output.signature().duplicate();
        signature.add_input_wrt(input_idx);
        let ghost before = out@;
        out.push(JacobianEntry::new(signature, value));
        proof {
            assert(value.sound_on(tape));
            assert forall|i: int| 0 <= i < out@.len() implies (#[trigger] out@[i]).1.in_range(
                tape,
            ) by {
                if i < before.len() {
                    assert(out@[i] == before[i]);
                }
            }
        }
        j += 1;
    }
    Ok(())
}

/// Appends to `out` the derivative of the entry `signature` by every input,
/// looked up in `grad`.
fn backward_row(
    grad: &BackwardsModeGradOutput,
    inputs: &[f64ad],
    signature: &JacobianEntrySignature,
    out: &mut JacobianOutput,
    computation_graph: &ComputationGraph,
) -> (r: Result<(), AdError>)
    requires
        forall|i: int|
            0 <= i < inputs@.len() && (#[trigger] inputs@[i]).current_on(computation_graph.tape())
                ==> inputs@[i]->Var_0.node_idx < grad@.len(),
        grad.spec_graph_id() == computation_graph.spec_id(),
        all_sound(grad@, computation_graph.tape()),
        values_in_range(old(out)@, computation_graph.tape()),
    ensures
        match r {
            Ok(_) => Ok::<Seq<((usize, Seq<usize>), f64ad)>, AdError>(final(out)@),
            Err(e) => Err::<Seq<((usize, Seq<usize>), f64ad)>, AdError>(e),
        } == spec_backward_row(
            old(out)@,
            grad@,
            computation_graph.tape(),
            inputs@,
            signature@,
            inputs@.len() as int,
        ),
        r is Ok ==> values_in_range(final(out)@, computation_graph.tape()),
{
    let ghost tape = computation_graph.tape();
    let ghost taken = out@;
    let mut j: usize = 0;
    while j < inputs.len()
        invariant
            j <= inputs@.len(),
            taken == old(out)@,
            tape == computation_graph.tape(),
            forall|i: int|
                0 <= i < inputs@.len() && (#[trigger] inputs@[i]).current_on(tape)
                    ==> inputs@[i]->Var_0.node_idx < grad@.len(),
            grad.spec_graph_id() == tape.id,
            all_sound(grad@, tape),
            values_in_range(out@, tape),
            Ok::<Seq<((usize, Seq<usize>), f64ad)>, AdError>(out@) == spec_backward_row(
                taken,
                grad@,
                tape,
                inputs@,
                signature@,
                j as int,
            ),
        decreases inputs@.len() - j,
    {
        let input = inputs[j];
        assert(input == inputs@[j as int]);
        let value = match grad.wrt(&input, computation_graph) {
            Ok(value) => value,
            Err(e) => {
                proof {
                    assert(spec_backward_row(taken, grad@, tape, inputs@, signature@, j + 1)
                        == Err::<Seq<((usize, Seq<usize>), f64ad)>, AdError>(e));
                    lemma_backward_row_error_sticks(
                        taken,
                        grad@,
                        tape,
                        inputs@,
                        signature@,
                        j + 1,
                        inputs@.len() as int,
                    );
                }
                return Err(e);
            },
        };
        let mut extended = signature.duplicate();
        extended.add_input_wrt(j);
        let ghost before = out@;
        out.push(JacobianEntry::new(extended, value));
        proof {
            assert(value.sound_on(tape));
            assert forall|i: int| 0 <= i < out@.len() implies (#[trigger] out@[i]).1.in_range(
                tape,
            ) by {
                if i < before.len() {
                    assert(out@[i] == before[i]);
                }
            }
        }
        j += 1;
    }
    Ok(())
}

/// Scalars in range on a tape are in range on every tape that continues it.
pub proof fn lemma_in_range_extended(
    inputs: Seq<f64ad>,
    entries: Seq<((usize, Seq<usize>), f64ad)>,
    tape: Tape,
    later: Tape,
)
    requires
        all_in_range(inputs, tape),
        values_in_range(entries, tape),
        tape.extended_by(later),
    ensures
        all_in_range(inputs, later),
        values_in_range(entries, later),
{
    assert forall|i: int| 0 <= i < inputs.len() implies (#[trigger] inputs[i]).in_range(later) by {
        assert(inputs[i].in_range(tape));
    }
    assert forall|i: int| 0 <= i < entries.len() implies (#[trigger] entries[i]).1.in_range(
        later,
    ) by {
        assert(entries[i].1.in_range(tape));
    }
}

/// One forward pass from `input` and its row of entries, appended to `out`.
fn forward_step<K: Fn(NodeTypeClass, u64, u64) -> u64>(
    input: f64ad,
    input_idx: usize,
    outputs: &JacobianOutput,
    out: &mut JacobianOutput,
    add_to_computation_graph: bool,
    computation_graph: &mut ComputationGraph,
    kernel: &K,
) -> (r: Result<(), AdError>)
    requires
        pure_kernel(kernel),
        old(computation_graph).wf(),
        input.in_range(old(computation_graph).tape()),
        values_in_range(outputs@, old(computation_graph).tape()),
        values_in_range(old(out)@, old(computation_graph).tape()),
    ensures
        final(computation_graph).wf(),
        final(computation_graph).spec_name() == old(computation_graph).spec_name(),
        (
            match r {
                Ok(_) => Ok::<Seq<((usize, Seq<usize>), f64ad)>, AdError>(final(out)@),
                Err(e) => Err::<Seq<((usize, Seq<usize>), f64ad)>, AdError>(e),
            },
            final(computation_graph).tape(),
        ) == spec_forward_step(
            kernel,
            old(computation_graph).tape(),
            old(out)@,
            input,
            outputs@,
            add_to_computation_graph,
            input_idx as int,
        ),
        old(computation_graph).tape().extended_by(final(computation_graph).tape()),
        r is Ok ==> values_in_range(final(out)@, final(computation_graph).tape()),
{
    reveal(spec_forward_step);
    let ghost tape_1 = computation_graph.tape();
    let grad = input.forward_mode_grad(add_to_computation_graph, computation_graph, kernel)?;
    let ghost tape_2 = computation_graph.tape();
    proof {
        lemma_in_range_extended(Seq::<f64ad>::empty(), old(out)@, tape_1, tape_2);
        assert forall|i: int|
            0 <= i < outputs@.len() && (#[trigger] outputs@[i]).1.current_on(
                tape_2,
            ) implies outputs@[i].1->Var_0.node_idx < grad@.len() by {
            assert(outputs@[i].1.in_range(tape_1));
        }
    }
    forward_row(&grad, outputs, input_idx, out, computation_graph)
}

/// One reverse pass from the entry `output` and its row of entries, appended
/// to `out`.
fn backward_step<K: Fn(NodeTypeClass, u64, u64) -> u64>(
    inputs: &[f64ad],
    output: &JacobianEntry,
    out: &mut JacobianOutput,
    add_to_computation_graph: bool,
    computation_graph: &mut ComputationGraph,
    kernel: &K,
) -> (r: Result<(), AdError>)
    requires
        pure_kernel(kernel),
        old(computation_graph).wf(),
        output@.1.in_range(old(computation_graph).tape()),
        all_in_range(inputs@, old(computation_graph).tape()),
        values_in_range(old(out)@, old(computation_graph).tape()),
    ensures
        final(computation_graph).wf(),
        final(computation_graph).spec_name() == old(computation_graph).spec_name(),
        (
            match r {
                Ok(_) => Ok::<Seq<((usize, Seq<usize>), f64ad)>, AdError>(final(out)@),
                Err(e) => Err::<Seq<((usize, Seq<usize>), f64ad)>, AdError>(e),
            },
            final(computation_graph).tape(),
        ) == spec_backward_step(
            kernel,
            old(computation_graph).tape(),
            old(out)@,
            inputs@,
            output@,
            add_to_computation_graph,
        ),
        old(computation_graph).tape().extended_by(final(computation_graph).tape()),
        r is Ok ==> values_in_range(final(out)@, final(computation_graph).tape()),
{
    reveal(spec_backward_step);
    let ghost tape_1 = computation_graph.tape();
    let grad = output.value().backwards_mode_grad(
        add_to_computation_graph,
        computation_graph,
        kernel,
    )?;
    let ghost tape_2 = computation_graph.tape();
    proof {
        lemma_in_range_extended(inputs@, old(out)@, tape_1, tape_2);
        assert forall|i: int|
            0 <= i < inputs@.len() && (#[trigger] inputs@[i]).current_on(
                tape_2,
            ) implies inputs@[i]->Var_0.node_idx < grad@.len() by {
            assert(inputs@[i].in_range(tape_1));
        }
    }
    backward_row(&grad, inputs, output.signature(), out, computation_graph)
}

/// Differentiates every entry of `outputs` by every input: in forward mode,
/// one pass per input, when there are no more inputs than entries; in reverse
/// mode, one pass per entry, otherwise.
pub fn f64ad_jacobian_internal_nonparallel<K: Fn(NodeTypeClass, u64, u64) -> u64>(
    inputs: &[f64ad],
    outputs: &JacobianOutput,
    add_to_computation_graph: bool,
    computation_graph: &mut ComputationGraph,
    kernel: &K,
) -> (r: Result<JacobianOutput, AdError>)
    requires
        pure_kernel(kernel),
        old(computation_graph).wf(),
        all_in_range(inputs@, old(computation_graph).tape()),
        values_in_range(outputs@, old(computation_graph).tape()),
    ensures
        final(computation_graph).wf(),
        final(computation_graph).spec_name() == old(computation_graph).spec_name(),
        (outcome(r), final(computation_graph).tape()) == spec_jacobian_round(
            kernel,
            old(computation_graph).tape(),
            inputs@,
            outputs@,
            add_to_computation_graph,
        ),
        old(computation_graph).tape().extended_by(final(computation_graph).tape()),
        r is Ok ==> values_in_range(r->Ok_0@, final(computation_graph).tape()),
{
    let ghost tape = computation_graph.tape();
    proof {
        assert(tape.nodes.take(tape.nodes.len() as int) =~= tape.nodes);
    }
    let mut out = JacobianOutput::new();
    let num_inputs = inputs.len();
    let num_outputs = outputs.len();
    if num_inputs <= num_outputs {
        let mut input_idx: usize = 0;
        while input_idx < num_inputs
            invariant
                pure_kernel(kernel),
                computation_graph.wf(),
                computation_graph.spec_name() == old(computation_graph).spec_name(),
                num_inputs == inputs@.len(),
                inputs@.len() <= outputs@.len(),
                tape == old(computation_graph).tape(),
                input_idx <= num_inputs,
                tape.extended_by(computation_graph.tape()),
                all_in_range(inputs@, computation_graph.tape()),
                values_in_range(outputs@, computation_graph.tape()),
                values_in_range(out@, computation_graph.tape()),
                (Ok::<Seq<((usize, Seq<usize>), f64ad)>, AdError>(out@), computation_graph.tape())
                    == spec_jacobian_forward(
                    kernel,
                    tape,
                    inputs@,
                    outputs@,
                    add_to_computation_graph,
                    input_idx as int,
                ),
            decreases num_inputs - input_idx,
        {
            let ghost tape_1 = computation_graph.tape();
            let ghost taken = out@;
            let input = inputs[input_idx];
            assert(inputs@[input_idx as int].in_range(tape_1));
            let stepped = forward_step(
                input,
                input_idx,
                outputs,
                &mut out,
                add_to_computation_graph,
                computation_graph,
                kernel,
            );
            proof {
                lemma_extended_trans(tape, tape_1, computation_graph.tape());
                lemma_in_range_extended(inputs@, outputs@, tape_1, computation_graph.tape());
            }
            if let Err(e) = stepped {
                proof {
                    assert(spec_jacobian_forward(
                        kernel,
                        tape,
                        inputs@,
                        outputs@,
                        add_to_computation_graph,
                        input_idx + 1,
                    ) == (
                        Err::<Seq<((usize, Seq<usize>), f64ad)>, AdError>(e),
                        computation_graph.tape(),
                    ));
                    lemma_forward_error_sticks(
                        kernel,
                        tape,
                        inputs@,
                        outputs@,
                        add_to_computation_graph,
                        input_idx + 1,
                        num_inputs as int,
                    );
                }
                return Err(e);
            }
            input_idx += 1;
        }
    } else {
        let mut output_idx: usize = 0;
        while output_idx < num_outputs
            invariant
                pure_kernel(kernel),
                computation_graph.wf(),
                computation_graph.spec_name() == old(computation_graph).spec_name(),
                num_outputs == outputs@.len(),
                inputs@.len() > outputs@.len(),
                tape == old(computation_graph).tape(),
                output_idx <= num_outputs,
                tape.extended_by(computation_graph.tape()),
                all_in_range(inputs@, computation_graph.tape()),
                values_in_range(outputs@, computation_graph.tape()),
                values_in_range(out@, computation_graph.tape()),
                (Ok::<Seq<((usize, Seq<usize>), f64ad)>, AdError>(out@), computation_graph.tape())
                    == spec_jacobian_backward(
                    kernel,
                    tape,
                    inputs@,
                    outputs@,
                    add_to_computation_graph,
                    output_idx as int,
                ),
            decreases num_outputs - output_idx,
        {
            let ghost tape_1 = computation_graph.tape();
            let output = outputs.entry(output_idx);
            assert(outputs@[output_idx as int].1.in_range(tape_1));
            let stepped = backward_step(
                inputs,
                output,
                &mut out,
                add_to_computation_graph,
                computation_graph,
                kernel,
            );
            proof {
                lemma_extended_trans(tape, tape_1, computation_graph.tape());
                lemma_in_range_extended(inputs@, outputs@, tape_1, computation_graph.tape());
            }
            if let Err(e) = stepped {
                proof {
                    assert(spec_jacobian_backward(
                        kernel,
                        tape,
                        inputs@,
                        outputs@,
                        add_to_computation_graph,
                        output_idx + 1,
                    ) == (
                        Err::<Seq<((usize, Seq<usize>), f64ad)>, AdError>(e),
                        computation_graph.tape(),
                    ));
                    lemma_backward_error_sticks(
                        kernel,
                        tape,
                        inputs@,
                        outputs@,
                        add_to_computation_graph,
                        output_idx + 1,
                        num_outputs as int,
                    );
                }
                return Err(e);
            }
            output_idx += 1;
        }
    }
    Ok(out)
}

/// Once a round has failed, the rounds stay failed.
pub proof fn lemma_rounds_error_sticks<K: Fn(NodeTypeClass, u64, u64) -> u64>(
    kernel: &K,
    tape: Tape,
    inputs: Seq<f64ad>,
    outputs: Seq<f64ad>,
    order: int,
    m: int,
    n: int,
)
    requires
        m <= n,
        spec_jacobian_rounds(kernel, tape, inputs, outputs, order, m).0 is Err,
    ensures
        spec_jacobian_rounds(kernel, tape, inputs, outputs, order, n) == spec_jacobian_rounds(
            kernel,
            tape,
            inputs,
            outputs,
            order,
            m,
        ),
    decreases n - m,
{
    if m < n {
        lemma_rounds_error_sticks(kernel, tape, inputs, outputs, order, m, n - 1);
    }
}

/// One round of differentiation.
pub fn f64ad_jacobian_internal<K: Fn(NodeTypeClass, u64, u64) -> u64>(
    inputs: &[f64ad],
    outputs: &JacobianOutput,
    add_to_computation_graph: bool,
    computation_graph: &mut ComputationGraph,
    kernel: &K,
) -> (r: Result<JacobianOutput, AdError>)
    requires
        pure_kernel(kernel),
        old(computation_graph).wf(),
        all_in_range(inputs@, old(computation_graph).tape()),
        values_in_range(outputs@, old(computation_graph).tape()),
    ensures
        final(computation_graph).wf(),
        final(computation_graph).spec_name() == old(computation_graph).spec_name(),
        (outcome(r), final(computation_graph).tape()) == spec_jacobian_round(
            kernel,
            old(computation_graph).tape(),
            inputs@,
            outputs@,
            add_to_computation_graph,
        ),
        old(computation_graph).tape().extended_by(final(computation_graph).tape()),
        r is Ok ==> values_in_range(r->Ok_0@, final(computation_graph).tape()),
{
    f64ad_jacobian_internal_nonparallel(
        inputs,
        outputs,
        add_to_computation_graph,
        computation_graph,
        kernel,
    )
}

/// The derivatives of order `order` of every output by every combination of
/// inputs, as a table sorted by signature. Every order but the last is
/// recorded on the graph, so that the next can differentiate it.
pub fn f64ad_jacobian<K: Fn(NodeTypeClass, u64, u64) -> u64>(
    inputs: &[f64ad],
    outputs: &[f64ad],
    order: usize,
    computation_graph: &mut ComputationGraph,
    kernel: &K,
) -> (r: Result<JacobianOutput, AdError>)
    requires
        pure_kernel(kernel),
        old(computation_graph).wf(),
        all_in_range(inputs@, old(computation_graph).tape()),
        all_in_range(outputs@, old(computation_graph).tape()),
    ensures
        final(computation_graph).wf(),
        final(computation_graph).spec_name() == old(computation_graph).spec_name(),
        final(computation_graph).tape() == spec_jacobian_rounds(
            kernel,
            old(computation_graph).tape(),
            inputs@,
            outputs@,
            order as int,
            order as int,
        ).1,
        match r {
            Err(e) => spec_jacobian_rounds(
                kernel,
                old(computation_graph).tape(),
                inputs@,
                outputs@,
                order as int,
                order as int,
            ).0 == Err::<Seq<((usize, Seq<usize>), f64ad)>, AdError>(e),
            Ok(table) => {
                &&& sorted(table@)
                &&& spec_jacobian_rounds(
                    kernel,
                    old(computation_graph).tape(),
                    inputs@,
                    outputs@,
                    order as int,
                    order as int,
                ).0 is Ok
                &&& table@.to_multiset() == spec_jacobian_rounds(
                    kernel,
                    old(computation_graph).tape(),
                    inputs@,
                    outputs@,
                    order as int,
                    order as int,
                ).0->Ok_0.to_multiset()
                &&& same_order_within_signatures(
                    spec_jacobian_rounds(
                        kernel,
                        old(computation_graph).tape(),
                        inputs@,
                        outputs@,
                        order as int,
                        order as int,
                    ).0->Ok_0,
                    table@,
                )
            },
        },
{
    let ghost tape = computation_graph.tape();
    proof {
        assert(tape.nodes.take(tape.nodes.len() as int) =~= tape.nodes);
    }
    let mut out = JacobianOutput::new();
    let mut output_idx: usize = 0;
    while output_idx < outputs.len()
        invariant
            output_idx <= outputs@.len(),
            out@ == spec_jacobian_start(outputs@).take(output_idx as int),
        decreases outputs@.len() - output_idx,
    {
        out.push_entry(Vec::new(), output_idx, outputs[output_idx]);
        output_idx += 1;
        assert(out@ =~= spec_jacobian_start(outputs@).take(output_idx as int));
    }
    assert(out@ =~= spec_jacobian_start(outputs@));
    let mut curr_order: usize = 0;
    while curr_order < order
        invariant
            pure_kernel(kernel),
            computation_graph.wf(),
            computation_graph.spec_name() == old(computation_graph).spec_name(),
            tape == old(computation_graph).tape(),
            curr_order <= order,
            tape.extended_by(computation_graph.tape()),
            all_in_range(inputs@, computation_graph.tape()),
            values_in_range(out@, computation_graph.tape()),
            (Ok::<Seq<((usize, Seq<usize>), f64ad)>, AdError>(out@), computation_graph.tape())
                == spec_jacobian_rounds(
                kernel,
                tape,
                inputs@,
                outputs@,
                order as int,
                curr_order as int,
            ),
        decreases order - curr_order,
    {
        let ghost tape_1 = computation_graph.tape();
        let add_to_computation_graph = !(curr_order == order - 1);
        let round = f64ad_jacobian_internal(
            inputs,
            &out,
            add_to_computation_graph,
            computation_graph,
            kernel,
        );
        proof {
            lemma_extended_trans(tape, tape_1, computation_graph.tape());
            lemma_in_range_extended(
                inputs@,
                Seq::<((usize, Seq<usize>), f64ad)>::empty(),
                tape_1,
                computation_graph.tape(),
            );
            assert(spec_jacobian_rounds(
                kernel,
                tape,
                inputs@,
                outputs@,
                order as int,
                curr_order + 1,
            ) == (outcome(round), computation_graph.tape()));
        }
        match round {
            Ok(next) => {
                out = next;
            },
            Err(e) => {
                proof {
                    lemma_rounds_error_sticks(
                        kernel,
                        tape,
                        inputs@,
                        outputs@,
                        order as int,
                        curr_order + 1,
                        order as int,
                    );
                }
                return Err(e);
            },
        }
        curr_order += 1;
    }
    out.sort();
    Ok(out)
}

} // verus!
