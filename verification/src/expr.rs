use crate::graph::ComputationGraph;
use crate::kernel::{pure_kernel, NodeTypeClass};
use crate::node_type::NodeType;
use crate::record::{
    f64ad_universal_function_1_operand, f64ad_universal_function_2_operands, spec_operands_error,
    spec_operands_mode, spec_record_1, spec_record_2, Tape,
};
use crate::scalar::{f64ad, AdError};
use crate::word::{ge, spec_ge};
use vstd::prelude::*;

verus! {

/// An operand that a derivative rule reads.
#[derive(Clone, Copy, Debug, PartialEq, Eq, Structural)]
pub enum Leaf {
    /// A fixed number, given by its word.
    Literal(u64),
    /// The first parent of the node.
    Parent0,
    /// The second parent of the node.
    Parent1,
    /// The plain operand stored with the node.
    Constant,
}

/// A derivative rule: an expression over the operands of a node.
#[derive(Debug)]
pub enum Expr {
    Leaf(Leaf),
    /// A function of one operand.
    Unary(NodeTypeClass, Box<Expr>),
    /// A function of two operands.
    Binary(NodeTypeClass, Box<Expr>, Box<Expr>),
    /// The product of an expression with itself, the expression taken once.
    Square(Box<Expr>),
    /// The third field if the first operand's value is at least the second's,
    /// the fourth if not.
    Choice(Leaf, Leaf, u64, u64),
}

/// The operands that a rule is evaluated on.
#[derive(Clone, Copy, Debug)]
pub struct Operands {
    pub parent_0: f64ad,
    pub parent_1: f64ad,
    pub constant: u64,
}

impl f64ad {
    /// A scalar that operations on `tape` accept: a plain number, or a handle
    /// that `tape` could have issued.
    pub open spec fn sound_on(self, tape: Tape) -> bool {
        match self {
            f64ad::Plain(_) => true,
            f64ad::Var(v) => v.computation_graph_id == tape.id && v.mode == tape.mode && v.node_idx
                < tape.nodes.len(),
        }
    }
}

impl Tape {
    /// `later` continues this tape: same identity and mode, the same nodes and
    /// maybe more.
    pub open spec fn extended_by(self, later: Tape) -> bool {
        &&& later.id == self.id
        &&& later.mode == self.mode
        &&& self.nodes.len() <= later.nodes.len()
        &&& later.nodes.take(self.nodes.len() as int) == self.nodes
    }
}

impl Operands {
    pub open spec fn sound_on(self, tape: Tape) -> bool {
        self.parent_0.sound_on(tape) && self.parent_1.sound_on(tape)
    }

    pub open spec fn spec_leaf(self, leaf: Leaf) -> f64ad {
        match leaf {
            Leaf::Literal(w) => f64ad::Plain(w),
            Leaf::Parent0 => self.parent_0,
            Leaf::Parent1 => self.parent_1,
            Leaf::Constant => f64ad::Plain(self.constant),
        }
    }

    pub fn leaf(&self, leaf: Leaf) -> (r: f64ad)
        ensures
            r == self.spec_leaf(leaf),
    {
        match leaf {
            Leaf::Literal(w) => f64ad::Plain(w),
            Leaf::Parent0 => self.parent_0,
            Leaf::Parent1 => self.parent_1,
            Leaf::Constant => f64ad::Plain(self.constant),
        }
    }
}

impl Expr {
    /// Every function in the expression has as many operands as it takes.
    pub open spec fn well_formed(self) -> bool
        decreases self,
    {
        match self {
            Expr::Leaf(_) => true,
            Expr::Unary(class, a) => class.spec_is_unary() && a.well_formed(),
            Expr::Binary(class, a, b) => class.spec_is_binary() && a.well_formed()
                && b.well_formed(),
            Expr::Square(a) => a.well_formed(),
            Expr::Choice(_, _, _, _) => true,
        }
    }

    /// The scalar that the expression evaluates to and the tape that is left,
    /// operands evaluated left to right and each function applied as the
    /// recording of scalars prescribes: plain operands give a plain number,
    /// a recorded operand makes a new node. The first error ends it.
    pub open spec fn spec_eval<K: Fn(NodeTypeClass, u64, u64) -> u64>(
        self,
        kernel: &K,
        tape: Tape,
        operands: Operands,
    ) -> (Result<f64ad, AdError>, Tape)
        decreases self,
    {
        match self {
            Expr::Leaf(leaf) => (Ok(operands.spec_leaf(leaf)), tape),
            Expr::Unary(class, a) => {
                let (x, tape_x) = a.spec_eval(kernel, tape, operands);
                match x {
                    Ok(x) => spec_record_1(kernel, tape_x, class, x),
                    Err(e) => (Err(e), tape_x),
                }
            },
            Expr::Binary(class, a, b) => {
                let (x, tape_x) = a.spec_eval(kernel, tape, operands);
                match x {
                    Ok(x) => {
                        let (y, tape_y) = b.spec_eval(kernel, tape_x, operands);
                        match y {
                            Ok(y) => spec_record_2(kernel, tape_y, class, x, y),
                            Err(e) => (Err(e), tape_y),
                        }
                    },
                    Err(e) => (Err(e), tape_x),
                }
            },
            Expr::Square(a) => {
                let (x, tape_x) = a.spec_eval(kernel, tape, operands);
                match x {
                    Ok(x) => spec_record_2(kernel, tape_x, NodeTypeClass::Mul, x, x),
                    Err(e) => (Err(e), tape_x),
                }
            },
            Expr::Choice(a, b, then, otherwise) => {
                match (
                    operands.spec_leaf(a).spec_value(tape),
                    operands.spec_leaf(b).spec_value(tape),
                ) {
                    (Ok(x), Ok(y)) => (
                        Ok(
                            f64ad::Plain(
                                if spec_ge(x, y) {
                                    then
                                } else {
                                    otherwise
                                },
                            ),
                        ),
                        tape,
                    ),
                    (Err(e), _) => (Err(e), tape),
                    (_, Err(e)) => (Err(e), tape),
                }
            },
        }
    }
}

impl Tape {
    /// The nodes can be counted in a machine word.
    pub open spec fn bounded(self) -> bool {
        self.nodes.len() <= usize::MAX
    }
}

/// What holds of the outcome of an evaluation or of one recorded operation on
/// operands in range: the tape is well formed, the result is in range on it,
/// and sound operands give a sound result.
pub open spec fn orderly(outcome: (Result<f64ad, AdError>, Tape), operands_sound: bool) -> bool {
    let (r, after) = outcome;
    &&& after.wf()
    &&& r is Ok ==> r->Ok_0.in_range(after)
    &&& operands_sound ==> r is Ok && r->Ok_0.sound_on(after)
}

/// One operation of two operands continues the tape.
pub proof fn lemma_record_2_extends<K: Fn(NodeTypeClass, u64, u64) -> u64>(
    kernel: &K,
    tape: Tape,
    class: NodeTypeClass,
    lhs: f64ad,
    rhs: f64ad,
)
    ensures
        tape.extended_by(spec_record_2(kernel, tape, class, lhs, rhs).1),
{
    let (r, after) = spec_record_2(kernel, tape, class, lhs, rhs);
    assert(after.nodes.take(tape.nodes.len() as int) =~= tape.nodes);
}

/// One operation of one operand continues the tape.
pub proof fn lemma_record_1_extends<K: Fn(NodeTypeClass, u64, u64) -> u64>(
    kernel: &K,
    tape: Tape,
    class: NodeTypeClass,
    lhs: f64ad,
)
    ensures
        tape.extended_by(spec_record_1(kernel, tape, class, lhs).1),
{
    let (r, after) = spec_record_1(kernel, tape, class, lhs);
    assert(after.nodes.take(tape.nodes.len() as int) =~= tape.nodes);
}

/// One operation of two operands leaves an orderly outcome.
pub proof fn lemma_record_2<K: Fn(NodeTypeClass, u64, u64) -> u64>(
    kernel: &K,
    tape: Tape,
    class: NodeTypeClass,
    lhs: f64ad,
    rhs: f64ad,
)
    requires
        tape.wf(),
        class.spec_is_binary(),
        lhs.in_range(tape),
        rhs.in_range(tape),
        spec_record_2(kernel, tape, class, lhs, rhs).1.bounded(),
    ensures
        orderly(
            spec_record_2(kernel, tape, class, lhs, rhs),
            lhs.sound_on(tape) && rhs.sound_on(tape),
        ),
{
    let (r, after) = spec_record_2(kernel, tape, class, lhs, rhs);
    if spec_operands_error(tape, class, lhs, rhs) is None && !(lhs is Plain && rhs is Plain) {
        let node_type = NodeType::spec_from_class(class, spec_operands_mode(lhs, rhs)).unwrap();
        assert(after.nodes.len() == tape.nodes.len() + 1);
        assert(after.nodes.last().fits(tape.nodes.len() as int));
        assert forall|i: int| 0 <= i < after.nodes.len() implies (#[trigger] after.nodes[i]).fits(
            i,
        ) by {
            if i < tape.nodes.len() {
                assert(after.nodes[i] == tape.nodes[i]);
            }
        }
    }
}

/// One operation of one operand leaves an orderly outcome.
pub proof fn lemma_record_1<K: Fn(NodeTypeClass, u64, u64) -> u64>(
    kernel: &K,
    tape: Tape,
    class: NodeTypeClass,
    lhs: f64ad,
)
    requires
        tape.wf(),
        class.spec_is_unary(),
        lhs.in_range(tape),
        spec_record_1(kernel, tape, class, lhs).1.bounded(),
    ensures
        orderly(spec_record_1(kernel, tape, class, lhs), lhs.sound_on(tape)),
{
    let (r, after) = spec_record_1(kernel, tape, class, lhs);
    if r is Ok && lhs is Var {
        assert(after.nodes.len() == tape.nodes.len() + 1);
        assert(after.nodes.last().fits(tape.nodes.len() as int));
        assert forall|i: int| 0 <= i < after.nodes.len() implies (#[trigger] after.nodes[i]).fits(
            i,
        ) by {
            if i < tape.nodes.len() {
                assert(after.nodes[i] == tape.nodes[i]);
            }
        }
    }
}

/// Tapes continue one another transitively.
pub proof fn lemma_extended_trans(a: Tape, b: Tape, c: Tape)
    requires
        a.extended_by(b),
        b.extended_by(c),
    ensures
        a.extended_by(c),
{
    assert(c.nodes.take(a.nodes.len() as int) =~= b.nodes.take(a.nodes.len() as int));
}

impl Expr {
    /// Evaluation continues the tape.
    pub proof fn lemma_eval_extends<K: Fn(NodeTypeClass, u64, u64) -> u64>(
        self,
        kernel: &K,
        tape: Tape,
        operands: Operands,
    )
        ensures
            tape.extended_by(self.spec_eval(kernel, tape, operands).1),
        decreases self,
    {
        assert(tape.nodes.take(tape.nodes.len() as int) =~= tape.nodes);
        match self {
            Expr::Leaf(_) => {},
            Expr::Unary(class, a) => {
                a.lemma_eval_extends(kernel, tape, operands);
                let (x, tape_x) = a.spec_eval(kernel, tape, operands);
                if let Ok(x) = x {
                    lemma_record_1_extends(kernel, tape_x, class, x);
                    lemma_extended_trans(tape, tape_x, spec_record_1(kernel, tape_x, class, x).1);
                }
            },
            Expr::Binary(class, a, b) => {
                a.lemma_eval_extends(kernel, tape, operands);
                let (x, tape_x) = a.spec_eval(kernel, tape, operands);
                if let Ok(x) = x {
                    b.lemma_eval_extends(kernel, tape_x, operands);
                    let (y, tape_y) = b.spec_eval(kernel, tape_x, operands);
                    lemma_extended_trans(tape, tape_x, tape_y);
                    if let Ok(y) = y {
                        lemma_record_2_extends(kernel, tape_y, class, x, y);
                        lemma_extended_trans(
                            tape,
                            tape_y,
                            spec_record_2(kernel, tape_y, class, x, y).1,
                        );
                    }
                }
            },
            Expr::Square(a) => {
                a.lemma_eval_extends(kernel, tape, operands);
                let (x, tape_x) = a.spec_eval(kernel, tape, operands);
                if let Ok(x) = x {
                    lemma_record_2_extends(kernel, tape_x, NodeTypeClass::Mul, x, x);
                    lemma_extended_trans(
                        tape,
                        tape_x,
                        spec_record_2(kernel, tape_x, NodeTypeClass::Mul, x, x).1,
                    );
                }
            },
            Expr::Choice(_, _, _, _) => {},
        }
    }

    /// Evaluating a well-formed expression leaves an orderly outcome, as long
    /// as the nodes can still be counted.
    pub proof fn lemma_eval<K: Fn(NodeTypeClass, u64, u64) -> u64>(
        self,
        kernel: &K,
        tape: Tape,
        operands: Operands,
    )
        requires
            tape.wf(),
            self.well_formed(),
            operands.parent_0.in_range(tape),
            operands.parent_1.in_range(tape),
            self.spec_eval(kernel, tape, operands).1.bounded(),
        ensures
            orderly(self.spec_eval(kernel, tape, operands), operands.sound_on(tape)),
        decreases self,
    {
        match self {
            Expr::Leaf(_) => {},
            Expr::Unary(class, a) => {
                let (x, tape_x) = a.spec_eval(kernel, tape, operands);
                a.lemma_eval_extends(kernel, tape, operands);
                if let Ok(x) = x {
                    lemma_record_1_extends(kernel, tape_x, class, x);
                }
                a.lemma_eval(kernel, tape, operands);
                if let Ok(x) = x {
                    lemma_record_1(kernel, tape_x, class, x);
                }
            },
            Expr::Binary(class, a, b) => {
                let (x, tape_x) = a.spec_eval(kernel, tape, operands);
                a.lemma_eval_extends(kernel, tape, operands);
                if let Ok(x) = x {
                    let (y, tape_y) = b.spec_eval(kernel, tape_x, operands);
                    b.lemma_eval_extends(kernel, tape_x, operands);
                    if let Ok(y) = y {
                        lemma_record_2_extends(kernel, tape_y, class, x, y);
                    }
                    a.lemma_eval(kernel, tape, operands);
                    b.lemma_eval(kernel, tape_x, operands);
                    if let Ok(y) = y {
                        lemma_record_2(kernel, tape_y, class, x, y);
                    }
                } else {
                    a.lemma_eval(kernel, tape, operands);
                }
            },
            Expr::Square(a) => {
                let (x, tape_x) = a.spec_eval(kernel, tape, operands);
                a.lemma_eval_extends(kernel, tape, operands);
                if let Ok(x) = x {
                    lemma_record_2_extends(kernel, tape_x, NodeTypeClass::Mul, x, x);
                }
                a.lemma_eval(kernel, tape, operands);
                if let Ok(x) = x {
                    lemma_record_2(kernel, tape_x, NodeTypeClass::Mul, x, x);
                }
            },
            Expr::Choice(_, _, _, _) => {},
        }
    }
}

impl Expr {
    /// On plain operands an expression evaluates to a plain number and leaves
    /// the tape as it was.
    pub proof fn lemma_eval_plain<K: Fn(NodeTypeClass, u64, u64) -> u64>(
        self,
        kernel: &K,
        tape: Tape,
        operands: Operands,
    )
        requires
            operands.parent_0 is Plain,
            operands.parent_1 is Plain,
        ensures
            self.spec_eval(kernel, tape, operands).1 == tape,
            self.spec_eval(kernel, tape, operands).0 is Ok,
            self.spec_eval(kernel, tape, operands).0->Ok_0 is Plain,
        decreases self,
    {
        match self {
            Expr::Leaf(_) => {},
            Expr::Unary(class, a) => {
                a.lemma_eval_plain(kernel, tape, operands);
            },
            Expr::Binary(class, a, b) => {
                a.lemma_eval_plain(kernel, tape, operands);
                b.lemma_eval_plain(kernel, tape, operands);
            },
            Expr::Square(a) => {
                a.lemma_eval_plain(kernel, tape, operands);
            },
            Expr::Choice(_, _, _, _) => {},
        }
    }
}

impl Expr {
    /// Evaluates the expression on `operands`, recording on
    /// `computation_graph` whatever involves a recorded scalar.
    pub fn eval<K: Fn(NodeTypeClass, u64, u64) -> u64>(
        &self,
        operands: &Operands,
        computation_graph: &mut ComputationGraph,
        kernel: &K,
    ) -> (r: Result<f64ad, AdError>)
        requires
            pure_kernel(kernel),
            old(computation_graph).wf(),
            self.well_formed(),
            operands.parent_0.in_range(old(computation_graph).tape()),
            operands.parent_1.in_range(old(computation_graph).tape()),
        ensures
            final(computation_graph).wf(),
            final(computation_graph).spec_name() == old(computation_graph).spec_name(),
            (r, final(computation_graph).tape()) == self.spec_eval(
                kernel,
                old(computation_graph).tape(),
                *operands,
            ),
        decreases self,
    {
        let ghost tape = computation_graph.tape();
        match self {
            Expr::Leaf(leaf) => Ok(operands.leaf(*leaf)),
            Expr::Unary(class, a) => {
                let x = a.eval(operands, computation_graph, kernel)?;
                proof {
                    computation_graph.num_nodes_bound();
                    a.lemma_eval(kernel, tape, *operands);
                }
                f64ad_universal_function_1_operand(x, *class, computation_graph, kernel)
            },
            Expr::Binary(class, a, b) => {
                let x = a.eval(operands, computation_graph, kernel)?;
                let ghost tape_x = computation_graph.tape();
                proof {
                    computation_graph.num_nodes_bound();
                    a.lemma_eval(kernel, tape, *operands);
                    a.lemma_eval_extends(kernel, tape, *operands);
                }
                let y = b.eval(operands, computation_graph, kernel)?;
                proof {
                    computation_graph.num_nodes_bound();
                    b.lemma_eval(kernel, tape_x, *operands);
                    b.lemma_eval_extends(kernel, tape_x, *operands);
                }
                f64ad_universal_function_2_operands(x, y, *class, computation_graph, kernel)
            },
            Expr::Square(a) => {
                let x = a.eval(operands, computation_graph, kernel)?;
                proof {
                    computation_graph.num_nodes_bound();
                    a.lemma_eval(kernel, tape, *operands);
                }
                f64ad_universal_function_2_operands(
                    x,
                    x,
                    NodeTypeClass::Mul,
                    computation_graph,
                    kernel,
                )
            },
            Expr::Choice(a, b, then, otherwise) => {
                let x = operands.leaf(*a).value(computation_graph)?;
                let y = operands.leaf(*b).value(computation_graph)?;
                Ok(
                    f64ad::Plain(
                        if ge(x, y) {
                            *then
                        } else {
                            *otherwise
                        },
                    ),
                )
            },
        }
    }
}

} // verus!
