use crate::expr::{Expr, Leaf};
use crate::kernel::NodeTypeClass;
use crate::node_type::NodeType;
use crate::word::{NEG_ONE, ONE, TWO, ZERO};
use vstd::prelude::*;

verus! {

/// The word of Euler's number, the base of the natural logarithm.
pub const E: u64 = 0x4005_BF0A_8B14_5769;

pub open spec fn spec_lit(w: u64) -> Expr {
    Expr::Leaf(Leaf::Literal(w))
}

pub open spec fn spec_p0() -> Expr {
    Expr::Leaf(Leaf::Parent0)
}

pub open spec fn spec_p1() -> Expr {
    Expr::Leaf(Leaf::Parent1)
}

pub open spec fn spec_c() -> Expr {
    Expr::Leaf(Leaf::Constant)
}

pub open spec fn spec_un(class: NodeTypeClass, a: Expr) -> Expr {
    Expr::Unary(class, Box::new(a))
}

pub open spec fn spec_bin(class: NodeTypeClass, a: Expr, b: Expr) -> Expr {
    Expr::Binary(class, Box::new(a), Box::new(b))
}

pub open spec fn spec_sq(a: Expr) -> Expr {
    Expr::Square(Box::new(a))
}

pub open spec fn spec_choice(a: Leaf, b: Leaf, then: u64, otherwise: u64) -> Expr {
    Expr::Choice(a, b, then, otherwise)
}

/// The number with the word `w`.
#[verifier::when_used_as_spec(spec_lit)]
pub fn lit(w: u64) -> (r: Expr)
    ensures
        r == spec_lit(w),
        r.well_formed(),
{
    Expr::Leaf(Leaf::Literal(w))
}

/// The first parent.
#[verifier::when_used_as_spec(spec_p0)]
pub fn p0() -> (r: Expr)
    ensures
        r == spec_p0(),
        r.well_formed(),
{
    Expr::Leaf(Leaf::Parent0)
}

/// The second parent.
#[verifier::when_used_as_spec(spec_p1)]
pub fn p1() -> (r: Expr)
    ensures
        r == spec_p1(),
        r.well_formed(),
{
    Expr::Leaf(Leaf::Parent1)
}

/// The plain operand.
#[verifier::when_used_as_spec(spec_c)]
pub fn c() -> (r: Expr)
    ensures
        r == spec_c(),
        r.well_formed(),
{
    Expr::Leaf(Leaf::Constant)
}

/// The function `class` of one operand, applied to `a`.
#[verifier::when_used_as_spec(spec_un)]
pub fn un(class: NodeTypeClass, a: Expr) -> (r: Expr)
    requires
        class.spec_is_unary(),
        a.well_formed(),
    ensures
        r == spec_un(class, a),
        r.well_formed(),
{
    Expr::Unary(class, Box::new(a))
}

/// The function `class` of two operands, applied to `a` and `b`.
#[verifier::when_used_as_spec(spec_bin)]
pub fn bin(class: NodeTypeClass, a: Expr, b: Expr) -> (r: Expr)
    requires
        class.spec_is_binary(),
        a.well_formed(),
        b.well_formed(),
    ensures
        r == spec_bin(class, a, b),
        r.well_formed(),
{
    Expr::Binary(class, Box::new(a), Box::new(b))
}

/// `a` times itself.
#[verifier::when_used_as_spec(spec_sq)]
pub fn sq(a: Expr) -> (r: Expr)
    requires
        a.well_formed(),
    ensures
        r == spec_sq(a),
        r.well_formed(),
{
    Expr::Square(Box::new(a))
}

/// `then` where `a >= b`, `otherwise` elsewhere.
#[verifier::when_used_as_spec(spec_choice)]
pub fn choice(a: Leaf, b: Leaf, then: u64, otherwise: u64) -> (r: Expr)
    ensures
        r == spec_choice(a, b, then, otherwise),
        r.well_formed(),
{
    Expr::Choice(a, b, then, otherwise)
}

impl NodeType {
    /// The derivative rules of the catalogue: for each parent of a node with
    /// this tag, the partial derivative of the node's value with respect to
    /// that parent, as an expression over the node's operands. Leaves have none.
    ///
    /// The natural logarithm is written as the logarithm to base `E`. The
    /// derivative of the absolute value is `1` at zero; a maximum or minimum of
    /// equal operands counts as the left one, be it the parent or the plain
    /// operand; steps of the rounding functions are ignored.
    pub open spec fn spec_derivative_rules(self) -> Seq<Expr> {
        match self {
            NodeType::Unset | NodeType::InputVar => seq![],
            NodeType::AdditionOneParentLeft => seq![lit(ONE)],
            NodeType::AdditionOneParentRight => seq![lit(ONE)],
            NodeType::AdditionTwoParents => seq![lit(ONE), lit(ONE)],
            NodeType::MultiplicationOneParentLeft => seq![c()],
            NodeType::MultiplicationOneParentRight => seq![c()],
            NodeType::MultiplicationTwoParents => seq![p1(), p0()],
            NodeType::SubtractionOneParentLeft => seq![lit(ONE)],
            NodeType::SubtractionOneParentRight => seq![lit(NEG_ONE)],
            NodeType::SubtractionTwoParents => seq![lit(ONE), lit(NEG_ONE)],
            NodeType::DivisionOneParentDenominator => seq![
                un(
                    NodeTypeClass::Neg,
                    bin(NodeTypeClass::Div, c(), bin(NodeTypeClass::Mul, p0(), p0())),
                ),
            ],
            NodeType::DivisionOneParentNumerator => seq![
                bin(NodeTypeClass::Div, lit(ONE), c()),
            ],
            NodeType::DivisionTwoParents => seq![
                bin(NodeTypeClass::Div, lit(ONE), p1()),
                bin(
                    NodeTypeClass::Div,
                    un(NodeTypeClass::Neg, p0()),
                    bin(NodeTypeClass::Mul, p1(), p1()),
                ),
            ],
            NodeType::Neg => seq![lit(NEG_ONE)],
            NodeType::Abs => seq![choice(Leaf::Parent0, Leaf::Literal(ZERO), ONE, NEG_ONE)],
            NodeType::Signum => seq![lit(ZERO)],
            NodeType::MaxOneParentLeft => seq![
                choice(Leaf::Parent0, Leaf::Constant, ONE, ZERO),
            ],
            NodeType::MaxOneParentRight => seq![
                choice(Leaf::Constant, Leaf::Parent0, ZERO, ONE),
            ],
            NodeType::MaxTwoParents => seq![
                choice(Leaf::Parent0, Leaf::Parent1, ONE, ZERO),
                choice(Leaf::Parent0, Leaf::Parent1, ZERO, ONE),
            ],
            NodeType::MinOneParentLeft => seq![
                choice(Leaf::Constant, Leaf::Parent0, ONE, ZERO),
            ],
            NodeType::MinOneParentRight => seq![
                choice(Leaf::Parent0, Leaf::Constant, ZERO, ONE),
            ],
            NodeType::MinTwoParents => seq![
                choice(Leaf::Parent1, Leaf::Parent0, ONE, ZERO),
                choice(Leaf::Parent1, Leaf::Parent0, ZERO, ONE),
            ],
            NodeType::Atan2OneParentLeft => seq![
                bin(
                    NodeTypeClass::Div,
                    c(),
                    bin(
                        NodeTypeClass::Add,
                        bin(NodeTypeClass::Mul, c(), c()),
                        bin(NodeTypeClass::Mul, p0(), p0()),
                    ),
                ),
            ],
            NodeType::Atan2OneParentRight => seq![
                bin(
                    NodeTypeClass::Div,
                    un(NodeTypeClass::Neg, c()),
                    bin(
                        NodeTypeClass::Add,
                        bin(NodeTypeClass::Mul, c(), c()),
                        bin(NodeTypeClass::Mul, p0(), p0()),
                    ),
                ),
            ],
            NodeType::Atan2TwoParents => seq![
                bin(
                    NodeTypeClass::Div,
                    p1(),
                    bin(
                        NodeTypeClass::Add,
                        bin(NodeTypeClass::Mul, p0(), p0()),
                        bin(NodeTypeClass::Mul, p1(), p1()),
                    ),
                ),
                bin(
                    NodeTypeClass::Div,
                    un(NodeTypeClass::Neg, p0()),
                    bin(
                        NodeTypeClass::Add,
                        bin(NodeTypeClass::Mul, p0(), p0()),
                        bin(NodeTypeClass::Mul, p1(), p1()),
                    ),
                ),
            ],
            NodeType::Floor => seq![lit(ZERO)],
            NodeType::Ceil => seq![lit(ZERO)],
            NodeType::Round => seq![lit(ZERO)],
            NodeType::Trunc => seq![lit(ZERO)],
            NodeType::Fract => seq![lit(ZERO)],
            NodeType::Sin => seq![un(NodeTypeClass::Cos, p0())],
            NodeType::Cos => seq![un(NodeTypeClass::Neg, un(NodeTypeClass::Sin, p0()))],
            NodeType::Tan => seq![
                bin(NodeTypeClass::Div, lit(ONE), sq(un(NodeTypeClass::Cos, p0()))),
            ],
            NodeType::Asin => seq![
                bin(
                    NodeTypeClass::Div,
                    lit(ONE),
                    un(
                        NodeTypeClass::Sqrt,
                        bin(
                            NodeTypeClass::Sub,
                            lit(ONE),
                            bin(NodeTypeClass::Mul, p0(), p0()),
                        ),
                    ),
                ),
            ],
            NodeType::Acos => seq![
                bin(
                    NodeTypeClass::Div,
                    lit(NEG_ONE),
                    un(
                        NodeTypeClass::Sqrt,
                        bin(
                            NodeTypeClass::Sub,
                            lit(ONE),
                            bin(NodeTypeClass::Mul, p0(), p0()),
                        ),
                    ),
                ),
            ],
            NodeType::Atan => seq![
                bin(
                    NodeTypeClass::Div,
                    lit(ONE),
                    bin(NodeTypeClass::Add, bin(NodeTypeClass::Mul, p0(), p0()), lit(ONE)),
                ),
            ],
            NodeType::Sinh => seq![un(NodeTypeClass::Cosh, p0())],
            NodeType::Cosh => seq![un(NodeTypeClass::Sinh, p0())],
            NodeType::Tanh => seq![
                bin(NodeTypeClass::Div, lit(ONE), sq(un(NodeTypeClass::Cosh, p0()))),
            ],
            NodeType::Asinh => seq![
                bin(
                    NodeTypeClass::Div,
                    lit(ONE),
                    un(
                        NodeTypeClass::Sqrt,
                        bin(
                            NodeTypeClass::Add,
                            bin(NodeTypeClass::Mul, p0(), p0()),
                            lit(ONE),
                        ),
                    ),
                ),
            ],
            NodeType::Acosh => seq![
                bin(
                    NodeTypeClass::Div,
                    lit(ONE),
                    bin(
                        NodeTypeClass::Mul,
                        un(NodeTypeClass::Sqrt, bin(NodeTypeClass::Sub, p0(), lit(ONE))),
                        un(NodeTypeClass::Sqrt, bin(NodeTypeClass::Add, p0(), lit(ONE))),
                    ),
                ),
            ],
            NodeType::Atanh => seq![
                bin(
                    NodeTypeClass::Div,
                    lit(ONE),
                    bin(NodeTypeClass::Sub, lit(ONE), bin(NodeTypeClass::Mul, p0(), p0())),
                ),
            ],
            NodeType::LogOneParentArgument => seq![
                bin(
                    NodeTypeClass::Div,
                    lit(ONE),
                    bin(NodeTypeClass::Mul, p0(), bin(NodeTypeClass::Log, c(), lit(E))),
                ),
            ],
            NodeType::LogOneParentBase => seq![
                bin(
                    NodeTypeClass::Div,
                    un(NodeTypeClass::Neg, bin(NodeTypeClass::Log, c(), lit(E))),
                    bin(NodeTypeClass::Mul, p0(), sq(bin(NodeTypeClass::Log, p0(), lit(E)))),
                ),
            ],
            NodeType::LogTwoParents => seq![
                bin(
                    NodeTypeClass::Div,
                    lit(ONE),
                    bin(NodeTypeClass::Mul, p0(), bin(NodeTypeClass::Log, p1(), lit(E))),
                ),
                bin(
                    NodeTypeClass::Div,
                    un(NodeTypeClass::Neg, bin(NodeTypeClass::Log, p0(), lit(E))),
                    bin(NodeTypeClass::Mul, p1(), sq(bin(NodeTypeClass::Log, p1(), lit(E)))),
                ),
            ],
            NodeType::Sqrt => seq![
                bin(
                    NodeTypeClass::Div,
                    lit(ONE),
                    bin(NodeTypeClass::Mul, lit(TWO), un(NodeTypeClass::Sqrt, p0())),
                ),
            ],
            NodeType::Exp => seq![un(NodeTypeClass::Exp, p0())],
            NodeType::PowOneParentArgument => seq![
                bin(
                    NodeTypeClass::Mul,
                    c(),
                    bin(NodeTypeClass::Powf, p0(), bin(NodeTypeClass::Sub, c(), lit(ONE))),
                ),
            ],
            NodeType::PowOneParentExponent => seq![
                bin(
                    NodeTypeClass::Mul,
                    bin(NodeTypeClass::Powf, c(), p0()),
                    bin(NodeTypeClass::Log, c(), lit(E)),
                ),
            ],
            NodeType::PowTwoParents => seq![
                bin(
                    NodeTypeClass::Mul,
                    p1(),
                    bin(NodeTypeClass::Powf, p0(), bin(NodeTypeClass::Sub, p1(), lit(ONE))),
                ),
                bin(
                    NodeTypeClass::Mul,
                    bin(NodeTypeClass::Powf, p0(), p1()),
                    bin(NodeTypeClass::Log, p0(), lit(E)),
                ),
            ],
        }
    }

    pub fn derivative_rules(self) -> (r: Vec<Expr>)
        ensures
            r@ == self.spec_derivative_rules(),
            r@.len() == self.spec_parent_count(),
            forall|i: int| 0 <= i < r@.len() ==> (#[trigger] r@[i]).well_formed(),
    {
        let r = match self {
            NodeType::Unset | NodeType::InputVar => vec![],
            NodeType::AdditionOneParentLeft => vec![lit(ONE)],
            NodeType::AdditionOneParentRight => vec![lit(ONE)],
            NodeType::AdditionTwoParents => vec![lit(ONE), lit(ONE)],
            NodeType::MultiplicationOneParentLeft => vec![c()],
            NodeType::MultiplicationOneParentRight => vec![c()],
            NodeType::MultiplicationTwoParents => vec![p1(), p0()],
            NodeType::SubtractionOneParentLeft => vec![lit(ONE)],
            NodeType::SubtractionOneParentRight => vec![lit(NEG_ONE)],
            NodeType::SubtractionTwoParents => vec![lit(ONE), lit(NEG_ONE)],
            NodeType::DivisionOneParentDenominator => vec![
                un(
                    NodeTypeClass::Neg,
                    bin(NodeTypeClass::Div, c(), bin(NodeTypeClass::Mul, p0(), p0())),
                ),
            ],
            NodeType::DivisionOneParentNumerator => vec![
                bin(NodeTypeClass::Div, lit(ONE), c()),
            ],
            NodeType::DivisionTwoParents => vec![
                bin(NodeTypeClass::Div, lit(ONE), p1()),
                bin(
                    NodeTypeClass::Div,
                    un(NodeTypeClass::Neg, p0()),
                    bin(NodeTypeClass::Mul, p1(), p1()),
                ),
            ],
            NodeType::Neg => vec![lit(NEG_ONE)],
            NodeType::Abs => vec![choice(Leaf::Parent0, Leaf::Literal(ZERO), ONE, NEG_ONE)],
            NodeType::Signum => vec![lit(ZERO)],
            NodeType::MaxOneParentLeft => vec![
                choice(Leaf::Parent0, Leaf::Constant, ONE, ZERO),
            ],
            NodeType::MaxOneParentRight => vec![
                choice(Leaf::Constant, Leaf::Parent0, ZERO, ONE),
            ],
            NodeType::MaxTwoParents => vec![
                choice(Leaf::Parent0, Leaf::Parent1, ONE, ZERO),
                choice(Leaf::Parent0, Leaf::Parent1, ZERO, ONE),
            ],
            NodeType::MinOneParentLeft => vec![
                choice(Leaf::Constant, Leaf::Parent0, ONE, ZERO),
            ],
            NodeType::MinOneParentRight => vec![
                choice(Leaf::Parent0, Leaf::Constant, ZERO, ONE),
            ],
            NodeType::MinTwoParents => vec![
                choice(Leaf::Parent1, Leaf::Parent0, ONE, ZERO),
                choice(Leaf::Parent1, Leaf::Parent0, ZERO, ONE),
            ],
            NodeType::Atan2OneParentLeft => vec![
                bin(
                    NodeTypeClass::Div,
                    c(),
                    bin(
                        NodeTypeClass::Add,
                        bin(NodeTypeClass::Mul, c(), c()),
                        bin(NodeTypeClass::Mul, p0(), p0()),
                    ),
                ),
            ],
            NodeType::Atan2OneParentRight => vec![
                bin(
                    NodeTypeClass::Div,
                    un(NodeTypeClass::Neg, c()),
                    bin(
                        NodeTypeClass::Add,
                        bin(NodeTypeClass::Mul, c(), c()),
                        bin(NodeTypeClass::Mul, p0(), p0()),
                    ),
                ),
            ],
            NodeType::Atan2TwoParents => vec![
                bin(
                    NodeTypeClass::Div,
                    p1(),
                    bin(
                        NodeTypeClass::Add,
                        bin(NodeTypeClass::Mul, p0(), p0()),
                        bin(NodeTypeClass::Mul, p1(), p1()),
                    ),
                ),
                bin(
                    NodeTypeClass::Div,
                    un(NodeTypeClass::Neg, p0()),
                    bin(
                        NodeTypeClass::Add,
                        bin(NodeTypeClass::Mul, p0(), p0()),
                        bin(NodeTypeClass::Mul, p1(), p1()),
                    ),
                ),
            ],
            NodeType::Floor => vec![lit(ZERO)],
            NodeType::Ceil => vec![lit(ZERO)],
            NodeType::Round => vec![lit(ZERO)],
            NodeType::Trunc => vec![lit(ZERO)],
            NodeType::Fract => vec![lit(ZERO)],
            NodeType::Sin => vec![un(NodeTypeClass::Cos, p0())],
            NodeType::Cos => vec![un(NodeTypeClass::Neg, un(NodeTypeClass::Sin, p0()))],
            NodeType::Tan => vec![
                bin(NodeTypeClass::Div, lit(ONE), sq(un(NodeTypeClass::Cos, p0()))),
            ],
            NodeType::Asin => vec![
                bin(
                    NodeTypeClass::Div,
                    lit(ONE),
                    un(
                        NodeTypeClass::Sqrt,
                        bin(
                            NodeTypeClass::Sub,
                            lit(ONE),
                            bin(NodeTypeClass::Mul, p0(), p0()),
                        ),
                    ),
                ),
            ],
            NodeType::Acos => vec![
                bin(
                    NodeTypeClass::Div,
                    lit(NEG_ONE),
                    un(
                        NodeTypeClass::Sqrt,
                        bin(
                            NodeTypeClass::Sub,
                            lit(ONE),
                            bin(NodeTypeClass::Mul, p0(), p0()),
                        ),
                    ),
                ),
            ],
            NodeType::Atan => vec![
                bin(
                    NodeTypeClass::Div,
                    lit(ONE),
                    bin(NodeTypeClass::Add, bin(NodeTypeClass::Mul, p0(), p0()), lit(ONE)),
                ),
            ],
            NodeType::Sinh => vec![un(NodeTypeClass::Cosh, p0())],
            NodeType::Cosh => vec![un(NodeTypeClass::Sinh, p0())],
            NodeType::Tanh => vec![
                bin(NodeTypeClass::Div, lit(ONE), sq(un(NodeTypeClass::Cosh, p0()))),
            ],
            NodeType::Asinh => vec![
                bin(
                    NodeTypeClass::Div,
                    lit(ONE),
                    un(
                        NodeTypeClass::Sqrt,
                        bin(
                            NodeTypeClass::Add,
                            bin(NodeTypeClass::Mul, p0(), p0()),
                            lit(ONE),
                        ),
                    ),
                ),
            ],
            NodeType::Acosh => vec![
                bin(
                    NodeTypeClass::Div,
                    lit(ONE),
                    bin(
                        NodeTypeClass::Mul,
                        un(NodeTypeClass::Sqrt, bin(NodeTypeClass::Sub, p0(), lit(ONE))),
                        un(NodeTypeClass::Sqrt, bin(NodeTypeClass::Add, p0(), lit(ONE))),
                    ),
                ),
            ],
            NodeType::Atanh => vec![
                bin(
                    NodeTypeClass::Div,
                    lit(ONE),
                    bin(NodeTypeClass::Sub, lit(ONE), bin(NodeTypeClass::Mul, p0(), p0())),
                ),
            ],
            NodeType::LogOneParentArgument => vec![
                bin(
                    NodeTypeClass::Div,
                    lit(ONE),
                    bin(NodeTypeClass::Mul, p0(), bin(NodeTypeClass::Log, c(), lit(E))),
                ),
            ],
            NodeType::LogOneParentBase => vec![
                bin(
                    NodeTypeClass::Div,
                    un(NodeTypeClass::Neg, bin(NodeTypeClass::Log, c(), lit(E))),
                    bin(NodeTypeClass::Mul, p0(), sq(bin(NodeTypeClass::Log, p0(), lit(E)))),
                ),
            ],
            NodeType::LogTwoParents => vec![
                bin(
                    NodeTypeClass::Div,
                    lit(ONE),
                    bin(NodeTypeClass::Mul, p0(), bin(NodeTypeClass::Log, p1(), lit(E))),
                ),
                bin(
                    NodeTypeClass::Div,
                    un(NodeTypeClass::Neg, bin(NodeTypeClass::Log, p0(), lit(E))),
                    bin(NodeTypeClass::Mul, p1(), sq(bin(NodeTypeClass::Log, p1(), lit(E)))),
                ),
            ],
            NodeType::Sqrt => vec![
                bin(
                    NodeTypeClass::Div,
                    lit(ONE),
                    bin(NodeTypeClass::Mul, lit(TWO), un(NodeTypeClass::Sqrt, p0())),
                ),
            ],
            NodeType::Exp => vec![un(NodeTypeClass::Exp, p0())],
            NodeType::PowOneParentArgument => vec![
                bin(
                    NodeTypeClass::Mul,
                    c(),
                    bin(NodeTypeClass::Powf, p0(), bin(NodeTypeClass::Sub, c(), lit(ONE))),
                ),
            ],
            NodeType::PowOneParentExponent => vec![
                bin(
                    NodeTypeClass::Mul,
                    bin(NodeTypeClass::Powf, c(), p0()),
                    bin(NodeTypeClass::Log, c(), lit(E)),
                ),
            ],
            NodeType::PowTwoParents => vec![
                bin(
                    NodeTypeClass::Mul,
                    p1(),
                    bin(NodeTypeClass::Powf, p0(), bin(NodeTypeClass::Sub, p1(), lit(ONE))),
                ),
                bin(
                    NodeTypeClass::Mul,
                    bin(NodeTypeClass::Powf, p0(), p1()),
                    bin(NodeTypeClass::Log, p0(), lit(E)),
                ),
            ],
        };
        assert(r@ =~= self.spec_derivative_rules());
        r
    }
}

} // verus!
