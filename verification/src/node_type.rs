use crate::kernel::NodeTypeClass;
use vstd::prelude::*;

verus! {

/// How the operands of an operation divide into recorded ones and plain ones.
#[derive(Clone, Copy, Debug, PartialEq, Eq, Structural)]
pub enum NodeOperandsMode {
    /// Both operands are recorded.
    TwoParents,
    /// Only the left operand is recorded; for a function of one operand, that
    /// operand is.
    OneParentLHS,
    /// Only the right operand is recorded.
    OneParentRHS,
    /// No operand is recorded.
    NoParents,
}

/// The tag of a node: the function it applies and which of its operands are
/// recorded. `Left` and `Right` say on which side the one recorded operand
/// stood, `Argument`, `Base`, `Exponent`, `Numerator` and `Denominator` which
/// operand it was. `Unset` marks no node at all and `InputVar` a leaf.
#[derive(Clone, Copy, Debug, PartialEq, Eq, Structural)]
pub enum NodeType {
    Unset,
    InputVar,
    AdditionOneParentLeft,
    AdditionOneParentRight,
    AdditionTwoParents,
    MultiplicationOneParentLeft,
    MultiplicationOneParentRight,
    MultiplicationTwoParents,
    SubtractionOneParentLeft,
    SubtractionOneParentRight,
    SubtractionTwoParents,
    DivisionOneParentDenominator,
    DivisionOneParentNumerator,
    DivisionTwoParents,
    Neg,
    Abs,
    Signum,
    MaxOneParentLeft,
    MaxOneParentRight,
    MaxTwoParents,
    MinOneParentLeft,
    MinOneParentRight,
    MinTwoParents,
    Atan2OneParentLeft,
    Atan2OneParentRight,
    Atan2TwoParents,
    Floor,
    Ceil,
    Round,
    Trunc,
    Fract,
    Sin,
    Cos,
    Tan,
    Asin,
    Acos,
    Atan,
    Sinh,
    Cosh,
    Tanh,
    Asinh,
    Acosh,
    Atanh,
    LogOneParentArgument,
    LogOneParentBase,
    LogTwoParents,
    Sqrt,
    Exp,
    PowOneParentArgument,
    PowOneParentExponent,
    PowTwoParents,
}

impl NodeType {
    /// The function that the node applies; leaves apply none.
    pub open spec fn spec_class(self) -> NodeTypeClass {
        match self {
            NodeType::Unset | NodeType::InputVar => NodeTypeClass::InputVariable,
            NodeType::AdditionOneParentLeft => NodeTypeClass::Add,
            NodeType::AdditionOneParentRight => NodeTypeClass::Add,
            NodeType::AdditionTwoParents => NodeTypeClass::Add,
            NodeType::MultiplicationOneParentLeft => NodeTypeClass::Mul,
            NodeType::MultiplicationOneParentRight => NodeTypeClass::Mul,
            NodeType::MultiplicationTwoParents => NodeTypeClass::Mul,
            NodeType::SubtractionOneParentLeft => NodeTypeClass::Sub,
            NodeType::SubtractionOneParentRight => NodeTypeClass::Sub,
            NodeType::SubtractionTwoParents => NodeTypeClass::Sub,
            NodeType::DivisionOneParentDenominator => NodeTypeClass::Div,
            NodeType::DivisionOneParentNumerator => NodeTypeClass::Div,
            NodeType::DivisionTwoParents => NodeTypeClass::Div,
            NodeType::Neg => NodeTypeClass::Neg,
            NodeType::Abs => NodeTypeClass::Abs,
            NodeType::Signum => NodeTypeClass::Signum,
            NodeType::MaxOneParentLeft => NodeTypeClass::Max,
            NodeType::MaxOneParentRight => NodeTypeClass::Max,
            NodeType::MaxTwoParents => NodeTypeClass::Max,
            NodeType::MinOneParentLeft => NodeTypeClass::Min,
            NodeType::MinOneParentRight => NodeTypeClass::Min,
            NodeType::MinTwoParents => NodeTypeClass::Min,
            NodeType::Atan2OneParentLeft => NodeTypeClass::Atan2,
            NodeType::Atan2OneParentRight => NodeTypeClass::Atan2,
            NodeType::Atan2TwoParents => NodeTypeClass::Atan2,
            NodeType::Floor => NodeTypeClass::Floor,
            NodeType::Ceil => NodeTypeClass::Ceil,
            NodeType::Round => NodeTypeClass::Round,
            NodeType::Trunc => NodeTypeClass::Trunc,
            NodeType::Fract => NodeTypeClass::Fract,
            NodeType::Sin => NodeTypeClass::Sin,
            NodeType::Cos => NodeTypeClass::Cos,
            NodeType::Tan => NodeTypeClass::Tan,
            NodeType::Asin => NodeTypeClass::Asin,
            NodeType::Acos => NodeTypeClass::Acos,
            NodeType::Atan => NodeTypeClass::Atan,
            NodeType::Sinh => NodeTypeClass::Sinh,
            NodeType::Cosh => NodeTypeClass::Cosh,
            NodeType::Tanh => NodeTypeClass::Tanh,
            NodeType::Asinh => NodeTypeClass::Asinh,
            NodeType::Acosh => NodeTypeClass::Acosh,
            NodeType::Atanh => NodeTypeClass::Atanh,
            NodeType::LogOneParentArgument => NodeTypeClass::Log,
            NodeType::LogOneParentBase => NodeTypeClass::Log,
            NodeType::LogTwoParents => NodeTypeClass::Log,
            NodeType::Sqrt => NodeTypeClass::Sqrt,
            NodeType::Exp => NodeTypeClass::Exp,
            NodeType::PowOneParentArgument => NodeTypeClass::Powf,
            NodeType::PowOneParentExponent => NodeTypeClass::Powf,
            NodeType::PowTwoParents => NodeTypeClass::Powf,
        }
    }

    pub fn class(self) -> (r: NodeTypeClass)
        ensures
            r == self.spec_class(),
    {
        match self {
            NodeType::Unset | NodeType::InputVar => NodeTypeClass::InputVariable,
            NodeType::AdditionOneParentLeft => NodeTypeClass::Add,
            NodeType::AdditionOneParentRight => NodeTypeClass::Add,
            NodeType::AdditionTwoParents => NodeTypeClass::Add,
            NodeType::MultiplicationOneParentLeft => NodeTypeClass::Mul,
            NodeType::MultiplicationOneParentRight => NodeTypeClass::Mul,
            NodeType::MultiplicationTwoParents => NodeTypeClass::Mul,
            NodeType::SubtractionOneParentLeft => NodeTypeClass::Sub,
            NodeType::SubtractionOneParentRight => NodeTypeClass::Sub,
            NodeType::SubtractionTwoParents => NodeTypeClass::Sub,
            NodeType::DivisionOneParentDenominator => NodeTypeClass::Div,
            NodeType::DivisionOneParentNumerator => NodeTypeClass::Div,
            NodeType::DivisionTwoParents => NodeTypeClass::Div,
            NodeType::Neg => NodeTypeClass::Neg,
            NodeType::Abs => NodeTypeClass::Abs,
            NodeType::Signum => NodeTypeClass::Signum,
            NodeType::MaxOneParentLeft => NodeTypeClass::Max,
            NodeType::MaxOneParentRight => NodeTypeClass::Max,
            NodeType::MaxTwoParents => NodeTypeClass::Max,
            NodeType::MinOneParentLeft => NodeTypeClass::Min,
            NodeType::MinOneParentRight => NodeTypeClass::Min,
            NodeType::MinTwoParents => NodeTypeClass::Min,
            NodeType::Atan2OneParentLeft => NodeTypeClass::Atan2,
            NodeType::Atan2OneParentRight => NodeTypeClass::Atan2,
            NodeType::Atan2TwoParents => NodeTypeClass::Atan2,
            NodeType::Floor => NodeTypeClass::Floor,
            NodeType::Ceil => NodeTypeClass::Ceil,
            NodeType::Round => NodeTypeClass::Round,
            NodeType::Trunc => NodeTypeClass::Trunc,
            NodeType::Fract => NodeTypeClass::Fract,
            NodeType::Sin => NodeTypeClass::Sin,
            NodeType::Cos => NodeTypeClass::Cos,
            NodeType::Tan => NodeTypeClass::Tan,
            NodeType::Asin => NodeTypeClass::Asin,
            NodeType::Acos => NodeTypeClass::Acos,
            NodeType::Atan => NodeTypeClass::Atan,
            NodeType::Sinh => NodeTypeClass::Sinh,
            NodeType::Cosh => NodeTypeClass::Cosh,
            NodeType::Tanh => NodeTypeClass::Tanh,
            NodeType::Asinh => NodeTypeClass::Asinh,
            NodeType::Acosh => NodeTypeClass::Acosh,
            NodeType::Atanh => NodeTypeClass::Atanh,
            NodeType::LogOneParentArgument => NodeTypeClass::Log,
            NodeType::LogOneParentBase => NodeTypeClass::Log,
            NodeType::LogTwoParents => NodeTypeClass::Log,
            NodeType::Sqrt => NodeTypeClass::Sqrt,
            NodeType::Exp => NodeTypeClass::Exp,
            NodeType::PowOneParentArgument => NodeTypeClass::Powf,
            NodeType::PowOneParentExponent => NodeTypeClass::Powf,
            NodeType::PowTwoParents => NodeTypeClass::Powf,
        }
    }

    /// The number of parents that a node with this tag has.
    pub open spec fn spec_parent_count(self) -> nat {
        match self {
            NodeType::Unset | NodeType::InputVar => 0,
            NodeType::AdditionTwoParents
            | NodeType::MultiplicationTwoParents
            | NodeType::SubtractionTwoParents
            | NodeType::DivisionTwoParents
            | NodeType::MaxTwoParents
            | NodeType::MinTwoParents
            | NodeType::Atan2TwoParents
            | NodeType::LogTwoParents
            | NodeType::PowTwoParents => 2,
            _ => 1,
        }
    }

    pub fn parent_count(self) -> (r: usize)
        ensures
            r == self.spec_parent_count(),
    {
        match self {
            NodeType::Unset | NodeType::InputVar => 0,
            NodeType::AdditionTwoParents
            | NodeType::MultiplicationTwoParents
            | NodeType::SubtractionTwoParents
            | NodeType::DivisionTwoParents
            | NodeType::MaxTwoParents
            | NodeType::MinTwoParents
            | NodeType::Atan2TwoParents
            | NodeType::LogTwoParents
            | NodeType::PowTwoParents => 2,
            _ => 1,
        }
    }

    /// Whether a node with this tag stores a plain operand.
    pub open spec fn spec_has_constant(self) -> bool {
        match self {
            NodeType::AdditionOneParentLeft
            | NodeType::AdditionOneParentRight
            | NodeType::MultiplicationOneParentLeft
            | NodeType::MultiplicationOneParentRight
            | NodeType::SubtractionOneParentLeft
            | NodeType::SubtractionOneParentRight
            | NodeType::DivisionOneParentDenominator
            | NodeType::DivisionOneParentNumerator
            | NodeType::MaxOneParentLeft
            | NodeType::MaxOneParentRight
            | NodeType::MinOneParentLeft
            | NodeType::MinOneParentRight
            | NodeType::Atan2OneParentLeft
            | NodeType::Atan2OneParentRight
            | NodeType::LogOneParentArgument
            | NodeType::LogOneParentBase
            | NodeType::PowOneParentArgument
            | NodeType::PowOneParentExponent => true,
            _ => false,
        }
    }

    pub fn has_constant(self) -> (r: bool)
        ensures
            r == self.spec_has_constant(),
    {
        match self {
            NodeType::AdditionOneParentLeft
            | NodeType::AdditionOneParentRight
            | NodeType::MultiplicationOneParentLeft
            | NodeType::MultiplicationOneParentRight
            | NodeType::SubtractionOneParentLeft
            | NodeType::SubtractionOneParentRight
            | NodeType::DivisionOneParentDenominator
            | NodeType::DivisionOneParentNumerator
            | NodeType::MaxOneParentLeft
            | NodeType::MaxOneParentRight
            | NodeType::MinOneParentLeft
            | NodeType::MinOneParentRight
            | NodeType::Atan2OneParentLeft
            | NodeType::Atan2OneParentRight
            | NodeType::LogOneParentArgument
            | NodeType::LogOneParentBase
            | NodeType::PowOneParentArgument
            | NodeType::PowOneParentExponent => true,
            _ => false,
        }
    }

    /// Whether the stored plain operand is the left operand of the function.
    pub open spec fn spec_constant_first(self) -> bool {
        match self {
            NodeType::AdditionOneParentRight
            | NodeType::MultiplicationOneParentRight
            | NodeType::SubtractionOneParentRight
            | NodeType::DivisionOneParentDenominator
            | NodeType::MaxOneParentRight
            | NodeType::MinOneParentRight
            | NodeType::Atan2OneParentRight
            | NodeType::LogOneParentBase
            | NodeType::PowOneParentExponent => true,
            _ => false,
        }
    }

    pub fn constant_first(self) -> (r: bool)
        ensures
            r == self.spec_constant_first(),
    {
        match self {
            NodeType::AdditionOneParentRight
            | NodeType::MultiplicationOneParentRight
            | NodeType::SubtractionOneParentRight
            | NodeType::DivisionOneParentDenominator
            | NodeType::MaxOneParentRight
            | NodeType::MinOneParentRight
            | NodeType::Atan2OneParentRight
            | NodeType::LogOneParentBase
            | NodeType::PowOneParentExponent => true,
            _ => false,
        }
    }

    /// Whether the tag stands for an operation, which has a value rule and a
    /// derivative rule.
    pub open spec fn spec_is_operation(self) -> bool {
        !(self is Unset) && !(self is InputVar)
    }

    pub fn is_operation(self) -> (r: bool)
        ensures
            r == self.spec_is_operation(),
    {
        match self {
            NodeType::Unset | NodeType::InputVar => false,
            _ => true,
        }
    }

    /// The tag under which `class` is recorded when its operands divide as
    /// `mode` says. A function of two operands with one recorded operand has a
    /// tag for each side that the recorded operand can stand on. There is no
    /// tag for an operation without a recorded operand, for a function of one
    /// operand in a two-operand mode, or for a leaf with parents.
    pub open spec fn spec_from_class(class: NodeTypeClass, mode: NodeOperandsMode) -> Option<
        NodeType,
    > {
        match (class, mode) {
            (NodeTypeClass::InputVariable, NodeOperandsMode::NoParents) => Some(NodeType::InputVar),
            (NodeTypeClass::Add, NodeOperandsMode::TwoParents) => Some(
                NodeType::AdditionTwoParents,
            ),
            (NodeTypeClass::Add, NodeOperandsMode::OneParentLHS) => Some(
                NodeType::AdditionOneParentLeft,
            ),
            (NodeTypeClass::Add, NodeOperandsMode::OneParentRHS) => Some(
                NodeType::AdditionOneParentRight,
            ),
            (NodeTypeClass::Mul, NodeOperandsMode::TwoParents) => Some(
                NodeType::MultiplicationTwoParents,
            ),
            (NodeTypeClass::Mul, NodeOperandsMode::OneParentLHS) => Some(
                NodeType::MultiplicationOneParentLeft,
            ),
            (NodeTypeClass::Mul, NodeOperandsMode::OneParentRHS) => Some(
                NodeType::MultiplicationOneParentRight,
            ),
            (NodeTypeClass::Sub, NodeOperandsMode::TwoParents) => Some(
                NodeType::SubtractionTwoParents,
            ),
            (NodeTypeClass::Sub, NodeOperandsMode::OneParentLHS) => Some(
                NodeType::SubtractionOneParentLeft,
            ),
            (NodeTypeClass::Sub, NodeOperandsMode::OneParentRHS) => Some(
                NodeType::SubtractionOneParentRight,
            ),
            (NodeTypeClass::Div, NodeOperandsMode::TwoParents) => Some(
                NodeType::DivisionTwoParents,
            ),
            (NodeTypeClass::Div, NodeOperandsMode::OneParentLHS) => Some(
                NodeType::DivisionOneParentNumerator,
            ),
            (NodeTypeClass::Div, NodeOperandsMode::OneParentRHS) => Some(
                NodeType::DivisionOneParentDenominator,
            ),
            (NodeTypeClass::Neg, NodeOperandsMode::OneParentLHS) => Some(NodeType::Neg),
            (NodeTypeClass::Abs, NodeOperandsMode::OneParentLHS) => Some(NodeType::Abs),
            (NodeTypeClass::Signum, NodeOperandsMode::OneParentLHS) => Some(NodeType::Signum),
            (NodeTypeClass::Max, NodeOperandsMode::TwoParents) => Some(NodeType::MaxTwoParents),
            (NodeTypeClass::Max, NodeOperandsMode::OneParentLHS) => Some(
                NodeType::MaxOneParentLeft,
            ),
            (NodeTypeClass::Max, NodeOperandsMode::OneParentRHS) => Some(
                NodeType::MaxOneParentRight,
            ),
            (NodeTypeClass::Min, NodeOperandsMode::TwoParents) => Some(NodeType::MinTwoParents),
            (NodeTypeClass::Min, NodeOperandsMode::OneParentLHS) => Some(
                NodeType::MinOneParentLeft,
            ),
            (NodeTypeClass::Min, NodeOperandsMode::OneParentRHS) => Some(
                NodeType::MinOneParentRight,
            ),
            (NodeTypeClass::Atan2, NodeOperandsMode::TwoParents) => Some(
                NodeType::Atan2TwoParents,
            ),
            (NodeTypeClass::Atan2, NodeOperandsMode::OneParentLHS) => Some(
                NodeType::Atan2OneParentLeft,
            ),
            (NodeTypeClass::Atan2, NodeOperandsMode::OneParentRHS) => Some(
                NodeType::Atan2OneParentRight,
            ),
            (NodeTypeClass::Floor, NodeOperandsMode::OneParentLHS) => Some(NodeType::Floor),
            (NodeTypeClass::Ceil, NodeOperandsMode::OneParentLHS) => Some(NodeType::Ceil),
            (NodeTypeClass::Round, NodeOperandsMode::OneParentLHS) => Some(NodeType::Round),
            (NodeTypeClass::Trunc, NodeOperandsMode::OneParentLHS) => Some(NodeType::Trunc),
            (NodeTypeClass::Fract, NodeOperandsMode::OneParentLHS) => Some(NodeType::Fract),
            (NodeTypeClass::Sin, NodeOperandsMode::OneParentLHS) => Some(NodeType::Sin),
            (NodeTypeClass::Cos, NodeOperandsMode::OneParentLHS) => Some(NodeType::Cos),
            (NodeTypeClass::Tan, NodeOperandsMode::OneParentLHS) => Some(NodeType::Tan),
            (NodeTypeClass::Asin, NodeOperandsMode::OneParentLHS) => Some(NodeType::Asin),
            (NodeTypeClass::Acos, NodeOperandsMode::OneParentLHS) => Some(NodeType::Acos),
            (NodeTypeClass::Atan, NodeOperandsMode::OneParentLHS) => Some(NodeType::Atan),
            (NodeTypeClass::Sinh, NodeOperandsMode::OneParentLHS) => Some(NodeType::Sinh),
            (NodeTypeClass::Cosh, NodeOperandsMode::OneParentLHS) => Some(NodeType::Cosh),
            (NodeTypeClass::Tanh, NodeOperandsMode::OneParentLHS) => Some(NodeType::Tanh),
            (NodeTypeClass::Asinh, NodeOperandsMode::OneParentLHS) => Some(NodeType::Asinh),
            (NodeTypeClass::Acosh, NodeOperandsMode::OneParentLHS) => Some(NodeType::Acosh),
            (NodeTypeClass::Atanh, NodeOperandsMode::OneParentLHS) => Some(NodeType::Atanh),
            (NodeTypeClass::Log, NodeOperandsMode::TwoParents) => Some(NodeType::LogTwoParents),
            (NodeTypeClass::Log, NodeOperandsMode::OneParentLHS) => Some(
                NodeType::LogOneParentArgument,
            ),
            (NodeTypeClass::Log, NodeOperandsMode::OneParentRHS) => Some(
                NodeType::LogOneParentBase,
            ),
            (NodeTypeClass::Sqrt, NodeOperandsMode::OneParentLHS) => Some(NodeType::Sqrt),
            (NodeTypeClass::Exp, NodeOperandsMode::OneParentLHS) => Some(NodeType::Exp),
            (NodeTypeClass::Powf, NodeOperandsMode::TwoParents) => Some(NodeType::PowTwoParents),
            (NodeTypeClass::Powf, NodeOperandsMode::OneParentLHS) => Some(
                NodeType::PowOneParentArgument,
            ),
            (NodeTypeClass::Powf, NodeOperandsMode::OneParentRHS) => Some(
                NodeType::PowOneParentExponent,
            ),
            _ => None,
        }
    }

    pub fn from_class(class: NodeTypeClass, mode: NodeOperandsMode) -> (r: Option<NodeType>)
        ensures
            r == Self::spec_from_class(class, mode),
    {
        match (class, mode) {
            (NodeTypeClass::InputVariable, NodeOperandsMode::NoParents) => Some(NodeType::InputVar),
            (NodeTypeClass::Add, NodeOperandsMode::TwoParents) => Some(
                NodeType::AdditionTwoParents,
            ),
            (NodeTypeClass::Add, NodeOperandsMode::OneParentLHS) => Some(
                NodeType::AdditionOneParentLeft,
            ),
            (NodeTypeClass::Add, NodeOperandsMode::OneParentRHS) => Some(
                NodeType::AdditionOneParentRight,
            ),
            (NodeTypeClass::Mul, NodeOperandsMode::TwoParents) => Some(
                NodeType::MultiplicationTwoParents,
            ),
            (NodeTypeClass::Mul, NodeOperandsMode::OneParentLHS) => Some(
                NodeType::MultiplicationOneParentLeft,
            ),
            (NodeTypeClass::Mul, NodeOperandsMode::OneParentRHS) => Some(
                NodeType::MultiplicationOneParentRight,
            ),
            (NodeTypeClass::Sub, NodeOperandsMode::TwoParents) => Some(
                NodeType::SubtractionTwoParents,
            ),
            (NodeTypeClass::Sub, NodeOperandsMode::OneParentLHS) => Some(
                NodeType::SubtractionOneParentLeft,
            ),
            (NodeTypeClass::Sub, NodeOperandsMode::OneParentRHS) => Some(
                NodeType::SubtractionOneParentRight,
            ),
            (NodeTypeClass::Div, NodeOperandsMode::TwoParents) => Some(
                NodeType::DivisionTwoParents,
            ),
            (NodeTypeClass::Div, NodeOperandsMode::OneParentLHS) => Some(
                NodeType::DivisionOneParentNumerator,
            ),
            (NodeTypeClass::Div, NodeOperandsMode::OneParentRHS) => Some(
                NodeType::DivisionOneParentDenominator,
            ),
            (NodeTypeClass::Neg, NodeOperandsMode::OneParentLHS) => Some(NodeType::Neg),
            (NodeTypeClass::Abs, NodeOperandsMode::OneParentLHS) => Some(NodeType::Abs),
            (NodeTypeClass::Signum, NodeOperandsMode::OneParentLHS) => Some(NodeType::Signum),
            (NodeTypeClass::Max, NodeOperandsMode::TwoParents) => Some(NodeType::MaxTwoParents),
            (NodeTypeClass::Max, NodeOperandsMode::OneParentLHS) => Some(
                NodeType::MaxOneParentLeft,
            ),
            (NodeTypeClass::Max, NodeOperandsMode::OneParentRHS) => Some(
                NodeType::MaxOneParentRight,
            ),
            (NodeTypeClass::Min, NodeOperandsMode::TwoParents) => Some(NodeType::MinTwoParents),
            (NodeTypeClass::Min, NodeOperandsMode::OneParentLHS) => Some(
                NodeType::MinOneParentLeft,
            ),
            (NodeTypeClass::Min, NodeOperandsMode::OneParentRHS) => Some(
                NodeType::MinOneParentRight,
            ),
            (NodeTypeClass::Atan2, NodeOperandsMode::TwoParents) => Some(
                NodeType::Atan2TwoParents,
            ),
            (NodeTypeClass::Atan2, NodeOperandsMode::OneParentLHS) => Some(
                NodeType::Atan2OneParentLeft,
            ),
            (NodeTypeClass::Atan2, NodeOperandsMode::OneParentRHS) => Some(
                NodeType::Atan2OneParentRight,
            ),
            (NodeTypeClass::Floor, NodeOperandsMode::OneParentLHS) => Some(NodeType::Floor),
            (NodeTypeClass::Ceil, NodeOperandsMode::OneParentLHS) => Some(NodeType::Ceil),
            (NodeTypeClass::Round, NodeOperandsMode::OneParentLHS) => Some(NodeType::Round),
            (NodeTypeClass::Trunc, NodeOperandsMode::OneParentLHS) => Some(NodeType::Trunc),
            (NodeTypeClass::Fract, NodeOperandsMode::OneParentLHS) => Some(NodeType::Fract),
            (NodeTypeClass::Sin, NodeOperandsMode::OneParentLHS) => Some(NodeType::Sin),
            (NodeTypeClass::Cos, NodeOperandsMode::OneParentLHS) => Some(NodeType::Cos),
            (NodeTypeClass::Tan, NodeOperandsMode::OneParentLHS) => Some(NodeType::Tan),
            (NodeTypeClass::Asin, NodeOperandsMode::OneParentLHS) => Some(NodeType::Asin),
            (NodeTypeClass::Acos, NodeOperandsMode::OneParentLHS) => Some(NodeType::Acos),
            (NodeTypeClass::Atan, NodeOperandsMode::OneParentLHS) => Some(NodeType::Atan),
            (NodeTypeClass::Sinh, NodeOperandsMode::OneParentLHS) => Some(NodeType::Sinh),
            (NodeTypeClass::Cosh, NodeOperandsMode::OneParentLHS) => Some(NodeType::Cosh),
            (NodeTypeClass::Tanh, NodeOperandsMode::OneParentLHS) => Some(NodeType::Tanh),
            (NodeTypeClass::Asinh, NodeOperandsMode::OneParentLHS) => Some(NodeType::Asinh),
            (NodeTypeClass::Acosh, NodeOperandsMode::OneParentLHS) => Some(NodeType::Acosh),
            (NodeTypeClass::Atanh, NodeOperandsMode::OneParentLHS) => Some(NodeType::Atanh),
            (NodeTypeClass::Log, NodeOperandsMode::TwoParents) => Some(NodeType::LogTwoParents),
            (NodeTypeClass::Log, NodeOperandsMode::OneParentLHS) => Some(
                NodeType::LogOneParentArgument,
            ),
            (NodeTypeClass::Log, NodeOperandsMode::OneParentRHS) => Some(
                NodeType::LogOneParentBase,
            ),
            (NodeTypeClass::Sqrt, NodeOperandsMode::OneParentLHS) => Some(NodeType::Sqrt),
            (NodeTypeClass::Exp, NodeOperandsMode::OneParentLHS) => Some(NodeType::Exp),
            (NodeTypeClass::Powf, NodeOperandsMode::TwoParents) => Some(NodeType::PowTwoParents),
            (NodeTypeClass::Powf, NodeOperandsMode::OneParentLHS) => Some(
                NodeType::PowOneParentArgument,
            ),
            (NodeTypeClass::Powf, NodeOperandsMode::OneParentRHS) => Some(
                NodeType::PowOneParentExponent,
            ),
            _ => None,
        }
    }
}

} // verus!
