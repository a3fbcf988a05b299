use vstd::prelude::*;

verus! {

/// The mathematical function that a node applies.
#[derive(Clone, Copy, Debug, PartialEq, Eq, Structural)]
pub enum NodeTypeClass {
    InputVariable,
    Add,
    Mul,
    Sub,
    Div,
    Neg,
    Abs,
    Signum,
    Max,
    Min,
    Atan2,
    Floor,
    Ceil,
    Round,
    Trunc,
    Fract,
    Sin,
    Cos,
    Tan,
    Asin,
    Acos,
    Atan,
    Sinh,
    Cosh,
    Tanh,
    Asinh,
    Acosh,
    Atanh,
    Log,
    Sqrt,
    Exp,
    Powf,
}

/// A kernel computes `class` on two words; functions of one operand ignore the
/// second. The library asks that it accept every input and be a function: equal
/// inputs give equal results.
pub open spec fn pure_kernel<K: Fn(NodeTypeClass, u64, u64) -> u64>(kernel: &K) -> bool {
    &&& forall|class: NodeTypeClass, a: u64, b: u64| kernel.requires((class, a, b))
    &&& forall|class: NodeTypeClass, a: u64, b: u64, r1: u64, r2: u64|
        kernel.ensures((class, a, b), r1) && kernel.ensures((class, a, b), r2) ==> r1 == r2
}

/// What `kernel` returns on these inputs.
pub open spec fn kernel_value<K: Fn(NodeTypeClass, u64, u64) -> u64>(
    kernel: &K,
    class: NodeTypeClass,
    a: u64,
    b: u64,
) -> u64 {
    choose|r: u64| kernel.ensures((class, a, b), r)
}

/// Runs the kernel once.
pub fn apply<K: Fn(NodeTypeClass, u64, u64) -> u64>(
    kernel: &K,
    class: NodeTypeClass,
    a: u64,
    b: u64,
) -> (r: u64)
    requires
        pure_kernel(kernel),
    ensures
        r == kernel_value(kernel, class, a, b),
{
    kernel(class, a, b)
}

} // verus!
