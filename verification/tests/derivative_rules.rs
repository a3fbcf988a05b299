use f64ad_core::derivative::E;
use f64ad_core::graph::ComputationGraph;
use f64ad_core::kernel::NodeTypeClass;
use f64ad_core::node_type::NodeType;
use f64ad_core::operands::{ConstantList, ParentList};
use f64ad_core::scalar::{f64ad, ComputationGraphMode};
use f64ad_core::word;

fn ieee_ops(class: NodeTypeClass, a: u64, b: u64) -> u64 {
    let x = f64::from_bits(a);
    let y = f64::from_bits(b);
    let r = match class {
        NodeTypeClass::InputVariable => x,
        NodeTypeClass::Add => x + y,
        NodeTypeClass::Mul => x * y,
        NodeTypeClass::Sub => x - y,
        NodeTypeClass::Div => x / y,
        NodeTypeClass::Neg => -x,
        NodeTypeClass::Abs => x.abs(),
        NodeTypeClass::Signum => x.signum(),
        NodeTypeClass::Max => x.max(y),
        NodeTypeClass::Min => x.min(y),
        NodeTypeClass::Atan2 => x.atan2(y),
        NodeTypeClass::Floor => x.floor(),
        NodeTypeClass::Ceil => x.ceil(),
        NodeTypeClass::Round => x.round(),
        NodeTypeClass::Trunc => x.trunc(),
        NodeTypeClass::Fract => x.fract(),
        NodeTypeClass::Sin => x.sin(),
        NodeTypeClass::Cos => x.cos(),
        NodeTypeClass::Tan => x.tan(),
        NodeTypeClass::Asin => x.asin(),
        NodeTypeClass::Acos => x.acos(),
        NodeTypeClass::Atan => x.atan(),
        NodeTypeClass::Sinh => x.sinh(),
        NodeTypeClass::Cosh => x.cosh(),
        NodeTypeClass::Tanh => x.tanh(),
        NodeTypeClass::Asinh => x.asinh(),
        NodeTypeClass::Acosh => x.acosh(),
        NodeTypeClass::Atanh => x.atanh(),
        NodeTypeClass::Log => x.log(y),
        NodeTypeClass::Sqrt => x.sqrt(),
        NodeTypeClass::Exp => x.exp(),
        NodeTypeClass::Powf => x.powf(y),
    };
    r.to_bits()
}

/// The value that `tag` computes from parent values `p` and the constant `c`.
fn value_at(tag: NodeType, p: &[f64], c: Option<f64>) -> f64 {
    let mut g = ComputationGraph::new(ComputationGraphMode::Standard, None);
    for v in p {
        let _ = g.spawn_f64ad_var(v.to_bits());
    }
    let parents = if p.len() == 2 { ParentList::two(0, 1) } else { ParentList::one(0) };
    let constants = match c {
        Some(c) => ConstantList::one(c.to_bits()),
        None => ConstantList::empty(),
    };
    f64::from_bits(tag.compute_value(&parents, &constants, &g, &ieee_ops))
}

/// The local derivatives of `tag` at parent values `p`, in both modes.
fn derivatives_at(tag: NodeType, p: &[f64], c: Option<f64>, record: bool) -> Vec<f64> {
    let mut g = ComputationGraph::new(ComputationGraphMode::Standard, None);
    for v in p {
        let _ = g.spawn_f64ad_var(v.to_bits());
    }
    let parents = if p.len() == 2 { ParentList::two(0, 1) } else { ParentList::one(0) };
    let constants = match c {
        Some(c) => ConstantList::one(c.to_bits()),
        None => ConstantList::empty(),
    };
    let before = g.num_nodes();
    let d = tag.compute_derivatives_of_value_wrt_parent_values(
        &parents, &constants, &mut g, record, &ieee_ops,
    );
    if !record {
        assert_eq!(g.num_nodes(), before);
    }
    d.iter().map(|x| f64::from_bits(x.value(&g).unwrap())).collect()
}

fn check_against_central_difference(tag: NodeType, p: &[f64], c: Option<f64>) {
    let numeric = derivatives_at(tag, p, c, false);
    let symbolic = derivatives_at(tag, p, c, true);
    assert_eq!(numeric.len(), p.len());
    for i in 0..p.len() {
        assert_eq!(numeric[i].to_bits(), symbolic[i].to_bits(), "{:?} {:?}", tag, p);
        let h = 1e-6 * p[i].abs().max(1e-3);
        let mut hi = p.to_vec();
        let mut lo = p.to_vec();
        hi[i] += h;
        lo[i] -= h;
        let estimate = (value_at(tag, &hi, c) - value_at(tag, &lo, c)) / (2.0 * h);
        let scale = estimate.abs().max(numeric[i].abs()).max(1e-6);
        assert!(
            (numeric[i] - estimate).abs() <= 1e-6 * scale,
            "{:?} at {:?} c={:?}: rule {} vs difference {}",
            tag, p, c, numeric[i], estimate
        );
    }
}

#[test]
fn unary_rules_match_central_differences() {
    let general = [-2.3, -0.7, 0.35, 1.9];
    for tag in [
        NodeType::Neg, NodeType::Abs, NodeType::Signum, NodeType::Floor, NodeType::Ceil,
        NodeType::Round, NodeType::Trunc, NodeType::Sin, NodeType::Cos, NodeType::Tan,
        NodeType::Atan, NodeType::Sinh, NodeType::Cosh, NodeType::Tanh, NodeType::Asinh,
        NodeType::Exp,
    ] {
        for x in general {
            check_against_central_difference(tag, &[x], None);
        }
    }
    for tag in [NodeType::Asin, NodeType::Acos, NodeType::Atanh] {
        for x in [-0.999, -0.5, 0.01, 0.6, 0.999] {
            check_against_central_difference(tag, &[x], None);
        }
    }
    for x in [1.001, 1.5, 4.0, 30.0] {
        check_against_central_difference(NodeType::Acosh, &[x], None);
    }
    for x in [0.001, 0.5, 2.0, 144.0] {
        check_against_central_difference(NodeType::Sqrt, &[x], None);
    }
}

#[test]
fn fract_has_derivative_zero_by_convention() {
    for x in [-2.3, 0.35, 1.9] {
        assert_eq!(derivatives_at(NodeType::Fract, &[x], None, false), vec![0.0]);
        assert_eq!(derivatives_at(NodeType::Fract, &[x], None, true), vec![0.0]);
    }
}

#[test]
fn one_parent_rules_match_central_differences() {
    for x in [-2.3, -0.001, 0.001, 0.35, 1.9] {
        for c in [-1.5, 0.75, 3.0] {
            for tag in [
                NodeType::AdditionOneParentLeft, NodeType::AdditionOneParentRight,
                NodeType::MultiplicationOneParentLeft, NodeType::MultiplicationOneParentRight,
                NodeType::MaxOneParentRight, NodeType::MinOneParentRight,
                NodeType::SubtractionOneParentLeft, NodeType::SubtractionOneParentRight,
                NodeType::DivisionOneParentDenominator, NodeType::DivisionOneParentNumerator,
                NodeType::MaxOneParentLeft, NodeType::MinOneParentLeft, NodeType::Atan2OneParentLeft,
                NodeType::Atan2OneParentRight,
            ] {
                check_against_central_difference(tag, &[x], Some(c));
            }
        }
    }
    for x in [0.2, 0.9, 1.7, 12.0] {
        for c in [0.5, 2.0, 10.0] {
            for tag in [
                NodeType::LogOneParentArgument, NodeType::LogOneParentBase,
                NodeType::PowOneParentArgument, NodeType::PowOneParentExponent,
            ] {
                check_against_central_difference(tag, &[x], Some(c));
            }
        }
    }
}

#[test]
fn two_parent_rules_match_central_differences() {
    for x in [-2.3, -0.4, 0.35, 1.9] {
        for y in [-1.1, 0.6, 2.5] {
            for tag in [
                NodeType::AdditionTwoParents, NodeType::MultiplicationTwoParents,
                NodeType::SubtractionTwoParents, NodeType::DivisionTwoParents,
                NodeType::MaxTwoParents, NodeType::MinTwoParents, NodeType::Atan2TwoParents,
            ] {
                check_against_central_difference(tag, &[x, y], None);
            }
        }
    }
    for x in [0.2, 0.9, 1.7, 12.0] {
        for y in [0.5, 2.0, 10.0] {
            check_against_central_difference(NodeType::LogTwoParents, &[x, y], None);
            check_against_central_difference(NodeType::PowTwoParents, &[x, y], None);
        }
    }
}

#[test]
fn rule_formulas_exact_values() {
    assert_eq!(derivatives_at(NodeType::MultiplicationTwoParents, &[3.0, 7.0], None, false), vec![7.0, 3.0]);
    assert_eq!(derivatives_at(NodeType::MultiplicationOneParentLeft, &[3.0], Some(5.0), false), vec![5.0]);
    assert_eq!(derivatives_at(NodeType::DivisionTwoParents, &[3.0, 2.0], None, false), vec![0.5, -0.75]);
    assert_eq!(derivatives_at(NodeType::DivisionOneParentDenominator, &[2.0], Some(8.0), false), vec![-2.0]);
    assert_eq!(derivatives_at(NodeType::DivisionOneParentNumerator, &[2.0], Some(8.0), false), vec![0.125]);
    assert_eq!(derivatives_at(NodeType::SubtractionTwoParents, &[1.0, 1.0], None, false), vec![1.0, -1.0]);
    assert_eq!(derivatives_at(NodeType::Atan2TwoParents, &[1.0, 1.0], None, false), vec![0.5, -0.5]);
    assert_eq!(derivatives_at(NodeType::Sqrt, &[4.0], None, false), vec![0.25]);
    assert_eq!(derivatives_at(NodeType::PowOneParentArgument, &[2.0], Some(3.0), false), vec![12.0]);
    assert_eq!(derivatives_at(NodeType::PowTwoParents, &[2.0, 3.0], None, false), vec![12.0, 8.0 * 2.0f64.ln()]);
    assert_eq!(derivatives_at(NodeType::Exp, &[0.0], None, true), vec![1.0]);
    assert_eq!(derivatives_at(NodeType::MultiplicationOneParentRight, &[3.0], Some(5.0), true), vec![5.0]);
}

#[test]
fn conventions_at_points_without_a_derivative() {
    assert_eq!(derivatives_at(NodeType::Abs, &[0.0], None, false), vec![1.0]);
    assert_eq!(derivatives_at(NodeType::Abs, &[-0.0], None, false), vec![1.0]);
    assert_eq!(derivatives_at(NodeType::Abs, &[-3.0], None, false), vec![-1.0]);
    assert_eq!(derivatives_at(NodeType::MaxTwoParents, &[2.0, 2.0], None, false), vec![1.0, 0.0]);
    assert_eq!(derivatives_at(NodeType::MinTwoParents, &[2.0, 2.0], None, false), vec![1.0, 0.0]);
    assert_eq!(derivatives_at(NodeType::MaxTwoParents, &[1.0, 2.0], None, true), vec![0.0, 1.0]);
    assert_eq!(derivatives_at(NodeType::MinTwoParents, &[1.0, 2.0], None, true), vec![1.0, 0.0]);
    assert_eq!(derivatives_at(NodeType::MaxOneParentLeft, &[2.0], Some(2.0), false), vec![1.0]);
    assert_eq!(derivatives_at(NodeType::MaxOneParentLeft, &[1.0], Some(2.0), false), vec![0.0]);
    assert_eq!(derivatives_at(NodeType::MinOneParentLeft, &[2.0], Some(2.0), false), vec![1.0]);
    assert_eq!(derivatives_at(NodeType::MinOneParentLeft, &[3.0], Some(2.0), false), vec![0.0]);
    assert_eq!(derivatives_at(NodeType::MaxOneParentRight, &[5.0], Some(1.0), false), vec![1.0]);
    assert_eq!(derivatives_at(NodeType::MaxOneParentRight, &[1.0], Some(5.0), false), vec![0.0]);
    assert_eq!(derivatives_at(NodeType::MaxOneParentRight, &[2.0], Some(2.0), false), vec![0.0]);
    assert_eq!(derivatives_at(NodeType::MaxOneParentRight, &[2.0], Some(2.0), true), vec![0.0]);
    assert_eq!(derivatives_at(NodeType::MinOneParentRight, &[2.0], Some(2.0), false), vec![0.0]);
    assert_eq!(derivatives_at(NodeType::MinOneParentRight, &[1.0], Some(5.0), false), vec![1.0]);
    assert_eq!(derivatives_at(NodeType::MinOneParentRight, &[5.0], Some(1.0), false), vec![0.0]);
    assert_eq!(derivatives_at(NodeType::Floor, &[2.0], None, false), vec![0.0]);
    assert_eq!(derivatives_at(NodeType::Signum, &[0.0], None, true), vec![0.0]);
}

#[test]
fn words_are_those_of_the_numbers() {
    assert_eq!(word::ZERO, 0.0f64.to_bits());
    assert_eq!(word::ONE, 1.0f64.to_bits());
    assert_eq!(word::NEG_ONE, (-1.0f64).to_bits());
    assert_eq!(word::TWO, 2.0f64.to_bits());
    assert_eq!(word::SIGN_BIT, (-0.0f64).to_bits());
    assert_eq!(word::INFINITY_MAGNITUDE, f64::INFINITY.to_bits());
    assert_eq!(E, std::f64::consts::E.to_bits());
    assert_eq!(f64ad::default(), f64ad::from_bits(0));
}

#[test]
fn word_order_is_the_order_of_numbers() {
    let samples = [
        f64::NEG_INFINITY, f64::MIN, -3.5, -1.0, -f64::MIN_POSITIVE, -5e-324, -0.0, 0.0, 5e-324,
        f64::MIN_POSITIVE, 0.1, 1.0, 2.0, 1e300, f64::MAX, f64::INFINITY, f64::NAN, -f64::NAN,
    ];
    for a in samples {
        assert_eq!(word::is_nan(a.to_bits()), a.is_nan(), "{}", a);
        assert_eq!(word::is_finite(a.to_bits()), a.is_finite(), "{}", a);
        assert_eq!(word::magnitude(a.to_bits()), a.abs().to_bits(), "{}", a);
        for b in samples {
            assert_eq!(word::ge(a.to_bits(), b.to_bits()), a >= b, "{} >= {}", a, b);
            assert_eq!(word::le(a.to_bits(), b.to_bits()), a <= b, "{} <= {}", a, b);
        }
    }
}
