use f64ad_core::graph::{other_than, ComputationGraph};
use f64ad_core::kernel::NodeTypeClass;
use f64ad_core::node_type::{NodeOperandsMode, NodeType};
use f64ad_core::operands::{ConstantList, ParentList};
use f64ad_core::record::{f64ad_universal_function_1_operand, f64ad_universal_function_2_operands};
use f64ad_core::scalar::{f64ad, f64ad_var, AdError, ComputationGraphMode, F64adType};

fn ieee(class: NodeTypeClass, a: u64, b: u64) -> u64 {
    let x = f64::from_bits(a);
    let y = f64::from_bits(b);
    let r = match class {
        NodeTypeClass::InputVariable => x,
        NodeTypeClass::Add => x + y,
        NodeTypeClass::Mul => x * y,
        NodeTypeClass::Sub => x - y,
        NodeTypeClass::Div => x / y,
        NodeTypeClass::Neg => -x,
        NodeTypeClass::Abs => x.abs(),
        NodeTypeClass::Signum => x.signum(),
        NodeTypeClass::Max => x.max(y),
        NodeTypeClass::Min => x.min(y),
        NodeTypeClass::Atan2 => x.atan2(y),
        NodeTypeClass::Floor => x.floor(),
        NodeTypeClass::Ceil => x.ceil(),
        NodeTypeClass::Round => x.round(),
        NodeTypeClass::Trunc => x.trunc(),
        NodeTypeClass::Fract => x.fract(),
        NodeTypeClass::Sin => x.sin(),
        NodeTypeClass::Cos => x.cos(),
        NodeTypeClass::Tan => x.tan(),
        NodeTypeClass::Asin => x.asin(),
        NodeTypeClass::Acos => x.acos(),
        NodeTypeClass::Atan => x.atan(),
        NodeTypeClass::Sinh => x.sinh(),
        NodeTypeClass::Cosh => x.cosh(),
        NodeTypeClass::Tanh => x.tanh(),
        NodeTypeClass::Asinh => x.asinh(),
        NodeTypeClass::Acosh => x.acosh(),
        NodeTypeClass::Atanh => x.atanh(),
        NodeTypeClass::Log => x.log(y),
        NodeTypeClass::Sqrt => x.sqrt(),
        NodeTypeClass::Exp => x.exp(),
        NodeTypeClass::Powf => x.powf(y),
    };
    r.to_bits()
}

fn plain(x: f64) -> f64ad {
    f64ad::from_bits(x.to_bits())
}

fn val(x: f64ad, g: &ComputationGraph) -> f64 {
    f64::from_bits(x.value(g).unwrap())
}

fn op2(class: NodeTypeClass, a: f64ad, b: f64ad, g: &mut ComputationGraph) -> f64ad {
    f64ad_universal_function_2_operands(a, b, class, g, &ieee).unwrap()
}

fn op1(class: NodeTypeClass, a: f64ad, g: &mut ComputationGraph) -> f64ad {
    f64ad_universal_function_1_operand(a, class, g, &ieee).unwrap()
}

#[test]
fn cube_of_two_has_value_eight_and_derivative_twelve() {
    let mut g = ComputationGraph::new(ComputationGraphMode::Standard, None);
    let v = g.spawn_f64ad_var(2.0f64.to_bits());
    let result = op2(NodeTypeClass::Powf, v, plain(3.0), &mut g);
    assert_eq!(val(result, &g), 8.0);
    let back = result.backwards_mode_grad(false, &mut g, &ieee).unwrap();
    assert_eq!(val(back.wrt(&v, &g).unwrap(), &g), 12.0);
    let fwd = v.forward_mode_grad(false, &mut g, &ieee).unwrap();
    assert_eq!(val(fwd.wrt(&result, &g).unwrap(), &g), 12.0);
}

#[test]
fn unused_input_has_derivative_zero() {
    let mut g = ComputationGraph::new(ComputationGraphMode::Standard, None);
    let v0 = g.spawn_f64ad_var(2.0f64.to_bits());
    let v1 = g.spawn_f64ad_var(4.0f64.to_bits());
    let unused = g.spawn_f64ad_var(7.0f64.to_bits());
    let s = op1(NodeTypeClass::Sin, v0, &mut g);
    let left = op2(NodeTypeClass::Mul, s, v1, &mut g);
    let l = op2(NodeTypeClass::Log, v1, v0, &mut g);
    let right = op2(NodeTypeClass::Mul, plain(5.0), l, &mut g);
    let result = op2(NodeTypeClass::Add, left, right, &mut g);
    let expected = 2.0f64.sin() * 4.0 + 5.0 * 4.0f64.log(2.0);
    assert_eq!(val(result, &g), expected);
    let back = result.backwards_mode_grad(false, &mut g, &ieee).unwrap();
    assert_eq!(back.wrt(&unused, &g).unwrap(), plain(0.0));
    let d0 = val(back.wrt(&v0, &g).unwrap(), &g);
    let d1 = val(back.wrt(&v1, &g).unwrap(), &g);
    let e0 = 2.0f64.cos() * 4.0 - 5.0 * 4.0f64.ln() / (2.0 * 2.0f64.ln() * 2.0f64.ln());
    let e1 = 2.0f64.sin() + 5.0 / (4.0 * 2.0f64.ln());
    assert!((d0 - e0).abs() < 1e-12);
    assert!((d1 - e1).abs() < 1e-12);
    let fwd = unused.forward_mode_grad(false, &mut g, &ieee).unwrap();
    assert_eq!(fwd.wrt(&result, &g).unwrap(), plain(0.0));
}

#[test]
fn fifth_power_derivatives_are_exact_to_every_order() {
    let mut g = ComputationGraph::new(ComputationGraphMode::Standard, None);
    let x = g.spawn_f64ad_var(2.0f64.to_bits());
    let mut f = op2(NodeTypeClass::Powf, x, plain(5.0), &mut g);
    let expected = [80.0, 160.0, 240.0, 240.0, 120.0, 0.0];
    for e in expected {
        let grad = f.backwards_mode_grad(true, &mut g, &ieee).unwrap();
        f = grad.wrt(&x, &g).unwrap();
        assert_eq!(val(f, &g), e);
    }
}

#[test]
fn fifth_power_derivatives_forward_mode() {
    let mut g = ComputationGraph::new(ComputationGraphMode::Standard, None);
    let x = g.spawn_f64ad_var(2.0f64.to_bits());
    let mut f = op2(NodeTypeClass::Powf, x, plain(5.0), &mut g);
    let expected = [80.0, 160.0, 240.0];
    for e in expected {
        let grad = x.forward_mode_grad(true, &mut g, &ieee).unwrap();
        f = grad.wrt(&f, &g).unwrap();
        assert_eq!(val(f, &g), e);
    }
}

#[test]
fn forward_and_reverse_agree_on_one_input_one_output() {
    let mut g = ComputationGraph::new(ComputationGraphMode::Standard, None);
    let x = g.spawn_f64ad_var(0.7f64.to_bits());
    let a = op1(NodeTypeClass::Sin, x, &mut g);
    let b = op2(NodeTypeClass::Mul, a, x, &mut g);
    let c = op1(NodeTypeClass::Exp, b, &mut g);
    let y = op2(NodeTypeClass::Div, c, x, &mut g);
    let fwd = x.forward_mode_grad(false, &mut g, &ieee).unwrap();
    let back = y.backwards_mode_grad(false, &mut g, &ieee).unwrap();
    let df = val(fwd.wrt(&y, &g).unwrap(), &g);
    let db = val(back.wrt(&x, &g).unwrap(), &g);
    assert!((df - db).abs() <= 1e-12 * df.abs().max(1.0));
}

#[test]
fn chain_rule_composition() {
    let mut g = ComputationGraph::new(ComputationGraphMode::Standard, None);
    let x = g.spawn_f64ad_var(0.3f64.to_bits());
    let inner = op1(NodeTypeClass::Exp, x, &mut g);
    let outer = op1(NodeTypeClass::Sin, inner, &mut g);
    let back = outer.backwards_mode_grad(false, &mut g, &ieee).unwrap();
    let d = val(back.wrt(&x, &g).unwrap(), &g);
    let expected = 0.3f64.exp().cos() * 0.3f64.exp();
    assert!((d - expected).abs() < 1e-14);
}

#[test]
fn plain_operations_allocate_no_node() {
    let mut g = ComputationGraph::new(ComputationGraphMode::Standard, None);
    let _ = g.spawn_f64ad_var(1.0f64.to_bits());
    let before = g.num_nodes();
    let s = op2(NodeTypeClass::Add, plain(1.5), plain(2.25), &mut g);
    assert_eq!(s, plain(3.75));
    let t = op1(NodeTypeClass::Sqrt, plain(16.0), &mut g);
    assert_eq!(t, plain(4.0));
    let u = op2(NodeTypeClass::Powf, plain(2.0), plain(10.0), &mut g);
    assert_eq!(u, plain(1024.0));
    assert_eq!(s.map_to_type(), F64adType::Plain);
    assert_eq!(g.num_nodes(), before);
}

#[test]
fn numeric_gradient_leaves_graph_unchanged_and_symbolic_grows_it() {
    let mut g = ComputationGraph::new(ComputationGraphMode::Standard, None);
    let x = g.spawn_f64ad_var(1.5f64.to_bits());
    let y = op1(NodeTypeClass::Sin, x, &mut g);
    let n = g.num_nodes();
    let _ = y.backwards_mode_grad(false, &mut g, &ieee).unwrap();
    assert_eq!(g.num_nodes(), n);
    let out = y.backwards_mode_grad(true, &mut g, &ieee).unwrap();
    assert!(g.num_nodes() > n);
    let d = out.wrt(&x, &g).unwrap();
    assert_eq!(d.map_to_type(), F64adType::Var);
    assert_eq!(val(d, &g), 1.5f64.cos());
}

#[test]
fn handles_are_stale_after_reset() {
    let mut g = ComputationGraph::with_id(17, ComputationGraphMode::Standard, None);
    let x = g.spawn_f64ad_var(3.0f64.to_bits());
    let y = op2(NodeTypeClass::Mul, x, x, &mut g);
    let grad = y.backwards_mode_grad(false, &mut g, &ieee).unwrap();
    assert_eq!(val(grad.wrt(&x, &g).unwrap(), &g), 6.0);
    g.reset_with_id(18);
    assert_eq!(g.num_nodes(), 0);
    let stale = AdError::StaleHandle { handle_graph: 17, graph: 18 };
    assert_eq!(x.value(&g), Err(stale));
    assert_eq!(grad.wrt(&x, &g), Err(stale));
    assert_eq!(
        f64ad_universal_function_2_operands(x, plain(1.0), NodeTypeClass::Add, &mut g, &ieee),
        Err(stale)
    );
    assert_eq!(
        f64ad_universal_function_2_operands(plain(1.0), x, NodeTypeClass::Add, &mut g, &ieee),
        Err(stale)
    );
    assert_eq!(
        f64ad_universal_function_2_operands(x, y, NodeTypeClass::Add, &mut g, &ieee),
        Err(stale)
    );
    assert_eq!(
        f64ad_universal_function_1_operand(x, NodeTypeClass::Sin, &mut g, &ieee),
        Err(stale)
    );
    assert_eq!(x.forward_mode_grad(false, &mut g, &ieee).err(), Some(stale));
    assert_eq!(y.backwards_mode_grad(true, &mut g, &ieee).err(), Some(stale));
    assert_eq!(g.num_nodes(), 0);
    let fresh = g.spawn_f64ad_var(1.0f64.to_bits());
    assert_eq!(val(fresh, &g), 1.0);
    assert_eq!(grad.wrt(&fresh, &g), Err(stale));
}

#[test]
fn random_reset_invalidates_handles() {
    let mut g = ComputationGraph::new(ComputationGraphMode::Standard, Some("g"));
    let x = g.spawn_f64ad_var(3.0f64.to_bits());
    let issued_under = g.id();
    for _ in 0..100 {
        let before = g.id();
        g.reset();
        assert_ne!(g.id(), before);
    }
    if g.id() != issued_under {
        assert_eq!(
            x.value(&g),
            Err(AdError::StaleHandle { handle_graph: issued_under, graph: g.id() })
        );
    }
    g.reset_with_id(issued_under);
    g.reset();
    assert_eq!(x.value(&g), Err(AdError::StaleHandle { handle_graph: issued_under, graph: g.id() }));
    assert_eq!(other_than(5, 5), 6);
    assert_eq!(other_than(usize::MAX, usize::MAX), 0);
    assert_eq!(other_than(5, 9), 5);
}

#[test]
fn scalars_of_two_graphs_do_not_combine() {
    let mut g1 = ComputationGraph::new(ComputationGraphMode::Standard, None);
    let mut g2 = ComputationGraph::new(ComputationGraphMode::Standard, None);
    assert_ne!(g1.id(), g2.id());
    let a = g1.spawn_f64ad_var(1.0f64.to_bits());
    let b = g2.spawn_f64ad_var(2.0f64.to_bits());
    for class in [NodeTypeClass::Add, NodeTypeClass::Mul, NodeTypeClass::Powf] {
        assert_eq!(
            f64ad_universal_function_2_operands(a, b, class, &mut g1, &ieee),
            Err(AdError::GraphMismatch { operation: class, lhs_graph: g1.id(), rhs_graph: g2.id() })
        );
        assert_eq!(
            f64ad_universal_function_2_operands(b, a, class, &mut g2, &ieee),
            Err(AdError::GraphMismatch { operation: class, lhs_graph: g2.id(), rhs_graph: g1.id() })
        );
    }
    assert_eq!(g1.num_nodes(), 1);
    assert_eq!(g2.num_nodes(), 1);
}

#[test]
fn scalars_of_two_modes_do_not_combine() {
    let mut g1 = ComputationGraph::with_id(1, ComputationGraphMode::Standard, None);
    let mut g2 = ComputationGraph::with_id(1, ComputationGraphMode::Lock, None);
    let a = g1.spawn_f64ad_var(1.0f64.to_bits());
    let b = g2.spawn_f64ad_var(2.0f64.to_bits());
    assert_eq!(
        f64ad_universal_function_2_operands(a, b, NodeTypeClass::Add, &mut g1, &ieee),
        Err(AdError::KindMismatch { operation: NodeTypeClass::Add, lhs_graph: 1, rhs_graph: 1 })
    );
}

#[test]
fn gradient_errors() {
    let mut g = ComputationGraph::new(ComputationGraphMode::Standard, None);
    let x = g.spawn_f64ad_var(0.0f64.to_bits());
    assert!(matches!(
        plain(1.0).backwards_mode_grad(false, &mut g, &ieee),
        Err(AdError::NotRecorded)
    ));
    assert!(matches!(
        plain(f64::NAN).forward_mode_grad(false, &mut g, &ieee),
        Err(AdError::NonFiniteSeed)
    ));
    let inf = op2(NodeTypeClass::Div, plain(1.0), x, &mut g);
    assert_eq!(val(inf, &g), f64::INFINITY);
    assert!(matches!(inf.backwards_mode_grad(false, &mut g, &ieee), Err(AdError::NonFiniteSeed)));
    let nan = op2(NodeTypeClass::Sub, inf, inf, &mut g);
    assert!(matches!(nan.forward_mode_grad(true, &mut g, &ieee), Err(AdError::NonFiniteSeed)));
    let grad = x.forward_mode_grad(false, &mut g, &ieee).unwrap();
    assert_eq!(grad.wrt(&plain(2.0), &g), Err(AdError::NotRecorded));
}

#[test]
fn recorded_nodes_keep_tag_parents_and_constant() {
    let mut g = ComputationGraph::with_id(5, ComputationGraphMode::Standard, Some("tape"));
    let x = g.spawn_f64ad_var(6.0f64.to_bits());
    let y = g.spawn_f64ad_var(3.0f64.to_bits());
    let d = op2(NodeTypeClass::Sub, plain(10.0), x, &mut g);
    let q = op2(NodeTypeClass::Div, x, y, &mut g);
    let p = op2(NodeTypeClass::Mul, plain(2.0), y, &mut g);
    assert_eq!(val(d, &g), 4.0);
    assert_eq!(val(q, &g), 2.0);
    assert_eq!(val(p, &g), 6.0);
    assert_eq!(d, f64ad::Var(f64ad_var::new(5, 2, ComputationGraphMode::Standard)));
    assert_eq!(d.node_idx(), 2);
    let n = g.node(2);
    assert_eq!(n.node_idx(), 2);
    assert_eq!(n.node_type(), NodeType::SubtractionOneParentRight);
    assert_eq!(n.parent_nodes().len(), 1);
    assert_eq!(n.parent_nodes().get(0), 0);
    assert_eq!(n.constant_operands().len(), 1);
    assert_eq!(n.constant_operands().get(0), 10.0f64.to_bits());
    let n = g.node(3);
    assert_eq!(n.node_type(), NodeType::DivisionTwoParents);
    assert_eq!(n.parent_nodes().len(), 2);
    assert_eq!(n.parent_nodes().get(0), 0);
    assert_eq!(n.parent_nodes().get(1), 1);
    assert_eq!(n.constant_operands().len(), 0);
    let n = g.node(4);
    assert_eq!(n.node_type(), NodeType::MultiplicationOneParentRight);
    assert_eq!(n.parent_nodes().get(0), 1);
    assert_eq!(g.node(0).node_type(), NodeType::InputVar);
    assert_eq!(g.node(0).value(), 6.0f64.to_bits());
    assert_eq!(g.mode(), ComputationGraphMode::Standard);
    assert!(g.name_is(&"tape".to_string()));
}

#[test]
fn add_node_computes_value_by_the_value_rule() {
    let mut g = ComputationGraph::new(ComputationGraphMode::Standard, None);
    let _ = g.spawn_f64ad_var(2.0f64.to_bits());
    let _ = g.spawn_f64ad_var(10.0f64.to_bits());
    let h = g.add_node(
        NodeType::PowOneParentExponent,
        ParentList::one(1),
        ConstantList::one(3.0f64.to_bits()),
        &ieee,
    );
    assert_eq!(h.node_idx(), 2);
    assert_eq!(h.computation_graph_id(), g.id());
    assert_eq!(f64::from_bits(g.node(2).value()), 3.0f64.powf(10.0));
    let h = g.add_node(NodeType::LogTwoParents, ParentList::two(1, 0), ConstantList::empty(), &ieee);
    assert_eq!(f64::from_bits(g.node(h.node_idx()).value()), 10.0f64.log(2.0));
    let v = NodeType::Atan2OneParentRight.compute_value(
        &ParentList::one(0),
        &ConstantList::one(1.0f64.to_bits()),
        &g,
        &ieee,
    );
    assert_eq!(f64::from_bits(v), 1.0f64.atan2(2.0));
    let copy = ParentList::two(4, 9).duplicate();
    assert_eq!((copy.len(), copy.get(0), copy.get(1)), (2, 4, 9));
    let copy = ConstantList::one(77).duplicate();
    assert_eq!((copy.len(), copy.get(0)), (1, 77));
    assert_eq!(ParentList::empty().len(), 0);
}

#[test]
fn tags_follow_class_and_operand_mode() {
    assert_eq!(NodeType::from_class(NodeTypeClass::Sub, NodeOperandsMode::OneParentLHS), Some(NodeType::SubtractionOneParentLeft));
    assert_eq!(NodeType::from_class(NodeTypeClass::Sub, NodeOperandsMode::OneParentRHS), Some(NodeType::SubtractionOneParentRight));
    assert_eq!(NodeType::from_class(NodeTypeClass::Sub, NodeOperandsMode::TwoParents), Some(NodeType::SubtractionTwoParents));
    assert_eq!(NodeType::from_class(NodeTypeClass::Div, NodeOperandsMode::OneParentLHS), Some(NodeType::DivisionOneParentNumerator));
    assert_eq!(NodeType::from_class(NodeTypeClass::Div, NodeOperandsMode::OneParentRHS), Some(NodeType::DivisionOneParentDenominator));
    assert_eq!(NodeType::from_class(NodeTypeClass::Add, NodeOperandsMode::OneParentRHS), Some(NodeType::AdditionOneParentRight));
    assert_eq!(NodeType::from_class(NodeTypeClass::Add, NodeOperandsMode::OneParentLHS), Some(NodeType::AdditionOneParentLeft));
    assert_eq!(NodeType::from_class(NodeTypeClass::Max, NodeOperandsMode::OneParentLHS), Some(NodeType::MaxOneParentLeft));
    assert_eq!(NodeType::from_class(NodeTypeClass::Max, NodeOperandsMode::OneParentRHS), Some(NodeType::MaxOneParentRight));
    assert_eq!(NodeType::from_class(NodeTypeClass::Min, NodeOperandsMode::OneParentRHS), Some(NodeType::MinOneParentRight));
    assert_eq!(NodeType::from_class(NodeTypeClass::Mul, NodeOperandsMode::OneParentLHS), Some(NodeType::MultiplicationOneParentLeft));
    assert_eq!(NodeType::from_class(NodeTypeClass::Powf, NodeOperandsMode::OneParentRHS), Some(NodeType::PowOneParentExponent));
    assert_eq!(NodeType::from_class(NodeTypeClass::Log, NodeOperandsMode::OneParentLHS), Some(NodeType::LogOneParentArgument));
    assert_eq!(NodeType::from_class(NodeTypeClass::Sin, NodeOperandsMode::OneParentLHS), Some(NodeType::Sin));
    assert_eq!(NodeType::from_class(NodeTypeClass::Sin, NodeOperandsMode::TwoParents), None);
    assert_eq!(NodeType::from_class(NodeTypeClass::Add, NodeOperandsMode::NoParents), None);
    assert_eq!(NodeType::from_class(NodeTypeClass::InputVariable, NodeOperandsMode::NoParents), Some(NodeType::InputVar));
    assert_eq!(NodeType::PowTwoParents.class(), NodeTypeClass::Powf);
    assert_eq!(NodeType::PowTwoParents.parent_count(), 2);
    assert_eq!(NodeType::InputVar.parent_count(), 0);
    assert!(NodeType::MaxOneParentLeft.has_constant());
    assert!(NodeType::MaxOneParentRight.constant_first());
    assert!(!NodeType::MaxOneParentLeft.constant_first());
    assert!(NodeType::AdditionOneParentRight.constant_first());
    assert!(!NodeType::MaxTwoParents.has_constant());
    assert!(NodeType::LogOneParentBase.constant_first());
    assert!(!NodeType::LogOneParentArgument.constant_first());
    assert!(!NodeType::Unset.is_operation());
    assert!(NodeType::Exp.is_operation());
}

#[test]
fn maximum_and_minimum_give_a_tie_to_the_left_operand() {
    let mut g = ComputationGraph::new(ComputationGraphMode::Standard, None);
    let x = g.spawn_f64ad_var(2.0f64.to_bits());
    let cases = [
        (NodeTypeClass::Max, true, NodeType::MaxOneParentRight, 0.0),
        (NodeTypeClass::Max, false, NodeType::MaxOneParentLeft, 1.0),
        (NodeTypeClass::Min, true, NodeType::MinOneParentRight, 0.0),
        (NodeTypeClass::Min, false, NodeType::MinOneParentLeft, 1.0),
    ];
    for (class, plain_left, tag, expected) in cases {
        let r = if plain_left { op2(class, plain(2.0), x, &mut g) } else { op2(class, x, plain(2.0), &mut g) };
        assert_eq!(val(r, &g), 2.0);
        assert_eq!(g.node(r.node_idx()).node_type(), tag);
        let back = r.backwards_mode_grad(false, &mut g, &ieee).unwrap();
        assert_eq!(val(back.wrt(&x, &g).unwrap(), &g), expected);
        let fwd = x.forward_mode_grad(false, &mut g, &ieee).unwrap();
        assert_eq!(val(fwd.wrt(&r, &g).unwrap(), &g), expected);
    }
    let both = op2(NodeTypeClass::Max, x, x, &mut g);
    let back = both.backwards_mode_grad(false, &mut g, &ieee).unwrap();
    assert_eq!(val(back.wrt(&x, &g).unwrap(), &g), 1.0);
}

#[test]
fn the_plain_operand_keeps_its_side_in_the_value() {
    fn sided(class: NodeTypeClass, a: u64, b: u64) -> u64 {
        match class {
            NodeTypeClass::Add | NodeTypeClass::Mul | NodeTypeClass::Max | NodeTypeClass::Min => {
                a.wrapping_mul(10).wrapping_add(b)
            }
            _ => 0,
        }
    }
    let mut g = ComputationGraph::new(ComputationGraphMode::Standard, None);
    let x = g.spawn_f64ad_var(3);
    for class in [NodeTypeClass::Add, NodeTypeClass::Mul, NodeTypeClass::Max, NodeTypeClass::Min] {
        let left = f64ad_universal_function_2_operands(f64ad::from_bits(7), x, class, &mut g, &sided).unwrap();
        assert_eq!(left.value(&g), Ok(73));
        assert!(g.node(left.node_idx()).node_type().constant_first());
        let right = f64ad_universal_function_2_operands(x, f64ad::from_bits(7), class, &mut g, &sided).unwrap();
        assert_eq!(right.value(&g), Ok(37));
        assert!(!g.node(right.node_idx()).node_type().constant_first());
    }
}

#[test]
fn zero_times_a_finite_number_adds_to_zero_without_residue() {
    for d in [0.0f64, -0.0, 1.0, -3.5, 5e-324, -5e-324, f64::MAX, f64::MIN] {
        let product = ieee(NodeTypeClass::Mul, 0, d.to_bits());
        assert_eq!(ieee(NodeTypeClass::Add, 0, product), 0, "{}", d);
    }
}

#[test]
fn derivatives_are_exactly_zero_where_the_seed_has_no_part() {
    let mut g = ComputationGraph::new(ComputationGraphMode::Standard, None);
    let a = g.spawn_f64ad_var(1.5f64.to_bits());
    let b = g.spawn_f64ad_var((-2.0f64).to_bits());
    let fa = op1(NodeTypeClass::Exp, a, &mut g);
    let fb = op2(NodeTypeClass::Mul, b, plain(-3.0), &mut g);
    let gb = op2(NodeTypeClass::Sub, plain(1.0), fb, &mut g);
    let mixed = op2(NodeTypeClass::Mul, fa, gb, &mut g);
    let back = fa.backwards_mode_grad(false, &mut g, &ieee).unwrap();
    for off in [b, fb, gb, mixed] {
        assert_eq!(back.wrt(&off, &g), Ok(plain(0.0)));
    }
    assert_eq!(val(back.wrt(&a, &g).unwrap(), &g), 1.5f64.exp());
    let fwd = b.forward_mode_grad(false, &mut g, &ieee).unwrap();
    for off in [a, fa] {
        assert_eq!(fwd.wrt(&off, &g), Ok(plain(0.0)));
    }
    assert_eq!(val(fwd.wrt(&gb, &g).unwrap(), &g), 3.0);
}
