use f64ad_core::graph::ComputationGraph;
use f64ad_core::kernel::NodeTypeClass;
use f64ad_core::locked::{
    f64ad_locked_var_operation_one_parent, f64ad_locked_var_operation_two_parents,
};
use f64ad_core::node_type::NodeType;
use f64ad_core::record::{f64ad_universal_function_1_operand, f64ad_universal_function_2_operands};
use f64ad_core::scalar::{f64ad, ComputationGraphMode};

fn float_ops(class: NodeTypeClass, a: u64, b: u64) -> u64 {
    let x = f64::from_bits(a);
    let y = f64::from_bits(b);
    let r = match class {
        NodeTypeClass::Add => x + y,
        NodeTypeClass::Mul => x * y,
        NodeTypeClass::Sub => x - y,
        NodeTypeClass::Div => x / y,
        NodeTypeClass::Neg => -x,
        NodeTypeClass::Sin => x.sin(),
        NodeTypeClass::Cos => x.cos(),
        _ => panic!("not used here"),
    };
    r.to_bits()
}

#[test]
fn locked_graph_computes_again_on_new_inputs() {
    let mut g = ComputationGraph::new(ComputationGraphMode::Lock, None);
    let v = g.spawn_f64ad_var(3.0f64.to_bits());
    let result = f64ad_universal_function_1_operand(v, NodeTypeClass::Cos, &mut g, &float_ops).unwrap();
    let mut locked = g.lock(None, result);
    assert_eq!(locked.num_nodes(), 2);
    assert_eq!(f64::from_bits(locked.get_value(1)), 3.0f64.cos());
    for x in [0.0f64, 1.0, -2.5] {
        let stale = locked.get_value(1);
        locked.set_value(0, x.to_bits());
        assert_eq!(locked.get_value(1), stale);
        locked.push_forward_compute(&float_ops);
        let out = locked.template_output().node_idx();
        assert_eq!(f64::from_bits(locked.get_value(out)), x.cos());
        assert_eq!(f64::from_bits(locked.get_value(0)), x);
    }
    assert_eq!(f64::from_bits(result.value(&g).unwrap()), 3.0f64.cos());
}

#[test]
fn locked_derivative_computes_again_on_new_inputs() {
    let mut g = ComputationGraph::new(ComputationGraphMode::Lock, Some("d"));
    let v = g.spawn_f64ad_var(3.0f64.to_bits());
    let c = f64ad_universal_function_1_operand(v, NodeTypeClass::Cos, &mut g, &float_ops).unwrap();
    let result = f64ad_universal_function_2_operands(c, v, NodeTypeClass::Mul, &mut g, &float_ops).unwrap();
    let grad = result.backwards_mode_grad(true, &mut g, &float_ops).unwrap();
    let derivative = grad.wrt(&v, &g).unwrap();
    let mut locked = g.lock(None, derivative);
    for x in [0.0f64, 1.0, 2.0] {
        locked.set_value(0, x.to_bits());
        locked.push_forward_compute(&float_ops);
        let out = locked.template_output().node_idx();
        let expected = x.cos() - x * x.sin();
        assert!((f64::from_bits(locked.get_value(out)) - expected).abs() < 1e-15);
    }
}

#[test]
fn locked_vars_repeat_the_recorded_operations() {
    let mut g = ComputationGraph::new(ComputationGraphMode::Lock, None);
    let a = g.spawn_f64ad_var(1.0f64.to_bits());
    let b = g.spawn_f64ad_var(2.0f64.to_bits());
    let s = f64ad_universal_function_2_operands(a, b, NodeTypeClass::Sub, &mut g, &float_ops).unwrap();
    let t = f64ad_universal_function_2_operands(f64ad::from_bits(10.0f64.to_bits()), s, NodeTypeClass::Div, &mut g, &float_ops).unwrap();
    let mut locked = g.lock(None, t);
    let la = locked.spawn_locked_var(7.0f64.to_bits());
    let lb = locked.spawn_locked_var(2.0f64.to_bits());
    let (la, lb) = match (la, lb) {
        (f64ad::Var(x), f64ad::Var(y)) => (x, y),
        _ => unreachable!(),
    };
    assert_eq!((la.node_idx(), lb.node_idx()), (0, 1));
    assert_eq!(la.mode, ComputationGraphMode::Lock);
    assert_ne!(la.computation_graph_id(), g.id());
    let ls = f64ad_locked_var_operation_two_parents(
        &la, &lb, NodeType::SubtractionTwoParents, &mut locked, &float_ops,
    );
    assert_eq!(ls.node_idx(), 2);
    assert_eq!(f64::from_bits(locked.get_value(2)), 5.0);
    let lt = f64ad_locked_var_operation_one_parent(
        &ls, Some(10.0f64.to_bits()), NodeType::DivisionOneParentDenominator, &mut locked, &float_ops,
    );
    assert_eq!(lt.node_idx(), 3);
    assert_eq!(f64::from_bits(locked.get_value(3)), 2.0);
    assert_eq!(f64::from_bits(t.value(&g).unwrap()), -10.0);
}
