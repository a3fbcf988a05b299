use f64ad_core::graph::ComputationGraph;
use f64ad_core::jacobian_driver::{f64ad_jacobian, f64ad_jacobian_internal_nonparallel};
use f64ad_core::jacobian_output::JacobianOutput;
use f64ad_core::kernel::NodeTypeClass;
use f64ad_core::record::{
    f64ad_universal_function, f64ad_universal_function_1_operand,
    f64ad_universal_function_2_operands,
};
use f64ad_core::scalar::{f64ad, AdError, ComputationGraphMode};

fn arithmetic(class: NodeTypeClass, a: u64, b: u64) -> u64 {
    let x = f64::from_bits(a);
    let y = f64::from_bits(b);
    let r = match class {
        NodeTypeClass::Add => x + y,
        NodeTypeClass::Mul => x * y,
        NodeTypeClass::Sub => x - y,
        NodeTypeClass::Div => x / y,
        NodeTypeClass::Neg => -x,
        NodeTypeClass::Sin => x.sin(),
        NodeTypeClass::Cos => x.cos(),
        NodeTypeClass::Exp => x.exp(),
        NodeTypeClass::Log => x.log(y),
        NodeTypeClass::Powf => x.powf(y),
        _ => panic!("not used here"),
    };
    r.to_bits()
}

fn num(x: f64) -> f64ad {
    f64ad::from_bits(x.to_bits())
}

fn get(t: &JacobianOutput, g: &ComputationGraph, output: usize, inputs: &[usize]) -> f64 {
    let e = t.get_entry(inputs.to_vec(), output).unwrap();
    f64::from_bits(e.value().value(g).unwrap())
}

/// f0 = x * y * y, f1 = x + 3 y, at x = 2, y = 5.
fn two_by_two(g: &mut ComputationGraph) -> ([f64ad; 2], [f64ad; 2]) {
    let x = g.spawn_f64ad_var(2.0f64.to_bits());
    let y = g.spawn_f64ad_var(5.0f64.to_bits());
    let xy = f64ad_universal_function_2_operands(x, y, NodeTypeClass::Mul, g, &arithmetic).unwrap();
    let f0 = f64ad_universal_function_2_operands(xy, y, NodeTypeClass::Mul, g, &arithmetic).unwrap();
    let y3 = f64ad_universal_function(num(3.0), Some(y), NodeTypeClass::Mul, g, &arithmetic).unwrap();
    let f1 = f64ad_universal_function(x, Some(y3), NodeTypeClass::Add, g, &arithmetic).unwrap();
    ([x, y], [f0, f1])
}

#[test]
fn first_order_jacobian_of_two_outputs_by_two_inputs() {
    let mut g = ComputationGraph::new(ComputationGraphMode::Standard, None);
    let (inputs, outputs) = two_by_two(&mut g);
    let n = g.num_nodes();
    let t = f64ad_jacobian(&inputs, &outputs, 1, &mut g, &arithmetic).unwrap();
    assert_eq!(g.num_nodes(), n);
    assert_eq!(t.len(), 4);
    assert_eq!(get(&t, &g, 0, &[0]), 25.0);
    assert_eq!(get(&t, &g, 0, &[1]), 20.0);
    assert_eq!(get(&t, &g, 1, &[0]), 1.0);
    assert_eq!(get(&t, &g, 1, &[1]), 3.0);
    assert!(t.get_entry(vec![], 0).is_none());
}

#[test]
fn second_order_jacobian_holds_the_hessian() {
    let mut g = ComputationGraph::new(ComputationGraphMode::Standard, None);
    let x = g.spawn_f64ad_var(2.0f64.to_bits());
    let y = g.spawn_f64ad_var(5.0f64.to_bits());
    let xy = f64ad_universal_function_2_operands(x, y, NodeTypeClass::Mul, &mut g, &arithmetic).unwrap();
    let f = f64ad_universal_function_2_operands(xy, xy, NodeTypeClass::Mul, &mut g, &arithmetic).unwrap();
    let t = f64ad_jacobian(&[x, y], &[f], 2, &mut g, &arithmetic).unwrap();
    assert_eq!(t.len(), 4);
    assert_eq!(get(&t, &g, 0, &[0, 0]), 50.0);
    assert_eq!(get(&t, &g, 0, &[0, 1]), 40.0);
    assert_eq!(get(&t, &g, 0, &[1, 0]), 40.0);
    assert_eq!(get(&t, &g, 0, &[1, 1]), 8.0);
}

#[test]
fn order_zero_lists_the_outputs() {
    let mut g = ComputationGraph::new(ComputationGraphMode::Standard, None);
    let (inputs, outputs) = two_by_two(&mut g);
    let t = f64ad_jacobian(&inputs, &outputs, 0, &mut g, &arithmetic).unwrap();
    assert_eq!(t.len(), 2);
    assert_eq!(get(&t, &g, 0, &[]), 50.0);
    assert_eq!(get(&t, &g, 1, &[]), 17.0);
}

#[test]
fn more_inputs_than_outputs_takes_reverse_mode() {
    let mut g = ComputationGraph::new(ComputationGraphMode::Standard, None);
    let x = g.spawn_f64ad_var(0.5f64.to_bits());
    let y = g.spawn_f64ad_var(3.0f64.to_bits());
    let s = f64ad_universal_function_1_operand(x, NodeTypeClass::Sin, &mut g, &arithmetic).unwrap();
    let f = f64ad_universal_function_2_operands(s, y, NodeTypeClass::Mul, &mut g, &arithmetic).unwrap();
    let mut start = JacobianOutput::new();
    start.push_entry(vec![], 0, f);
    let t = f64ad_jacobian_internal_nonparallel(&[x, y], &start, false, &mut g, &arithmetic).unwrap();
    assert_eq!(t.len(), 2);
    assert_eq!(t.entry(0).signature().inputs_wrt(), &vec![0]);
    assert_eq!(t.entry(1).signature().inputs_wrt(), &vec![1]);
    assert_eq!(f64::from_bits(t.entry(0).value().value(&g).unwrap()), 0.5f64.cos() * 3.0);
    assert_eq!(f64::from_bits(t.entry(1).value().value(&g).unwrap()), 0.5f64.sin());
}

#[test]
fn jacobian_reports_plain_and_stale_scalars() {
    let mut g = ComputationGraph::with_id(3, ComputationGraphMode::Standard, None);
    let (inputs, outputs) = two_by_two(&mut g);
    assert!(matches!(
        f64ad_jacobian(&[inputs[0], num(1.0)], &outputs, 1, &mut g, &arithmetic),
        Err(AdError::NotRecorded)
    ));
    assert!(matches!(
        f64ad_jacobian(&inputs, &[num(1.0)], 1, &mut g, &arithmetic),
        Err(AdError::NotRecorded)
    ));
    g.reset_with_id(4);
    assert!(matches!(
        f64ad_jacobian(&inputs, &outputs, 1, &mut g, &arithmetic),
        Err(AdError::StaleHandle { handle_graph: 3, graph: 4 })
    ));
}
