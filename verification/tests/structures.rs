use f64ad_core::data_structures::{PreallocatedVec, PreallocatedVecItemDefault};
use f64ad_core::graph::ComputationGraph;
use f64ad_core::jacobian::JacobianEntrySignature;
use f64ad_core::jacobian_output::{JacobianEntry, JacobianOutput};
use f64ad_core::registry::{ComputationGraphType, GlobalComputationGraphs};
use f64ad_core::scalar::{f64ad, ComputationGraphMode};
use f64ad_core::storage::GenericComputationGraph;

fn contents(v: &PreallocatedVec<u32>) -> Vec<u32> {
    (0..v.len()).map(|i| *v.index(i)).collect()
}

#[test]
fn filler_is_the_default_value() {
    assert_eq!(<u32 as PreallocatedVecItemDefault>::preallocated_vec_item_default(), 0);
    assert_eq!(<String as PreallocatedVecItemDefault>::preallocated_vec_item_default(), "");
}

#[test]
fn standard_vec_pushes_and_clears() {
    let mut v: PreallocatedVec<u32> = PreallocatedVec::new_standard_vec();
    assert_eq!(v.len(), 0);
    v.push(4);
    v.push(9);
    assert_eq!(contents(&v), vec![4, 9]);
    v.softpush();
    assert_eq!(contents(&v), vec![4, 9, 0]);
    *v.curr_item_mut_ref() = 7;
    assert_eq!(contents(&v), vec![4, 9, 7]);
    *v.index_mut(0) = 1;
    assert_eq!(contents(&v), vec![1, 9, 7]);
    v.softclear();
    assert_eq!(v.len(), 0);
    v.push(3);
    v.hardclear();
    assert_eq!(v.len(), 0);
}

#[test]
fn single_pushes_fill_then_fall_back_to_standard_vec() {
    let mut v: PreallocatedVec<u32> = PreallocatedVec::new_preallocate_then_single_pushes(2);
    assert_eq!(v.len(), 0);
    assert_eq!(*v.curr_item_ref(), 0);
    v.push(5);
    assert_eq!(v.len(), 1);
    assert!(matches!(v, PreallocatedVec::PreallocateThenSinglePushes { .. }));
    v.push(6);
    assert!(matches!(v, PreallocatedVec::PreallocateThenSinglePushes { .. }));
    assert_eq!(contents(&v), vec![5, 6]);
    v.push(7);
    assert!(matches!(v, PreallocatedVec::StandardVec { .. }));
    assert_eq!(contents(&v), vec![5, 6, 7]);
}

#[test]
fn single_pushes_softclear_keeps_storage_and_hardclear_drops_it() {
    let mut v: PreallocatedVec<u32> = PreallocatedVec::new_preallocate_then_single_pushes(3);
    v.push(1);
    v.push(2);
    v.softclear();
    assert_eq!(v.len(), 0);
    assert_eq!(*v.curr_item_ref(), 1);
    v.push(8);
    assert_eq!(contents(&v), vec![8]);
    assert!(matches!(v, PreallocatedVec::PreallocateThenSinglePushes { .. }));
    v.hardclear();
    assert_eq!(v.len(), 0);
    v.push(9);
    assert!(matches!(v, PreallocatedVec::StandardVec { .. }));
    assert_eq!(contents(&v), vec![9]);
}

#[test]
fn single_pushes_softpush_advances_or_falls_back() {
    let mut v: PreallocatedVec<u32> = PreallocatedVec::new_preallocate_then_single_pushes(3);
    v.softpush();
    assert_eq!(v.len(), 1);
    assert!(matches!(v, PreallocatedVec::PreallocateThenSinglePushes { .. }));
    *v.curr_item_mut_ref() = 4;
    v.softpush();
    assert_eq!(contents(&v), vec![0, 4]);
    v.softpush();
    assert!(matches!(v, PreallocatedVec::StandardVec { .. }));
    assert_eq!(contents(&v), vec![0, 4, 0, 0]);
}

#[test]
fn reallocate_double_doubles_its_storage() {
    let mut v: PreallocatedVec<u32> = PreallocatedVec::new_preallocate_then_reallocate_double(2);
    v.push(1);
    v.push(2);
    assert_eq!(contents(&v), vec![1, 2]);
    v.push(3);
    assert!(matches!(v, PreallocatedVec::PreallocateThenReallocateDouble { .. }));
    assert_eq!(contents(&v), vec![1, 2, 3]);
    match &v {
        PreallocatedVec::PreallocateThenReallocateDouble { v, curr_idx } => {
            assert_eq!(v.len(), 4);
            assert_eq!(*curr_idx, 3);
        }
        _ => unreachable!(),
    }
    assert_eq!(*v.curr_item_ref(), 0);
    v.softpush();
    match &v {
        PreallocatedVec::PreallocateThenReallocateDouble { v, curr_idx } => {
            assert_eq!(v.len(), 8);
            assert_eq!(*curr_idx, 4);
        }
        _ => unreachable!(),
    }
    v.softclear();
    assert_eq!(v.len(), 0);
    v.push(6);
    assert_eq!(contents(&v), vec![6]);
}

#[test]
fn generic_graph_reuses_slots_after_reset() {
    let mut g: GenericComputationGraph<String> = GenericComputationGraph::new();
    assert_eq!(g.curr_idx(), 0);
    g.push("a".to_string());
    g.push("b".to_string());
    assert_eq!(g.curr_idx(), 2);
    assert_eq!(g.item(0), "a");
    assert_eq!(g.item(1), "b");
    g.reset();
    assert_eq!(g.curr_idx(), 0);
    g.push("c".to_string());
    assert_eq!(g.curr_idx(), 1);
    assert_eq!(g.item(0), "c");
    g.push("d".to_string());
    g.push("e".to_string());
    assert_eq!(g.curr_idx(), 3);
    assert_eq!(g.item(1), "d");
    assert_eq!(g.item(2), "e");
}

#[test]
fn signatures_are_ordered_by_output_then_inputs() {
    let mut a = JacobianEntrySignature::new(1, vec![0, 2]);
    let b = JacobianEntrySignature::new(1, vec![0, 2, 0]);
    let c = JacobianEntrySignature::new(1, vec![1]);
    let d = JacobianEntrySignature::new(2, vec![]);
    assert_eq!(a.output(), 1);
    assert_eq!(a.inputs_wrt(), &vec![0, 2]);
    assert!(a.precedes(&b) && !b.precedes(&a));
    assert!(b.precedes(&c) && !c.precedes(&b));
    assert!(c.precedes(&d) && !d.precedes(&c));
    assert!(a.precedes(&d));
    assert!(!a.precedes(&a));
    assert!(!a.same(&b));
    let copy = a.duplicate();
    assert!(a.same(&copy));
    a.add_input_wrt(0);
    assert!(a.same(&b));
    assert!(!a.same(&copy));
    assert!(copy.precedes(&a));
    assert!(!JacobianEntrySignature::new(0, vec![5]).same(&JacobianEntrySignature::new(1, vec![5])));
}

#[test]
fn table_sorts_and_finds_by_bisection() {
    let mut t = JacobianOutput::new();
    let keys: Vec<(usize, Vec<usize>)> = vec![
        (1, vec![1]), (0, vec![1, 0]), (1, vec![0]), (0, vec![0, 1]), (0, vec![1, 1]),
        (0, vec![0, 0]), (2, vec![]),
    ];
    for (n, (o, i)) in keys.iter().enumerate() {
        t.push_entry(i.clone(), *o, f64ad::from_bits(n as u64));
    }
    t.push(JacobianEntry::new(JacobianEntrySignature::new(0, vec![0]), f64ad::from_bits(99)));
    assert_eq!(t.len(), 8);
    t.sort();
    let order: Vec<(usize, Vec<usize>)> = (0..t.len())
        .map(|i| (t.entry(i).signature().output(), t.entry(i).signature().inputs_wrt().clone()))
        .collect();
    assert_eq!(
        order,
        vec![
            (0, vec![0]), (0, vec![0, 0]), (0, vec![0, 1]), (0, vec![1, 0]), (0, vec![1, 1]),
            (1, vec![0]), (1, vec![1]), (2, vec![]),
        ]
    );
    for (n, (o, i)) in keys.iter().enumerate() {
        let e = t.get_entry(i.clone(), *o).unwrap();
        assert_eq!(e.value(), f64ad::from_bits(n as u64));
    }
    assert_eq!(t.get_entry(vec![0], 0).unwrap().value(), f64ad::from_bits(99));
    assert!(t.get_entry(vec![2], 0).is_none());
    assert!(t.get_entry(vec![], 0).is_none());
    assert!(t.get_entry(vec![0], 3).is_none());
    assert!(JacobianOutput::new().get_entry(vec![], 0).is_none());
}

#[test]
fn registry_makes_one_graph_per_key() {
    let mut r = GlobalComputationGraphs::new();
    assert_eq!(r.find(None, None), None);
    let a = r.get(None, None);
    let b = r.get(Some("arm"), Some(2));
    let c = r.get(Some("arm"), None);
    assert_eq!((a, b, c), (0, 1, 2));
    assert_eq!(r.get(Some(""), Some(0)), a);
    assert_eq!(r.get(Some("arm"), Some(2)), b);
    assert_eq!(r.find(Some("arm"), Some(0)), Some(c));
    assert_eq!(r.find(Some("leg"), Some(0)), None);
    assert_eq!(r.graph(b).num_nodes(), 0);
    assert_eq!(r.graph(b).mode(), ComputationGraphMode::Standard);
    assert!(r.graph(b).name_is(&"arm".to_string()));
    let x = r.graph_mut(b).spawn_f64ad_var(2.5f64.to_bits());
    assert_eq!(r.graph(b).num_nodes(), 1);
    assert_eq!(r.graph(a).num_nodes(), 0);
    assert_eq!(x.value(r.graph(b)), Ok(2.5f64.to_bits()));
    assert!(x.value(r.graph(c)).is_err());
    assert_eq!(ComputationGraphType::Standard.mode(), ComputationGraphMode::Standard);
    assert_eq!(ComputationGraphType::Lock.mode(), ComputationGraphMode::Lock);
    let _: &ComputationGraph = r.graph(a);
    let ids = [r.graph(a).id(), r.graph(b).id(), r.graph(c).id()];
    assert!(ids[0] != ids[1] && ids[0] != ids[2] && ids[1] != ids[2]);
    assert!(r.has_id(ids[1]));
    let free = r.unused_id(ids[1]);
    assert!(!ids.contains(&free));
    assert_eq!(free, (0..4).find(|i| !ids.contains(i)).unwrap());
    let other = (0..usize::MAX).find(|i| !ids.contains(i) && *i != free).unwrap();
    assert!(!r.has_id(other));
    assert_eq!(r.unused_id(other), other);
}

#[test]
fn softpush_on_empty_doubling_storage_runs_the_cursor_past_it() {
    let mut v: PreallocatedVec<u32> = PreallocatedVec::new_preallocate_then_reallocate_double(0);
    v.softpush();
    assert_eq!(v.len(), 1);
    match &v {
        PreallocatedVec::PreallocateThenReallocateDouble { v, curr_idx } => {
            assert_eq!(v.len(), 0);
            assert_eq!(*curr_idx, 1);
        }
        _ => unreachable!(),
    }
}

#[test]
fn sort_keeps_the_order_of_entries_with_one_signature() {
    let mut t = JacobianOutput::new();
    let keys: Vec<(usize, Vec<usize>)> = vec![
        (1, vec![0]), (0, vec![1]), (1, vec![0]), (0, vec![1]), (0, vec![]), (1, vec![0]),
    ];
    for (n, (o, i)) in keys.iter().enumerate() {
        t.push_entry(i.clone(), *o, f64ad::from_bits(n as u64));
    }
    t.sort();
    let values: Vec<f64ad> = (0..t.len()).map(|i| t.entry(i).value()).collect();
    let expected: Vec<f64ad> = [4u64, 1, 3, 0, 2, 5].iter().map(|n| f64ad::from_bits(*n)).collect();
    assert_eq!(values, expected);
}
