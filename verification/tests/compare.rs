use f64ad_core::compare::compare_words;
use f64ad_core::graph::ComputationGraph;
use f64ad_core::scalar::{f64ad, AdError, ComputationGraphMode};
use std::cmp::Ordering;

#[test]
fn words_compare_as_their_numbers_do() {
    let samples = [
        f64::NEG_INFINITY, -7.25, -0.0, 0.0, 5e-324, 1.0, 1.0000000000000002, 1e308,
        f64::INFINITY, f64::NAN,
    ];
    for a in samples {
        for b in samples {
            assert_eq!(compare_words(a.to_bits(), b.to_bits()), a.partial_cmp(&b), "{} {}", a, b);
        }
    }
}

#[test]
fn scalars_compare_by_value() {
    let mut g = ComputationGraph::with_id(1, ComputationGraphMode::Standard, None);
    let x = g.spawn_f64ad_var(2.0f64.to_bits());
    let y = g.spawn_f64ad_var(2.0f64.to_bits());
    let z = g.spawn_f64ad_var((-3.0f64).to_bits());
    let p = f64ad::from_bits(2.5f64.to_bits());
    let nan = f64ad::from_bits(f64::NAN.to_bits());
    assert_ne!(x, y);
    assert_eq!(x.eq(&y, &g), Ok(true));
    assert_eq!(x.eq(&z, &g), Ok(false));
    assert_eq!(nan.eq(&nan, &g), Ok(false));
    assert_eq!(x.partial_cmp(&y, &g), Ok(Some(Ordering::Equal)));
    assert_eq!(x.partial_cmp(&z, &g), Ok(Some(Ordering::Greater)));
    assert_eq!(x.partial_cmp(&p, &g), Ok(Some(Ordering::Less)));
    assert_eq!(p.partial_cmp(&z, &g), Ok(Some(Ordering::Greater)));
    assert_eq!(x.partial_cmp(&nan, &g), Ok(None));
    g.reset_with_id(2);
    let stale = AdError::StaleHandle { handle_graph: 1, graph: 2 };
    assert_eq!(x.partial_cmp(&p, &g), Err(stale));
    assert_eq!(p.eq(&x, &g), Err(stale));
    assert_eq!(p.partial_cmp(&p, &g), Ok(Some(Ordering::Equal)));
}
