use fluxmeter::{
    given_or_derived, resolve, size_of_shape, Broadcast, Cell, Error, ErrorKind, FluxPlan,
    Overrides,
};
use std::cell::Cell as Counter;

fn spectrum_of(e: &[f64]) -> impl Fn(usize) -> f64 + '_ {
    move |i| 2.0 * e[i] + 1.0
}

#[test]
fn plain_query_gives_one_spectrum_value_per_energy() {
    let energy = [1.0, 10.0, 100.0];
    let plan = FluxPlan::new(&vec![3], None, false).unwrap();
    assert_eq!(plan.broadcast(), Broadcast::Plain);
    assert_eq!(plan.shape(), &vec![3]);
    assert_eq!(plan.size(), 3);
    let out = plan.evaluate(spectrum_of(&energy), |_, _| 7.0, |f, a| f * a);
    assert_eq!(out, vec![3.0, 21.0, 201.0]);
    assert_eq!(plan.cell(1), Cell { energy: 1, theta: None });
}

#[test]
fn pointwise_query_multiplies_index_by_index() {
    let energy = [1.0, 2.0, 3.0];
    let theta = [0.0, 30.0, 60.0];
    let plan = FluxPlan::new(&vec![3], Some(&vec![3]), false).unwrap();
    assert_eq!(plan.broadcast(), Broadcast::Pointwise);
    let out = plan.evaluate(spectrum_of(&energy), |i, j| energy[i] + theta[j], |f, a| f * a);
    assert_eq!(out, vec![3.0 * 1.0, 5.0 * 32.0, 7.0 * 63.0]);
}

#[test]
fn scalar_angle_is_shared_by_all_energies() {
    let energy = [1.0, 2.0];
    let theta = [45.0];
    let plan = FluxPlan::new(&vec![2], Some(&vec![]), false).unwrap();
    assert_eq!(plan.broadcast(), Broadcast::Scalar);
    assert_eq!(plan.shape(), &vec![2]);
    let out = plan.evaluate(spectrum_of(&energy), |_, j| theta[j], |f, a| f * a);
    assert_eq!(out, vec![135.0, 225.0]);
}

#[test]
fn mismatched_angles_are_a_type_mismatch() {
    let e = FluxPlan::new(&vec![3], Some(&vec![2]), false).unwrap_err();
    assert_eq!(e, Error::BadTheta { expected: 3, found: 2 });
    assert_eq!(e.kind(), ErrorKind::TypeMismatch);
    let one = FluxPlan::new(&vec![3], Some(&vec![1]), false).unwrap_err();
    assert_eq!(one, Error::BadTheta { expected: 3, found: 1 });
}

#[test]
fn grid_query_reuses_the_spectrum_across_angles() {
    let energy = [1.0, 2.0, 3.0];
    let theta = [0.0, 10.0];
    let calls = Counter::new(0usize);
    let spectrum = |i: usize| {
        calls.set(calls.get() + 1);
        10.0 * energy[i]
    };
    let plan = FluxPlan::new(&vec![3], Some(&vec![2]), true).unwrap();
    assert_eq!(plan.broadcast(), Broadcast::Grid);
    assert_eq!(plan.shape(), &vec![3, 2]);
    assert_eq!(plan.size(), 6);
    assert_eq!(plan.spectrum_count(), 3);
    let out = plan.evaluate(spectrum, |_, j| theta[j] + 1.0, |f, a| f * a);
    assert_eq!(calls.get(), 3);
    assert_eq!(out, vec![10.0, 110.0, 20.0, 220.0, 30.0, 330.0]);
    assert_eq!(plan.cell(3), Cell { energy: 1, theta: Some(1) });
}

#[test]
fn grid_shape_is_energy_shape_then_angle_shape() {
    let plan = FluxPlan::new(&vec![2, 3], Some(&vec![4, 5]), true).unwrap();
    assert_eq!(plan.shape(), &vec![2, 3, 4, 5]);
    assert_eq!(plan.size(), 120);
    assert_eq!(plan.spectrum_count(), 6);
    let cells = plan.cells();
    assert_eq!(cells.len(), 120);
    assert_eq!(cells[0], Cell { energy: 0, theta: Some(0) });
    assert_eq!(cells[21], Cell { energy: 1, theta: Some(1) });
    assert_eq!(cells[119], Cell { energy: 5, theta: Some(19) });
}

#[test]
fn grid_with_no_angles_still_evaluates_each_spectrum() {
    let calls = Counter::new(0usize);
    let plan = FluxPlan::new(&vec![4], Some(&vec![0]), true).unwrap();
    let out = plan.evaluate(
        |_| {
            calls.set(calls.get() + 1);
            1.0
        },
        |_, _| 1.0,
        |f: f64, a: f64| f * a,
    );
    assert!(out.is_empty());
    assert_eq!(calls.get(), 4);
}

#[test]
fn shape_sizes() {
    assert_eq!(size_of_shape(&vec![]), 1);
    assert_eq!(size_of_shape(&vec![7]), 7);
    assert_eq!(size_of_shape(&vec![2, 3, 4]), 24);
    assert_eq!(size_of_shape(&vec![usize::MAX, 0]), 0);
    assert_eq!(size_of_shape(&vec![5, 0, 9]), 0);
}

#[test]
fn one_override_leaves_the_others_derived() {
    let depth_calls = Counter::new(0usize);
    let p = resolve(
        Overrides { depth: Some(500.0), cutoff: None, solar: None },
        || {
            depth_calls.set(depth_calls.get() + 1);
            1033.0
        },
        || 12.5,
        || 40.0,
    );
    assert_eq!((p.depth, p.cutoff, p.solar), (500.0, 12.5, 40.0));
    assert_eq!(depth_calls.get(), 0);
    let q = resolve(Overrides { depth: None, cutoff: Some(3.0), solar: None }, || 1033.0, || 12.5, || 40.0);
    assert_eq!((q.depth, q.cutoff, q.solar), (1033.0, 3.0, 40.0));
    let s = resolve(Overrides { depth: None, cutoff: None, solar: Some(0.5) }, || 1033.0, || 12.5, || 40.0);
    assert_eq!((s.depth, s.cutoff, s.solar), (1033.0, 12.5, 0.5));
    let n = resolve(Overrides { depth: None, cutoff: None, solar: None }, || 1033.0, || 12.5, || 40.0);
    assert_eq!((n.depth, n.cutoff, n.solar), (1033.0, 12.5, 40.0));
}

#[test]
fn given_value_wins_over_derived_one() {
    assert_eq!(given_or_derived(Some(2), || 9), 2);
    assert_eq!(given_or_derived(None, || 9), 9);
}
