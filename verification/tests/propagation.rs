use orbit_tools::atmosphere::{layer_base_m, layer_index};
use orbit_tools::errors::PropagatorError;
use orbit_tools::integrator::Stepper;
use orbit_tools::math_funcs::cross;
use orbit_tools::propagator::{state_from_values, OrbitPropagator};

// A stepper that leaves the state untouched: isolates the grid bookkeeping.
struct HoldStepper;

impl Stepper<f64> for HoldStepper {
    fn step(&self, _t: i64, _h: i64, y: &[f64; 6]) -> [f64; 6] {
        *y
    }
}

// A classical RK4 step over two-body gravity, ticks in milliseconds.
struct TwoBodyStepper {
    mu: f64,
}

impl TwoBodyStepper {
    fn deriv(&self, y: &[f64; 6]) -> [f64; 6] {
        let r_mag = (y[0] * y[0] + y[1] * y[1] + y[2] * y[2]).sqrt();
        let c = -self.mu / (r_mag * r_mag * r_mag);
        [y[3], y[4], y[5], c * y[0], c * y[1], c * y[2]]
    }
}

impl Stepper<f64> for TwoBodyStepper {
    fn step(&self, _t: i64, h: i64, y: &[f64; 6]) -> [f64; 6] {
        let h = h as f64 / 1000.0;
        let k1 = self.deriv(y);
        let mut y2 = [0.0; 6];
        for i in 0..6 {
            y2[i] = y[i] + h / 2.0 * k1[i];
        }
        let k2 = self.deriv(&y2);
        let mut y3 = [0.0; 6];
        for i in 0..6 {
            y3[i] = y[i] + h / 2.0 * k2[i];
        }
        let k3 = self.deriv(&y3);
        let mut y4 = [0.0; 6];
        for i in 0..6 {
            y4[i] = y[i] + h * k3[i];
        }
        let k4 = self.deriv(&y4);
        let mut out = [0.0; 6];
        for i in 0..6 {
            out[i] = y[i] + h / 6.0 * (k1[i] + 2.0 * k2[i] + 2.0 * k3[i] + k4[i]);
        }
        out
    }
}

fn new_propagator(init: [f64; 6]) -> OrbitPropagator<f64> {
    OrbitPropagator::new(
        init, 10.0, 2.2, 500.0, 398600.4418, 2451545.0, 1.3, 6378.0, false,
    )
}

#[test]
fn test_cross_product() {
    let a = [1, 2, 3];
    let b = [3, 2, 1];

    let result = [-4, 8, -4];

    assert_eq!(result, cross(&a, &b));
}

#[test]
fn test_cross_antisymmetric() {
    let a = [7, -2, 9];
    let b = [-4, 5, 11];
    let ab = cross(&a, &b);
    let ba = cross(&b, &a);
    for i in 0..3 {
        assert_eq!(ab[i], -ba[i]);
    }
}

#[test]
fn test_cross_self_is_zero() {
    let a = [123, -456, 789];
    assert_eq!(cross(&a, &a), [0, 0, 0]);
}

#[test]
fn test_layer_index_500km() {
    let i = layer_index(500_000);
    assert_eq!(i, 22);
    assert_eq!(layer_base_m(i), 500_000);
}

#[test]
fn test_layer_index_top_of_table() {
    // Exactly 1000 km uses the last interval.
    assert_eq!(layer_index(1_000_000), 26);
}

#[test]
fn test_layer_index_clamped_above() {
    // 1500 km is clamped and lands in the same layer as 1000 km.
    assert_eq!(layer_index(1_500_000), layer_index(1_000_000));
}

#[test]
fn test_layer_index_clamped_below() {
    // -50 km is clamped and lands in the same layer as 0 km.
    assert_eq!(layer_index(-50_000), layer_index(0));
    assert_eq!(layer_index(-50_000), 0);
}

#[test]
fn test_layer_table_edges() {
    assert_eq!(layer_base_m(0), 0);
    assert_eq!(layer_base_m(1), 25_000);
    assert_eq!(layer_base_m(27), 1_000_000);
}

#[test]
fn test_state_from_values_ok() {
    let values = vec![7000.0, 0.0, 0.0, 0.0, 7.5, 1.0];
    let state = state_from_values(&values).unwrap();
    assert_eq!(state, [7000.0, 0.0, 0.0, 0.0, 7.5, 1.0]);
}

#[test]
fn test_state_from_values_wrong_size() {
    let values = vec![7000.0, 0.0, 0.0, 0.0, 7.5];
    let err = state_from_values(&values).unwrap_err();
    assert!(matches!(err, PropagatorError::InputError(_)));
    assert_eq!(err.message().as_str(), "State data not right size");
}

#[test]
fn test_series_before_propagation_is_reported() {
    let orbit = new_propagator([7000.0, 0.0, 0.0, 0.0, 7.5, 1.0]);
    let err = orbit.series().unwrap_err();
    assert!(matches!(err, PropagatorError::FileWritingError(_)));
    assert_eq!(err.message().as_str(), "Propogate must be run before file can be written");
}

#[test]
fn test_single_record_when_interval_is_empty() {
    let init = [7000.0, 0.0, 0.0, 0.0, 7.5, 1.0];
    let mut orbit = new_propagator(init);
    // t0 == tf yields one record whatever the step size is.
    orbit.propogate(5, 5, -3, &HoldStepper).unwrap();
    let series = orbit.series().unwrap();
    assert_eq!(series.times, vec![5]);
    assert_eq!(series.states, vec![init]);
}

#[test]
fn test_zero_step_fails() {
    let mut orbit = new_propagator([7000.0, 0.0, 0.0, 0.0, 7.5, 1.0]);
    let err = orbit.propogate(0, 60, 0, &HoldStepper).unwrap_err();
    assert!(matches!(err, PropagatorError::IntegratingError(_)));
    assert_eq!(err.message().as_str(), "Step size must be positive");
    assert!(orbit.series().is_err());
}

#[test]
fn test_backwards_interval_fails() {
    let mut orbit = new_propagator([7000.0, 0.0, 0.0, 0.0, 7.5, 1.0]);
    let err = orbit.propogate(60, 0, 10, &HoldStepper).unwrap_err();
    assert!(matches!(err, PropagatorError::IntegratingError(_)));
    assert_eq!(err.message().as_str(), "Final time precedes initial time");
}

#[test]
fn test_failure_keeps_previous_series() {
    let mut orbit = new_propagator([7000.0, 0.0, 0.0, 0.0, 7.5, 1.0]);
    orbit.propogate(0, 30, 10, &HoldStepper).unwrap();
    assert!(orbit.propogate(0, 30, 0, &HoldStepper).is_err());
    let series = orbit.series().unwrap();
    assert_eq!(series.times, vec![0, 10, 20, 30]);
}

#[test]
fn test_grid_truncates_last_step() {
    let mut orbit = new_propagator([7000.0, 0.0, 0.0, 0.0, 7.5, 1.0]);
    orbit.propogate(0, 25, 10, &HoldStepper).unwrap();
    let series = orbit.series().unwrap();
    assert_eq!(series.times, vec![0, 10, 20, 25]);
    assert_eq!(series.states.len(), 4);
}

#[test]
fn test_end_to_end_two_body_scenario() {
    // Initial state [7000, 0, 0, 0, 7.5, 1.0] km and km/s, perturbations
    // disabled, integrated from 0 s to 60 s in steps of 10 s.
    let mu = 398600.4418;
    let init = [7000.0, 0.0, 0.0, 0.0, 7.5, 1.0];
    let mut orbit = new_propagator(init);
    let stepper = TwoBodyStepper { mu };
    // Milliseconds as ticks: 0 to 60 s in 10 s steps.
    orbit.propogate(0, 60_000, 10_000, &stepper).unwrap();
    let series = orbit.series().unwrap();

    // Exactly 7 records with monotonically increasing time 0..60 s.
    assert_eq!(series.times.len(), 7);
    assert_eq!(series.states.len(), 7);
    for (k, t) in series.times.iter().enumerate() {
        assert_eq!(*t, 10_000 * k as i64);
    }

    // Every record satisfies the vis-viva energy check within tolerance.
    let energy = |y: &[f64; 6]| {
        let r = (y[0] * y[0] + y[1] * y[1] + y[2] * y[2]).sqrt();
        let v2 = y[3] * y[3] + y[4] * y[4] + y[5] * y[5];
        v2 / 2.0 - mu / r
    };
    let e0 = energy(&series.states[0]);
    for y in series.states.iter() {
        assert!((energy(y) - e0).abs() < 1e-6 * e0.abs());
    }
}

#[test]
fn test_circular_orbit_closes_after_one_period() {
    // A circular two-body orbit propagated for one full period returns to
    // the initial state within integration tolerance.
    let mu = 398600.4418_f64;
    let r = 7000.0_f64;
    let speed = (mu / r).sqrt();
    let init = [r, 0.0, 0.0, 0.0, speed, 0.0];
    let period_s = 2.0 * std::f64::consts::PI * (r * r * r / mu).sqrt();
    let period_ms = (period_s * 1000.0).round() as i64;

    let mut orbit = new_propagator(init);
    let stepper = TwoBodyStepper { mu };
    orbit.propogate(0, period_ms, 10_000, &stepper).unwrap();
    let series = orbit.series().unwrap();

    let last = series.states.last().unwrap();
    for i in 0..6 {
        assert!(
            (last[i] - init[i]).abs() < 0.1,
            "component {} drifted: {} vs {}",
            i,
            last[i],
            init[i]
        );
    }
}

#[test]
fn test_error_messages_by_kind() {
    let cases = [
        PropagatorError::IntegratingError("a".to_string()),
        PropagatorError::FileWritingError("b".to_string()),
        PropagatorError::EnvVariableError("c".to_string()),
        PropagatorError::InputError("d".to_string()),
    ];
    let expected = ["a", "b", "c", "d"];
    for (e, want) in cases.iter().zip(expected.iter()) {
        assert_eq!(e.message().as_str(), *want);
    }
}
