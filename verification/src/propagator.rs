//! The propagator: it owns the initial state and the physical parameters,
//! drives the integrator over a requested interval, and exposes the
//! resulting time/state series — or an explicit error when no successful
//! propagation has happened yet.

use vstd::prelude::*;
use vstd::string::StringExecFns;
use crate::errors::PropagatorError;
use crate::integrator::{integrate, grid_time, Stepper, TimeSeries};

verus! {

/// The physical parameters of one propagation run: the central body's
/// gravitational parameter and radius, the spacecraft's cross-sectional
/// area, drag coefficient, mass and radiation-pressure coefficient, the
/// Julian date of the start of integration, and the switch that enables
/// the perturbing accelerations. Immutable for the whole run.
pub struct OrbitSystem<S> {
    pub mu: S,
    pub area: S,
    pub cd: S,
    pub mass: S,
    pub init_jd: S,
    pub cr: S,
    pub body_radius: S,
    pub add_petubations: bool,
}

/// The orchestrator: initial state, parameters, and — after a successful
/// propagation — the full time/state series.
pub struct OrbitPropagator<S> {
    init_state: [S; 6],
    series: Option<TimeSeries<S>>,
    body: OrbitSystem<S>,
}

/// Packs a list of parsed state components into the 6-component state,
/// rejecting any other length as malformed input.
pub fn state_from_values<S: Copy>(values: &Vec<S>) -> (r: Result<[S; 6], PropagatorError>)
    ensures
        r is Ok <==> values@.len() == 6,
        r matches Ok(st) ==> forall|i: int| 0 <= i < 6 ==> st[i] == values@[i],
        r matches Err(e) ==> {
            &&& e is InputError
            &&& e.spec_message() == "State data not right size"@
        },
{
    if values.len() != 6 {
        return Err(PropagatorError::InputError(String::from_str(
            "State data not right size",
        )));
    }
    Ok([values[0], values[1], values[2], values[3], values[4], values[5]])
}

impl<S: Copy> OrbitPropagator<S> {
    /// The stored initial state.
    pub closed spec fn spec_init_state(self) -> [S; 6] {
        self.init_state
    }

    /// The stored series: `None` until a propagation has succeeded.
    pub closed spec fn spec_series(self) -> Option<TimeSeries<S>> {
        self.series
    }

    /// The stored physical parameters.
    pub closed spec fn spec_body(self) -> OrbitSystem<S> {
        self.body
    }

    /// Creates a propagator holding the initial state and the physical
    /// parameters, with no series yet.
    pub fn new(
        init_state: [S; 6],
        area: S,
        cd: S,
        mass: S,
        mu: S,
        init_jd: S,
        cr: S,
        body_radius: S,
        add_pertubations: bool,
    ) -> (r: Self)
        ensures
            r.spec_init_state() == init_state,
            r.spec_series() is None,
            r.spec_body() == (OrbitSystem {
                mu,
                area,
                cd,
                mass,
                init_jd,
                cr,
                body_radius,
                add_petubations: add_pertubations,
            }),
    {
        OrbitPropagator {
            init_state,
            series: None,
            body: OrbitSystem {
                mu,
                area,
                cd,
                mass,
                init_jd,
                cr,
                body_radius,
                add_petubations: add_pertubations,
            },
        }
    }

    /// Propagates the orbit from `t0` to `tf` in steps of `dx` ticks,
    /// storing the resulting series on success.
    ///
    /// Succeeds exactly when the interval is empty (one record, the
    /// initial state, whatever `dx` is) or runs forward with a positive
    /// step. On failure nothing is stored: any series from an earlier run
    /// is kept unchanged. The bound on `tf - t0` is a machine limit only.
    pub fn propogate<T: Stepper<S>>(
        &mut self,
        t0: i64,
        tf: i64,
        dx: i64,
        stepper: &T,
    ) -> (r: Result<(), PropagatorError>)
        requires
            tf - t0 <= i64::MAX,
        ensures
            r is Ok <==> (t0 == tf || (t0 < tf && dx > 0)),
            final(self).spec_init_state() == old(self).spec_init_state(),
            final(self).spec_body() == old(self).spec_body(),
            r matches Err(e) ==> {
                &&& e is IntegratingError
                &&& final(self).spec_series() == old(self).spec_series()
            },
            r is Ok ==> (final(self).spec_series() matches Some(ser) && {
                &&& ser.wf()
                &&& ser.states@[0] == old(self).spec_init_state()
                &&& ser.times@[0] == t0
                &&& ser.times@[ser.times@.len() - 1] == tf
                &&& forall|i: int|
                    0 <= i < ser.times@.len()
                        ==> ser.times@[i] == grid_time(t0 as int, tf as int, dx as int, i)
                &&& forall|i: int| 0 <= i < ser.times@.len() - 1 ==> ser.times@[i] < tf
                &&& (t0 == tf ==> ser.times@.len() == 1)
                &&& (t0 < tf ==> ser.times@.len() == 1 + (tf - t0 + dx - 1) / (dx as int))
            }),
    {
        match integrate(stepper, t0, tf, dx, &self.init_state) {
            Ok(ser) => {
                self.series = Some(ser);
                Ok(())
            },
            Err(e) => Err(e),
        }
    }

    /// The stored series of a successful propagation. Asking before one
    /// has succeeded is a usage error and is reported, never defaulted.
    pub fn series(&self) -> (r: Result<&TimeSeries<S>, PropagatorError>)
        ensures
            match r {
                Ok(ser) => self.spec_series() == Some(*ser),
                Err(e) => {
                    &&& self.spec_series() is None
                    &&& e is FileWritingError
                    &&& e.spec_message()
                        == "Propogate must be run before file can be written"@
                },
            },
    {
        match &self.series {
            Some(ser) => Ok(ser),
            None => Err(PropagatorError::FileWritingError(String::from_str(
                "Propogate must be run before file can be written",
            ))),
        }
    }
}

} // verus!
