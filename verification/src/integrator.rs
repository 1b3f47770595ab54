//! The fixed-step integrator: it walks the time grid from `t0` to `tf` in
//! steps of `dx`, truncating the last step to land exactly on `tf`, and asks
//! a caller-supplied stepper to advance the state across each step.
//!
//! Times are integer ticks; the caller picks the tick (the program around
//! this library uses milliseconds). The state components are an arbitrary
//! scalar type `S`, so the stepper owns all real-valued arithmetic.

use vstd::prelude::*;
use vstd::arithmetic::div_mod::lemma_fundamental_div_mod_converse;
use vstd::string::StringExecFns;
use crate::errors::PropagatorError;

verus! {

/// A full time/state history: parallel sequences with one record per
/// integration step, the initial point included.
#[derive(Debug)]
pub struct TimeSeries<S> {
    pub times: Vec<i64>,
    pub states: Vec<[S; 6]>,
}

impl<S> TimeSeries<S> {
    /// Well-formedness: the two sequences run in parallel, hold at least
    /// the initial record, and time strictly increases.
    pub open spec fn wf(self) -> bool {
        &&& self.times@.len() == self.states@.len()
        &&& self.times@.len() >= 1
        &&& forall|i: int, j: int|
            0 <= i < j < self.times@.len() ==> self.times@[i] < self.times@[j]
    }
}

/// The capability the integrator needs from the physical model: given the
/// time `t`, the step `h` (both in ticks) and the state at `t`, produce the
/// state at `t + h`. The equations of motion, and so all real-valued force
/// computation, live behind this trait.
pub trait Stepper<S> {
    fn step(&self, t: i64, h: i64, y: &[S; 6]) -> [S; 6];
}

/// The time of record `i` on the fixed-step grid that starts at `t0` and
/// advances by `dx`, with the last step truncated to land exactly on `tf`.
pub open spec fn grid_time(t0: int, tf: int, dx: int, i: int) -> int {
    if t0 + i * dx >= tf { tf } else { t0 + i * dx }
}

/// A forward run produces exactly `1 + ceil((tf - t0) / dx)` records: any
/// grid prefix whose last time is `tf` and whose earlier times fall short
/// of `tf` has that length in closed form.
pub proof fn lemma_record_count(t0: int, tf: int, dx: int, len: int)
    requires
        dx > 0,
        t0 < tf,
        len >= 1,
        grid_time(t0, tf, dx, len - 1) == tf,
        forall|i: int| 0 <= i < len - 1 ==> grid_time(t0, tf, dx, i) < tf,
    ensures
        len == 1 + (tf - t0 + dx - 1) / dx,
{
    let n = len - 1;
    assert(t0 + n * dx >= tf);
    if n == 0 {
        assert(t0 + 0 * dx == t0) by (nonlinear_arith);
        assert(false);
    }
    assert(grid_time(t0, tf, dx, n - 1) < tf);
    assert(t0 + (n - 1) * dx < tf);
    let d = tf - t0;
    let r = d + dx - 1 - n * dx;
    assert((n - 1) * dx == n * dx - dx) by (nonlinear_arith);
    assert(0 <= r < dx);
    lemma_fundamental_div_mod_converse(d + dx - 1, dx, n, r);
}

/// Runs the integration: one record per grid time, each state after the
/// first produced by the stepper from the record before it.
///
/// Succeeds exactly when the interval is empty (`t0 == tf`, one record,
/// whatever `dx` is) or runs forward with a positive step; a backwards
/// interval or a non-positive step is reported as an integration failure
/// before any stepping. The bound on `tf - t0` is a machine limit only.
pub fn integrate<S: Copy, T: Stepper<S>>(
    stepper: &T,
    t0: i64,
    tf: i64,
    dx: i64,
    init: &[S; 6],
) -> (r: Result<TimeSeries<S>, PropagatorError>)
    requires
        tf - t0 <= i64::MAX,
    ensures
        r is Ok <==> (t0 == tf || (t0 < tf && dx > 0)),
        r matches Ok(ser) ==> {
            &&& ser.wf()
            &&& ser.states@[0] == *init
            &&& ser.times@[0] == t0
            &&& ser.times@[ser.times@.len() - 1] == tf
            &&& forall|i: int|
                0 <= i < ser.times@.len()
                    ==> ser.times@[i] == grid_time(t0 as int, tf as int, dx as int, i)
            &&& forall|i: int| 0 <= i < ser.times@.len() - 1 ==> ser.times@[i] < tf
            &&& (t0 == tf ==> ser.times@.len() == 1)
            &&& (t0 < tf ==> ser.times@.len() == 1 + (tf - t0 + dx - 1) / (dx as int))
        },
        r matches Err(e) ==> {
            &&& e is IntegratingError
            &&& (tf < t0 ==> e.spec_message() == "Final time precedes initial time"@)
            &&& (t0 < tf && dx <= 0 ==> e.spec_message() == "Step size must be positive"@)
        },
{
    let mut times: Vec<i64> = Vec::new();
    let mut states: Vec<[S; 6]> = Vec::new();
    times.push(t0);
    states.push(*init);

    if t0 == tf {
        proof {
            assert(times@ =~= seq![t0]);
            assert(states@ =~= seq![*init]);
            assert(grid_time(t0 as int, tf as int, dx as int, 0) == t0);
        }
        return Ok(TimeSeries { times, states });
    }
    if tf < t0 {
        return Err(PropagatorError::IntegratingError(String::from_str(
            "Final time precedes initial time",
        )));
    }
    if dx <= 0 {
        return Err(PropagatorError::IntegratingError(String::from_str(
            "Step size must be positive",
        )));
    }

    let mut cur: i64 = t0;
    let mut state: [S; 6] = *init;
    proof {
        assert(times@ =~= seq![t0]);
        assert(states@ =~= seq![*init]);
        assert(grid_time(t0 as int, tf as int, dx as int, 0) == t0);
    }
    while cur < tf
        invariant
            t0 < tf,
            dx >= 1,
            tf - t0 <= i64::MAX,
            t0 <= cur <= tf,
            times@.len() == states@.len(),
            times@.len() >= 1,
            states@[0] == *init,
            cur == times@[times@.len() - 1],
            state == states@[states@.len() - 1],
            forall|i: int|
                0 <= i < times@.len()
                    ==> times@[i] == grid_time(t0 as int, tf as int, dx as int, i),
            forall|i: int| 0 <= i < times@.len() - 1 ==> times@[i] < tf,
            forall|i: int, j: int| 0 <= i < j < times@.len() ==> times@[i] < times@[j],
        decreases tf - cur,
    {
        let remaining = tf - cur;
        let h = if remaining < dx { remaining } else { dx };
        let t_next = cur + h;
        let s_next = stepper.step(cur, h, &state);
        proof {
            let n = times@.len() as int;
            assert(cur == grid_time(t0 as int, tf as int, dx as int, n - 1));
            assert(t0 + (n - 1) * dx < tf);
            assert(t0 + n * dx == t0 + (n - 1) * dx + dx) by (nonlinear_arith);
            assert(t_next == grid_time(t0 as int, tf as int, dx as int, n));
        }
        times.push(t_next);
        states.push(s_next);
        state = s_next;
        cur = t_next;
    }

    proof {
        let len = times@.len() as int;
        assert(grid_time(t0 as int, tf as int, dx as int, len - 1) == tf);
        assert forall|i: int| 0 <= i < len - 1 implies
            grid_time(t0 as int, tf as int, dx as int, i) < tf by {
            assert(times@[i] == grid_time(t0 as int, tf as int, dx as int, i));
            assert(times@[i] < tf);
        }
        lemma_record_count(t0 as int, tf as int, dx as int, len);
    }
    Ok(TimeSeries { times, states })
}

} // verus!
