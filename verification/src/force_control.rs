//! The force-controller family: pure feedback laws from a scalar force
//! error to a scalar corrective displacement, one step per poll tick.
//!
//! Every controller shares the same shape of step: it takes the error
//! (target minus measured) and the wall-clock instant in milliseconds, and
//! returns the correction. The derivative is a backward finite difference
//! over wall-clock milliseconds; the integral accumulates trapezoid areas
//! over whole-second time steps, with the area of a step across a sign
//! change taken as zero — a deliberate simplification of the zero
//! crossing, kept exactly as designed.

use vstd::prelude::*;
use crate::fixed::{Fix, fits_fix, div_tz, gmul, mul_gain, div_i128_tz, FIX_LIM};

verus! {

/// Why a controller step failed.
#[derive(Clone, Copy, PartialEq, Eq, Structural, Debug)]
pub enum CtrlError {
    /// An intermediate quantity left the library's working range.
    OutOfRange,
}

/// The fixed magnitude of the polarity controller's step: one unit.
pub const STEP_VALUE: i64 = 1_000_000;

/// The proportional controller's gain: a twentieth of a unit per unit of
/// error.
pub const BASE_STEP: i64 = 50_000;

/// The backward finite difference of the error over wall-clock time, in
/// micro-units per second; meaningful for `dt_ms > 0`.
pub open spec fn deriv(prev: int, curr: int, dt_ms: int) -> int {
    div_tz((curr - prev) * 1000, dt_ms)
}

/// The whole seconds that pass between two instants, each first truncated
/// to its second, as the integral's clock counts them.
pub open spec fn sec_delta(prev_ms: int, now_ms: int) -> int {
    now_ms / 1000 - prev_ms / 1000
}

/// The trapezoid area one step adds to the integral, in micro-unit
/// seconds, over `dsec` whole seconds: the exact trapezoid while the
/// previous and the current error agree in sign, and zero across a sign
/// change.
pub open spec fn trap_area(prev: int, curr: int, dsec: int) -> int {
    if (prev >= 0 && curr >= 0) || (prev <= 0 && curr <= 0) {
        div_tz(dsec * (prev + curr), 2)
    } else {
        0
    }
}

/// The full three-term law on one step: the proportional term on the
/// error, the integral term on the updated integral, and the derivative
/// term on the backward difference.
pub open spec fn pid_output(kp: int, ki: int, kd: int, integ: int, prev: int, curr: int, dt_ms: int) -> int {
    gmul(kp, curr) + gmul(ki, integ) + gmul(kd, deriv(prev, curr, dt_ms))
}

/// Whether every intermediate of one three-term step stays in range.
pub open spec fn pid_fits(
    kp: int,
    ki: int,
    kd: int,
    integ0: int,
    prev: int,
    curr: int,
    prev_ms: int,
    now_ms: int,
) -> bool {
    let dt_ms = now_ms - prev_ms;
    let integ = integ0 + trap_area(prev, curr, sec_delta(prev_ms, now_ms));
    let d = deriv(prev, curr, dt_ms);
    &&& fits_fix(trap_area(prev, curr, sec_delta(prev_ms, now_ms)))
    &&& fits_fix(integ)
    &&& fits_fix(d)
    &&& fits_fix(gmul(kp, curr))
    &&& fits_fix(gmul(ki, integ))
    &&& fits_fix(gmul(kd, d))
    &&& fits_fix(gmul(kp, curr) + gmul(ki, integ))
    &&& fits_fix(pid_output(kp, ki, kd, integ, prev, curr, dt_ms))
}

/// A constant step against the error's sign; zero exactly on no error.
pub fn polarity_step_control(err: Fix) -> (r: Result<Fix, CtrlError>)
    ensures
        err@ < 0 ==> (r matches Ok(v) && v@ == STEP_VALUE as int),
        err@ > 0 ==> (r matches Ok(v) && v@ == -STEP_VALUE as int),
        err@ == 0 ==> (r matches Ok(v) && v@ == 0),
{
    if err.micros < 0 {
        Ok(Fix { micros: STEP_VALUE })
    } else if err.micros > 0 {
        Ok(Fix { micros: -STEP_VALUE })
    } else {
        Ok(Fix { micros: 0 })
    }
}

/// A proportional correction: the base gain times the negated error.
pub fn prop_gain_control(err: Fix) -> (r: Result<Fix, CtrlError>)
    requires
        err.valid(),
    ensures
        r is Ok <==> fits_fix(gmul(BASE_STEP as int, -err@)),
        r matches Ok(v) ==> v@ == gmul(BASE_STEP as int, -err@) && v.valid(),
{
    match mul_gain(Fix { micros: BASE_STEP }, err.neg()) {
        Some(v) => Ok(v),
        None => Err(CtrlError::OutOfRange),
    }
}

/// The backward difference as an exec value; in range or nothing.
fn deriv_exec(prev: Fix, curr: Fix, dt_ms: i64) -> (r: Option<Fix>)
    requires
        prev.valid(),
        curr.valid(),
        dt_ms > 0,
    ensures
        r is Some <==> fits_fix(deriv(prev@, curr@, dt_ms as int)),
        r matches Some(d) ==> d@ == deriv(prev@, curr@, dt_ms as int) && d.valid(),
{
    let diff: i128 = (curr.micros as i128 - prev.micros as i128) * 1000;
    let d: i128 = div_i128_tz(diff, dt_ms as u64);
    if -(FIX_LIM as i128) <= d && d <= FIX_LIM as i128 {
        Some(Fix { micros: d as i64 })
    } else {
        None
    }
}

/// The trapezoid area of one step as an exec value; in range or nothing.
fn trap_area_exec(prev: Fix, curr: Fix, dsec: i64) -> (r: Option<Fix>)
    requires
        prev.valid(),
        curr.valid(),
        dsec >= 0,
    ensures
        r is Some <==> fits_fix(trap_area(prev@, curr@, dsec as int)),
        r matches Some(a) ==> a@ == trap_area(prev@, curr@, dsec as int) && a.valid(),
{
    let same_sign: bool = (prev.micros >= 0 && curr.micros >= 0) || (prev.micros <= 0
        && curr.micros <= 0);
    if !same_sign {
        return Some(Fix { micros: 0 });
    }
    let sum: i128 = prev.micros as i128 + curr.micros as i128;
    proof {
        assert(dsec as i128 * sum <= 0x7fff_ffff_ffff_ffff_i128 * 0x4000_0000_0000_0000_i128)
            by (nonlinear_arith)
            requires
                0 <= dsec as i128 <= 0x7fff_ffff_ffff_ffff_i128,
                -0x4000_0000_0000_0000_i128 <= sum <= 0x4000_0000_0000_0000_i128,
        ;
        assert(dsec as i128 * sum >= 0x7fff_ffff_ffff_ffff_i128 * (
        -0x4000_0000_0000_0000_i128)) by (nonlinear_arith)
            requires
                0 <= dsec as i128 <= 0x7fff_ffff_ffff_ffff_i128,
                -0x4000_0000_0000_0000_i128 <= sum <= 0x4000_0000_0000_0000_i128,
        ;
    }
    let prod: i128 = dsec as i128 * sum;
    let a: i128 = div_i128_tz(prod, 2);
    if -(FIX_LIM as i128) <= a && a <= FIX_LIM as i128 {
        Some(Fix { micros: a as i64 })
    } else {
        None
    }
}

/// One three-term step from the previous state: the updated integral and
/// the output, both in range, or nothing at the first quantity out of
/// range.
fn pid_step_core(
    kp: Fix,
    ki: Fix,
    kd: Fix,
    integ0: Fix,
    prev: Fix,
    prev_ms: i64,
    err: Fix,
    now_ms: i64,
) -> (r: Option<(Fix, Fix)>)
    requires
        kp.valid(),
        ki.valid(),
        kd.valid(),
        integ0.valid(),
        prev.valid(),
        err.valid(),
        0 <= prev_ms < now_ms,
    ensures
        r is Some <==> pid_fits(kp@, ki@, kd@, integ0@, prev@, err@, prev_ms as int, now_ms as int),
        r matches Some(p) ==> ({
            let dt = now_ms - prev_ms;
            let ds = sec_delta(prev_ms as int, now_ms as int);
            &&& p.0@ == pid_output(kp@, ki@, kd@, integ0@ + trap_area(prev@, err@, ds), prev@, err@, dt)
            &&& p.1@ == integ0@ + trap_area(prev@, err@, ds)
            &&& p.0.valid()
            &&& p.1.valid()
        }),
{
    let dt: i64 = now_ms - prev_ms;
    let ds: i64 = now_ms / 1000 - prev_ms / 1000;
    proof {
        vstd::arithmetic::div_mod::lemma_div_is_ordered(prev_ms as int, now_ms as int, 1000);
    }
    let area: Fix = match trap_area_exec(prev, err, ds) {
        Some(a) => a,
        None => {
            return None;
        },
    };
    let integ: Fix = match integ0.plus(area) {
        Some(v) => v,
        None => {
            return None;
        },
    };
    let d: Fix = match deriv_exec(prev, err, dt) {
        Some(v) => v,
        None => {
            return None;
        },
    };
    let tp: Fix = match mul_gain(kp, err) {
        Some(v) => v,
        None => {
            return None;
        },
    };
    let ti: Fix = match mul_gain(ki, integ) {
        Some(v) => v,
        None => {
            return None;
        },
    };
    let td: Fix = match mul_gain(kd, d) {
        Some(v) => v,
        None => {
            return None;
        },
    };
    let s1: Fix = match tp.plus(ti) {
        Some(v) => v,
        None => {
            return None;
        },
    };
    let out: Fix = match s1.plus(td) {
        Some(v) => v,
        None => {
            return None;
        },
    };
    Some((out, integ))
}


/// The PD law on one step: proportional and derivative terms, each on the
/// negated quantity.
pub open spec fn pd_output(kp: int, kd: int, prev: int, curr: int, dt_ms: int) -> int {
    gmul(kp, -curr) + gmul(kd, -deriv(prev, curr, dt_ms))
}

/// Whether every intermediate of one PD step stays in range.
pub open spec fn pd_fits(kp: int, kd: int, prev: int, curr: int, dt_ms: int) -> bool {
    let d = deriv(prev, curr, dt_ms);
    &&& fits_fix(d)
    &&& fits_fix(gmul(kp, -curr))
    &&& fits_fix(gmul(kd, -d))
    &&& fits_fix(pd_output(kp, kd, prev, curr, dt_ms))
}

/// A proportional-derivative controller: the previous error and its
/// instant, and the two gains.
pub struct PDController {
    /// The error of the previous step; zero before the first step.
    pub prev_err: Fix,
    /// The wall-clock instant of the previous step, in milliseconds.
    pub prev_time: i64,
    /// The proportional gain.
    pub kp_gain: Fix,
    /// The derivative gain.
    pub kd_gain: Fix,
}

impl PDController {
    /// Every scalar in range, and a nonnegative time base.
    pub open spec fn wf(self) -> bool {
        &&& self.prev_err.valid()
        &&& self.kp_gain.valid()
        &&& self.kd_gain.valid()
        &&& self.prev_time >= 0
    }

    /// Creates a PD controller with the given gains; the clock reading
    /// seeds the derivative's time base, with no error seen yet.
    #[allow(nonstandard_style)]
    pub fn create_PD(kp_gain: Fix, kd_gain: Fix, now_ms: i64) -> (r: PDController)
        requires
            kp_gain.valid(),
            kd_gain.valid(),
            now_ms >= 0,
        ensures
            r.prev_err@ == 0,
            r.prev_time == now_ms,
            r.kp_gain == kp_gain,
            r.kd_gain == kd_gain,
            r.wf(),
    {
        PDController { prev_err: Fix { micros: 0 }, prev_time: now_ms, kp_gain, kd_gain }
    }

    /// One step of the PD law. The previous error and instant are always
    /// replaced by this step's; the output is the PD law's value, or an
    /// error exactly when an intermediate leaves the working range.
    pub fn calc_op(&mut self, err: Fix, now_ms: i64) -> (r: Result<Fix, CtrlError>)
        requires
            old(self).wf(),
            err.valid(),
            now_ms > old(self).prev_time,
        ensures
            final(self).wf(),
            final(self).prev_err == err,
            final(self).prev_time == now_ms,
            final(self).kp_gain == old(self).kp_gain,
            final(self).kd_gain == old(self).kd_gain,
            r is Ok <==> pd_fits(
                old(self).kp_gain@,
                old(self).kd_gain@,
                old(self).prev_err@,
                err@,
                now_ms - old(self).prev_time,
            ),
            r matches Ok(v) ==> v@ == pd_output(
                old(self).kp_gain@,
                old(self).kd_gain@,
                old(self).prev_err@,
                err@,
                now_ms - old(self).prev_time,
            ) && v.valid(),
    {
        let dt: i64 = now_ms - self.prev_time;
        let prev: Fix = self.prev_err;
        self.prev_err = err;
        self.prev_time = now_ms;
        let d: Fix = match deriv_exec(prev, err, dt) {
            Some(v) => v,
            None => {
                return Err(CtrlError::OutOfRange);
            },
        };
        let tp: Fix = match mul_gain(self.kp_gain, err.neg()) {
            Some(v) => v,
            None => {
                return Err(CtrlError::OutOfRange);
            },
        };
        let td: Fix = match mul_gain(self.kd_gain, d.neg()) {
            Some(v) => v,
            None => {
                return Err(CtrlError::OutOfRange);
            },
        };
        match tp.plus(td) {
            Some(v) => Ok(v),
            None => Err(CtrlError::OutOfRange),
        }
    }
}

/// A full three-term controller: the whole error and timestamp history,
/// the running integral, and the three gains.
pub struct PIDController {
    /// Every error seen, oldest first; a zero error seeds the history.
    pub errs: Vec<Fix>,
    /// The wall-clock instant of each error, in milliseconds.
    pub timestamps: Vec<i64>,
    /// The running trapezoid integral of the error.
    pub curr_integral: Fix,
    /// The proportional gain.
    pub kp_gain: Fix,
    /// The integral gain.
    pub ki_gain: Fix,
    /// The derivative gain.
    pub kd_gain: Fix,
}

impl PIDController {
    /// Histories of equal length with at least the seed entry, every
    /// scalar in range, every instant nonnegative.
    pub open spec fn wf(self) -> bool {
        &&& self.errs@.len() == self.timestamps@.len()
        &&& self.errs@.len() >= 1
        &&& forall|i: int| 0 <= i < self.errs@.len() ==> (#[trigger] self.errs@[i]).valid()
        &&& forall|i: int| 0 <= i < self.timestamps@.len() ==> #[trigger] self.timestamps@[i] >= 0
        &&& self.curr_integral.valid()
        &&& self.kp_gain.valid()
        &&& self.ki_gain.valid()
        &&& self.kd_gain.valid()
    }

    /// Creates a PID controller with the given gains; the clock reading
    /// and a zero error seed the history, and the integral starts at zero.
    #[allow(nonstandard_style)]
    pub fn create_PID(kp_gain: Fix, ki_gain: Fix, kd_gain: Fix, now_ms: i64) -> (r: PIDController)
        requires
            kp_gain.valid(),
            ki_gain.valid(),
            kd_gain.valid(),
            now_ms >= 0,
        ensures
            r.errs@.len() == 1 && r.errs@[0]@ == 0,
            r.timestamps@ == seq![now_ms],
            r.curr_integral@ == 0,
            r.kp_gain == kp_gain,
            r.ki_gain == ki_gain,
            r.kd_gain == kd_gain,
            r.wf(),
    {
        let mut errs: Vec<Fix> = Vec::new();
        errs.push(Fix { micros: 0 });
        let mut timestamps: Vec<i64> = Vec::new();
        timestamps.push(now_ms);
        proof {
            assert(timestamps@ =~= seq![now_ms]);
        }
        PIDController {
            errs,
            timestamps,
            curr_integral: Fix { micros: 0 },
            kp_gain,
            ki_gain,
            kd_gain,
        }
    }

    /// One step of the three-term law: the error and the instant join the
    /// history, the integral grows by this step's trapezoid area, and the
    /// output combines the three terms; on the first quantity out of range
    /// the state is left untouched and an error returned.
    pub fn calc_mv(&mut self, err: Fix, now_ms: i64) -> (r: Result<Fix, CtrlError>)
        requires
            old(self).wf(),
            err.valid(),
            now_ms > old(self).timestamps@.last(),
        ensures
            final(self).wf(),
            r is Ok <==> pid_fits(
                old(self).kp_gain@,
                old(self).ki_gain@,
                old(self).kd_gain@,
                old(self).curr_integral@,
                old(self).errs@.last()@,
                err@,
                old(self).timestamps@.last() as int,
                now_ms as int,
            ),
            r matches Ok(v) ==> ({
                let dt = now_ms - old(self).timestamps@.last();
                let integ = old(self).curr_integral@ + trap_area(
                    old(self).errs@.last()@,
                    err@,
                    sec_delta(old(self).timestamps@.last() as int, now_ms as int),
                );
                &&& final(self).errs@ == old(self).errs@.push(err)
                &&& final(self).timestamps@ == old(self).timestamps@.push(now_ms)
                &&& final(self).curr_integral@ == integ
                &&& final(self).kp_gain == old(self).kp_gain
                &&& final(self).ki_gain == old(self).ki_gain
                &&& final(self).kd_gain == old(self).kd_gain
                &&& v@ == pid_output(
                    old(self).kp_gain@,
                    old(self).ki_gain@,
                    old(self).kd_gain@,
                    integ,
                    old(self).errs@.last()@,
                    err@,
                    dt,
                )
                &&& v.valid()
            }),
            r is Err ==> *final(self) == *old(self),
    {
        let n: usize = self.errs.len();
        let prev: Fix = self.errs[n - 1];
        let prev_t: i64 = self.timestamps[n - 1];
        match pid_step_core(
            self.kp_gain,
            self.ki_gain,
            self.kd_gain,
            self.curr_integral,
            prev,
            prev_t,
            err,
            now_ms,
        ) {
            Some(p) => {
                self.errs.push(err);
                self.timestamps.push(now_ms);
                self.curr_integral = p.1;
                Ok(p.0)
            },
            None => Err(CtrlError::OutOfRange),
        }
    }
}

/// A three-term controller with two gain sets, chosen each step by holding
/// the error against a fixed threshold: the high set above it, the low set
/// at or below it.
pub struct PHPIDController {
    /// Every error seen, oldest first; a zero error seeds the history.
    pub errs: Vec<Fix>,
    /// The wall-clock instant of each error, in milliseconds.
    pub timestamps: Vec<i64>,
    /// The running trapezoid integral of the error.
    pub curr_integral: Fix,
    /// The error level above which the high gain set acts.
    pub threshold: Fix,
    /// The proportional gain above the threshold.
    pub hi_kp: Fix,
    /// The integral gain above the threshold.
    pub hi_ki: Fix,
    /// The derivative gain above the threshold.
    pub hi_kd: Fix,
    /// The proportional gain at or below the threshold.
    pub lo_kp: Fix,
    /// The integral gain at or below the threshold.
    pub lo_ki: Fix,
    /// The derivative gain at or below the threshold.
    pub lo_kd: Fix,
}

impl PHPIDController {
    /// Histories of equal length with at least the seed entry, every
    /// scalar in range, every instant nonnegative.
    pub open spec fn wf(self) -> bool {
        &&& self.errs@.len() == self.timestamps@.len()
        &&& self.errs@.len() >= 1
        &&& forall|i: int| 0 <= i < self.errs@.len() ==> (#[trigger] self.errs@[i]).valid()
        &&& forall|i: int| 0 <= i < self.timestamps@.len() ==> #[trigger] self.timestamps@[i] >= 0
        &&& self.curr_integral.valid()
        &&& self.threshold.valid()
        &&& self.hi_kp.valid() && self.hi_ki.valid() && self.hi_kd.valid()
        &&& self.lo_kp.valid() && self.lo_ki.valid() && self.lo_kd.valid()
    }

    /// The proportional gain the step on error `e` selects.
    pub open spec fn sel_kp(self, e: int) -> int {
        if e > self.threshold@ {
            self.hi_kp@
        } else {
            self.lo_kp@
        }
    }

    /// The integral gain the step on error `e` selects.
    pub open spec fn sel_ki(self, e: int) -> int {
        if e > self.threshold@ {
            self.hi_ki@
        } else {
            self.lo_ki@
        }
    }

    /// The derivative gain the step on error `e` selects.
    pub open spec fn sel_kd(self, e: int) -> int {
        if e > self.threshold@ {
            self.hi_kd@
        } else {
            self.lo_kd@
        }
    }

    /// Creates a two-regime controller from the threshold and both gain
    /// triples; the clock reading and a zero error seed the history.
    #[allow(nonstandard_style)]
    pub fn create_PH_PID(
        threshold: Fix,
        hi_kp: Fix,
        hi_ki: Fix,
        hi_kd: Fix,
        lo_kp: Fix,
        lo_ki: Fix,
        lo_kd: Fix,
        now_ms: i64,
    ) -> (r: PHPIDController)
        requires
            threshold.valid(),
            hi_kp.valid(),
            hi_ki.valid(),
            hi_kd.valid(),
            lo_kp.valid(),
            lo_ki.valid(),
            lo_kd.valid(),
            now_ms >= 0,
        ensures
            r.errs@.len() == 1 && r.errs@[0]@ == 0,
            r.timestamps@ == seq![now_ms],
            r.curr_integral@ == 0,
            r.threshold == threshold,
            r.hi_kp == hi_kp && r.hi_ki == hi_ki && r.hi_kd == hi_kd,
            r.lo_kp == lo_kp && r.lo_ki == lo_ki && r.lo_kd == lo_kd,
            r.wf(),
    {
        let mut errs: Vec<Fix> = Vec::new();
        errs.push(Fix { micros: 0 });
        let mut timestamps: Vec<i64> = Vec::new();
        timestamps.push(now_ms);
        proof {
            assert(timestamps@ =~= seq![now_ms]);
        }
        PHPIDController {
            errs,
            timestamps,
            curr_integral: Fix { micros: 0 },
            threshold,
            hi_kp,
            hi_ki,
            hi_kd,
            lo_kp,
            lo_ki,
            lo_kd,
        }
    }

    /// One step of the two-regime law: the gain set is chosen by the
    /// error's side of the threshold, and the step then runs the three-term
    /// law exactly as the plain controller does, on the shared integral and
    /// history.
    pub fn calc_mv(&mut self, err: Fix, now_ms: i64) -> (r: Result<Fix, CtrlError>)
        requires
            old(self).wf(),
            err.valid(),
            now_ms > old(self).timestamps@.last(),
        ensures
            final(self).wf(),
            r is Ok <==> pid_fits(
                old(self).sel_kp(err@),
                old(self).sel_ki(err@),
                old(self).sel_kd(err@),
                old(self).curr_integral@,
                old(self).errs@.last()@,
                err@,
                old(self).timestamps@.last() as int,
                now_ms as int,
            ),
            r matches Ok(v) ==> ({
                let dt = now_ms - old(self).timestamps@.last();
                let integ = old(self).curr_integral@ + trap_area(
                    old(self).errs@.last()@,
                    err@,
                    sec_delta(old(self).timestamps@.last() as int, now_ms as int),
                );
                &&& final(self).errs@ == old(self).errs@.push(err)
                &&& final(self).timestamps@ == old(self).timestamps@.push(now_ms)
                &&& final(self).curr_integral@ == integ
                &&& final(self).threshold == old(self).threshold
                &&& final(self).hi_kp == old(self).hi_kp
                &&& final(self).hi_ki == old(self).hi_ki
                &&& final(self).hi_kd == old(self).hi_kd
                &&& final(self).lo_kp == old(self).lo_kp
                &&& final(self).lo_ki == old(self).lo_ki
                &&& final(self).lo_kd == old(self).lo_kd
                &&& v@ == pid_output(
                    old(self).sel_kp(err@),
                    old(self).sel_ki(err@),
                    old(self).sel_kd(err@),
                    integ,
                    old(self).errs@.last()@,
                    err@,
                    dt,
                )
                &&& v.valid()
            }),
            r is Err ==> *final(self) == *old(self),
    {
        let n: usize = self.errs.len();
        let prev: Fix = self.errs[n - 1];
        let prev_t: i64 = self.timestamps[n - 1];
        let hi: bool = err.micros > self.threshold.micros;
        let kp: Fix = if hi {
            self.hi_kp
        } else {
            self.lo_kp
        };
        let ki: Fix = if hi {
            self.hi_ki
        } else {
            self.lo_ki
        };
        let kd: Fix = if hi {
            self.hi_kd
        } else {
            self.lo_kd
        };
        match pid_step_core(
            kp,
            ki,
            kd,
            self.curr_integral,
            prev,
            prev_t,
            err,
            now_ms,
        ) {
            Some(p) => {
                self.errs.push(err);
                self.timestamps.push(now_ms);
                self.curr_integral = p.1;
                Ok(p.0)
            },
            None => Err(CtrlError::OutOfRange),
        }
    }
}

} // verus!
