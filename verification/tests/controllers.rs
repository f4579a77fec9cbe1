use rustbot::fixed::Fix;
use rustbot::force_control::{
    polarity_step_control, prop_gain_control, CtrlError, PDController, PHPIDController,
    PIDController,
};

fn fx(micros: i64) -> Fix {
    Fix { micros }
}

fn unit(u: i64) -> Fix {
    Fix { micros: u * 1_000_000 }
}

#[test]
fn polarity_step_follows_sign() {
    assert_eq!(polarity_step_control(unit(-3)), Ok(unit(1)));
    assert_eq!(polarity_step_control(unit(3)), Ok(unit(-1)));
    assert_eq!(polarity_step_control(fx(0)), Ok(fx(0)));
    assert_eq!(polarity_step_control(fx(-1)), Ok(unit(1)));
}

#[test]
fn proportional_gain_scales_negated_error() {
    // 0.05 * -(2.0) = -0.1
    assert_eq!(prop_gain_control(unit(2)), Ok(fx(-100_000)));
    assert_eq!(prop_gain_control(unit(-2)), Ok(fx(100_000)));
    assert_eq!(prop_gain_control(fx(0)), Ok(fx(0)));
}

#[test]
fn pd_step_combines_both_terms() {
    // kp = 2, kd = 1, created at t = 0 with a zero previous error
    let mut pd = PDController::create_PD(unit(2), unit(1), 0);
    // err = 3 after exactly one second: derivative = 3 per second
    // output = 2 * -3 + 1 * -3 = -9
    assert_eq!(pd.calc_op(unit(3), 1000), Ok(unit(-9)));
    assert_eq!(pd.prev_err, unit(3));
    assert_eq!(pd.prev_time, 1000);
    // err = 1 half a second later: derivative = (1 - 3) / 0.5 = -4
    // output = 2 * -1 + 1 * 4 = 2
    assert_eq!(pd.calc_op(unit(1), 1500), Ok(unit(2)));
}

#[test]
fn pid_trapezoidal_integral_accumulates() {
    // ki = 1 and no other gain: the output is exactly the integral.
    // errors [1.0, 1.0, 1.0] one second apart; the integral's clock counts
    // whole seconds, so the first step (within the creation second) adds
    // nothing and two steps in give one full 1 x 1 trapezoid
    let mut pid = PIDController::create_PID(fx(0), unit(1), fx(0), 0);
    assert_eq!(pid.calc_mv(unit(1), 999), Ok(fx(0)));
    assert_eq!(pid.curr_integral, fx(0));
    assert_eq!(pid.calc_mv(unit(1), 1999), Ok(unit(1)));
    assert_eq!(pid.curr_integral, unit(1));
    // the third step adds the next full trapezoid
    assert_eq!(pid.calc_mv(unit(1), 2999), Ok(unit(2)));
    assert_eq!(pid.curr_integral, unit(2));
    assert_eq!(pid.errs.len(), 4);
    assert_eq!(pid.timestamps.len(), 4);
}

#[test]
fn pid_integral_skips_sign_change() {
    // between errors of opposite sign the added area is taken as zero
    let mut pid = PIDController::create_PID(fx(0), unit(1), fx(0), 0);
    assert_eq!(pid.calc_mv(unit(-2), 1500), Ok(fx(-1_000_000)));
    // area from -2 to -2 over one second: -2
    assert_eq!(pid.calc_mv(unit(-2), 2500), Ok(unit(-3)));
    assert_eq!(pid.curr_integral, unit(-3));
    // crossing to +2: this step's area is zero
    assert_eq!(pid.calc_mv(unit(2), 3500), Ok(unit(-3)));
    assert_eq!(pid.curr_integral, unit(-3));
}

#[test]
fn pid_proportional_and_derivative_terms() {
    // kp = 2, kd = 1, ki = 0
    let mut pid = PIDController::create_PID(unit(2), fx(0), unit(1), 0);
    // err = 4 after one second: derivative = 4; output = 2*4 + 4 = 12
    assert_eq!(pid.calc_mv(unit(4), 1000), Ok(unit(12)));
}

#[test]
fn ph_pid_switches_gain_sets_on_threshold() {
    // threshold = 5, hi_kp = 2, lo_kp = 1, all other gains zero
    let mut c = PHPIDController::create_PH_PID(
        unit(5),
        unit(2),
        fx(0),
        fx(0),
        unit(1),
        fx(0),
        fx(0),
        0,
    );
    // err = 10 is above the threshold: the high set acts, output 2 * 10 = 20
    assert_eq!(c.calc_mv(unit(10), 1000), Ok(unit(20)));
    // err = 2 is below: the low set acts, output 1 * 2 = 2
    assert_eq!(c.calc_mv(unit(2), 2000), Ok(unit(2)));
    // err exactly at the threshold uses the low set
    assert_eq!(c.calc_mv(unit(5), 3000), Ok(unit(5)));
}

#[test]
fn ph_pid_shares_one_integral_across_regimes() {
    // ki differs per regime but the accumulated integral is shared
    let mut c = PHPIDController::create_PH_PID(
        unit(5),
        fx(0),
        unit(1),
        fx(0),
        fx(0),
        unit(1),
        fx(0),
        0,
    );
    // low regime first: area 0 within the creation second
    assert_eq!(c.calc_mv(unit(2), 500), Ok(fx(0)));
    // still low: area (2+2)/2 over one second = 2
    assert_eq!(c.calc_mv(unit(2), 1500), Ok(unit(2)));
    // high regime: area (2+10)/2 * 1s = 6, integral 8, ki = 1
    assert_eq!(c.calc_mv(unit(10), 2500), Ok(unit(8)));
    assert_eq!(c.curr_integral, unit(8));
}

#[test]
fn pid_step_out_of_range_leaves_state_untouched() {
    // an enormous integral gain against an enormous error overflows the
    // working range; the step reports it and changes nothing
    let lim = fx(1_000_000_000_000_000);
    let mut pid = PIDController::create_PID(fx(0), lim, fx(0), 0);
    assert_eq!(pid.calc_mv(lim, 2000), Err(CtrlError::OutOfRange));
    assert_eq!(pid.errs.len(), 1);
    assert_eq!(pid.timestamps.len(), 1);
    assert_eq!(pid.curr_integral, fx(0));
}
