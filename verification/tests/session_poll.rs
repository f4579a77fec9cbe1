use rustbot::fixed::Fix;
use rustbot::geom::{ForceAxis, Wrench, V3};
use rustbot::session::{
    EchoError, ForceErrError, PollCycle, PollQuery, Session, TrajFlagError,
};

fn b(s: &str) -> Vec<u8> {
    s.as_bytes().to_vec()
}

fn fx(micros: i64) -> Fix {
    Fix { micros }
}

#[test]
fn fresh_session_knows_nothing() {
    let s = Session::new();
    assert!(s.pos.is_none());
    assert!(s.ori.is_none());
    assert!(s.jnt_angles.is_none());
    assert!(s.force.is_none());
    assert!(!s.move_flag);
    assert!(!s.traj_done_flag);
    assert!(!s.disconnected);
    assert!(!s.force_mode_flag);
    assert_eq!(s.force_axis, ForceAxis::Z);
    assert_eq!(s.force_target, fx(0));
}

#[test]
fn position_reply_parses_three_values() {
    let mut s = Session::new();
    s.apply_pos_reply(Some(&b("[1.5,2,-3]")));
    assert_eq!(s.pos, Some(V3 { x: fx(1_500_000), y: fx(2_000_000), z: fx(-3_000_000) }));
    assert!(!s.disconnected);
}

#[test]
fn position_reply_arity_mismatch_resets_reading() {
    let mut s = Session::new();
    s.apply_pos_reply(Some(&b("[1,2,3]")));
    assert!(s.pos.is_some());
    s.apply_pos_reply(Some(&b("[1,2]")));
    assert!(s.pos.is_none());
    assert!(!s.disconnected);
}

#[test]
fn transport_failure_sets_sticky_disconnect() {
    let mut s = Session::new();
    s.apply_pos_reply(None);
    assert!(s.disconnected);
}

#[test]
fn force_reply_needs_six_values() {
    let mut s = Session::new();
    s.apply_force_reply(Some(&b("[1,2,3,4,5,6]")));
    assert_eq!(
        s.force,
        Some(Wrench {
            fx: fx(1_000_000),
            fy: fx(2_000_000),
            fz: fx(3_000_000),
            mx: fx(4_000_000),
            my: fx(5_000_000),
            mz: fx(6_000_000),
        })
    );
    s.apply_force_reply(Some(&b("[1,2,3]")));
    assert!(s.force.is_none());
}

#[test]
fn joints_reply_needs_six_values() {
    let mut s = Session::new();
    s.apply_joints_reply(Some(&b("[10,20,30,40,50,60]")));
    assert!(s.jnt_angles.is_some());
    s.apply_joints_reply(Some(&b("[10,20,30,40,50]")));
    assert!(s.jnt_angles.is_none());
}

#[test]
fn move_state_reply_flags() {
    let mut s = Session::new();
    s.apply_move_state_reply(Some(&b("0")));
    assert!(s.move_flag);
    s.apply_move_state_reply(Some(&b("1")));
    assert!(!s.move_flag);
    s.apply_move_state_reply(Some(&b("0")));
    s.apply_move_state_reply(Some(&b("?")));
    assert!(s.move_flag);
}

#[test]
fn traj_done_reply_flags() {
    let mut s = Session::new();
    assert_eq!(s.apply_traj_done_reply(Some(&b("TRUE"))), Ok(true));
    assert!(s.traj_done_flag);
    assert_eq!(s.apply_traj_done_reply(Some(&b("FALSE"))), Ok(false));
    assert!(!s.traj_done_flag);
    assert_eq!(
        s.apply_traj_done_reply(Some(&b("MAYBE"))),
        Err(TrajFlagError::UnknownState)
    );
    assert!(!s.traj_done_flag);
    assert_eq!(s.apply_traj_done_reply(None), Err(TrajFlagError::Disconnected));
    assert!(s.disconnected);
}

#[test]
fn poll_cycle_order_is_fixed() {
    let s = Session::new();
    let mut pc = PollCycle::new();
    let expected = [
        PollQuery::Pos,
        PollQuery::Ori,
        PollQuery::Force,
        PollQuery::MoveState,
        PollQuery::TrajDone,
    ];
    let mut sess = s;
    for q in expected {
        assert_eq!(pc.next_query(&sess), Some(q));
        pc.apply(&mut sess, q, Some(&b("[1,2,3]")));
    }
    assert_eq!(pc.next_query(&sess), None);
}

#[test]
fn disconnect_short_circuits_poll_cycle() {
    // the second query observes a failure; the rest of the tick issues no
    // further query, seen by counting what next_query hands out
    let mut sess = Session::new();
    let mut pc = PollCycle::new();
    let mut issued = 0;
    loop {
        match pc.next_query(&sess) {
            None => break,
            Some(q) => {
                issued += 1;
                let reply = if issued == 2 { None } else { Some(b("[1,2,3]")) };
                pc.apply(&mut sess, q, reply.as_ref());
            }
        }
    }
    assert_eq!(issued, 2);
    assert!(sess.disconnected);
}

#[test]
fn force_mode_echo_must_match() {
    let mut s = Session::new();
    assert_eq!(s.apply_force_mode_reply(true, Some(&b("FM:TRUE"))), Ok(()));
    assert!(s.force_mode_flag);
    assert_eq!(
        s.apply_force_mode_reply(false, Some(&b("FM:true"))),
        Err(EchoError::Mismatch)
    );
    assert!(s.force_mode_flag);
    assert_eq!(s.apply_force_mode_reply(false, None), Err(EchoError::NoResponse));
    assert!(s.force_mode_flag);
    assert_eq!(s.apply_force_mode_reply(false, Some(&b("fm:false"))), Ok(()));
    assert!(!s.force_mode_flag);
}

#[test]
fn force_config_mismatch_leaves_config_untouched() {
    let mut s = Session::new();
    // set a known configuration first, through the exact echo
    assert_eq!(
        s.apply_force_config_reply(ForceAxis::Z, fx(99_000_000), Some(&b("FC:Z.99"))),
        Ok(())
    );
    assert_eq!(s.force_axis, ForceAxis::Z);
    assert_eq!(s.force_target, fx(99_000_000));
    // a device that echoes a different target than requested is a hard error
    assert_eq!(
        s.apply_force_config_reply(ForceAxis::Z, fx(10_500_000), Some(&b("FC:Z.11"))),
        Err(EchoError::Mismatch)
    );
    assert_eq!(s.force_axis, ForceAxis::Z);
    assert_eq!(s.force_target, fx(99_000_000));
    // one that echoes a different axis is too
    assert_eq!(
        s.apply_force_config_reply(ForceAxis::Z, fx(10_500_000), Some(&b("FC:X.10.5"))),
        Err(EchoError::Mismatch)
    );
    assert_eq!(s.force_axis, ForceAxis::Z);
    assert_eq!(s.force_target, fx(99_000_000));
    // and silence is too
    assert_eq!(
        s.apply_force_config_reply(ForceAxis::Z, fx(10_500_000), None),
        Err(EchoError::NoResponse)
    );
    assert_eq!(s.force_target, fx(99_000_000));
    // the case-insensitive exact echo goes through
    assert_eq!(
        s.apply_force_config_reply(ForceAxis::Z, fx(10_500_000), Some(&b("fc:z.10.5"))),
        Ok(())
    );
    assert_eq!(s.force_target, fx(10_500_000));
}

#[test]
fn force_error_cases() {
    let mut s = Session::new();
    assert_eq!(s.calc_force_err(), Err(ForceErrError::NotInForceMode));
    assert_eq!(s.apply_force_mode_reply(true, Some(&b("FM:true"))), Ok(()));
    assert_eq!(s.calc_force_err(), Err(ForceErrError::NoReading));
    s.apply_force_reply(Some(&b("[1,2,3,4,5,6]")));
    assert_eq!(
        s.apply_force_config_reply(ForceAxis::Z, fx(10_000_000), Some(&b("FC:Z.10"))),
        Ok(())
    );
    // error = target - measured Z force = 10 - 3 = 7
    assert_eq!(s.calc_force_err(), Ok(fx(7_000_000)));
    assert_eq!(
        s.apply_force_config_reply(ForceAxis::X, fx(10_000_000), Some(&b("FC:X.10"))),
        Ok(())
    );
    assert_eq!(s.calc_force_err(), Err(ForceErrError::AxisUnsupported));
}

#[test]
fn rel_move_acknowledgement_is_exact() {
    assert_eq!(Session::check_rel_move_reply(Some(&b("OK"))), Ok(()));
    assert_eq!(
        Session::check_rel_move_reply(Some(&b("ok"))),
        Err(EchoError::Mismatch)
    );
    assert_eq!(
        Session::check_rel_move_reply(Some(&b("KO"))),
        Err(EchoError::Mismatch)
    );
    assert_eq!(Session::check_rel_move_reply(None), Err(EchoError::NoResponse));
}

#[test]
fn force_error_out_of_range() {
    // a target at the positive limit against a force reading at the
    // negative limit puts the difference out of the working range
    let mut s = Session::new();
    assert_eq!(s.apply_force_mode_reply(true, Some(&b("FM:true"))), Ok(()));
    s.apply_force_reply(Some(&b("[0,0,-1000000000,0,0,0]")));
    assert_eq!(
        s.apply_force_config_reply(
            ForceAxis::Z,
            fx(1_000_000_000_000_000),
            Some(&b("FC:Z.1000000000"))
        ),
        Ok(())
    );
    assert_eq!(s.calc_force_err(), Err(ForceErrError::OutOfRange));
}
