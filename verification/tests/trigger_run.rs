use rustbot::analysis::{select_force, ForceSel};
use rustbot::command::Command;
use rustbot::egm::{EgmClock, EgmHeader, EgmMessageType, EgmRobot, EgmTimestamp};
use rustbot::executor::{
    create_test_run, format_state_line, home_commands, relative_traj_gen, correction_command,
    Phase, RunAction, TestRun, TrajError,
};
use rustbot::fixed::Fix;
use rustbot::geom::{ForceAxis, Wrench, V3};
use rustbot::session::Session;
use rustbot::trigger::{
    plan_samples, sample_filename, SampleAction, SampleLabel, Sampler,
};

fn b(s: &str) -> Vec<u8> {
    s.as_bytes().to_vec()
}

fn fx(micros: i64) -> Fix {
    Fix { micros }
}

fn unit(u: i64) -> Fix {
    Fix { micros: u * 1_000_000 }
}

fn v3(x: i64, y: i64, z: i64) -> V3 {
    V3 { x: unit(x), y: unit(y), z: unit(z) }
}

#[test]
fn trigger_protocol_sequencing() {
    // codes [4,2,1,1,1,3,0]: one discard, a start mark, three numbered
    // captures, an end mark, then shutdown - exactly five saved samples
    let codes = vec![4u32, 2, 1, 1, 1, 3, 0];
    let actions = plan_samples(&codes);
    assert_eq!(
        actions,
        vec![
            SampleAction::Discard,
            SampleAction::Save(SampleLabel::Start),
            SampleAction::Save(SampleLabel::Numbered(0)),
            SampleAction::Save(SampleLabel::Numbered(1)),
            SampleAction::Save(SampleLabel::Numbered(2)),
            SampleAction::Save(SampleLabel::End),
            SampleAction::Shutdown,
        ]
    );
    let saved = actions
        .iter()
        .filter(|a| matches!(a, SampleAction::Save(_)))
        .count();
    assert_eq!(saved, 5);
}

#[test]
fn codes_after_stop_are_never_received() {
    let codes = vec![1u32, 0, 1, 2, 3];
    let actions = plan_samples(&codes);
    assert_eq!(
        actions,
        vec![
            SampleAction::Save(SampleLabel::Numbered(0)),
            SampleAction::Shutdown,
        ]
    );
}

#[test]
fn unknown_codes_save_without_advancing_counter() {
    let mut s = Sampler::new();
    assert_eq!(s.handle(7), SampleAction::Save(SampleLabel::Numbered(0)));
    assert_eq!(s.cnt, 0);
    assert_eq!(s.handle(1), SampleAction::Save(SampleLabel::Numbered(0)));
    assert_eq!(s.cnt, 1);
    assert_eq!(s.handle(2), SampleAction::Save(SampleLabel::Start));
    assert_eq!(s.cnt, 1);
    assert_eq!(s.handle(1), SampleAction::Save(SampleLabel::Numbered(1)));
    assert_eq!(s.cnt, 2);
}

#[test]
fn sample_filenames_follow_labels() {
    let stem = b("soil/pcl_trial");
    assert_eq!(
        sample_filename(&stem, SampleLabel::Start),
        b("soil/pcl_trial_START")
    );
    assert_eq!(sample_filename(&stem, SampleLabel::End), b("soil/pcl_trial_END"));
    assert_eq!(
        sample_filename(&stem, SampleLabel::Numbered(12)),
        b("soil/pcl_trial_12")
    );
}

#[test]
fn too_short_trajectory_is_rejected_before_any_command() {
    assert!(matches!(
        create_test_run(vec![v3(1, 2, 3)], false),
        Err(TrajError::TooShort)
    ));
    assert!(matches!(create_test_run(vec![], false), Err(TrajError::TooShort)));
}

#[test]
fn relative_trajectory_keeps_start_and_deltas() {
    let traj = vec![v3(1, 1, 1), v3(3, 2, 0), v3(3, 5, -2)];
    let rel = relative_traj_gen(&traj).unwrap();
    assert_eq!(rel, vec![v3(1, 1, 1), v3(2, 1, -1), v3(0, 3, -2)]);
}

fn drive_until_poll(run: &mut TestRun, sess: &Session) -> Vec<RunAction> {
    let mut actions = Vec::new();
    loop {
        let a = run.next_action();
        actions.push(a);
        if matches!(a, RunAction::Poll | RunAction::Finished | RunAction::Aborted) {
            break;
        }
        run.advance(sess);
    }
    actions
}

#[test]
fn absolute_run_queues_every_waypoint() {
    let traj = vec![v3(0, 0, 0), v3(1, 0, 0), v3(2, 0, 0)];
    let sess = Session::new();
    let mut run = create_test_run(traj.clone(), false).unwrap();
    let actions = drive_until_poll(&mut run, &sess);
    assert_eq!(
        actions,
        vec![
            RunAction::Trigger(4),
            RunAction::Home,
            RunAction::Trigger(2),
            RunAction::Device(Command::MoveTo(traj[0])),
            RunAction::Device(Command::SetSpeed(unit(10))),
            RunAction::Device(Command::QueueAddTrans(traj[0])),
            RunAction::Device(Command::QueueAddTrans(traj[1])),
            RunAction::Device(Command::QueueAddTrans(traj[2])),
            RunAction::Device(Command::QueueGo),
            RunAction::Poll,
        ]
    );
}

#[test]
fn force_run_checks_each_relative_increment() {
    let traj = vec![v3(0, 0, 0), v3(1, 0, 0), v3(2, 0, 0)];
    let sess = Session::new();
    let mut run = create_test_run(traj.clone(), true).unwrap();
    let actions = drive_until_poll(&mut run, &sess);
    assert_eq!(
        actions,
        vec![
            RunAction::Trigger(4),
            RunAction::Home,
            RunAction::Trigger(2),
            RunAction::Device(Command::MoveTo(traj[0])),
            RunAction::Device(Command::SetSpeed(unit(10))),
            RunAction::DeviceChecked(Command::RelMoveAdd(traj[1])),
            RunAction::DeviceChecked(Command::RelMoveAdd(traj[2])),
            RunAction::Device(Command::QueueGo),
            RunAction::Poll,
        ]
    );
}

#[test]
fn run_loop_finishes_through_home_and_marks() {
    let traj = vec![v3(0, 0, 0), v3(1, 0, 0)];
    let mut sess = Session::new();
    let mut run = create_test_run(traj, false).unwrap();
    drive_until_poll(&mut run, &sess);
    run.advance(&sess);
    // the first logged tick asks for a capture; later ones do not
    assert_eq!(
        run.next_action(),
        RunAction::PollTick { capture: true, force_correct: false }
    );
    run.advance(&sess);
    assert_eq!(
        run.next_action(),
        RunAction::PollTick { capture: false, force_correct: false }
    );
    // the device reports the trajectory done
    sess.traj_done_flag = true;
    run.advance(&sess);
    assert_eq!(run.next_action(), RunAction::Home);
    run.advance(&sess);
    assert_eq!(run.next_action(), RunAction::Trigger(3));
    run.advance(&sess);
    assert_eq!(run.next_action(), RunAction::Trigger(0));
    run.advance(&sess);
    assert_eq!(run.next_action(), RunAction::Finished);
    assert_eq!(run.phase, Phase::Done);
}

#[test]
fn disconnect_aborts_run_after_stop_trigger() {
    let traj = vec![v3(0, 0, 0), v3(1, 0, 0)];
    let mut sess = Session::new();
    let mut run = create_test_run(traj, true).unwrap();
    drive_until_poll(&mut run, &sess);
    run.advance(&sess);
    assert!(matches!(run.next_action(), RunAction::PollTick { .. }));
    // the poll observes a failure
    sess.disconnected = true;
    run.advance(&sess);
    // the run asks only for the stop trigger, then nothing further
    assert_eq!(run.next_action(), RunAction::Trigger(0));
    run.advance(&sess);
    assert_eq!(run.next_action(), RunAction::Aborted);
    assert_eq!(run.phase, Phase::Failed);
}

#[test]
fn homing_sequence_is_fixed() {
    let cmds = home_commands();
    assert_eq!(cmds.len(), 4);
    assert_eq!(cmds[0].to_wire(), b("STSP:150"));
    assert_eq!(cmds[1].to_wire(), b("MVTO:[220,1355,955]"));
    assert_eq!(cmds[2].to_wire(), b("STOR:[0.00203, -0.98623, -0.16536, 0.00062]"));
    assert_eq!(cmds[3].to_wire(), b("STSP:50"));
}

#[test]
fn force_correction_moves_along_configured_axis() {
    let c = correction_command(ForceAxis::Z, fx(500_000));
    assert_eq!(c.to_wire(), b("RLAD:[0,0,0.5]"));
    let c = correction_command(ForceAxis::X, fx(-500_000));
    assert_eq!(c.to_wire(), b("RLAD:[-0.5,0,0]"));
    let c = correction_command(ForceAxis::Y, unit(2));
    assert_eq!(c.to_wire(), b("RLAD:[0,-2,0]"));
}

#[test]
fn state_line_logs_pose_orientation_and_force() {
    let mut sess = Session::new();
    sess.apply_pos_reply(Some(&b("[2,3,4]")));
    sess.apply_force_reply(Some(&b("[1,2,3,4,5,6]")));
    let zero = v3(0, 0, 0);
    let line = format_state_line(7, fx(1_500_000), &sess, zero, zero);
    assert_eq!(line, b("7,1.5,[2,3,4],[NaN,NaN,NaN],[1,2,3,4,5,6]"));
    // the work-space offsets shift the pose and orientation only
    let line = format_state_line(8, unit(2), &sess, v3(1, 1, 1), zero);
    assert_eq!(line, b("8,2,[1,2,3],[NaN,NaN,NaN],[1,2,3,4,5,6]"));
}

#[test]
fn egm_clock_arithmetic() {
    let c = EgmClock::create_egm_clock(1, 2_500_000);
    assert_eq!(c.elapsed_since_epoch(), (3, 500_000_000));
    assert_eq!(c.as_timestamp_ms(), 3500);
    assert_eq!(c.as_tuple(), (1, 2_500_000));
    // the 32-bit timestamp wraps exactly
    let c = EgmClock::create_egm_clock(4_294_967_296, 0);
    assert_eq!(c.as_timestamp_ms(), ((4_294_967_296u64 * 1000) % 4_294_967_296) as u32);
}

#[test]
fn egm_header_and_robot_fields() {
    let h = EgmHeader::create_header(9, 1234);
    assert_eq!(h.seqno, Some(9));
    assert_eq!(h.tm, Some(1234));
    assert_eq!(h.mtype, Some(EgmMessageType::Correction));
    let t = EgmTimestamp::create_egm_timestamp(5, 6);
    assert_eq!(t.sec, Some(5));
    assert_eq!(t.nsec, Some(6));
    let r = EgmRobot {
        header: Some(h),
        feedback_time: Some(EgmClock::create_egm_clock(7, 8)),
    };
    assert_eq!(r.get_sqno(), Some(9));
    assert_eq!(r.get_timestamp(), Some(1234));
    assert_eq!(r.get_time(), Some((7, 8)));
    let empty = EgmRobot { header: None, feedback_time: None };
    assert_eq!(empty.get_sqno(), None);
    assert_eq!(empty.get_timestamp(), None);
    assert_eq!(empty.get_time(), None);
}

#[test]
fn force_selection_for_analysis_maps() {
    let w = Wrench {
        fx: unit(1),
        fy: unit(2),
        fz: unit(-3),
        mx: unit(4),
        my: unit(5),
        mz: unit(6),
    };
    assert_eq!(select_force(&w, ForceSel::X), unit(1));
    assert_eq!(select_force(&w, ForceSel::Z), unit(3));
    assert_eq!(select_force(&w, ForceSel::ForceAvg), fx(0));
    assert_eq!(select_force(&w, ForceSel::MomAvg), unit(5));
    assert_eq!(select_force(&w, ForceSel::Ymom), unit(5));
}

#[test]
fn out_of_range_waypoint_is_rejected() {
    let far = V3 { x: fx(1_000_000_000_000_001), y: fx(0), z: fx(0) };
    assert!(matches!(
        create_test_run(vec![v3(0, 0, 0), far], false),
        Err(TrajError::OutOfRange)
    ));
    // a pair of in-range waypoints whose delta leaves the range is caught
    // by the relative form
    let a = V3 { x: fx(1_000_000_000_000_000), y: fx(0), z: fx(0) };
    let b2 = V3 { x: fx(-1_000_000_000_000_000), y: fx(0), z: fx(0) };
    assert!(matches!(relative_traj_gen(&vec![a, b2]), Err(TrajError::OutOfRange)));
}
