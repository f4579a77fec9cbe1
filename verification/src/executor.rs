//! The trajectory-execution engine: validation of a waypoint list, its
//! relative-delta form for force-mode runs, the fixed homing sequence, and
//! the linear state machine that sequences one test run — triggers, device
//! commands, the poll loop, and the one abort edge a disconnect takes.

use vstd::prelude::*;
use crate::fixed::{Fix, fits_fix, FIX_LIM};
use crate::geom::{V3, Quartenion, Wrench, ForceAxis};
use crate::command::Command;
use crate::session::Session;
use crate::trigger::{TRIGGER_STOP, TRIGGER_MARK_START, TRIGGER_MARK_END, TRIGGER_WARM_UP};
use crate::wire::{render_fix, push_fix, dec_digits, push_dec_u64};

verus! {

/// Why a waypoint list cannot start a run.
#[derive(Clone, Copy, PartialEq, Eq, Structural, Debug)]
pub enum TrajError {
    /// A run needs at least a start waypoint and one more.
    TooShort,
    /// A waypoint or a delta between waypoints left the working range.
    OutOfRange,
}

/// Whether every waypoint of a list is within the working range.
pub open spec fn traj_valid(t: Seq<V3>) -> bool {
    forall|i: int| 0 <= i < t.len() ==> (#[trigger] t[i]).valid()
}

/// Whether every delta between consecutive waypoints stays in range.
pub open spec fn deltas_fit(t: Seq<V3>) -> bool {
    forall|i: int|
        1 <= i < t.len() ==> fits_fix(t[i].x@ - t[i - 1].x@) && fits_fix(t[i].y@ - t[i - 1].y@)
            && fits_fix(#[trigger] t[i].z@ - t[i - 1].z@)
}

/// The relative-delta form of a waypoint list: the first waypoint is kept
/// as the start, and every later entry is the delta from its predecessor.
pub fn relative_traj_gen(traj: &Vec<V3>) -> (r: Result<Vec<V3>, TrajError>)
    requires
        traj@.len() >= 1,
        traj_valid(traj@),
    ensures
        r is Ok <==> deltas_fit(traj@),
        r matches Ok(rel) ==> ({
            &&& rel@.len() == traj@.len()
            &&& rel@[0] == traj@[0]
            &&& forall|i: int|
                1 <= i < traj@.len() ==> (#[trigger] rel@[i]).x@ == traj@[i].x@ - traj@[i - 1].x@
                    && rel@[i].y@ == traj@[i].y@ - traj@[i - 1].y@ && rel@[i].z@ == traj@[i].z@
                    - traj@[i - 1].z@
            &&& traj_valid(rel@)
        }),
{
    let mut rel: Vec<V3> = Vec::new();
    rel.push(traj[0]);
    let n: usize = traj.len();
    let mut i: usize = 1;
    while i < n
        invariant
            1 <= i <= n,
            n == traj@.len(),
            traj_valid(traj@),
            rel@.len() == i,
            rel@[0] == traj@[0],
            forall|j: int|
                1 <= j < i ==> (#[trigger] rel@[j]).x@ == traj@[j].x@ - traj@[j - 1].x@ && rel@[
                j].y@ == traj@[j].y@ - traj@[j - 1].y@ && rel@[j].z@ == traj@[j].z@ - traj@[j
                    - 1].z@,
            forall|j: int| 0 <= j < i ==> (#[trigger] rel@[j]).valid(),
            forall|j: int|
                1 <= j < i ==> fits_fix(traj@[j].x@ - traj@[j - 1].x@) && fits_fix(
                    traj@[j].y@ - traj@[j - 1].y@,
                ) && fits_fix(#[trigger] traj@[j].z@ - traj@[j - 1].z@),
        decreases n - i,
    {
        let a: V3 = traj[i];
        let b: V3 = traj[i - 1];
        let dx: Option<Fix> = a.x.minus(b.x);
        let dy: Option<Fix> = a.y.minus(b.y);
        let dz: Option<Fix> = a.z.minus(b.z);
        match (dx, dy, dz) {
            (Some(x), Some(y), Some(z)) => {
                rel.push(V3 { x, y, z });
            },
            _ => {
                return Err(TrajError::OutOfRange);
            },
        }
        i = i + 1;
    }
    Ok(rel)
}

/// The home position of the arm, in micro-millimetres.
pub const HOME_X: i64 = 220_000_000;

/// The home position's second coordinate.
pub const HOME_Y: i64 = 1_355_000_000;

/// The home position's third coordinate.
pub const HOME_Z: i64 = 955_000_000;

/// The tool speed on the way home.
pub const HOME_SPEED: i64 = 150_000_000;

/// The tool speed after homing.
pub const SETTLE_SPEED: i64 = 50_000_000;

/// The tool speed during a run.
pub const RUN_SPEED: i64 = 10_000_000;

/// The home pose.
pub fn home_position() -> (r: V3)
    ensures
        r.x@ == HOME_X as int,
        r.y@ == HOME_Y as int,
        r.z@ == HOME_Z as int,
        r.valid(),
{
    V3 {
        x: Fix { micros: HOME_X },
        y: Fix { micros: HOME_Y },
        z: Fix { micros: HOME_Z },
    }
}

/// The home orientation, a fixed quaternion pointing the tool down at the
/// soil bed.
pub fn home_orientation() -> (r: Quartenion)
    ensures
        r.w@ == 2030,
        r.x@ == -986230,
        r.y@ == -165360,
        r.z@ == 620,
        r.valid(),
{
    Quartenion {
        w: Fix { micros: 2030 },
        x: Fix { micros: -986230 },
        y: Fix { micros: -165360 },
        z: Fix { micros: 620 },
    }
}

/// The homing sequence: raise the speed, move to the home pose, take the
/// home orientation, and settle the speed back down. Each command is
/// tolerant of a missing response.
pub fn home_commands() -> (r: Vec<Command>)
    ensures
        r@.len() == 4,
        r@[0] == Command::SetSpeed(Fix { micros: HOME_SPEED }),
        r@[1] == Command::MoveTo(
            V3 {
                x: Fix { micros: HOME_X },
                y: Fix { micros: HOME_Y },
                z: Fix { micros: HOME_Z },
            },
        ),
        r@[2] == Command::SetOri(
            Quartenion {
                w: Fix { micros: 2030i64 },
                x: Fix { micros: -986230i64 },
                y: Fix { micros: -165360i64 },
                z: Fix { micros: 620i64 },
            },
        ),
        r@[3] == Command::SetSpeed(Fix { micros: SETTLE_SPEED }),
        forall|i: int| 0 <= i < r@.len() ==> (#[trigger] r@[i]).wf(),
{
    let mut r: Vec<Command> = Vec::new();
    r.push(Command::SetSpeed(Fix { micros: HOME_SPEED }));
    r.push(Command::MoveTo(home_position()));
    r.push(Command::SetOri(home_orientation()));
    r.push(Command::SetSpeed(Fix { micros: SETTLE_SPEED }));
    r
}

/// Turns one force-controller output into the relative move that applies
/// it along the configured axis.
pub fn correction_command(axis: ForceAxis, delta: Fix) -> (r: Command)
    requires
        delta.valid(),
    ensures
        axis == ForceAxis::X ==> r == Command::RelMoveAdd(
            V3 { x: delta, y: Fix { micros: 0 }, z: Fix { micros: 0 } },
        ),
        axis == ForceAxis::Y ==> r == Command::RelMoveAdd(
            V3 { x: Fix { micros: 0 }, y: delta, z: Fix { micros: 0 } },
        ),
        axis == ForceAxis::Z ==> r == Command::RelMoveAdd(
            V3 { x: Fix { micros: 0 }, y: Fix { micros: 0 }, z: delta },
        ),
        r.wf(),
{
    let zero = Fix { micros: 0 };
    match axis {
        ForceAxis::X => Command::RelMoveAdd(V3 { x: delta, y: zero, z: zero }),
        ForceAxis::Y => Command::RelMoveAdd(V3 { x: zero, y: delta, z: zero }),
        ForceAxis::Z => Command::RelMoveAdd(V3 { x: zero, y: zero, z: delta }),
    }
}


/// How often, in ticks, the run loop asks for a mid-run depth capture.
pub const DEPTH_FREQ: u64 = 250;

/// Where a run stands in its linear course.
#[derive(Clone, Copy, PartialEq, Eq, Structural, Debug)]
pub enum Phase {
    /// Ask the sampling thread for its warm-up capture.
    Warmup,
    /// Drive the homing sequence before the run.
    Homing,
    /// Ask the sampling thread to mark the run's start.
    MarkStart,
    /// Move to the first waypoint.
    MoveToStart,
    /// Settle to the run speed.
    SetRunSpeed,
    /// Queue the waypoint at `next` on the device.
    Load { next: usize },
    /// Start the queued trajectory.
    StartQueue,
    /// The first poll, before any state is logged.
    FirstPoll,
    /// The poll loop: one logged tick per poll, until done or lost.
    Running,
    /// Drive the homing sequence after a completed trajectory.
    HomeBack,
    /// Ask the sampling thread to mark the run's end.
    MarkEnd,
    /// Ask the sampling thread to stop, the run complete.
    StopSampler,
    /// The run finished normally.
    Done,
    /// Ask the sampling thread to stop after a disconnect.
    AbortStop,
    /// The run was aborted by a disconnect.
    Failed,
}

/// What the driver of a run must do next.
#[derive(Clone, Copy, PartialEq, Eq, Structural, Debug)]
pub enum RunAction {
    /// Send one code to the sampling thread; a send failure is only a
    /// warning, never fatal to the motion loop.
    Trigger(u32),
    /// Drive the four homing commands, each tolerant of no response.
    Home,
    /// Send one device command; a missing response is tolerated.
    Device(Command),
    /// Send one device command and hold it to its acknowledgement; the
    /// run must not continue past a failed check.
    DeviceChecked(Command),
    /// Run one poll cycle, with nothing logged.
    Poll,
    /// Run one poll cycle, log one line of state, ask for a capture if
    /// `capture`, and close the force loop if `force_correct`.
    PollTick { capture: bool, force_correct: bool },
    /// The run finished normally; nothing further is asked.
    Finished,
    /// The run was aborted by a disconnect; nothing further is asked.
    Aborted,
}

/// One test run: the validated waypoint list, the mode, and the state
/// machine position.
pub struct TestRun {
    /// The waypoints of the run; in force mode, relative deltas after the
    /// first.
    pub traj: Vec<V3>,
    /// Whether the run closes the force loop instead of following the
    /// absolute path.
    pub force_mode: bool,
    /// Where the run stands.
    pub phase: Phase,
    /// How many logged poll ticks have passed.
    pub cnt: u64,
}

impl TestRun {
    /// At least two waypoints, all in range, and the loader within them.
    pub open spec fn wf(self) -> bool {
        &&& self.traj@.len() >= 2
        &&& traj_valid(self.traj@)
        &&& (self.phase matches Phase::Load { next } ==> next < self.traj@.len())
    }

    /// The first waypoint index the loading phase queues: in force mode
    /// the first entry is the start pose and only the deltas are queued;
    /// in absolute mode every waypoint is queued.
    pub open spec fn first_load(force_mode: bool) -> int {
        if force_mode {
            1
        } else {
            0
        }
    }

    /// What the run asks its driver to do next, as a function of its
    /// phase alone.
    pub open spec fn spec_next_action(self) -> RunAction {
        match self.phase {
            Phase::Warmup => RunAction::Trigger(TRIGGER_WARM_UP),
            Phase::Homing => RunAction::Home,
            Phase::MarkStart => RunAction::Trigger(TRIGGER_MARK_START),
            Phase::MoveToStart => RunAction::Device(Command::MoveTo(self.traj@[0])),
            Phase::SetRunSpeed => RunAction::Device(Command::SetSpeed(Fix { micros: RUN_SPEED })),
            Phase::Load { next } => {
                if next < self.traj@.len() {
                    if self.force_mode {
                        RunAction::DeviceChecked(Command::RelMoveAdd(self.traj@[next as int]))
                    } else {
                        RunAction::Device(Command::QueueAddTrans(self.traj@[next as int]))
                    }
                } else {
                    RunAction::Device(Command::QueueGo)
                }
            },
            Phase::StartQueue => RunAction::Device(Command::QueueGo),
            Phase::FirstPoll => RunAction::Poll,
            Phase::Running => RunAction::PollTick {
                capture: self.cnt % DEPTH_FREQ == 0,
                force_correct: self.force_mode,
            },
            Phase::HomeBack => RunAction::Home,
            Phase::MarkEnd => RunAction::Trigger(TRIGGER_MARK_END),
            Phase::StopSampler => RunAction::Trigger(TRIGGER_STOP),
            Phase::Done => RunAction::Finished,
            Phase::AbortStop => RunAction::Trigger(TRIGGER_STOP),
            Phase::Failed => RunAction::Aborted,
        }
    }

    /// The run after one performed action, read against the session: the
    /// course is linear, except that the poll phases abort to the stop
    /// trigger on a disconnect and leave the loop once the device reports
    /// the trajectory done.
    pub open spec fn spec_advanced(self, s: Session) -> TestRun {
        match self.phase {
            Phase::Warmup => TestRun { phase: Phase::Homing, ..self },
            Phase::Homing => TestRun { phase: Phase::MarkStart, ..self },
            Phase::MarkStart => TestRun { phase: Phase::MoveToStart, ..self },
            Phase::MoveToStart => TestRun { phase: Phase::SetRunSpeed, ..self },
            Phase::SetRunSpeed => TestRun {
                phase: Phase::Load { next: Self::first_load(self.force_mode) as usize },
                ..self
            },
            Phase::Load { next } => {
                if next + 1 < self.traj@.len() {
                    TestRun { phase: Phase::Load { next: (next + 1) as usize }, ..self }
                } else {
                    TestRun { phase: Phase::StartQueue, ..self }
                }
            },
            Phase::StartQueue => TestRun { phase: Phase::FirstPoll, ..self },
            Phase::FirstPoll => {
                if s.disconnected {
                    TestRun { phase: Phase::AbortStop, ..self }
                } else if s.traj_done_flag {
                    TestRun { phase: Phase::HomeBack, ..self }
                } else {
                    TestRun { phase: Phase::Running, ..self }
                }
            },
            Phase::Running => {
                if s.disconnected {
                    TestRun { phase: Phase::AbortStop, cnt: (self.cnt + 1) as u64, ..self }
                } else if s.traj_done_flag {
                    TestRun { phase: Phase::HomeBack, cnt: (self.cnt + 1) as u64, ..self }
                } else {
                    TestRun { phase: Phase::Running, cnt: (self.cnt + 1) as u64, ..self }
                }
            },
            Phase::HomeBack => TestRun { phase: Phase::MarkEnd, ..self },
            Phase::MarkEnd => TestRun { phase: Phase::StopSampler, ..self },
            Phase::StopSampler => TestRun { phase: Phase::Done, ..self },
            Phase::Done => self,
            Phase::AbortStop => TestRun { phase: Phase::Failed, ..self },
            Phase::Failed => self,
        }
    }
}

/// Admits a waypoint list for a run: at least two waypoints, every one in
/// the working range, checked before any device command is issued.
pub fn create_test_run(traj: Vec<V3>, force_mode: bool) -> (r: Result<TestRun, TrajError>)
    ensures
        traj@.len() < 2 ==> r == Result::<TestRun, TrajError>::Err(TrajError::TooShort),
        traj@.len() >= 2 && !traj_valid(traj@) ==> r == Result::<TestRun, TrajError>::Err(
            TrajError::OutOfRange,
        ),
        traj@.len() >= 2 && traj_valid(traj@) ==> (r matches Ok(t) && t.traj@ == traj@
            && t.force_mode == force_mode && t.phase == Phase::Warmup && t.cnt == 0 && t.wf()),
{
    let n: usize = traj.len();
    if n < 2 {
        return Err(TrajError::TooShort);
    }
    let mut i: usize = 0;
    while i < n
        invariant
            i <= n,
            2 <= n == traj@.len(),
            forall|j: int| 0 <= j < i ==> (#[trigger] traj@[j]).valid(),
        decreases n - i,
    {
        let p: V3 = traj[i];
        let ok: bool = -FIX_LIM <= p.x.micros && p.x.micros <= FIX_LIM && -FIX_LIM <= p.y.micros
            && p.y.micros <= FIX_LIM && -FIX_LIM <= p.z.micros && p.z.micros <= FIX_LIM;
        if !ok {
            proof {
                assert(!(#[trigger] traj@[i as int]).valid());
            }
            return Err(TrajError::OutOfRange);
        }
        i = i + 1;
    }
    Ok(TestRun { traj, force_mode, phase: Phase::Warmup, cnt: 0 })
}

impl TestRun {
    /// What the run asks its driver to do next.
    pub fn next_action(&self) -> (r: RunAction)
        requires
            self.wf(),
        ensures
            r == self.spec_next_action(),
    {
        match self.phase {
            Phase::Warmup => RunAction::Trigger(TRIGGER_WARM_UP),
            Phase::Homing => RunAction::Home,
            Phase::MarkStart => RunAction::Trigger(TRIGGER_MARK_START),
            Phase::MoveToStart => RunAction::Device(Command::MoveTo(self.traj[0])),
            Phase::SetRunSpeed => RunAction::Device(Command::SetSpeed(Fix { micros: RUN_SPEED })),
            Phase::Load { next } => {
                if self.force_mode {
                    RunAction::DeviceChecked(Command::RelMoveAdd(self.traj[next]))
                } else {
                    RunAction::Device(Command::QueueAddTrans(self.traj[next]))
                }
            },
            Phase::StartQueue => RunAction::Device(Command::QueueGo),
            Phase::FirstPoll => RunAction::Poll,
            Phase::Running => RunAction::PollTick {
                capture: self.cnt % DEPTH_FREQ == 0,
                force_correct: self.force_mode,
            },
            Phase::HomeBack => RunAction::Home,
            Phase::MarkEnd => RunAction::Trigger(TRIGGER_MARK_END),
            Phase::StopSampler => RunAction::Trigger(TRIGGER_STOP),
            Phase::Done => RunAction::Finished,
            Phase::AbortStop => RunAction::Trigger(TRIGGER_STOP),
            Phase::Failed => RunAction::Aborted,
        }
    }

    /// Moves the run to its next phase once the driver has performed the
    /// asked action, reading the session for the two poll-loop edges.
    pub fn advance(&mut self, sess: &Session)
        requires
            old(self).wf(),
            old(self).cnt < u64::MAX,
        ensures
            *final(self) == old(self).spec_advanced(*sess),
            final(self).wf(),
    {
        match self.phase {
            Phase::Warmup => {
                self.phase = Phase::Homing;
            },
            Phase::Homing => {
                self.phase = Phase::MarkStart;
            },
            Phase::MarkStart => {
                self.phase = Phase::MoveToStart;
            },
            Phase::MoveToStart => {
                self.phase = Phase::SetRunSpeed;
            },
            Phase::SetRunSpeed => {
                self.phase = Phase::Load {
                    next: if self.force_mode {
                        1
                    } else {
                        0
                    },
                };
            },
            Phase::Load { next } => {
                let n: usize = self.traj.len();
                if next < n - 1 {
                    self.phase = Phase::Load { next: next + 1 };
                } else {
                    self.phase = Phase::StartQueue;
                }
            },
            Phase::StartQueue => {
                self.phase = Phase::FirstPoll;
            },
            Phase::FirstPoll => {
                if sess.disconnected {
                    self.phase = Phase::AbortStop;
                } else if sess.traj_done_flag {
                    self.phase = Phase::HomeBack;
                } else {
                    self.phase = Phase::Running;
                }
            },
            Phase::Running => {
                self.cnt = self.cnt + 1;
                if sess.disconnected {
                    self.phase = Phase::AbortStop;
                } else if sess.traj_done_flag {
                    self.phase = Phase::HomeBack;
                } else {
                    self.phase = Phase::Running;
                }
            },
            Phase::HomeBack => {
                self.phase = Phase::MarkEnd;
            },
            Phase::MarkEnd => {
                self.phase = Phase::StopSampler;
            },
            Phase::StopSampler => {
                self.phase = Phase::Done;
            },
            Phase::Done => {
            },
            Phase::AbortStop => {
                self.phase = Phase::Failed;
            },
            Phase::Failed => {
            },
        }
    }
}

/// The bytes `NaN`, written for a reading the last poll left unknown.
pub open spec fn nan_bytes() -> Seq<u8> {
    seq![78u8, 97u8, 78u8]
}

/// The logged form of a triple, shifted by the work-space offset; an
/// unknown reading logs as `NaN` in each place.
pub open spec fn v3_log(p: Option<V3>, off: V3) -> Seq<u8> {
    match p {
        Some(v) => render_fix(v.x@ - off.x@) + seq![44u8] + render_fix(v.y@ - off.y@)
            + seq![44u8] + render_fix(v.z@ - off.z@),
        None => nan_bytes() + seq![44u8] + nan_bytes() + seq![44u8] + nan_bytes(),
    }
}

/// The logged form of a force reading; an unknown reading logs as `NaN`
/// in each of the six places.
pub open spec fn wrench_log(f: Option<Wrench>) -> Seq<u8> {
    match f {
        Some(w) => render_fix(w.fx@) + seq![44u8] + render_fix(w.fy@) + seq![44u8] + render_fix(
            w.fz@,
        ) + seq![44u8] + render_fix(w.mx@) + seq![44u8] + render_fix(w.my@) + seq![44u8]
            + render_fix(w.mz@),
        None => nan_bytes() + seq![44u8] + nan_bytes() + seq![44u8] + nan_bytes() + seq![44u8]
            + nan_bytes() + seq![44u8] + nan_bytes() + seq![44u8] + nan_bytes(),
    }
}

/// One line of the per-run log: the tick index, the wall-clock seconds,
/// and the bracketed pose, orientation and force reading, the pose and
/// orientation shifted into the work space by the given offsets.
pub open spec fn state_line(i: u64, wall: int, s: Session, pos_off: V3, ori_off: V3) -> Seq<u8> {
    dec_digits(i as nat) + seq![44u8] + render_fix(wall) + seq![44u8, 91u8] + v3_log(
        s.pos,
        pos_off,
    ) + seq![93u8, 44u8, 91u8] + v3_log(s.ori, ori_off) + seq![93u8, 44u8, 91u8] + wrench_log(
        s.force,
    ) + seq![93u8]
}

/// Appends `NaN`.
fn push_nan(out: &mut Vec<u8>)
    ensures
        final(out)@ == old(out)@ + nan_bytes(),
{
    out.push(78);
    out.push(97);
    out.push(78);
    proof {
        assert(out@ =~= old(out)@ + nan_bytes());
    }
}

/// Appends the logged form of a triple.
fn push_v3_log(out: &mut Vec<u8>, p: &Option<V3>, off: V3)
    requires
        (*p matches Some(v) ==> v.valid()),
        off.valid(),
    ensures
        final(out)@ == old(out)@ + v3_log(*p, off),
{
    match p {
        Some(v) => {
            push_fix(out, Fix { micros: v.x.micros - off.x.micros });
            out.push(44);
            push_fix(out, Fix { micros: v.y.micros - off.y.micros });
            out.push(44);
            push_fix(out, Fix { micros: v.z.micros - off.z.micros });
        },
        None => {
            push_nan(out);
            out.push(44);
            push_nan(out);
            out.push(44);
            push_nan(out);
        },
    }
    proof {
        assert(out@ =~= old(out)@ + v3_log(*p, off));
    }
}

/// Appends the logged form of a force reading.
fn push_wrench_log(out: &mut Vec<u8>, f: &Option<Wrench>)
    requires
        (*f matches Some(w) ==> w.valid()),
    ensures
        final(out)@ == old(out)@ + wrench_log(*f),
{
    match f {
        Some(w) => {
            push_fix(out, w.fx);
            out.push(44);
            push_fix(out, w.fy);
            out.push(44);
            push_fix(out, w.fz);
            out.push(44);
            push_fix(out, w.mx);
            out.push(44);
            push_fix(out, w.my);
            out.push(44);
            push_fix(out, w.mz);
        },
        None => {
            push_nan(out);
            out.push(44);
            push_nan(out);
            out.push(44);
            push_nan(out);
            out.push(44);
            push_nan(out);
            out.push(44);
            push_nan(out);
            out.push(44);
            push_nan(out);
        },
    }
    proof {
        assert(out@ =~= old(out)@ + wrench_log(*f));
    }
}

/// Formats one line of the per-run log from the session's state.
#[verifier::rlimit(100)]
#[verifier::spinoff_prover]
pub fn format_state_line(i: u64, wall: Fix, sess: &Session, pos_off: V3, ori_off: V3) -> (r: Vec<
    u8,
>)
    requires
        sess.wf(),
        pos_off.valid(),
        ori_off.valid(),
    ensures
        r@ == state_line(i, wall@, *sess, pos_off, ori_off),
{
    let mut out: Vec<u8> = Vec::new();
    push_dec_u64(&mut out, i);
    out.push(44);
    push_fix(&mut out, wall);
    out.push(44);
    out.push(91);
    push_v3_log(&mut out, &sess.pos, pos_off);
    out.push(93);
    out.push(44);
    out.push(91);
    push_v3_log(&mut out, &sess.ori, ori_off);
    out.push(93);
    out.push(44);
    out.push(91);
    push_wrench_log(&mut out, &sess.force);
    out.push(93);
    proof {
        assert(out@ =~= state_line(i, wall@, *sess, pos_off, ori_off));
    }
    out
}

} // verus!
