//! The live view of one connected robot: its polled state, the sticky
//! disconnect flag, the force-mode configuration, and the appliers that
//! update the session from each query's response.
//!
//! The transport itself lives outside the library; every applier takes the
//! response the wire handed back (`None` for a transport failure) and is
//! verified to update the session exactly as the protocol demands.

use vstd::prelude::*;
use crate::fixed::{Fix, fits_fix};
use crate::geom::{V3, Joints, Wrench, ForceAxis};
use crate::parse::{rem_first_and_last, str_to_vector, parsed_fixes, inner_of};
use crate::command::{force_mode_echo, force_config_echo, ok_echo, expected_force_mode_echo,
    expected_force_config_echo, expected_ok_echo};
use crate::wire::{lower_bytes, bytes_eq, bytes_eq_nocase};

verus! {

/// How a safety-critical echo check failed.
#[derive(Clone, Copy, PartialEq, Eq, Structural, Debug)]
pub enum EchoError {
    /// The transport returned nothing; the device's state is unknown.
    NoResponse,
    /// The device echoed something other than what was just set.
    Mismatch,
}

/// Why no force error could be computed.
#[derive(Clone, Copy, PartialEq, Eq, Structural, Debug)]
pub enum ForceErrError {
    /// The session is not in force mode, so the error is meaningless.
    NotInForceMode,
    /// Only the Z axis carries a force law so far.
    AxisUnsupported,
    /// The last force query left no valid reading.
    NoReading,
    /// The difference left the library's working range.
    OutOfRange,
}

/// Why the trajectory-done query failed.
#[derive(Clone, Copy, PartialEq, Eq, Structural, Debug)]
pub enum TrajFlagError {
    /// The response was neither `TRUE` nor `FALSE`.
    UnknownState,
    /// The transport returned nothing; the session is now disconnected.
    Disconnected,
}

/// The live, mutable view of one connected robot.
pub struct Session {
    /// Tool position, unknown until polled or after a malformed payload.
    pub pos: Option<V3>,
    /// Tool orientation, three Euler-like angles.
    pub ori: Option<V3>,
    /// The six joint angles.
    pub jnt_angles: Option<Joints>,
    /// The six-axis force/torque reading.
    pub force: Option<Wrench>,
    /// True while the device reports motion in progress.
    pub move_flag: bool,
    /// True once the device reports the queued trajectory finished.
    pub traj_done_flag: bool,
    /// Sticky: once true, no further request is issued on this session.
    pub disconnected: bool,
    /// Whether force-control mode is enabled.
    pub force_mode_flag: bool,
    /// The axis the force law acts along.
    pub force_axis: ForceAxis,
    /// The force setpoint.
    pub force_target: Fix,
}

/// The byte view of an optional borrowed response.
pub open spec fn opt_bytes(reply: Option<&Vec<u8>>) -> Option<Seq<u8>> {
    match reply {
        None => None,
        Some(r) => Some(r@),
    }
}

/// A session after a position response: transport failure marks it
/// disconnected; a payload without exactly three values resets the position
/// to unknown; otherwise the position is the parsed triple.
pub open spec fn pos_applied(s: Session, reply: Option<Seq<u8>>) -> Session {
    match reply {
        None => Session { disconnected: true, ..s },
        Some(r) => {
            let vals = parsed_fixes(inner_of(r));
            if vals.len() == 3 {
                Session {
                    pos: Some(
                        V3 {
                            x: Fix { micros: vals[0] as i64 },
                            y: Fix { micros: vals[1] as i64 },
                            z: Fix { micros: vals[2] as i64 },
                        },
                    ),
                    ..s
                }
            } else {
                Session { pos: None, ..s }
            }
        },
    }
}

/// A session after an orientation response, exactly as for the position.
pub open spec fn ori_applied(s: Session, reply: Option<Seq<u8>>) -> Session {
    match reply {
        None => Session { disconnected: true, ..s },
        Some(r) => {
            let vals = parsed_fixes(inner_of(r));
            if vals.len() == 3 {
                Session {
                    ori: Some(
                        V3 {
                            x: Fix { micros: vals[0] as i64 },
                            y: Fix { micros: vals[1] as i64 },
                            z: Fix { micros: vals[2] as i64 },
                        },
                    ),
                    ..s
                }
            } else {
                Session { ori: None, ..s }
            }
        },
    }
}

/// A session after a joint-angle response: six values or an unknown reading.
pub open spec fn joints_applied(s: Session, reply: Option<Seq<u8>>) -> Session {
    match reply {
        None => Session { disconnected: true, ..s },
        Some(r) => {
            let vals = parsed_fixes(inner_of(r));
            if vals.len() == 6 {
                Session {
                    jnt_angles: Some(
                        Joints {
                            j1: Fix { micros: vals[0] as i64 },
                            j2: Fix { micros: vals[1] as i64 },
                            j3: Fix { micros: vals[2] as i64 },
                            j4: Fix { micros: vals[3] as i64 },
                            j5: Fix { micros: vals[4] as i64 },
                            j6: Fix { micros: vals[5] as i64 },
                        },
                    ),
                    ..s
                }
            } else {
                Session { jnt_angles: None, ..s }
            }
        },
    }
}

/// A session after a force response: six values or an unknown reading.
pub open spec fn force_applied(s: Session, reply: Option<Seq<u8>>) -> Session {
    match reply {
        None => Session { disconnected: true, ..s },
        Some(r) => {
            let vals = parsed_fixes(inner_of(r));
            if vals.len() == 6 {
                Session {
                    force: Some(
                        Wrench {
                            fx: Fix { micros: vals[0] as i64 },
                            fy: Fix { micros: vals[1] as i64 },
                            fz: Fix { micros: vals[2] as i64 },
                            mx: Fix { micros: vals[3] as i64 },
                            my: Fix { micros: vals[4] as i64 },
                            mz: Fix { micros: vals[5] as i64 },
                        },
                    ),
                    ..s
                }
            } else {
                Session { force: None, ..s }
            }
        },
    }
}

/// A session after a move-state response: `0` means moving, `1` means
/// still, anything else leaves the flag as it was.
pub open spec fn move_state_applied(s: Session, reply: Option<Seq<u8>>) -> Session {
    match reply {
        None => Session { disconnected: true, ..s },
        Some(r) => {
            if r == seq![48u8] {
                Session { move_flag: true, ..s }
            } else if r == seq![49u8] {
                Session { move_flag: false, ..s }
            } else {
                s
            }
        },
    }
}

/// A session after a trajectory-done response: `TRUE` or `FALSE` set the
/// flag, anything else leaves it as it was.
pub open spec fn traj_done_applied(s: Session, reply: Option<Seq<u8>>) -> Session {
    match reply {
        None => Session { disconnected: true, ..s },
        Some(r) => {
            if r == seq![84u8, 82u8, 85u8, 69u8] {
                Session { traj_done_flag: true, ..s }
            } else if r == seq![70u8, 65u8, 76u8, 83u8, 69u8] {
                Session { traj_done_flag: false, ..s }
            } else {
                s
            }
        },
    }
}

impl Session {
    /// Every scalar the session holds is within the working range.
    pub open spec fn wf(self) -> bool {
        &&& (self.pos matches Some(p) ==> p.valid())
        &&& (self.ori matches Some(o) ==> o.valid())
        &&& (self.jnt_angles matches Some(j) ==> j.valid())
        &&& (self.force matches Some(f) ==> f.valid())
        &&& self.force_target.valid()
    }

    /// A fresh session, as a successful connect hands it over: no reading
    /// yet, no motion, force mode off with a zero target along Z.
    pub fn new() -> (r: Session)
        ensures
            r.pos is None,
            r.ori is None,
            r.jnt_angles is None,
            r.force is None,
            !r.move_flag,
            !r.traj_done_flag,
            !r.disconnected,
            !r.force_mode_flag,
            r.force_axis == ForceAxis::Z,
            r.force_target@ == 0,
            r.wf(),
    {
        Session {
            pos: None,
            ori: None,
            jnt_angles: None,
            force: None,
            move_flag: false,
            traj_done_flag: false,
            disconnected: false,
            force_mode_flag: false,
            force_axis: ForceAxis::Z,
            force_target: Fix::zero(),
        }
    }

    /// Applies the response of a position query.
    pub fn apply_pos_reply(&mut self, reply: Option<&Vec<u8>>)
        requires
            old(self).wf(),
        ensures
            *final(self) == pos_applied(*old(self), opt_bytes(reply)),
            final(self).wf(),
    {
        match reply {
            None => {
                self.disconnected = true;
            },
            Some(r) => {
                let trimmed = rem_first_and_last(r);
                let vals = str_to_vector(&trimmed);
                if vals.len() != 3 {
                    self.pos = None;
                } else {
                    self.pos = Some(V3 { x: vals[0], y: vals[1], z: vals[2] });
                }
            },
        }
    }

    /// Applies the response of an orientation query.
    pub fn apply_ori_reply(&mut self, reply: Option<&Vec<u8>>)
        requires
            old(self).wf(),
        ensures
            *final(self) == ori_applied(*old(self), opt_bytes(reply)),
            final(self).wf(),
    {
        match reply {
            None => {
                self.disconnected = true;
            },
            Some(r) => {
                let trimmed = rem_first_and_last(r);
                let vals = str_to_vector(&trimmed);
                if vals.len() != 3 {
                    self.ori = None;
                } else {
                    self.ori = Some(V3 { x: vals[0], y: vals[1], z: vals[2] });
                }
            },
        }
    }

    /// Applies the response of a joint-angle query.
    pub fn apply_joints_reply(&mut self, reply: Option<&Vec<u8>>)
        requires
            old(self).wf(),
        ensures
            *final(self) == joints_applied(*old(self), opt_bytes(reply)),
            final(self).wf(),
    {
        match reply {
            None => {
                self.disconnected = true;
            },
            Some(r) => {
                let trimmed = rem_first_and_last(r);
                let vals = str_to_vector(&trimmed);
                if vals.len() != 6 {
                    self.jnt_angles = None;
                } else {
                    self.jnt_angles = Some(
                        Joints {
                            j1: vals[0],
                            j2: vals[1],
                            j3: vals[2],
                            j4: vals[3],
                            j5: vals[4],
                            j6: vals[5],
                        },
                    );
                }
            },
        }
    }

    /// Applies the response of a force query.
    pub fn apply_force_reply(&mut self, reply: Option<&Vec<u8>>)
        requires
            old(self).wf(),
        ensures
            *final(self) == force_applied(*old(self), opt_bytes(reply)),
            final(self).wf(),
    {
        match reply {
            None => {
                self.disconnected = true;
            },
            Some(r) => {
                let trimmed = rem_first_and_last(r);
                let vals = str_to_vector(&trimmed);
                if vals.len() != 6 {
                    self.force = None;
                } else {
                    self.force = Some(
                        Wrench {
                            fx: vals[0],
                            fy: vals[1],
                            fz: vals[2],
                            mx: vals[3],
                            my: vals[4],
                            mz: vals[5],
                        },
                    );
                }
            },
        }
    }

    /// Applies the response of a move-state query.
    pub fn apply_move_state_reply(&mut self, reply: Option<&Vec<u8>>)
        requires
            old(self).wf(),
        ensures
            *final(self) == move_state_applied(*old(self), opt_bytes(reply)),
            final(self).wf(),
    {
        match reply {
            None => {
                self.disconnected = true;
            },
            Some(r) => {
                if r.len() == 1 && r[0] == 48 {
                    proof {
                        assert(r@ =~= seq![48u8]);
                    }
                    self.move_flag = true;
                } else if r.len() == 1 && r[0] == 49 {
                    proof {
                        assert(r@ =~= seq![49u8]);
                    }
                    self.move_flag = false;
                } else {
                    proof {
                        assert(r@ != seq![48u8] && r@ != seq![49u8]);
                    }
                }
            },
        }
    }

    /// Applies the response of a trajectory-done query; an unreadable state
    /// is surfaced, a transport failure marks the session disconnected.
    pub fn apply_traj_done_reply(&mut self, reply: Option<&Vec<u8>>) -> (r: Result<
        bool,
        TrajFlagError,
    >)
        requires
            old(self).wf(),
        ensures
            *final(self) == traj_done_applied(*old(self), opt_bytes(reply)),
            final(self).wf(),
            reply is None ==> r == Result::<bool, TrajFlagError>::Err(TrajFlagError::Disconnected),
            reply matches Some(rep) ==> ({
                if rep@ == seq![84u8, 82u8, 85u8, 69u8] {
                    r == Result::<bool, TrajFlagError>::Ok(true)
                } else if rep@ == seq![70u8, 65u8, 76u8, 83u8, 69u8] {
                    r == Result::<bool, TrajFlagError>::Ok(false)
                } else {
                    r == Result::<bool, TrajFlagError>::Err(TrajFlagError::UnknownState)
                }
            }),
    {
        match reply {
            None => {
                self.disconnected = true;
                Err(TrajFlagError::Disconnected)
            },
            Some(r) => {
                let mut lit_true: Vec<u8> = Vec::new();
                lit_true.push(84);
                lit_true.push(82);
                lit_true.push(85);
                lit_true.push(69);
                let mut lit_false: Vec<u8> = Vec::new();
                lit_false.push(70);
                lit_false.push(65);
                lit_false.push(76);
                lit_false.push(83);
                lit_false.push(69);
                proof {
                    assert(lit_true@ =~= seq![84u8, 82u8, 85u8, 69u8]);
                    assert(lit_false@ =~= seq![70u8, 65u8, 76u8, 83u8, 69u8]);
                }
                if bytes_eq(r, &lit_true) {
                    self.traj_done_flag = true;
                    Ok(true)
                } else if bytes_eq(r, &lit_false) {
                    self.traj_done_flag = false;
                    Ok(false)
                } else {
                    Err(TrajFlagError::UnknownState)
                }
            },
        }
    }

    /// Applies the echo of a force-mode set. The device must echo exactly
    /// the mode just sent, up to ASCII case; on any other response, or on
    /// none, the session is left untouched and a hard error is returned,
    /// because the active physical control law would otherwise be unknown.
    pub fn apply_force_mode_reply(&mut self, enable: bool, reply: Option<&Vec<u8>>) -> (r: Result<
        (),
        EchoError,
    >)
        requires
            old(self).wf(),
        ensures
            final(self).wf(),
            reply is None ==> r == Result::<(), EchoError>::Err(EchoError::NoResponse) && *final(self) == *old(self),
            reply matches Some(rep) && lower_bytes(rep@) == lower_bytes(force_mode_echo(enable))
                ==> r == Result::<(), EchoError>::Ok(()) && *final(self) == (Session {
                force_mode_flag: enable,
                ..*old(self)
            }),
            reply matches Some(rep) && lower_bytes(rep@) != lower_bytes(force_mode_echo(enable))
                ==> r == Result::<(), EchoError>::Err(EchoError::Mismatch) && *final(self) == *old(self),
    {
        match reply {
            None => Err(EchoError::NoResponse),
            Some(rep) => {
                let expected = expected_force_mode_echo(enable);
                if bytes_eq_nocase(rep, &expected) {
                    self.force_mode_flag = enable;
                    Ok(())
                } else {
                    Err(EchoError::Mismatch)
                }
            },
        }
    }

    /// Applies the echo of a force-configuration set. The device must echo
    /// exactly the axis and target just sent, up to ASCII case; on any
    /// other response, or on none, the force axis and target keep their old
    /// values and a hard error is returned.
    pub fn apply_force_config_reply(
        &mut self,
        axis: ForceAxis,
        target: Fix,
        reply: Option<&Vec<u8>>,
    ) -> (r: Result<(), EchoError>)
        requires
            old(self).wf(),
            target.valid(),
        ensures
            final(self).wf(),
            reply is None ==> r == Result::<(), EchoError>::Err(EchoError::NoResponse) && *final(self) == *old(self),
            reply matches Some(rep) && lower_bytes(rep@) == lower_bytes(
                force_config_echo(axis, target@),
            ) ==> r == Result::<(), EchoError>::Ok(()) && *final(self) == (Session {
                force_axis: axis,
                force_target: target,
                ..*old(self)
            }),
            reply matches Some(rep) && lower_bytes(rep@) != lower_bytes(
                force_config_echo(axis, target@),
            ) ==> r == Result::<(), EchoError>::Err(EchoError::Mismatch) && *final(self) == *old(self),
    {
        match reply {
            None => Err(EchoError::NoResponse),
            Some(rep) => {
                let expected = expected_force_config_echo(axis, target);
                if bytes_eq_nocase(rep, &expected) {
                    self.force_axis = axis;
                    self.force_target = target;
                    Ok(())
                } else {
                    Err(EchoError::Mismatch)
                }
            },
        }
    }

    /// The error the force law closes on: the target minus the measured
    /// force along the configured axis; meaningful only in force mode, with
    /// the Z axis carrying the only law so far, and with a valid reading.
    pub fn calc_force_err(&self) -> (r: Result<Fix, ForceErrError>)
        requires
            self.wf(),
        ensures
            !self.force_mode_flag ==> r == Result::<Fix, ForceErrError>::Err(
                ForceErrError::NotInForceMode,
            ),
            self.force_mode_flag && self.force_axis != ForceAxis::Z ==> r == Result::<
                Fix,
                ForceErrError,
            >::Err(ForceErrError::AxisUnsupported),
            self.force_mode_flag && self.force_axis == ForceAxis::Z && self.force is None ==> r
                == Result::<Fix, ForceErrError>::Err(ForceErrError::NoReading),
            self.force_mode_flag && self.force_axis == ForceAxis::Z ==> (self.force matches Some(f)
                ==> ({
                if fits_fix(self.force_target@ - f.fz@) {
                    r matches Ok(e) && e@ == self.force_target@ - f.fz@ && e.valid()
                } else {
                    r == Result::<Fix, ForceErrError>::Err(ForceErrError::OutOfRange)
                }
            })),
    {
        if !self.force_mode_flag {
            return Err(ForceErrError::NotInForceMode);
        }
        match self.force_axis {
            ForceAxis::Z => {
                match &self.force {
                    None => Err(ForceErrError::NoReading),
                    Some(f) => {
                        match self.force_target.minus(f.fz) {
                            Some(e) => Ok(e),
                            None => Err(ForceErrError::OutOfRange),
                        }
                    },
                }
            },
            _ => Err(ForceErrError::AxisUnsupported),
        }
    }

    /// Checks the acknowledgement of a relative-move append: the device
    /// must answer exactly `OK`, or the queued motion cannot be trusted.
    pub fn check_rel_move_reply(reply: Option<&Vec<u8>>) -> (r: Result<(), EchoError>)
        ensures
            reply is None ==> r == Result::<(), EchoError>::Err(EchoError::NoResponse),
            reply matches Some(rep) && rep@ == ok_echo() ==> r == Result::<(), EchoError>::Ok(()),
            reply matches Some(rep) && rep@ != ok_echo() ==> r == Result::<(), EchoError>::Err(
                EchoError::Mismatch,
            ),
    {
        match reply {
            None => Err(EchoError::NoResponse),
            Some(rep) => {
                let expected = expected_ok_echo();
                if bytes_eq(rep, &expected) {
                    Ok(())
                } else {
                    Err(EchoError::Mismatch)
                }
            },
        }
    }
}


/// One query of the poll cycle.
#[derive(Clone, Copy, PartialEq, Eq, Structural, Debug)]
pub enum PollQuery {
    /// Tool position.
    Pos,
    /// Tool orientation.
    Ori,
    /// Six-axis force reading.
    Force,
    /// Motion-in-progress flag.
    MoveState,
    /// Trajectory-done flag.
    TrajDone,
}

/// The fixed query order of one poll cycle: position, orientation, force,
/// move state, trajectory done.
pub open spec fn poll_order(i: int) -> Option<PollQuery> {
    if i == 0 {
        Some(PollQuery::Pos)
    } else if i == 1 {
        Some(PollQuery::Ori)
    } else if i == 2 {
        Some(PollQuery::Force)
    } else if i == 3 {
        Some(PollQuery::MoveState)
    } else if i == 4 {
        Some(PollQuery::TrajDone)
    } else {
        None
    }
}

/// One poll cycle over a session: the five state queries in their fixed
/// order, cut short the moment the session observes a disconnect.
pub struct PollCycle {
    /// How many queries of this cycle have been answered.
    pub idx: u8,
}

impl PollCycle {
    /// The cycle issues at most five queries.
    pub open spec fn wf(self) -> bool {
        self.idx <= 5
    }

    /// A cycle about to issue its first query.
    pub fn new() -> (r: PollCycle)
        ensures
            r.idx == 0,
            r.wf(),
    {
        PollCycle { idx: 0 }
    }

    /// The query the cycle issues next: none once the session observed a
    /// disconnect, none once all five are answered.
    pub open spec fn spec_next_query(self, s: Session) -> Option<PollQuery> {
        if s.disconnected {
            None
        } else {
            poll_order(self.idx as int)
        }
    }

    /// What the cycle asks next, skipping every remaining query of the
    /// tick once the session is disconnected.
    pub fn next_query(&self, sess: &Session) -> (r: Option<PollQuery>)
        ensures
            r == self.spec_next_query(*sess),
    {
        if sess.disconnected {
            None
        } else if self.idx == 0 {
            Some(PollQuery::Pos)
        } else if self.idx == 1 {
            Some(PollQuery::Ori)
        } else if self.idx == 2 {
            Some(PollQuery::Force)
        } else if self.idx == 3 {
            Some(PollQuery::MoveState)
        } else if self.idx == 4 {
            Some(PollQuery::TrajDone)
        } else {
            None
        }
    }

    /// Feeds one query's response into the session and advances the cycle.
    /// An unreadable trajectory flag is tolerated here, as the poll loop
    /// carries on regardless.
    pub fn apply(&mut self, sess: &mut Session, q: PollQuery, reply: Option<&Vec<u8>>)
        requires
            old(sess).wf(),
            old(self).wf(),
            old(self).spec_next_query(*old(sess)) == Some(q),
        ensures
            final(sess).wf(),
            final(self).wf(),
            final(self).idx == old(self).idx + 1,
            q == PollQuery::Pos ==> *final(sess) == pos_applied(*old(sess), opt_bytes(reply)),
            q == PollQuery::Ori ==> *final(sess) == ori_applied(*old(sess), opt_bytes(reply)),
            q == PollQuery::Force ==> *final(sess) == force_applied(*old(sess), opt_bytes(reply)),
            q == PollQuery::MoveState ==> *final(sess) == move_state_applied(
                *old(sess),
                opt_bytes(reply),
            ),
            q == PollQuery::TrajDone ==> *final(sess) == traj_done_applied(
                *old(sess),
                opt_bytes(reply),
            ),
    {
        match q {
            PollQuery::Pos => sess.apply_pos_reply(reply),
            PollQuery::Ori => sess.apply_ori_reply(reply),
            PollQuery::Force => sess.apply_force_reply(reply),
            PollQuery::MoveState => sess.apply_move_state_reply(reply),
            PollQuery::TrajDone => {
                let _ = sess.apply_traj_done_reply(reply);
            },
        }
        self.idx = self.idx + 1;
    }
}

/// Once a query of a poll cycle observes a failure and the session's
/// disconnect flag goes up, no further query of that cycle is issued.
pub proof fn lemma_disconnect_short_circuit(pc: PollCycle, s: Session)
    requires
        s.disconnected,
    ensures
        pc.spec_next_query(s) is None,
{
}

} // verus!
