//! The closed command vocabulary of the robot controller and its exact
//! serialisation to wire bytes, together with the echo text that the
//! safety-critical mode-setting commands must receive back.

use vstd::prelude::*;
use crate::fixed::Fix;
use crate::geom::{V3, Quartenion, Joints, ForceAxis};
use crate::wire::{render_fix, push_fix};

verus! {

/// Everything the executor can say to the device, one variant per wire
/// command the protocol knows.
#[derive(Clone, Copy, PartialEq, Eq, Structural, Debug)]
pub enum Command {
    /// Query the cartesian tool position.
    ReqPos,
    /// Query the tool orientation.
    ReqOri,
    /// Query the six joint angles.
    ReqJointAngles,
    /// Query the six-axis force/torque reading.
    ReqForce,
    /// Query whether the device reports motion in progress.
    ReqMoveState,
    /// Query whether the queued trajectory has finished.
    ReqTrajDone,
    /// Query the controller model name.
    ReqModel,
    /// Echo test.
    Ping,
    /// Absolute move of the tool centre point.
    MoveTo(V3),
    /// Move relative to the tool's own frame.
    MoveTool(V3),
    /// Append a relative increment to the device's relative-move queue.
    RelMoveAdd(V3),
    /// Append a translation waypoint to the device's motion queue.
    QueueAddTrans(V3),
    /// Append a rotation to the device's motion queue.
    QueueAddRot(Quartenion),
    /// Start the queued trajectory.
    QueueGo,
    /// Stop the queued trajectory.
    QueueStop,
    /// Set the tool speed.
    SetSpeed(Fix),
    /// Set the tool orientation.
    SetOri(Quartenion),
    /// Move the arm to the given joint angles.
    SetJoints(Joints),
    /// Enable or disable force-control mode; safety critical.
    SetForceMode(bool),
    /// Configure the force axis and target; safety critical.
    SetForceConfig(ForceAxis, Fix),
}

/// The wire text of a boolean, as the mode commands carry it.
pub open spec fn bool_bytes(b: bool) -> Seq<u8> {
    if b {
        seq![116u8, 114u8, 117u8, 101u8]
    } else {
        seq![102u8, 97u8, 108u8, 115u8, 101u8]
    }
}

/// The single letter naming a force axis on the wire.
pub open spec fn axis_byte(a: ForceAxis) -> u8 {
    match a {
        ForceAxis::X => 88u8,
        ForceAxis::Y => 89u8,
        ForceAxis::Z => 90u8,
    }
}

impl Command {
    /// Whether every scalar the command carries is in working range, so
    /// that it can be serialised.
    pub open spec fn wf(self) -> bool {
        match self {
            Command::MoveTo(p) => p.valid(),
            Command::MoveTool(p) => p.valid(),
            Command::RelMoveAdd(p) => p.valid(),
            Command::QueueAddTrans(p) => p.valid(),
            Command::QueueAddRot(q) => q.valid(),
            Command::SetOri(q) => q.valid(),
            Command::SetSpeed(v) => v.valid(),
            Command::SetJoints(j) => j.valid(),
            Command::SetForceConfig(_, t) => t.valid(),
            _ => true,
        }
    }
}

/// The exact byte string a command puts on the wire.
pub open spec fn wire_bytes(c: Command) -> Seq<u8> {
    match c {
        Command::ReqPos => seq![71u8, 84u8, 80u8, 83u8, 58u8, 48u8],
        Command::ReqOri => seq![71u8, 84u8, 79u8, 82u8, 58u8, 48u8],
        Command::ReqJointAngles => seq![71u8, 84u8, 74u8, 65u8, 58u8, 48u8],
        Command::ReqForce => seq![71u8, 84u8, 70u8, 67u8, 58u8, 48u8],
        Command::ReqMoveState => seq![77u8, 86u8, 83u8, 84u8, 58u8, 48u8],
        Command::ReqTrajDone => seq![84u8, 74u8, 68u8, 78u8, 58u8, 63u8],
        Command::ReqModel => seq![82u8, 77u8, 68u8, 76u8, 58u8, 48u8],
        Command::Ping => seq![69u8, 67u8, 72u8, 79u8, 58u8, 80u8, 73u8, 78u8, 71u8],
        Command::QueueGo => seq![84u8, 74u8, 71u8, 79u8, 58u8, 48u8],
        Command::QueueStop => seq![84u8, 74u8, 83u8, 84u8, 58u8, 48u8],
        Command::MoveTo(p) => seq![77u8, 86u8, 84u8, 79u8, 58u8, 91u8] + render_fix(p.x@) + seq![44u8]
            + render_fix(p.y@) + seq![44u8] + render_fix(p.z@) + seq![93u8],
        Command::MoveTool(p) => seq![77u8, 86u8, 84u8, 76u8, 58u8, 91u8] + render_fix(p.x@) + seq![44u8]
            + render_fix(p.y@) + seq![44u8] + render_fix(p.z@) + seq![93u8],
        Command::QueueAddTrans(p) => seq![84u8, 81u8, 65u8, 68u8, 58u8, 91u8] + render_fix(p.x@) + seq![44u8]
            + render_fix(p.y@) + seq![44u8] + render_fix(p.z@) + seq![93u8],
        Command::RelMoveAdd(p) => seq![82u8, 76u8, 65u8, 68u8, 58u8, 91u8] + render_fix(p.x@) + seq![44u8]
            + render_fix(-p.y@) + seq![44u8] + render_fix(p.z@) + seq![93u8],
        Command::QueueAddRot(q) => seq![82u8, 81u8, 65u8, 68u8, 58u8, 91u8] + render_fix(q.w@) + seq![44u8, 32u8]
            + render_fix(q.x@) + seq![44u8, 32u8] + render_fix(q.y@) + seq![44u8, 32u8]
            + render_fix(q.z@) + seq![93u8],
        Command::SetOri(q) => seq![83u8, 84u8, 79u8, 82u8, 58u8, 91u8] + render_fix(q.w@) + seq![44u8, 32u8]
            + render_fix(q.x@) + seq![44u8, 32u8] + render_fix(q.y@) + seq![44u8, 32u8]
            + render_fix(q.z@) + seq![93u8],
        Command::SetSpeed(v) => seq![83u8, 84u8, 83u8, 80u8, 58u8] + render_fix(v@),
        Command::SetJoints(j) => seq![83u8, 84u8, 74u8, 84u8, 58u8, 91u8, 91u8] + render_fix(j.j1@) + seq![44u8] + render_fix(j.j2@) + seq![44u8] + render_fix(j.j3@) + seq![44u8] + render_fix(j.j4@) + seq![44u8] + render_fix(j.j5@) + seq![44u8]
            + render_fix(j.j6@) + seq![93u8, 44u8, 32u8, 91u8, 57u8, 69u8, 57u8, 44u8, 57u8, 69u8, 57u8, 44u8, 57u8, 69u8, 57u8, 44u8, 57u8, 69u8, 57u8, 44u8, 57u8, 69u8, 57u8, 44u8, 57u8, 69u8, 57u8, 93u8, 93u8],
        Command::SetForceMode(b) => seq![83u8, 84u8, 70u8, 77u8, 58u8] + bool_bytes(b),
        Command::SetForceConfig(a, t) => seq![83u8, 84u8, 70u8, 67u8, 58u8] + seq![axis_byte(a)] + seq![46u8]
            + render_fix(t@),
    }
}

impl Command {
    /// Serialises the command to the exact byte string it puts on the wire.
    #[verifier::rlimit(100)]
    #[verifier::spinoff_prover]
    pub fn to_wire(&self) -> (r: Vec<u8>)
        requires
            self.wf(),
        ensures
            r@ == wire_bytes(*self),
    {
        let mut out: Vec<u8> = Vec::new();
        match self {
            Command::ReqPos => {
                out.push(71);
                out.push(84);
                out.push(80);
                out.push(83);
                out.push(58);
                out.push(48);
                proof {
                    assert(out@ =~= wire_bytes(*self));
                }
            },
            Command::ReqOri => {
                out.push(71);
                out.push(84);
                out.push(79);
                out.push(82);
                out.push(58);
                out.push(48);
                proof {
                    assert(out@ =~= wire_bytes(*self));
                }
            },
            Command::ReqJointAngles => {
                out.push(71);
                out.push(84);
                out.push(74);
                out.push(65);
                out.push(58);
                out.push(48);
                proof {
                    assert(out@ =~= wire_bytes(*self));
                }
            },
            Command::ReqForce => {
                out.push(71);
                out.push(84);
                out.push(70);
                out.push(67);
                out.push(58);
                out.push(48);
                proof {
                    assert(out@ =~= wire_bytes(*self));
                }
            },
            Command::ReqMoveState => {
                out.push(77);
                out.push(86);
                out.push(83);
                out.push(84);
                out.push(58);
                out.push(48);
                proof {
                    assert(out@ =~= wire_bytes(*self));
                }
            },
            Command::ReqTrajDone => {
                out.push(84);
                out.push(74);
                out.push(68);
                out.push(78);
                out.push(58);
                out.push(63);
                proof {
                    assert(out@ =~= wire_bytes(*self));
                }
            },
            Command::ReqModel => {
                out.push(82);
                out.push(77);
                out.push(68);
                out.push(76);
                out.push(58);
                out.push(48);
                proof {
                    assert(out@ =~= wire_bytes(*self));
                }
            },
            Command::Ping => {
                out.push(69);
                out.push(67);
                out.push(72);
                out.push(79);
                out.push(58);
                out.push(80);
                out.push(73);
                out.push(78);
                out.push(71);
                proof {
                    assert(out@ =~= wire_bytes(*self));
                }
            },
            Command::QueueGo => {
                out.push(84);
                out.push(74);
                out.push(71);
                out.push(79);
                out.push(58);
                out.push(48);
                proof {
                    assert(out@ =~= wire_bytes(*self));
                }
            },
            Command::QueueStop => {
                out.push(84);
                out.push(74);
                out.push(83);
                out.push(84);
                out.push(58);
                out.push(48);
                proof {
                    assert(out@ =~= wire_bytes(*self));
                }
            },
            Command::MoveTo(p) => {
                out.push(77);
                out.push(86);
                out.push(84);
                out.push(79);
                out.push(58);
                out.push(91);
                push_fix(&mut out, p.x);
                out.push(44);
                push_fix(&mut out, p.y);
                out.push(44);
                push_fix(&mut out, p.z);
                out.push(93);
                proof {
                    assert(out@ =~= wire_bytes(*self));
                }
            },
            Command::MoveTool(p) => {
                out.push(77);
                out.push(86);
                out.push(84);
                out.push(76);
                out.push(58);
                out.push(91);
                push_fix(&mut out, p.x);
                out.push(44);
                push_fix(&mut out, p.y);
                out.push(44);
                push_fix(&mut out, p.z);
                out.push(93);
                proof {
                    assert(out@ =~= wire_bytes(*self));
                }
            },
            Command::QueueAddTrans(p) => {
                out.push(84);
                out.push(81);
                out.push(65);
                out.push(68);
                out.push(58);
                out.push(91);
                push_fix(&mut out, p.x);
                out.push(44);
                push_fix(&mut out, p.y);
                out.push(44);
                push_fix(&mut out, p.z);
                out.push(93);
                proof {
                    assert(out@ =~= wire_bytes(*self));
                }
            },
            Command::RelMoveAdd(p) => {
                out.push(82);
                out.push(76);
                out.push(65);
                out.push(68);
                out.push(58);
                out.push(91);
                push_fix(&mut out, p.x);
                out.push(44);
                push_fix(&mut out, p.y.neg());
                out.push(44);
                push_fix(&mut out, p.z);
                out.push(93);
                proof {
                    assert(out@ =~= wire_bytes(*self));
                }
            },
            Command::QueueAddRot(q) => {
                out.push(82);
                out.push(81);
                out.push(65);
                out.push(68);
                out.push(58);
                out.push(91);
                push_fix(&mut out, q.w);
                out.push(44);
                out.push(32);
                push_fix(&mut out, q.x);
                out.push(44);
                out.push(32);
                push_fix(&mut out, q.y);
                out.push(44);
                out.push(32);
                push_fix(&mut out, q.z);
                out.push(93);
                proof {
                    assert(out@ =~= wire_bytes(*self));
                }
            },
            Command::SetOri(q) => {
                out.push(83);
                out.push(84);
                out.push(79);
                out.push(82);
                out.push(58);
                out.push(91);
                push_fix(&mut out, q.w);
                out.push(44);
                out.push(32);
                push_fix(&mut out, q.x);
                out.push(44);
                out.push(32);
                push_fix(&mut out, q.y);
                out.push(44);
                out.push(32);
                push_fix(&mut out, q.z);
                out.push(93);
                proof {
                    assert(out@ =~= wire_bytes(*self));
                }
            },
            Command::SetSpeed(v) => {
                out.push(83);
                out.push(84);
                out.push(83);
                out.push(80);
                out.push(58);
                push_fix(&mut out, *v);
                proof {
                    assert(out@ =~= wire_bytes(*self));
                }
            },
            Command::SetJoints(j) => {
                out.push(83);
                out.push(84);
                out.push(74);
                out.push(84);
                out.push(58);
                out.push(91);
                out.push(91);
                push_fix(&mut out, j.j1);
                out.push(44);
                push_fix(&mut out, j.j2);
                out.push(44);
                push_fix(&mut out, j.j3);
                out.push(44);
                push_fix(&mut out, j.j4);
                out.push(44);
                push_fix(&mut out, j.j5);
                out.push(44);
                push_fix(&mut out, j.j6);
                out.push(93);
                out.push(44);
                out.push(32);
                out.push(91);
                out.push(57);
                out.push(69);
                out.push(57);
                out.push(44);
                out.push(57);
                out.push(69);
                out.push(57);
                out.push(44);
                out.push(57);
                out.push(69);
                out.push(57);
                out.push(44);
                out.push(57);
                out.push(69);
                out.push(57);
                out.push(44);
                out.push(57);
                out.push(69);
                out.push(57);
                out.push(44);
                out.push(57);
                out.push(69);
                out.push(57);
                out.push(93);
                out.push(93);
                proof {
                    assert(out@ =~= wire_bytes(*self));
                }
            },
            Command::SetForceMode(b) => {
                out.push(83);
                out.push(84);
                out.push(70);
                out.push(77);
                out.push(58);
                if *b {
                    out.push(116);
                    out.push(114);
                    out.push(117);
                    out.push(101);
                } else {
                    out.push(102);
                    out.push(97);
                    out.push(108);
                    out.push(115);
                    out.push(101);
                }
                proof {
                    assert(out@ =~= wire_bytes(*self));
                }
            },
            Command::SetForceConfig(a, t) => {
                out.push(83);
                out.push(84);
                out.push(70);
                out.push(67);
                out.push(58);
                match a {
                    ForceAxis::X => out.push(88),
                    ForceAxis::Y => out.push(89),
                    ForceAxis::Z => out.push(90),
                }
                out.push(46);
                push_fix(&mut out, *t);
                proof {
                    assert(out@ =~= wire_bytes(*self));
                }
            },
        }
        out
    }
}


/// The echo the device must return after a force-mode set: `FM:` then the
/// boolean just sent.
pub open spec fn force_mode_echo(enable: bool) -> Seq<u8> {
    seq![70u8, 77u8, 58u8] + bool_bytes(enable)
}

/// Builds the force-mode echo text the caller must see back.
pub fn expected_force_mode_echo(enable: bool) -> (r: Vec<u8>)
    ensures
        r@ == force_mode_echo(enable),
{
    let mut r: Vec<u8> = Vec::new();
    r.push(70);
    r.push(77);
    r.push(58);
    if enable {
        r.push(116);
        r.push(114);
        r.push(117);
        r.push(101);
    } else {
        r.push(102);
        r.push(97);
        r.push(108);
        r.push(115);
        r.push(101);
    }
    proof {
        assert(r@ =~= force_mode_echo(enable));
    }
    r
}

/// The echo the device must return after a force-configuration set: `FC:`
/// then the axis letter, a point, and the target just sent.
pub open spec fn force_config_echo(a: ForceAxis, target: int) -> Seq<u8> {
    seq![70u8, 67u8, 58u8] + seq![axis_byte(a)] + seq![46u8] + render_fix(target)
}

/// Builds the force-configuration echo text the caller must see back.
pub fn expected_force_config_echo(a: ForceAxis, target: Fix) -> (r: Vec<u8>)
    ensures
        r@ == force_config_echo(a, target@),
{
    let mut r: Vec<u8> = Vec::new();
    r.push(70);
    r.push(67);
    r.push(58);
    match a {
        ForceAxis::X => r.push(88),
        ForceAxis::Y => r.push(89),
        ForceAxis::Z => r.push(90),
    }
    r.push(46);
    push_fix(&mut r, target);
    proof {
        assert(r@ =~= force_config_echo(a, target@));
    }
    r
}

/// The acknowledgement a relative-move append must return.
pub open spec fn ok_echo() -> Seq<u8> {
    seq![79u8, 75u8]
}

/// Builds the relative-move acknowledgement text.
pub fn expected_ok_echo() -> (r: Vec<u8>)
    ensures
        r@ == ok_echo(),
{
    let mut r: Vec<u8> = Vec::new();
    r.push(79);
    r.push(75);
    proof {
        assert(r@ =~= ok_echo());
    }
    r
}

} // verus!
