use rustbot::command::{expected_force_config_echo, expected_force_mode_echo, Command};
use rustbot::fixed::Fix;
use rustbot::geom::{ForceAxis, Joints, Quartenion, V3};
use rustbot::parse::{parse_fix, rem_first_and_last, str_to_vector};
use rustbot::wire::strip_frame;

fn b(s: &str) -> Vec<u8> {
    s.as_bytes().to_vec()
}

fn fx(micros: i64) -> Fix {
    Fix { micros }
}

fn v3(x: i64, y: i64, z: i64) -> V3 {
    V3 { x: fx(x), y: fx(y), z: fx(z) }
}

#[test]
fn frame_strip_removes_sentinel() {
    assert_eq!(strip_frame(&b("DATA!")), b("DATA"));
    assert_eq!(strip_frame(&b("!")), b(""));
    assert_eq!(strip_frame(&b("")), b(""));
    // the trailing byte goes whether or not it is the sentinel, as a
    // truncated read is trimmed the same way
    assert_eq!(strip_frame(&b("PART")), b("PAR"));
}

#[test]
fn frame_round_trip_concrete() {
    let mut framed = b("FM:true");
    framed.push(b'!');
    assert_eq!(strip_frame(&framed), b("FM:true"));
}

#[test]
fn plain_queries_serialise() {
    assert_eq!(Command::ReqPos.to_wire(), b("GTPS:0"));
    assert_eq!(Command::ReqOri.to_wire(), b("GTOR:0"));
    assert_eq!(Command::ReqJointAngles.to_wire(), b("GTJA:0"));
    assert_eq!(Command::ReqForce.to_wire(), b("GTFC:0"));
    assert_eq!(Command::ReqMoveState.to_wire(), b("MVST:0"));
    assert_eq!(Command::ReqTrajDone.to_wire(), b("TJDN:?"));
    assert_eq!(Command::ReqModel.to_wire(), b("RMDL:0"));
    assert_eq!(Command::Ping.to_wire(), b("ECHO:PING"));
    assert_eq!(Command::QueueGo.to_wire(), b("TJGO:0"));
    assert_eq!(Command::QueueStop.to_wire(), b("TJST:0"));
}

#[test]
fn motion_commands_serialise() {
    let p = v3(220_000_000, 1_355_000_000, 955_000_000);
    assert_eq!(Command::MoveTo(p).to_wire(), b("MVTO:[220,1355,955]"));
    assert_eq!(Command::MoveTool(v3(1_500_000, 0, -250_000)).to_wire(), b("MVTL:[1.5,0,-0.25]"));
    assert_eq!(
        Command::QueueAddTrans(v3(790_000_000, 2_300_000_000, 1_400_000_000)).to_wire(),
        b("TQAD:[790,2300,1400]")
    );
    assert_eq!(Command::SetSpeed(fx(150_000_000)).to_wire(), b("STSP:150"));
    assert_eq!(Command::SetSpeed(fx(10_000_000)).to_wire(), b("STSP:10"));
}

#[test]
fn relative_move_negates_second_axis() {
    let d = v3(1_500_000, 2_000_000, -3_250_000);
    assert_eq!(Command::RelMoveAdd(d).to_wire(), b("RLAD:[1.5,-2,-3.25]"));
}

#[test]
fn orientation_commands_serialise() {
    let q = Quartenion { w: fx(2030), x: fx(-986_230), y: fx(-165_360), z: fx(620) };
    assert_eq!(Command::SetOri(q).to_wire(), b("STOR:[0.00203, -0.98623, -0.16536, 0.00062]"));
    assert_eq!(Command::QueueAddRot(q).to_wire(), b("RQAD:[0.00203, -0.98623, -0.16536, 0.00062]"));
}

#[test]
fn joint_command_serialises() {
    let j = Joints {
        j1: fx(1_000_000),
        j2: fx(2_000_000),
        j3: fx(3_000_000),
        j4: fx(4_000_000),
        j5: fx(5_000_000),
        j6: fx(6_500_000),
    };
    assert_eq!(
        Command::SetJoints(j).to_wire(),
        b("STJT:[[1,2,3,4,5,6.5], [9E9,9E9,9E9,9E9,9E9,9E9]]")
    );
}

#[test]
fn mode_commands_and_echoes_serialise() {
    assert_eq!(Command::SetForceMode(true).to_wire(), b("STFM:true"));
    assert_eq!(Command::SetForceMode(false).to_wire(), b("STFM:false"));
    assert_eq!(expected_force_mode_echo(true), b("FM:true"));
    assert_eq!(expected_force_mode_echo(false), b("FM:false"));
    assert_eq!(
        Command::SetForceConfig(ForceAxis::Z, fx(10_500_000)).to_wire(),
        b("STFC:Z.10.5")
    );
    assert_eq!(expected_force_config_echo(ForceAxis::Z, fx(10_500_000)), b("FC:Z.10.5"));
    assert_eq!(expected_force_config_echo(ForceAxis::X, fx(-2_000_000)), b("FC:X.-2"));
}

#[test]
fn fixed_point_rendering_trims_fraction() {
    assert_eq!(Command::SetSpeed(fx(0)).to_wire(), b("STSP:0"));
    assert_eq!(Command::SetSpeed(fx(-500_000)).to_wire(), b("STSP:-0.5"));
    assert_eq!(Command::SetSpeed(fx(1_000_001)).to_wire(), b("STSP:1.000001"));
    assert_eq!(Command::SetSpeed(fx(2_500_000)).to_wire(), b("STSP:2.5"));
    assert_eq!(Command::SetSpeed(fx(50_000)).to_wire(), b("STSP:0.05"));
}

#[test]
fn scalar_parsing_accepts_plain_decimals() {
    assert_eq!(parse_fix(&b("123.456")), Some(fx(123_456_000)));
    assert_eq!(parse_fix(&b("-7")), Some(fx(-7_000_000)));
    assert_eq!(parse_fix(&b("+2.5")), Some(fx(2_500_000)));
    assert_eq!(parse_fix(&b("5.")), Some(fx(5_000_000)));
    assert_eq!(parse_fix(&b(".5")), Some(fx(500_000)));
    assert_eq!(parse_fix(&b("0")), Some(fx(0)));
    assert_eq!(parse_fix(&b("-0.000001")), Some(fx(-1)));
}

#[test]
fn scalar_parsing_truncates_deep_fractions() {
    assert_eq!(parse_fix(&b("0.1234567")), Some(fx(123_456)));
    assert_eq!(parse_fix(&b("1.9999999")), Some(fx(1_999_999)));
}

#[test]
fn scalar_parsing_rejects_bad_grammar() {
    assert_eq!(parse_fix(&b("")), None);
    assert_eq!(parse_fix(&b(".")), None);
    assert_eq!(parse_fix(&b("-")), None);
    assert_eq!(parse_fix(&b("1e5")), None);
    assert_eq!(parse_fix(&b("12.34.5")), None);
    assert_eq!(parse_fix(&b("NaN")), None);
    assert_eq!(parse_fix(&b(" 1")), None);
}

#[test]
fn scalar_parsing_holds_the_range() {
    // exactly the limit parses; one more unit does not
    assert_eq!(parse_fix(&b("1000000000")), Some(fx(1_000_000_000_000_000)));
    assert_eq!(parse_fix(&b("1000000001")), None);
    assert_eq!(parse_fix(&b("-1000000000")), Some(fx(-1_000_000_000_000_000)));
    // a seventeenth whole digit is out of the grammar
    assert_eq!(parse_fix(&b("10000000000000000")), None);
}

#[test]
fn list_parsing_drops_unparsable_fields() {
    let vals = str_to_vector(&b("1,abc,3"));
    assert_eq!(vals, vec![fx(1_000_000), fx(3_000_000)]);
    let vals = str_to_vector(&b("496.37,-12.5,0.001"));
    assert_eq!(vals, vec![fx(496_370_000), fx(-12_500_000), fx(1000)]);
    assert_eq!(str_to_vector(&b("")), Vec::<Fix>::new());
    assert_eq!(str_to_vector(&b(",,")), Vec::<Fix>::new());
}

#[test]
fn bracket_trimming() {
    assert_eq!(rem_first_and_last(&b("[1,2,3]")), b("1,2,3"));
    assert_eq!(rem_first_and_last(&b("ab")), b(""));
    assert_eq!(rem_first_and_last(&b("a")), b(""));
    assert_eq!(rem_first_and_last(&b("")), b(""));
}
