//! Sensor poll-and-report: a dispatched command names an axis group; that
//! group's status is busy-polled until it reports fresh data, and the sample
//! then read is formatted with its unit label as one report line. The bus
//! traffic itself belongs to the driving shell; here the decisions run over a
//! recorded trace of status answers and the sample the read returned.

use vstd::prelude::*;
use crate::parser::{parse_spec, Command};
use crate::text::{
    accel_report_prefix, append_accel_report_prefix, append_crlf, append_int,
    append_mag_report_prefix, append_y_sep, append_z_sep, crlf, int_bytes, mag_report_prefix,
    magnetometer_text, accelerometer_text, y_sep, z_sep,
};

verus! {

/// The two measurement channels of the sensor.
#[derive(Debug, Clone, Copy, PartialEq, Eq, Structural)]
pub enum Axis {
    Magnetic,
    Acceleration,
}

/// Which axis group a command reads.
pub open spec fn axis_of(c: Command) -> Axis {
    match c {
        Command::Magnetometer => Axis::Magnetic,
        Command::Accelerometer => Axis::Acceleration,
    }
}

/// The axis group a dispatched command polls and reads.
pub fn command_axis(c: &Command) -> (a: Axis)
    ensures
        a == axis_of(*c),
{
    match c {
        Command::Magnetometer => Axis::Magnetic,
        Command::Accelerometer => Axis::Acceleration,
    }
}

/// One sensor measurement: three signed components, in nanotesla on the
/// magnetic channel and milli-g on the acceleration channel.
#[derive(Debug, Clone, Copy, PartialEq, Eq, Structural)]
pub struct Sample {
    pub x: i32,
    pub y: i32,
    pub z: i32,
}

/// The start of a report line for an axis group, unit label included.
pub open spec fn axis_prefix(a: Axis) -> Seq<u8> {
    match a {
        Axis::Magnetic => mag_report_prefix(),
        Axis::Acceleration => accel_report_prefix(),
    }
}

/// The full report line for a sample read on an axis group.
pub open spec fn report_text(a: Axis, s: Sample) -> Seq<u8> {
    axis_prefix(a) + int_bytes(s.x as int) + y_sep() + int_bytes(s.y as int) + z_sep() + int_bytes(
        s.z as int,
    ) + crlf()
}

/// Law: no cross-wiring. A word that parses to a command is that command's
/// own word, each command reads its own axis group, and the two groups label
/// their report lines differently.
pub proof fn lemma_no_cross_wiring(w: Seq<u8>)
    ensures
        parse_spec(w) == Some(Command::Magnetometer) ==> w == magnetometer_text() && axis_of(
            Command::Magnetometer,
        ) == Axis::Magnetic,
        parse_spec(w) == Some(Command::Accelerometer) ==> w == accelerometer_text() && axis_of(
            Command::Accelerometer,
        ) == Axis::Acceleration,
        axis_prefix(Axis::Magnetic) != axis_prefix(Axis::Acceleration),
{
    crate::parser::lemma_word_pins_command(w);
    assert(mag_report_prefix().len() == 23);
    assert(accel_report_prefix().len() == 21);
}

/// Formats the report line the console writes after reading a sample for the
/// dispatched command.
pub fn report_line(cmd: &Command, sample: Sample) -> (line: Vec<u8>)
    ensures
        line@ == report_text(axis_of(*cmd), sample),
{
    let mut line: Vec<u8> = Vec::new();
    match cmd {
        Command::Magnetometer => append_mag_report_prefix(&mut line),
        Command::Accelerometer => append_accel_report_prefix(&mut line),
    }
    append_int(&mut line, sample.x);
    append_y_sep(&mut line);
    append_int(&mut line, sample.y);
    append_z_sep(&mut line);
    append_int(&mut line, sample.z);
    append_crlf(&mut line);
    assert(line@ =~= report_text(axis_of(*cmd), sample));
    line
}

/// Drives one poll-and-report pass over a recorded trace of status answers:
/// the command's axis group is polled until it first reports fresh data, and
/// the sample the following read returned is formatted for transmission. The
/// busy-poll has no timeout, deliberately: on a trace that never reports
/// fresh data the loop would still be polling, so no line is produced.
pub fn poll_and_report(cmd: &Command, fresh: &[bool], sample: Sample) -> (r: Option<Vec<u8>>)
    ensures
        r is Some <==> exists|i: int| 0 <= i < fresh@.len() && fresh@[i],
        r matches Some(line) ==> line@ == report_text(axis_of(*cmd), sample),
{
    let mut i: usize = 0;
    while i < fresh.len()
        invariant
            0 <= i <= fresh@.len(),
            forall|j: int| 0 <= j < i ==> !fresh@[j],
        decreases fresh@.len() - i,
    {
        if fresh[i] {
            assert(fresh@[i as int]);
            return Some(report_line(cmd, sample));
        }
        i = i + 1;
    }
    None
}

} // verus!
