use microbit_core::parser::Command;
use microbit_core::sensor::{command_axis, poll_and_report, report_line, Axis, Sample};
use microbit_core::text::append_int;

#[test]
fn commands_read_their_own_axis() {
    assert_eq!(command_axis(&Command::Magnetometer), Axis::Magnetic);
    assert_eq!(command_axis(&Command::Accelerometer), Axis::Acceleration);
}

#[test]
fn report_line_formats_sample_with_unit() {
    let line = report_line(&Command::Magnetometer, Sample { x: 10, y: -20, z: 30 });
    assert_eq!(line, b"Magnetic field (nT): x 10 y -20 z 30\r\n".to_vec());
    let line = report_line(&Command::Accelerometer, Sample { x: 0, y: 0, z: 1000 });
    assert_eq!(line, b"Acceleration (mg): x 0 y 0 z 1000\r\n".to_vec());
}

#[test]
fn report_line_handles_extreme_components() {
    let line = report_line(
        &Command::Magnetometer,
        Sample { x: i32::MIN, y: i32::MAX, z: -1 },
    );
    assert_eq!(
        line,
        b"Magnetic field (nT): x -2147483648 y 2147483647 z -1\r\n".to_vec()
    );
}

#[test]
fn poll_waits_for_first_fresh_status() {
    let r = poll_and_report(&Command::Magnetometer, &[false, false, true, false], Sample {
        x: 1,
        y: 1,
        z: 1,
    });
    assert!(r.is_some());
}

#[test]
fn poll_never_reports_without_fresh_data() {
    // The busy-poll has no timeout: a trace that never turns fresh produces
    // no report line.
    assert!(poll_and_report(&Command::Magnetometer, &[], Sample { x: 1, y: 1, z: 1 }).is_none());
    assert!(
        poll_and_report(&Command::Accelerometer, &[false, false], Sample { x: 1, y: 1, z: 1 })
            .is_none()
    );
}

#[test]
fn decimal_formatting_exact_values() {
    let cases: [(i32, &[u8]); 7] = [
        (0, b"0"),
        (7, b"7"),
        (10, b"10"),
        (-1, b"-1"),
        (1000, b"1000"),
        (i32::MAX, b"2147483647"),
        (i32::MIN, b"-2147483648"),
    ];
    for (v, text) in cases {
        let mut out = Vec::new();
        append_int(&mut out, v);
        assert_eq!(out, text.to_vec(), "formatting {}", v);
    }
}
