//! The fixed texts of the operator protocol, as byte sequences, and verified
//! decimal formatting of the signed sensor components. Everything the console
//! ever writes is ASCII, so texts are byte sequences throughout.

use vstd::prelude::*;

verus! {

/// Line end echoed back for a completed line: carriage return, line feed.
pub open spec fn crlf() -> Seq<u8> {
    seq![13u8, 10]
}

/// Appends the bytes of [`crlf`] to `out`.
pub fn append_crlf(out: &mut Vec<u8>)
    ensures
        final(out)@ == old(out)@ + crlf(),
{
    out.push(13);
    out.push(10);
    assert(out@ =~= old(out)@ + crlf());
}

/// The prompt the command loop writes before each read attempt.
pub open spec fn prompt_text() -> Seq<u8> {
    seq![65u8, 118, 97, 105, 108, 97, 98, 108, 101, 32, 99, 111, 109, 109, 97, 110, 100, 115, 58, 32, 34, 109, 97, 103, 110, 101, 116, 111, 109, 101, 116, 101, 114, 34, 32, 97, 110, 100, 32, 34, 97, 99, 99, 101, 108, 101, 114, 111, 109, 101, 116, 101, 114, 34, 58, 32, 13, 10]
}

/// Appends the bytes of [`prompt_text`] to `out`.
#[verifier::rlimit(60)]
pub fn append_prompt_text(out: &mut Vec<u8>)
    ensures
        final(out)@ == old(out)@ + prompt_text(),
{
    out.push(65);
    out.push(118);
    out.push(97);
    out.push(105);
    out.push(108);
    out.push(97);
    out.push(98);
    out.push(108);
    out.push(101);
    out.push(32);
    out.push(99);
    out.push(111);
    out.push(109);
    out.push(109);
    out.push(97);
    out.push(110);
    out.push(100);
    out.push(115);
    out.push(58);
    out.push(32);
    out.push(34);
    out.push(109);
    out.push(97);
    out.push(103);
    out.push(110);
    out.push(101);
    out.push(116);
    out.push(111);
    out.push(109);
    out.push(101);
    out.push(116);
    out.push(101);
    out.push(114);
    out.push(34);
    out.push(32);
    out.push(97);
    out.push(110);
    out.push(100);
    out.push(32);
    out.push(34);
    out.push(97);
    out.push(99);
    out.push(99);
    out.push(101);
    out.push(108);
    out.push(101);
    out.push(114);
    out.push(111);
    out.push(109);
    out.push(101);
    out.push(116);
    out.push(101);
    out.push(114);
    out.push(34);
    out.push(58);
    out.push(32);
    out.push(13);
    out.push(10);
    assert(out@ =~= old(out)@ + prompt_text());
}

/// Banner written ahead of a reported error message.
pub open spec fn error_banner_text() -> Seq<u8> {
    seq![42u8, 42, 42, 32, 101, 114, 114, 111, 114, 32, 42, 42, 42, 13, 10]
}

/// Appends the bytes of [`error_banner_text`] to `out`.
#[verifier::rlimit(60)]
pub fn append_error_banner_text(out: &mut Vec<u8>)
    ensures
        final(out)@ == old(out)@ + error_banner_text(),
{
    out.push(42);
    out.push(42);
    out.push(42);
    out.push(32);
    out.push(101);
    out.push(114);
    out.push(114);
    out.push(111);
    out.push(114);
    out.push(32);
    out.push(42);
    out.push(42);
    out.push(42);
    out.push(13);
    out.push(10);
    assert(out@ =~= old(out)@ + error_banner_text());
}

/// Display text for a transport failure.
pub open spec fn serial_error_text() -> Seq<u8> {
    seq![115u8, 101, 114, 105, 97, 108, 32, 99, 111, 109, 109, 117, 110, 105, 99, 97, 116, 105, 111, 110]
}

/// Appends the bytes of [`serial_error_text`] to `out`.
#[verifier::rlimit(60)]
pub fn append_serial_error_text(out: &mut Vec<u8>)
    ensures
        final(out)@ == old(out)@ + serial_error_text(),
{
    out.push(115);
    out.push(101);
    out.push(114);
    out.push(105);
    out.push(97);
    out.push(108);
    out.push(32);
    out.push(99);
    out.push(111);
    out.push(109);
    out.push(109);
    out.push(117);
    out.push(110);
    out.push(105);
    out.push(99);
    out.push(97);
    out.push(116);
    out.push(105);
    out.push(111);
    out.push(110);
    assert(out@ =~= old(out)@ + serial_error_text());
}

/// Display text for a buffer overflow.
pub open spec fn overflow_error_text() -> Seq<u8> {
    seq![99u8, 111, 109, 109, 97, 110, 100, 32, 119, 111, 114, 100, 32, 116, 111, 111, 32, 108, 111, 110, 103]
}

/// Appends the bytes of [`overflow_error_text`] to `out`.
#[verifier::rlimit(60)]
pub fn append_overflow_error_text(out: &mut Vec<u8>)
    ensures
        final(out)@ == old(out)@ + overflow_error_text(),
{
    out.push(99);
    out.push(111);
    out.push(109);
    out.push(109);
    out.push(97);
    out.push(110);
    out.push(100);
    out.push(32);
    out.push(119);
    out.push(111);
    out.push(114);
    out.push(100);
    out.push(32);
    out.push(116);
    out.push(111);
    out.push(111);
    out.push(32);
    out.push(108);
    out.push(111);
    out.push(110);
    out.push(103);
    assert(out@ =~= old(out)@ + overflow_error_text());
}

/// Display text put before the offending word of an unrecognized command.
pub open spec fn unrecognized_prefix() -> Seq<u8> {
    seq![117u8, 110, 114, 101, 99, 111, 103, 110, 105, 122, 101, 100, 32, 99, 111, 109, 109, 97, 110, 100, 58, 32]
}

/// Appends the bytes of [`unrecognized_prefix`] to `out`.
#[verifier::rlimit(60)]
pub fn append_unrecognized_prefix(out: &mut Vec<u8>)
    ensures
        final(out)@ == old(out)@ + unrecognized_prefix(),
{
    out.push(117);
    out.push(110);
    out.push(114);
    out.push(101);
    out.push(99);
    out.push(111);
    out.push(103);
    out.push(110);
    out.push(105);
    out.push(122);
    out.push(101);
    out.push(100);
    out.push(32);
    out.push(99);
    out.push(111);
    out.push(109);
    out.push(109);
    out.push(97);
    out.push(110);
    out.push(100);
    out.push(58);
    out.push(32);
    assert(out@ =~= old(out)@ + unrecognized_prefix());
}

/// Display text for a byte sequence that is not valid UTF-8.
pub open spec fn utf8_error_text() -> Seq<u8> {
    seq![117u8, 116, 102, 56, 32, 99, 111, 110, 118, 101, 114, 115, 105, 111, 110]
}

/// Appends the bytes of [`utf8_error_text`] to `out`.
pub fn append_utf8_error_text(out: &mut Vec<u8>)
    ensures
        final(out)@ == old(out)@ + utf8_error_text(),
{
    out.push(117);
    out.push(116);
    out.push(102);
    out.push(56);
    out.push(32);
    out.push(99);
    out.push(111);
    out.push(110);
    out.push(118);
    out.push(101);
    out.push(114);
    out.push(115);
    out.push(105);
    out.push(111);
    out.push(110);
    assert(out@ =~= old(out)@ + utf8_error_text());
}

/// Display text for a formatted-write failure.
pub open spec fn write_error_text() -> Seq<u8> {
    seq![102u8, 111, 114, 109, 97, 116, 116, 101, 100, 32, 119, 114, 105, 116, 101]
}

/// Appends the bytes of [`write_error_text`] to `out`.
pub fn append_write_error_text(out: &mut Vec<u8>)
    ensures
        final(out)@ == old(out)@ + write_error_text(),
{
    out.push(102);
    out.push(111);
    out.push(114);
    out.push(109);
    out.push(97);
    out.push(116);
    out.push(116);
    out.push(101);
    out.push(100);
    out.push(32);
    out.push(119);
    out.push(114);
    out.push(105);
    out.push(116);
    out.push(101);
    assert(out@ =~= old(out)@ + write_error_text());
}

/// The command word that selects the magnetometer.
pub open spec fn magnetometer_text() -> Seq<u8> {
    seq![109u8, 97, 103, 110, 101, 116, 111, 109, 101, 116, 101, 114]
}

/// Appends the bytes of [`magnetometer_text`] to `out`.
pub fn append_magnetometer_text(out: &mut Vec<u8>)
    ensures
        final(out)@ == old(out)@ + magnetometer_text(),
{
    out.push(109);
    out.push(97);
    out.push(103);
    out.push(110);
    out.push(101);
    out.push(116);
    out.push(111);
    out.push(109);
    out.push(101);
    out.push(116);
    out.push(101);
    out.push(114);
    assert(out@ =~= old(out)@ + magnetometer_text());
}

/// The command word that selects the accelerometer.
pub open spec fn accelerometer_text() -> Seq<u8> {
    seq![97u8, 99, 99, 101, 108, 101, 114, 111, 109, 101, 116, 101, 114]
}

/// Appends the bytes of [`accelerometer_text`] to `out`.
pub fn append_accelerometer_text(out: &mut Vec<u8>)
    ensures
        final(out)@ == old(out)@ + accelerometer_text(),
{
    out.push(97);
    out.push(99);
    out.push(99);
    out.push(101);
    out.push(108);
    out.push(101);
    out.push(114);
    out.push(111);
    out.push(109);
    out.push(101);
    out.push(116);
    out.push(101);
    out.push(114);
    assert(out@ =~= old(out)@ + accelerometer_text());
}

/// Start of a magnetometer report line, up to the x component.
pub open spec fn mag_report_prefix() -> Seq<u8> {
    seq![77u8, 97, 103, 110, 101, 116, 105, 99, 32, 102, 105, 101, 108, 100, 32, 40, 110, 84, 41, 58, 32, 120, 32]
}

/// Appends the bytes of [`mag_report_prefix`] to `out`.
#[verifier::rlimit(60)]
pub fn append_mag_report_prefix(out: &mut Vec<u8>)
    ensures
        final(out)@ == old(out)@ + mag_report_prefix(),
{
    out.push(77);
    out.push(97);
    out.push(103);
    out.push(110);
    out.push(101);
    out.push(116);
    out.push(105);
    out.push(99);
    out.push(32);
    out.push(102);
    out.push(105);
    out.push(101);
    out.push(108);
    out.push(100);
    out.push(32);
    out.push(40);
    out.push(110);
    out.push(84);
    out.push(41);
    out.push(58);
    out.push(32);
    out.push(120);
    out.push(32);
    assert(out@ =~= old(out)@ + mag_report_prefix());
}

/// Start of an accelerometer report line, up to the x component.
pub open spec fn accel_report_prefix() -> Seq<u8> {
    seq![65u8, 99, 99, 101, 108, 101, 114, 97, 116, 105, 111, 110, 32, 40, 109, 103, 41, 58, 32, 120, 32]
}

/// Appends the bytes of [`accel_report_prefix`] to `out`.
#[verifier::rlimit(60)]
pub fn append_accel_report_prefix(out: &mut Vec<u8>)
    ensures
        final(out)@ == old(out)@ + accel_report_prefix(),
{
    out.push(65);
    out.push(99);
    out.push(99);
    out.push(101);
    out.push(108);
    out.push(101);
    out.push(114);
    out.push(97);
    out.push(116);
    out.push(105);
    out.push(111);
    out.push(110);
    out.push(32);
    out.push(40);
    out.push(109);
    out.push(103);
    out.push(41);
    out.push(58);
    out.push(32);
    out.push(120);
    out.push(32);
    assert(out@ =~= old(out)@ + accel_report_prefix());
}

/// Separator before the y component of a report line.
pub open spec fn y_sep() -> Seq<u8> {
    seq![32u8, 121, 32]
}

/// Appends the bytes of [`y_sep`] to `out`.
pub fn append_y_sep(out: &mut Vec<u8>)
    ensures
        final(out)@ == old(out)@ + y_sep(),
{
    out.push(32);
    out.push(121);
    out.push(32);
    assert(out@ =~= old(out)@ + y_sep());
}

/// Separator before the z component of a report line.
pub open spec fn z_sep() -> Seq<u8> {
    seq![32u8, 122, 32]
}

/// Appends the bytes of [`z_sep`] to `out`.
pub fn append_z_sep(out: &mut Vec<u8>)
    ensures
        final(out)@ == old(out)@ + z_sep(),
{
    out.push(32);
    out.push(122);
    out.push(32);
    assert(out@ =~= old(out)@ + z_sep());
}

/// Diagnostic the plain echo loop writes when a word overflows its buffer.
pub open spec fn too_long_text() -> Seq<u8> {
    seq![69u8, 82, 82, 79, 82, 58, 32, 69, 110, 116, 101, 114, 101, 100, 32, 115, 116, 114, 105, 110, 103, 32, 116, 111, 111, 32, 108, 111, 110, 103, 44, 32, 114, 101, 115, 101, 116, 116, 105, 110, 103, 33, 13, 10]
}

/// Appends the bytes of [`too_long_text`] to `out`.
#[verifier::rlimit(60)]
pub fn append_too_long_text(out: &mut Vec<u8>)
    ensures
        final(out)@ == old(out)@ + too_long_text(),
{
    out.push(69);
    out.push(82);
    out.push(82);
    out.push(79);
    out.push(82);
    out.push(58);
    out.push(32);
    out.push(69);
    out.push(110);
    out.push(116);
    out.push(101);
    out.push(114);
    out.push(101);
    out.push(100);
    out.push(32);
    out.push(115);
    out.push(116);
    out.push(114);
    out.push(105);
    out.push(110);
    out.push(103);
    out.push(32);
    out.push(116);
    out.push(111);
    out.push(111);
    out.push(32);
    out.push(108);
    out.push(111);
    out.push(110);
    out.push(103);
    out.push(44);
    out.push(32);
    out.push(114);
    out.push(101);
    out.push(115);
    out.push(101);
    out.push(116);
    out.push(116);
    out.push(105);
    out.push(110);
    out.push(103);
    out.push(33);
    out.push(13);
    out.push(10);
    assert(out@ =~= old(out)@ + too_long_text());
}

/// Separator between an error's fixed label and its carried detail.
pub open spec fn colon_sep() -> Seq<u8> {
    seq![58u8, 32]
}

/// Appends the bytes of [`colon_sep`] to `out`.
pub fn append_colon_sep(out: &mut Vec<u8>)
    ensures
        final(out)@ == old(out)@ + colon_sep(),
{
    out.push(58);
    out.push(32);
    assert(out@ =~= old(out)@ + colon_sep());
}

/// Appends every byte of `s` to `out`, in order.
pub fn append_slice(out: &mut Vec<u8>, s: &[u8])
    ensures
        final(out)@ == old(out)@ + s@,
{
    let mut i: usize = 0;
    while i < s.len()
        invariant
            i <= s@.len(),
            out@ == old(out)@ + s@.take(i as int),
        decreases s@.len() - i,
    {
        let b = s[i];
        out.push(b);
        assert(out@ =~= old(out)@ + s@.take(i + 1 as int));
        i = i + 1;
    }
    assert(out@ =~= old(out)@ + s@);
}

/// Decimal digits of `n`, most significant first.
pub open spec fn dec_digits(n: nat) -> Seq<u8>
    decreases n,
{
    if n < 10 {
        seq![(48 + n) as u8]
    } else {
        dec_digits(n / 10).push((48 + n % 10) as u8)
    }
}

/// Decimal text of a signed value: a minus sign for negatives, then the digits
/// of the magnitude.
pub open spec fn int_bytes(v: int) -> Seq<u8> {
    if v < 0 {
        seq![45u8] + dec_digits((-v) as nat)
    } else {
        dec_digits(v as nat)
    }
}

/// Appends the decimal digits of `n` to `out`.
pub fn append_dec(out: &mut Vec<u8>, n: u32)
    ensures
        final(out)@ == old(out)@ + dec_digits(n as nat),
    decreases n,
{
    if n < 10 {
        out.push(48 + (n as u8));
        assert(out@ =~= old(out)@ + dec_digits(n as nat));
    } else {
        append_dec(out, n / 10);
        out.push(48 + ((n % 10) as u8));
        assert(out@ =~= old(out)@ + dec_digits(n as nat));
    }
}

/// Appends the decimal text of `v`, sign included, to `out`.
pub fn append_int(out: &mut Vec<u8>, v: i32)
    ensures
        final(out)@ == old(out)@ + int_bytes(v as int),
{
    if v < 0 {
        out.push(45);
        let magnitude: u32 = (-(v as i64)) as u32;
        assert(magnitude == -(v as int));
        append_dec(out, magnitude);
        assert(out@ =~= old(out)@ + int_bytes(v as int));
    } else {
        append_dec(out, v as u32);
    }
}

} // verus!
