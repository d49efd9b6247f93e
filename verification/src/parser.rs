//! The command parser: a completed word must be valid UTF-8 and match one of
//! the two command words exactly — no trimming, no case folding; that
//! strictness is deliberate. Anything else fails, carrying the offending word.

use vstd::prelude::*;
use vstd::utf8::valid_utf8;
use crate::errors::CommandError;
use crate::text::{
    accelerometer_text, append_accelerometer_text, append_magnetometer_text, append_slice,
    magnetometer_text,
};

verus! {

/// The closed set of commands the console understands.
#[derive(Debug, Clone, Copy, PartialEq, Eq, Structural)]
pub enum Command {
    Magnetometer,
    Accelerometer,
}

/// What a word means: one of the two command words, matched exactly, or
/// nothing.
pub open spec fn parse_spec(w: Seq<u8>) -> Option<Command> {
    if w == magnetometer_text() {
        Some(Command::Magnetometer)
    } else if w == accelerometer_text() {
        Some(Command::Accelerometer)
    } else {
        None
    }
}

/// Law: each command is produced by its own word alone, so a parsed command
/// always names the axis group of the word it came from.
pub proof fn lemma_word_pins_command(w: Seq<u8>)
    ensures
        parse_spec(w) == Some(Command::Magnetometer) <==> w == magnetometer_text(),
        parse_spec(w) == Some(Command::Accelerometer) <==> w == accelerometer_text(),
{
    assert(magnetometer_text().len() == 12);
    assert(accelerometer_text().len() == 13);
}

/// Every all-ASCII byte sequence is valid UTF-8.
pub proof fn lemma_ascii_valid_utf8(s: Seq<u8>)
    requires
        forall|i: int| 0 <= i < s.len() ==> s[i] < 128,
    ensures
        valid_utf8(s),
{
    assert(s.subrange(0, 0) =~= Seq::<u8>::empty());
    assert(vstd::utf8::partial_valid_utf8(s, 0));
    vstd::utf8::partial_valid_utf8_extend_ascii_block(s, 0, s.len() as int);
    assert(s.subrange(0, s.len() as int) =~= s);
}

/// Both command words are ASCII, hence valid UTF-8: a word the parser
/// recognizes can never be the one it rejects as undecodable.
pub proof fn lemma_command_words_valid_utf8()
    ensures
        valid_utf8(magnetometer_text()),
        valid_utf8(accelerometer_text()),
{
    lemma_ascii_valid_utf8(magnetometer_text());
    lemma_ascii_valid_utf8(accelerometer_text());
}

/// The rendered text of the decode error that rejecting a byte sequence
/// produces: where validity ends, and how. It depends on the bytes alone.
pub uninterp spec fn utf8_error_detail(bytes: Seq<u8>) -> Seq<u8>;

/// Relies on `core::str::from_utf8`: it accepts a byte slice exactly when the
/// bytes are valid UTF-8 — the property vstd's UTF-8 model states — and its
/// error renders, through `Utf8Error`'s display, to a text determined by the
/// bytes alone, named by [`utf8_error_detail`].
#[verifier::external_body]
fn check_utf8(b: &[u8]) -> (r: Option<Vec<u8>>)
    ensures
        r is None <==> valid_utf8(b@),
        r matches Some(d) ==> d@ == utf8_error_detail(b@),
{
    match core::str::from_utf8(b) {
        Ok(_) => None,
        Err(e) => Some(e.to_string().into_bytes()),
    }
}

/// True exactly when the two slices hold the same bytes.
fn bytes_eq(a: &[u8], b: &[u8]) -> (r: bool)
    ensures
        r == (a@ == b@),
{
    if a.len() != b.len() {
        return false;
    }
    let mut i: usize = 0;
    while i < a.len()
        invariant
            0 <= i <= a@.len(),
            a@.len() == b@.len(),
            forall|j: int| 0 <= j < i ==> a@[j] == b@[j],
        decreases a@.len() - i,
    {
        if a[i] != b[i] {
            return false;
        }
        i = i + 1;
    }
    assert(a@ =~= b@);
    true
}

/// Parses a completed word. Returns the command it names; fails with a
/// decoding error — carrying the decode error's rendered text — when the
/// bytes are not valid UTF-8, and otherwise with an unrecognized-command
/// error carrying the word itself.
pub fn parse_command(word: &[u8]) -> (r: Result<Command, CommandError>)
    ensures
        r matches Ok(c) ==> valid_utf8(word@) && parse_spec(word@) == Some(c),
        r matches Err(e) ==> match e {
            CommandError::Utf8(d) => !valid_utf8(word@) && d@ == utf8_error_detail(word@),
            CommandError::Unrecognized(w) => valid_utf8(word@) && parse_spec(word@) is None && w@
                == word@,
            _ => false,
        },
{
    if let Some(detail) = check_utf8(word) {
        return Err(CommandError::Utf8(detail));
    }
    let mut mag: Vec<u8> = Vec::new();
    append_magnetometer_text(&mut mag);
    assert(mag@ =~= magnetometer_text());
    if bytes_eq(word, mag.as_slice()) {
        return Ok(Command::Magnetometer);
    }
    let mut accel: Vec<u8> = Vec::new();
    append_accelerometer_text(&mut accel);
    assert(accel@ =~= accelerometer_text());
    if bytes_eq(word, accel.as_slice()) {
        return Ok(Command::Accelerometer);
    }
    let mut w: Vec<u8> = Vec::new();
    append_slice(&mut w, word);
    assert(w@ =~= word@);
    Err(CommandError::Unrecognized(w))
}

} // verus!
