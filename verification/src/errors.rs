//! The composite error of the command path. Every failure source folds
//! losslessly into [`CommandError`] through total `From` conversions, and each
//! variant renders to a display text: the rejected byte of an overflow and the
//! offending word of an unrecognized command are carried along, and a
//! transport, formatted-write or decoding failure carries the underlying
//! error's rendered text, shown after its fixed label and a colon.

use vstd::prelude::*;
use crate::text::{
    append_colon_sep, append_overflow_error_text, append_serial_error_text, append_slice,
    append_unrecognized_prefix, append_utf8_error_text, append_write_error_text, colon_sep,
    overflow_error_text, serial_error_text, unrecognized_prefix, utf8_error_text,
    write_error_text,
};

verus! {

/// Failure while filling the line buffer from the transport: a transport
/// fault or a formatted-write fault, each carrying the underlying error's
/// rendered text, or an overflow carrying the rejected byte.
#[derive(Debug, Clone, PartialEq, Eq)]
pub enum FillError {
    Transport(Vec<u8>),
    Write(Vec<u8>),
    Overflow(u8),
}

/// Every failure a read-and-dispatch attempt can produce: the fill failures,
/// plus a word that is not valid UTF-8 (carrying the decode error's rendered
/// text) and a word outside the vocabulary (carrying the word itself).
#[derive(Debug)]
pub enum CommandError {
    Transport(Vec<u8>),
    Write(Vec<u8>),
    Overflow(u8),
    Utf8(Vec<u8>),
    Unrecognized(Vec<u8>),
}

/// The display text of a command failure: a fixed label, followed for the
/// transport, formatted-write and decoding failures by a colon and the
/// carried detail, and for an unrecognized command by the offending word
/// after a fixed prefix.
pub open spec fn message_bytes(e: CommandError) -> Seq<u8> {
    match e {
        CommandError::Transport(d) => serial_error_text() + colon_sep() + d@,
        CommandError::Write(d) => write_error_text() + colon_sep() + d@,
        CommandError::Overflow(_) => overflow_error_text(),
        CommandError::Utf8(d) => utf8_error_text() + colon_sep() + d@,
        CommandError::Unrecognized(w) => unrecognized_prefix() + w@,
    }
}

impl CommandError {
    /// Renders the error as the text the command loop reports to the operator.
    pub fn message(&self) -> (m: Vec<u8>)
        ensures
            m@ == message_bytes(*self),
    {
        let mut m: Vec<u8> = Vec::new();
        match self {
            CommandError::Transport(d) => {
                append_serial_error_text(&mut m);
                append_colon_sep(&mut m);
                append_slice(&mut m, d.as_slice());
            },
            CommandError::Write(d) => {
                append_write_error_text(&mut m);
                append_colon_sep(&mut m);
                append_slice(&mut m, d.as_slice());
            },
            CommandError::Overflow(_) => append_overflow_error_text(&mut m),
            CommandError::Utf8(d) => {
                append_utf8_error_text(&mut m);
                append_colon_sep(&mut m);
                append_slice(&mut m, d.as_slice());
            },
            CommandError::Unrecognized(w) => {
                append_unrecognized_prefix(&mut m);
                append_slice(&mut m, w.as_slice());
            },
        }
        assert(m@ =~= message_bytes(*self));
        m
    }
}

impl From<u8> for FillError {
    /// A rejected byte becomes an overflow failure.
    fn from(value: u8) -> (r: FillError) {
        FillError::Overflow(value)
    }
}

impl vstd::std_specs::convert::FromSpecImpl<u8> for FillError {
    open spec fn obeys_from_spec() -> bool {
        true
    }

    open spec fn from_spec(value: u8) -> FillError {
        FillError::Overflow(value)
    }
}

impl From<u8> for CommandError {
    /// A rejected byte becomes an overflow failure.
    fn from(value: u8) -> (r: CommandError) {
        CommandError::Overflow(value)
    }
}

impl vstd::std_specs::convert::FromSpecImpl<u8> for CommandError {
    open spec fn obeys_from_spec() -> bool {
        true
    }

    open spec fn from_spec(value: u8) -> CommandError {
        CommandError::Overflow(value)
    }
}

/// The lossless embedding of a fill failure into the composite error: each
/// case maps to its counterpart, carrying its payload unchanged.
pub open spec fn embed_fill_error(e: FillError) -> CommandError {
    match e {
        FillError::Transport(d) => CommandError::Transport(d),
        FillError::Write(d) => CommandError::Write(d),
        FillError::Overflow(b) => CommandError::Overflow(b),
    }
}

impl From<FillError> for CommandError {
    /// Embeds a fill failure, dropping nothing.
    fn from(value: FillError) -> (r: CommandError) {
        match value {
            FillError::Transport(d) => CommandError::Transport(d),
            FillError::Write(d) => CommandError::Write(d),
            FillError::Overflow(b) => CommandError::Overflow(b),
        }
    }
}

impl vstd::std_specs::convert::FromSpecImpl<FillError> for CommandError {
    open spec fn obeys_from_spec() -> bool {
        true
    }

    open spec fn from_spec(value: FillError) -> CommandError {
        embed_fill_error(value)
    }
}

} // verus!
