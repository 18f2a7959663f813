//! The wire format: one frame at the front of a byte sequence.
//!
//! A frame is an operation byte, an object byte, and one path record (two for
//! a rename). A path record is a big-endian 16-bit length and that many bytes.

use crate::event::{Event, EventView, ObjectType, OperationType, ProtocolError, single_path_event};
use vstd::prelude::*;
use vstd::slice::slice_subrange;
use vstd::utf8::{decode_utf8, valid_utf8};

verus! {

/// The text that `String::from_utf8_lossy` makes of a byte sequence.
pub uninterp spec fn lossy_utf8(bytes: Seq<u8>) -> Seq<char>;

/// The text of a path whose bytes are `bytes`: the characters they encode
/// where they are UTF-8, and else their lossy reading.
pub open spec fn path_text(bytes: Seq<u8>) -> Seq<char> {
    if valid_utf8(bytes) {
        decode_utf8(bytes)
    } else {
        lossy_utf8(bytes)
    }
}

/// Calls `String::from_utf8_lossy` and owns what it returns. The result is a
/// function of the bytes alone; bytes that are UTF-8 come back as the string
/// that they encode, with nothing replaced.
#[verifier::external_body]
fn from_utf8_lossy(bytes: &[u8]) -> (text: String)
    ensures
        text@ == lossy_utf8(bytes@),
        valid_utf8(bytes@) ==> text@ == decode_utf8(bytes@),
{
    String::from_utf8_lossy(bytes).into_owned()
}

/// The number that two bytes spell, the high byte first.
pub open spec fn be16(hi: u8, lo: u8) -> nat {
    (hi as nat) * 256 + (lo as nat)
}

/// The path record at the front of `bytes`: its payload and its whole
/// length, the two length bytes included. Where `bytes` end before the
/// record does, the number of bytes that the field they end in still lacks.
pub open spec fn parse_path(bytes: Seq<u8>) -> Result<(Seq<u8>, nat), nat> {
    if bytes.len() < 2 {
        Err((2 - bytes.len()) as nat)
    } else {
        let n = be16(bytes[0], bytes[1]);
        if bytes.len() < 2 + n {
            Err((2 + n - bytes.len()) as nat)
        } else {
            Ok((bytes.subrange(2, 2 + n as int), 2 + n))
        }
    }
}

/// What the front of a byte sequence holds.
pub enum Parse {
    /// No byte at all: the sequence ends on a frame boundary.
    Empty,
    /// The beginning of a frame; the field it ends in lacks `missing` bytes.
    Incomplete { missing: nat },
    /// Bytes that no frame begins with.
    Invalid(ProtocolError),
    /// A whole frame of `len` bytes.
    Complete { event: EventView, len: nat },
}

/// A frame with one path, after its two tag bytes.
pub open spec fn parse_single(op: OperationType, kind: ObjectType, body: Seq<u8>) -> Parse {
    match parse_path(body) {
        Err(missing) => Parse::Incomplete { missing },
        Ok((payload, n)) => match single_path_event(op, kind, path_text(payload)) {
            None => Parse::Invalid(ProtocolError::ImpossibleCombination),
            Some(event) => Parse::Complete { event, len: 2 + n },
        },
    }
}

/// A rename frame, after its two tag bytes.
pub open spec fn parse_rename(body: Seq<u8>) -> Parse {
    match parse_path(body) {
        Err(missing) => Parse::Incomplete { missing },
        Ok((from, n1)) => match parse_path(body.skip(n1 as int)) {
            Err(missing) => Parse::Incomplete { missing },
            Ok((to, n2)) => Parse::Complete {
                event: EventView::Renamed { from: path_text(from), to: path_text(to) },
                len: 2 + n1 + n2,
            },
        },
    }
}

/// The frame at the front of `bytes`. The operation byte is judged first and
/// the object byte second, both before any path is looked at; a rename takes
/// its object byte as it comes.
pub open spec fn parse_frame(bytes: Seq<u8>) -> Parse {
    if bytes.len() == 0 {
        Parse::Empty
    } else if bytes.len() < 2 {
        Parse::Incomplete { missing: (2 - bytes.len()) as nat }
    } else {
        match OperationType::from_code(bytes[0]) {
            None => Parse::Invalid(ProtocolError::UnknownOperation),
            Some(OperationType::Renamed) => parse_rename(bytes.skip(2)),
            Some(op) => match ObjectType::from_code(bytes[1]) {
                None => Parse::Invalid(ProtocolError::UnknownObjectKind),
                Some(kind) => parse_single(op, kind, bytes.skip(2)),
            },
        }
    }
}

/// What `decode_frame` found at the front of its input.
#[derive(Debug, PartialEq, Eq)]
pub enum Decoded {
    /// The input is empty.
    Empty,
    /// The input breaks off inside a frame, `missing` bytes short of the end
    /// of a field.
    Incomplete { missing: usize },
    /// The input does not begin with a frame.
    Invalid(ProtocolError),
    /// The input begins with a frame of `len` bytes.
    Complete { event: Event, len: usize },
}

impl View for Decoded {
    type V = Parse;

    open spec fn view(&self) -> Parse {
        match *self {
            Decoded::Empty => Parse::Empty,
            Decoded::Incomplete { missing } => Parse::Incomplete { missing: missing as nat },
            Decoded::Invalid(e) => Parse::Invalid(e),
            Decoded::Complete { event, len } => Parse::Complete { event: event@, len: len as nat },
        }
    }
}

/// Reads the path record that begins at `at`: its text and the index behind
/// it, or the number of bytes that are missing.
fn read_path(input: &[u8], at: usize) -> (r: Result<(String, usize), usize>)
    requires
        at <= input.len(),
    ensures
        match parse_path(input@.skip(at as int)) {
            Ok((payload, n)) => r is Ok && r->Ok_0.0@ == path_text(payload) && r->Ok_0.1 == at + n,
            Err(missing) => r == Err::<(String, usize), usize>(missing as usize),
        },
{
    let rest: usize = input.len() - at;
    if rest < 2 {
        return Err(2 - rest);
    }
    let hi: usize = input[at] as usize;
    let lo: usize = input[at + 1] as usize;
    let n: usize = hi * 256 + lo;
    assert(input@.skip(at as int)[0] == input@[at as int]);
    assert(input@.skip(at as int)[1] == input@[at + 1]);
    if rest - 2 < n {
        return Err(2 + n - rest);
    }
    let payload = slice_subrange(input, at + 2, at + 2 + n);
    assert(payload@ =~= input@.skip(at as int).subrange(2, 2 + n as int));
    Ok((from_utf8_lossy(payload), at + 2 + n))
}

/// Decodes the frame at the front of `input`.
pub fn decode_frame(input: &[u8]) -> (out: Decoded)
    ensures
        out@ == parse_frame(input@),
{
    if input.len() == 0 {
        return Decoded::Empty;
    }
    if input.len() < 2 {
        return Decoded::Incomplete { missing: 2 - input.len() };
    }
    let op = match OperationType::try_from(input[0]) {
        Ok(op) => op,
        Err(e) => {
            return Decoded::Invalid(e);
        },
    };
    match op {
        OperationType::Renamed => match read_path(input, 2) {
            Err(missing) => Decoded::Incomplete { missing },
            Ok((from, mid)) => {
                assert(input@.skip(2).skip(mid - 2) =~= input@.skip(mid as int));
                match read_path(input, mid) {
                    Err(missing) => Decoded::Incomplete { missing },
                    Ok((to, end)) => Decoded::Complete {
                        event: Event::Renamed { from, to },
                        len: end,
                    },
                }
            },
        },
        _ => {
            let kind = match ObjectType::try_from(input[1]) {
                Ok(kind) => kind,
                Err(e) => {
                    return Decoded::Invalid(e);
                },
            };
            match read_path(input, 2) {
                Err(missing) => Decoded::Incomplete { missing },
                Ok((path, end)) => match Event::assemble(op, kind, path) {
                    Ok(event) => Decoded::Complete { event, len: end },
                    Err(e) => Decoded::Invalid(e),
                },
            }
        },
    }
}

} // verus!
