//! What holds of the wire format: frames that are written out are read back,
//! a frame that is cut short is never taken for a whole one, and reading
//! exactly what is asked for never runs into the next frame.

use crate::event::{EventView, ObjectType, OperationType, single_path_event};
use crate::frame::{Parse, be16, parse_frame, parse_path, path_text};
use vstd::prelude::*;
use vstd::utf8::{decode_utf8, valid_utf8};

verus! {

/// A path record: the payload behind its length, the high byte first.
pub open spec fn path_record(payload: Seq<u8>) -> Seq<u8>
    recommends
        payload.len() <= 0xffff,
{
    seq![(payload.len() / 256) as u8, (payload.len() % 256) as u8] + payload
}

/// A frame that carries one path.
pub open spec fn single_frame(op: OperationType, kind: ObjectType, payload: Seq<u8>) -> Seq<u8> {
    seq![op.code(), kind.code()] + path_record(payload)
}

/// A rename frame, with any byte in the place of the object kind.
pub open spec fn rename_frame(object_byte: u8, from: Seq<u8>, to: Seq<u8>) -> Seq<u8> {
    seq![OperationType::Renamed.code(), object_byte] + path_record(from) + path_record(to)
}

impl Parse {
    /// The number of bytes to read next: the two tag bytes on a frame
    /// boundary, the rest of the broken field inside a frame, and nothing
    /// once the front of the sequence is decided.
    pub open spec fn wanted(self) -> nat {
        match self {
            Parse::Empty => 2,
            Parse::Incomplete { missing } => missing,
            Parse::Invalid(_) => 0,
            Parse::Complete { .. } => 0,
        }
    }
}

proof fn path_record_is_read_back(payload: Seq<u8>, rest: Seq<u8>)
    requires
        payload.len() <= 0xffff,
    ensures
        parse_path(path_record(payload) + rest) == Ok::<(Seq<u8>, nat), nat>(
            (payload, 2 + payload.len()),
        ),
{
    let bytes = path_record(payload) + rest;
    let n = payload.len();
    assert(n / 256 < 256 && n % 256 < 256 && (n / 256) * 256 + n % 256 == n) by (nonlinear_arith)
        requires
            n <= 0xffff,
    ;
    assert(bytes[0] == (n / 256) as u8);
    assert(bytes[1] == (n % 256) as u8);
    assert(be16(bytes[0], bytes[1]) == n);
    assert(bytes.subrange(2, 2 + n as int) =~= payload);
}

proof fn path_ignores_what_follows(a: Seq<u8>, b: Seq<u8>)
    requires
        parse_path(a) is Ok,
    ensures
        parse_path(a + b) == parse_path(a),
{
    let n = be16(a[0], a[1]);
    assert((a + b)[0] == a[0] && (a + b)[1] == a[1]);
    assert((a + b).subrange(2, 2 + n as int) =~= a.subrange(2, 2 + n as int));
}

proof fn cut_path_is_incomplete(a: Seq<u8>, k: int)
    requires
        parse_path(a) is Ok,
        0 <= k < parse_path(a)->Ok_0.1,
    ensures
        parse_path(a.take(k)) is Err,
        1 <= parse_path(a.take(k))->Err_0 <= parse_path(a)->Ok_0.1 - k,
{
    if k >= 2 {
        assert(a.take(k)[0] == a[0] && a.take(k)[1] == a[1]);
    }
}

proof fn path_alone(a: Seq<u8>, k: int)
    requires
        parse_path(a) is Ok,
        parse_path(a)->Ok_0.1 <= k <= a.len(),
    ensures
        parse_path(a.take(k)) == parse_path(a),
{
    let n = be16(a[0], a[1]);
    assert(a.take(k)[0] == a[0] && a.take(k)[1] == a[1]);
    assert(a.take(k).subrange(2, 2 + n as int) =~= a.subrange(2, 2 + n as int));
}

proof fn path_filled_exactly(a: Seq<u8>, c: Seq<u8>)
    requires
        parse_path(a) is Err,
        c.len() <= parse_path(a)->Err_0,
    ensures
        c.len() < parse_path(a)->Err_0 ==> parse_path(a + c) == Err::<(Seq<u8>, nat), nat>(
            (parse_path(a)->Err_0 - c.len()) as nat,
        ),
        parse_path(a + c) is Ok ==> parse_path(a + c)->Ok_0.1 == (a + c).len(),
{
    let s = a + c;
    if a.len() >= 2 {
        assert(s[0] == a[0] && s[1] == a[1]);
    }
}

/// A frame of one path that is written out is read back as its event, with
/// the path as the text of its payload, whatever follows the frame.
pub proof fn single_path_frame_decodes(
    op: OperationType,
    kind: ObjectType,
    payload: Seq<u8>,
    rest: Seq<u8>,
)
    requires
        payload.len() <= 0xffff,
        op != OperationType::Renamed,
        !(op == OperationType::Modified && kind == ObjectType::Folder),
    ensures
        single_path_event(op, kind, path_text(payload)) is Some,
        parse_frame(single_frame(op, kind, payload) + rest) == (Parse::Complete {
            event: single_path_event(op, kind, path_text(payload))->Some_0,
            len: 4 + payload.len(),
        }),
{
    let bytes = single_frame(op, kind, payload) + rest;
    assert(bytes[0] == op.code() && bytes[1] == kind.code());
    assert(bytes.skip(2) =~= path_record(payload) + rest);
    path_record_is_read_back(payload, rest);
}

/// A rename frame is read back as a rename from its first path to its
/// second, of exactly two path records, whatever its object byte.
pub proof fn rename_frame_decodes(object_byte: u8, from: Seq<u8>, to: Seq<u8>, rest: Seq<u8>)
    requires
        from.len() <= 0xffff,
        to.len() <= 0xffff,
    ensures
        parse_frame(rename_frame(object_byte, from, to) + rest) == (Parse::Complete {
            event: EventView::Renamed { from: path_text(from), to: path_text(to) },
            len: 2 + (2 + from.len()) + (2 + to.len()),
        }),
{
    let bytes = rename_frame(object_byte, from, to) + rest;
    let body = bytes.skip(2);
    assert(bytes[0] == 6u8);
    assert(body =~= path_record(from) + (path_record(to) + rest));
    path_record_is_read_back(from, path_record(to) + rest);
    assert(body.skip(2 + from.len() as int) =~= path_record(to) + rest);
    path_record_is_read_back(to, rest);
}

/// A path of no bytes is the empty text.
pub proof fn empty_path_is_empty_text(payload: Seq<u8>)
    requires
        payload.len() == 0,
    ensures
        path_text(payload) == Seq::<char>::empty(),
{
    assert(valid_utf8(payload));
    assert(decode_utf8(payload) =~= Seq::<char>::empty());
}

/// A frame whose length prefix is zero is an event on the empty path, and
/// no error.
pub proof fn empty_path_frame_decodes(op: OperationType, kind: ObjectType, rest: Seq<u8>)
    requires
        op != OperationType::Renamed,
        !(op == OperationType::Modified && kind == ObjectType::Folder),
    ensures
        parse_frame(seq![op.code(), kind.code(), 0u8, 0u8] + rest) == (Parse::Complete {
            event: single_path_event(op, kind, Seq::<char>::empty())->Some_0,
            len: 4,
        }),
{
    let none = Seq::<u8>::empty();
    empty_path_is_empty_text(none);
    single_path_frame_decodes(op, kind, none, rest);
    assert(seq![op.code(), kind.code(), 0u8, 0u8] + rest =~= single_frame(op, kind, none) + rest);
}

/// Once the front of a sequence is a whole frame or a violation, no byte
/// that follows changes that.
pub proof fn decided_front_ignores_what_follows(a: Seq<u8>, b: Seq<u8>)
    requires
        parse_frame(a) is Complete || parse_frame(a) is Invalid,
    ensures
        parse_frame(a + b) == parse_frame(a),
{
    let s = a + b;
    assert(s[0] == a[0] && s[1] == a[1]);
    assert(s.skip(2) =~= a.skip(2) + b);
    let body = a.skip(2);
    if parse_path(body) is Ok {
        path_ignores_what_follows(body, b);
        let n1 = parse_path(body)->Ok_0.1;
        assert((body + b).skip(n1 as int) =~= body.skip(n1 as int) + b);
        if parse_path(body.skip(n1 as int)) is Ok {
            path_ignores_what_follows(body.skip(n1 as int), b);
        }
    }
}

/// A frame that is cut short, by however little, is incomplete: it is never
/// taken for a shorter frame, and it asks for no byte beyond its own end.
pub proof fn cut_frame_is_incomplete(bytes: Seq<u8>, k: int)
    requires
        parse_frame(bytes) is Complete,
        0 < k < parse_frame(bytes)->len,
    ensures
        parse_frame(bytes.take(k)) is Incomplete,
        1 <= parse_frame(bytes.take(k))->missing <= parse_frame(bytes)->len - k,
{
    let cut = bytes.take(k);
    if k >= 2 {
        assert(cut[0] == bytes[0] && cut[1] == bytes[1]);
        let body = bytes.skip(2);
        assert(cut.skip(2) =~= body.take(k - 2));
        let n1 = parse_path(body)->Ok_0.1 as int;
        if k - 2 < n1 {
            cut_path_is_incomplete(body, k - 2);
        } else {
            path_alone(body, k - 2);
            assert(body.take(k - 2).skip(n1) =~= body.skip(n1).take(k - 2 - n1));
            cut_path_is_incomplete(body.skip(n1), k - 2 - n1);
        }
    }
}

/// Reading no more than is asked for never runs past the end of the frame:
/// a short read leaves the rest of the same field to be read, and a frame
/// that is completed ends with the last byte read.
pub proof fn asked_bytes_stay_in_frame(held: Seq<u8>, read: Seq<u8>)
    requires
        0 < read.len() <= parse_frame(held).wanted(),
    ensures
        !(parse_frame(held + read) is Empty),
        read.len() < parse_frame(held).wanted() ==> parse_frame(held + read) == (Parse::Incomplete {
            missing: (parse_frame(held).wanted() - read.len()) as nat,
        }),
        parse_frame(held + read) is Complete ==> parse_frame(held + read)->len == (held
            + read).len(),
{
    let s = held + read;
    if held.len() >= 2 {
        assert(s[0] == held[0] && s[1] == held[1]);
        let body = held.skip(2);
        assert(s.skip(2) =~= body + read);
        if parse_path(body) is Ok {
            let n1 = parse_path(body)->Ok_0.1;
            path_ignores_what_follows(body, read);
            assert((body + read).skip(n1 as int) =~= body.skip(n1 as int) + read);
            path_filled_exactly(body.skip(n1 as int), read);
        } else {
            path_filled_exactly(body, read);
            if parse_path(body + read) is Ok {
                let n1 = parse_path(body + read)->Ok_0.1;
                assert((body + read).skip(n1 as int).len() == 0);
            }
        }
    } else if s.len() >= 2 {
        assert(s.skip(2).len() == 0);
    }
}

/// A whole frame has at least four bytes and lies within the sequence it
/// was found in.
pub proof fn frame_lies_within(bytes: Seq<u8>)
    requires
        parse_frame(bytes) is Complete,
    ensures
        4 <= parse_frame(bytes)->len <= bytes.len(),
{
    let body = bytes.skip(2);
    if parse_path(body) is Ok {
        let n1 = parse_path(body)->Ok_0.1;
        assert(body.skip(n1 as int).len() == body.len() - n1);
    }
}

/// The bytes of a frame, taken alone, are that frame.
pub proof fn frame_alone(bytes: Seq<u8>)
    requires
        parse_frame(bytes) is Complete,
    ensures
        parse_frame(bytes.take(parse_frame(bytes)->len as int)) == parse_frame(bytes),
{
    frame_lies_within(bytes);
    let len = parse_frame(bytes)->len as int;
    let cut = bytes.take(len);
    assert(cut[0] == bytes[0] && cut[1] == bytes[1]);
    let body = bytes.skip(2);
    assert(cut.skip(2) =~= body.take(len - 2));
    let n1 = parse_path(body)->Ok_0.1 as int;
    path_alone(body, len - 2);
    if len - 2 > n1 {
        assert(body.take(len - 2).skip(n1) =~= body.skip(n1).take(len - 2 - n1));
        path_alone(body.skip(n1), len - 2 - n1);
    }
}

proof fn path_record_is_written_form(bytes: Seq<u8>)
    requires
        parse_path(bytes) is Ok,
    ensures
        parse_path(bytes)->Ok_0.0.len() <= 0xffff,
        parse_path(bytes)->Ok_0.1 == 2 + parse_path(bytes)->Ok_0.0.len(),
        bytes.take(parse_path(bytes)->Ok_0.1 as int) == path_record(parse_path(bytes)->Ok_0.0),
{
    let hi = bytes[0] as nat;
    let lo = bytes[1] as nat;
    let n = be16(bytes[0], bytes[1]);
    assert(n / 256 == hi && n % 256 == lo) by (nonlinear_arith)
        requires
            n == hi * 256 + lo,
            lo < 256,
    ;
    assert(bytes.take(2 + n as int) =~= path_record(bytes.subrange(2, 2 + n as int)));
}

/// Nothing but the written form of an event is read as a whole frame: the
/// bytes of a frame are its tags and the records of its paths, the operation
/// tag is a known one, and but for a rename so is the object tag, and the
/// two are paired as the table has it.
pub proof fn whole_frame_is_written_form(bytes: Seq<u8>)
    requires
        parse_frame(bytes) is Complete,
    ensures
        ({
            let frame = bytes.take(parse_frame(bytes)->len as int);
            let event = parse_frame(bytes)->event;
            let body = bytes.skip(2);
            let first = parse_path(body)->Ok_0;
            let second = parse_path(body.skip(first.1 as int))->Ok_0;
            match OperationType::from_code(bytes[0]) {
                None => false,
                Some(OperationType::Renamed) => {
                    &&& frame == rename_frame(bytes[1], first.0, second.0)
                    &&& event == EventView::Renamed {
                        from: path_text(first.0),
                        to: path_text(second.0),
                    }
                },
                Some(op) => {
                    &&& ObjectType::from_code(bytes[1]) is Some
                    &&& frame == single_frame(op, ObjectType::from_code(bytes[1])->Some_0, first.0)
                    &&& single_path_event(
                        op,
                        ObjectType::from_code(bytes[1])->Some_0,
                        path_text(first.0),
                    ) == Some(event)
                },
            }
        }),
{
    frame_lies_within(bytes);
    let len = parse_frame(bytes)->len as int;
    let frame = bytes.take(len);
    let body = bytes.skip(2);
    let first = parse_path(body)->Ok_0;
    let n1 = first.1 as int;
    path_record_is_written_form(body);
    assert(frame.take(2) =~= seq![bytes[0], bytes[1]]);
    assert(frame.skip(2).take(n1) =~= body.take(n1));
    if OperationType::from_code(bytes[0]) == Some(OperationType::Renamed) {
        let second = parse_path(body.skip(n1))->Ok_0;
        path_record_is_written_form(body.skip(n1));
        assert(frame.skip(2 + n1) =~= body.skip(n1).take(second.1 as int));
        assert(frame =~= frame.take(2) + frame.skip(2).take(n1) + frame.skip(2 + n1));
    } else {
        assert(frame =~= frame.take(2) + frame.skip(2).take(n1));
    }
}

} // verus!
