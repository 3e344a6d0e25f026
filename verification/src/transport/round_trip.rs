//! A frame that was written is read back as it was.

use crate::transport::codec::{
    body_outcome, frame_bytes, frame_outcome, header_length, lines_outcome, FrameOutcome,
};
use crate::decimal::{
    all_digits, decimal, is_digit, lemma_decimal, parse_length, unsigned_digits,
};
use crate::transport::wire::{
    ascii_bytes, declared_length, drop_spaces, field_name, find_byte, frame_header,
    lemma_find_byte_is, lower, names_length, skip_spaces, space_at, space_before, trim,
    without_cr, written_name, COLON, CR, LF,
};
use vstd::prelude::*;
use vstd::utf8::{decode_utf8, partial_valid_utf8_extend_ascii_block, valid_utf8};

verus! {

/// Bytes below 128 are UTF-8 as they stand.
proof fn lemma_ascii_is_utf8(b: Seq<u8>)
    requires
        forall|i: int| 0 <= i < b.len() ==> #[trigger] b[i] < 128,
    ensures
        valid_utf8(b),
{
    assert(b.subrange(0, 0) =~= Seq::<u8>::empty());
    assert(valid_utf8(b.subrange(0, 0)));
    partial_valid_utf8_extend_ascii_block(b, 0, b.len() as int);
    assert(b.subrange(0, b.len() as int) =~= b);
}

/// The written name: sixteen ASCII bytes with one colon, at index 14, no line
/// feed, and the field's name in front when put in lower case.
proof fn lemma_written_name()
    ensures
        written_name().len() == 16,
        field_name().len() == 14,
        forall|i: int| 0 <= i < 16 ==> #[trigger] written_name()[i] < 128,
        forall|i: int| 0 <= i < 16 ==> #[trigger] written_name()[i] != LF,
        forall|i: int| 0 <= i < 14 ==> #[trigger] written_name()[i] != COLON,
        forall|i: int| 0 <= i < 14 ==> lower(#[trigger] written_name()[i]) == field_name()[i],
        written_name()[14] == COLON,
        written_name()[15] == 32,
{
    reveal_strlit("Content-Length: ");
    reveal_strlit("content-length");
    let w = written_name();
    let f = field_name();
    assert(w =~= seq![67u8, 111, 110, 116, 101, 110, 116, 45, 76, 101, 110, 103, 116, 104, 58, 32]);
    assert(f =~= seq![99u8, 111, 110, 116, 101, 110, 116, 45, 108, 101, 110, 103, 116, 104]);
}

/// Digits behind one space are what is left of them after trimming.
proof fn lemma_trim_padded_digits(d: Seq<u8>)
    requires
        d.len() > 0,
        all_digits(d),
    ensures
        trim(seq![32u8] + d) == d,
{
    let p = seq![32u8] + d;
    let n = p.len() as int;
    assert(is_digit(d[0]));
    assert(p[1] == d[0]);
    assert(space_at(p, 0, n) == 1);
    assert(space_at(p, 1, n) == 0);
    assert(skip_spaces(p, 1, n) == 1);
    assert(skip_spaces(p, 0, n) == 1);
    assert(is_digit(d[d.len() - 1]));
    assert(p[n - 1] == d[d.len() - 1]);
    assert(space_before(p, 1, n) == 0);
    assert(drop_spaces(p, 1, n) == n);
    assert(p.subrange(1, n) =~= d);
}

/// The header line that is written for a payload of `n` bytes declares `n`.
proof fn lemma_written_line_declares(n: nat)
    requires
        n <= usize::MAX,
    ensures
        declared_length(written_name() + decimal(n)) == Some(n as usize),
{
    lemma_written_name();
    lemma_decimal(n);
    let d = decimal(n);
    let line = written_name() + d;
    assert forall|i: int| 0 <= i < 14 implies line[i] != COLON by {
        assert(line[i] == written_name()[i]);
    }
    assert(line[14] == written_name()[14]);
    lemma_find_byte_is(line, COLON, 0, 14);
    // The name stands before the colon, with no white space about it.
    let name = line.subrange(0, 14);
    assert forall|i: int| 0 <= i < 14 implies lower(#[trigger] name[i]) == field_name()[i] by {
        assert(name[i] == written_name()[i]);
    }
    assert(name[0] == written_name()[0] && name[13] == written_name()[13]);
    assert(lower(name[0]) == field_name()[0] && lower(name[13]) == field_name()[13]);
    lemma_field_name_ends();
    assert(space_at(name, 0, 14) == 0);
    assert(space_before(name, 0, 14) == 0);
    assert(skip_spaces(name, 0, 14) == 0);
    assert(drop_spaces(name, 0, 14) == 14);
    assert(name.subrange(0, 14) =~= name);
    assert(names_length(trim(name)));
    // The digits stand behind it, after one space.
    assert(line[15] == written_name()[15]);
    assert(line.subrange(15, line.len() as int) =~= seq![32u8] + d);
    lemma_trim_padded_digits(d);
    assert(is_digit(d[0]));
    assert(unsigned_digits(d) == d);
    assert(parse_length(d) == Some(n as usize));
}

/// The field's name begins with `c` and ends with `h`.
proof fn lemma_field_name_ends()
    ensures
        field_name()[0] == 99,
        field_name()[13] == 104,
{
    reveal_strlit("content-length");
}

/// The header that is written for a payload of `n` bytes declares `n`.
proof fn lemma_written_header_declares(n: nat)
    requires
        n <= usize::MAX,
    ensures
        header_length(written_name() + decimal(n) + seq![CR, LF], 0) == Some(n as usize),
{
    lemma_written_name();
    lemma_decimal(n);
    let d = decimal(n);
    let h = written_name() + d + seq![CR, LF];
    let k = 16 + d.len() as int;
    assert forall|i: int| 0 <= i < k + 1 implies h[i] != LF by {
        if i < 16 {
            assert(h[i] == written_name()[i]);
        } else if i < k {
            assert(h[i] == d[i - 16]);
            assert(is_digit(d[i - 16]));
        }
    }
    assert(h[k + 1] == LF);
    lemma_find_byte_is(h, LF, 0, k + 1);
    let line = h.subrange(0, k + 1);
    assert(line.last() == CR);
    assert(without_cr(line) =~= written_name() + d);
    lemma_written_line_declares(n);
}

/// Frame round trip: a payload of UTF-8 that was framed is read back whole,
/// with nothing of what follows it in the stream taken, whether the stream has
/// ended or not.
pub proof fn lemma_frame_round_trip(payload: Seq<u8>, rest: Seq<u8>, closed: bool)
    requires
        valid_utf8(payload),
        payload.len() <= usize::MAX,
    ensures
        frame_outcome(frame_bytes(payload) + rest, closed) == (FrameOutcome::Complete {
            payload: decode_utf8(payload),
            consumed: frame_bytes(payload).len(),
        }),
{
    let n = payload.len();
    lemma_written_name();
    lemma_decimal(n);
    let d = decimal(n);
    let s = frame_bytes(payload) + rest;
    let k = 16 + d.len() as int;
    assert forall|i: int| 0 <= i < k + 4 implies #[trigger] s[i] < 128 && (i != k + 1 && i != k
        + 3 ==> s[i] != LF) by {
        if i < 16 {
            assert(s[i] == written_name()[i]);
        } else if i < k {
            assert(s[i] == d[i - 16]);
            assert(is_digit(d[i - 16]));
        }
    }
    assert(s[k] == CR && s[k + 1] == LF && s[k + 2] == CR && s[k + 3] == LF);
    // The first line is the one that declares the length.
    lemma_find_byte_is(s, LF, 0, k + 1);
    lemma_ascii_is_utf8(s.subrange(0, k + 2));
    // The second line is blank.
    lemma_find_byte_is(s, LF, k + 2, k + 3);
    lemma_ascii_is_utf8(s.subrange(k + 2, k + 4));
    assert(lines_outcome(s, k + 2, closed) == body_outcome(s, k + 2, closed));
    assert(lines_outcome(s, 0, closed) == lines_outcome(s, k + 2, closed));
    // The header declares the payload's length, and the payload follows.
    assert(s.subrange(0, k + 2) =~= written_name() + d + seq![CR, LF]);
    lemma_written_header_declares(n);
    assert(s.subrange(k + 4, k + 4 + n) =~= payload);
    assert(frame_bytes(payload).len() == k + 4 + n);
}

/// Frames in a row: of two framed payloads, one behind the other, the first
/// is read first, and what is left of the stream once it is taken gives the
/// second.
pub proof fn lemma_frames_in_a_row(first: Seq<u8>, second: Seq<u8>, rest: Seq<u8>, closed: bool)
    requires
        valid_utf8(first),
        valid_utf8(second),
        first.len() <= usize::MAX,
        second.len() <= usize::MAX,
    ensures
        ({
            let stream = frame_bytes(first) + frame_bytes(second) + rest;
            let taken = frame_bytes(first).len() as int;
            &&& frame_outcome(stream, closed) == (FrameOutcome::Complete {
                payload: decode_utf8(first),
                consumed: frame_bytes(first).len(),
            })
            &&& frame_outcome(stream.subrange(taken, stream.len() as int), closed)
                == (FrameOutcome::Complete {
                payload: decode_utf8(second),
                consumed: frame_bytes(second).len(),
            })
        }),
{
    let stream = frame_bytes(first) + frame_bytes(second) + rest;
    let taken = frame_bytes(first).len() as int;
    assert(stream =~= frame_bytes(first) + (frame_bytes(second) + rest));
    lemma_frame_round_trip(first, frame_bytes(second) + rest, closed);
    assert(stream.subrange(taken, stream.len() as int) =~= frame_bytes(second) + rest);
    lemma_frame_round_trip(second, rest, closed);
}

} // verus!
