//! A stream comes in chunks, and where the chunks are cut is not the
//! sender's to choose: what a stream amounts to does not depend on it.

use crate::transport::codec::{
    body_outcome, frame_outcome, header_length, lines_outcome, FrameOutcome,
};
use crate::transport::wire::{find_byte, lemma_find_byte, lemma_find_byte_is, CR, LF};
use vstd::prelude::*;
use vstd::utf8::valid_utf8;

verus! {

proof fn lemma_lines_decided(s: Seq<u8>, more: Seq<u8>, from: int, closed: bool)
    requires
        0 <= from <= s.len(),
        !(lines_outcome(s, from, false) is Pending),
    ensures
        lines_outcome(s + more, from, closed) == lines_outcome(s, from, false),
    decreases s.len() - from,
{
    let end = find_byte(s, LF, from);
    let all = s + more;
    lemma_find_byte(s, LF, from);
    assert(end < s.len());
    assert forall|i: int| from <= i < end implies all[i] != LF by {
        assert(all[i] == s[i]);
    }
    assert(all[end] == s[end]);
    lemma_find_byte_is(all, LF, from, end);
    assert(all.subrange(from, end + 1) =~= s.subrange(from, end + 1));
    if valid_utf8(s.subrange(from, end + 1)) {
        if end == from + 1 && s[from] == CR {
            assert(all[from] == s[from]);
            assert(all.subrange(0, from) =~= s.subrange(0, from));
            let declared = header_length(s.subrange(0, from), 0);
            assert(lines_outcome(s, from, false) == body_outcome(s, from, false));
            assert(lines_outcome(all, from, closed) == body_outcome(all, from, closed));
            if declared is Some {
                let start = from + 2;
                let n = declared->0 as int;
                assert(s.len() - start >= n);
                assert(all.subrange(start, start + n) =~= s.subrange(start, start + n));
            }
        } else {
            lemma_lines_decided(s, more, end + 1, closed);
        }
    }
}

/// What is decided stays decided: once the bytes received hold a whole frame
/// or are broken, the bytes that come after, and the end of the stream,
/// change nothing of it.
pub proof fn lemma_decided_for_good(s: Seq<u8>, more: Seq<u8>, closed: bool)
    requires
        !(frame_outcome(s, false) is Pending),
    ensures
        frame_outcome(s + more, closed) == frame_outcome(s, false),
{
    lemma_lines_decided(s, more, 0, closed);
}

proof fn lemma_lines_end(s: Seq<u8>, from: int)
    requires
        0 <= from <= s.len(),
    ensures
        !(lines_outcome(s, from, true) is Pending),
        !(lines_outcome(s, from, false) is Pending) ==> lines_outcome(s, from, true)
            == lines_outcome(s, from, false),
    decreases s.len() - from,
{
    let end = find_byte(s, LF, from);
    lemma_find_byte(s, LF, from);
    if end < s.len() && valid_utf8(s.subrange(from, end + 1)) && !(end == from + 1 && s[from]
        == CR) {
        lemma_lines_end(s, end + 1);
    }
}

/// A stream that has ended leaves nothing open: its bytes hold a whole frame
/// or they are broken, and a frame that was there before the end is there
/// after it.
pub proof fn lemma_end_decides(s: Seq<u8>)
    ensures
        !(frame_outcome(s, true) is Pending),
        !(frame_outcome(s, false) is Pending) ==> frame_outcome(s, true) == frame_outcome(
            s,
            false,
        ),
{
    lemma_lines_end(s, 0);
}

} // verus!
