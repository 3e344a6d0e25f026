//! Length-delimited framing: a header block that declares `Content-Length`,
//! a blank line, and that many bytes of UTF-8 text.

use crate::decimal::push_decimal;
use crate::transport::encoding::text_of;
use crate::transport::wire::{
    declared_length, find_byte, frame_header, lemma_find_byte, position, read_declared_length,
    without_cr, written_name, CR, LF,
};
use vstd::prelude::*;
use vstd::slice::slice_subrange;
use vstd::utf8::{decode_utf8, valid_utf8};

verus! {

/// Why a stream holds no frame.
#[derive(Clone, Copy, Debug, PartialEq, Eq, Structural)]
pub enum FrameError {
    /// The stream ended before the header or the body was complete.
    UnexpectedEof,
    /// No header line declares a length.
    MissingContentLength,
    /// A header line or the body is not UTF-8.
    InvalidEncoding,
}

/// What the bytes received so far amount to.
pub enum FrameOutcome {
    /// A whole frame: its text, and how many bytes of the stream it took.
    Complete { payload: Seq<char>, consumed: nat },
    /// The stream is broken for good.
    Failed(FrameError),
    /// More bytes are needed to tell.
    Pending,
}

/// The length that the header `h` declares: that of the first line, from
/// `from` on, that declares one.
pub open spec fn header_length(h: Seq<u8>, from: int) -> Option<usize>
    decreases h.len() - from,
    when 0 <= from <= h.len()
    via header_length_decreases
{
    let end = find_byte(h, LF, from);
    if from >= h.len() {
        None
    } else if declared_length(without_cr(h.subrange(from, end))) is Some || end >= h.len() {
        declared_length(without_cr(h.subrange(from, end)))
    } else {
        header_length(h, end + 1)
    }
}

#[via_fn]
proof fn header_length_decreases(h: Seq<u8>, from: int) {
    lemma_find_byte(h, LF, from);
}

/// What `s` amounts to once its header has ended with a blank line that
/// starts at `blank`.
pub open spec fn body_outcome(s: Seq<u8>, blank: int, closed: bool) -> FrameOutcome {
    let start = blank + 2;
    match header_length(s.subrange(0, blank), 0) {
        None => FrameOutcome::Failed(FrameError::MissingContentLength),
        Some(n) => if s.len() - start < n {
            if closed {
                FrameOutcome::Failed(FrameError::UnexpectedEof)
            } else {
                FrameOutcome::Pending
            }
        } else if valid_utf8(s.subrange(start, start + n)) {
            FrameOutcome::Complete {
                payload: decode_utf8(s.subrange(start, start + n)),
                consumed: (start + n) as nat,
            }
        } else {
            FrameOutcome::Failed(FrameError::InvalidEncoding)
        },
    }
}

/// What `s` amounts to, its lines taken one by one from `from` on: a line
/// that is not UTF-8 breaks the stream, the line `\r\n` ends the header, and
/// a line cut short waits for more bytes or, at the stream's end, breaks it.
pub open spec fn lines_outcome(s: Seq<u8>, from: int, closed: bool) -> FrameOutcome
    decreases s.len() - from,
    when 0 <= from <= s.len()
    via lines_outcome_decreases
{
    let end = find_byte(s, LF, from);
    if end >= s.len() {
        if !closed {
            FrameOutcome::Pending
        } else if valid_utf8(s.subrange(from, s.len() as int)) {
            FrameOutcome::Failed(FrameError::UnexpectedEof)
        } else {
            FrameOutcome::Failed(FrameError::InvalidEncoding)
        }
    } else if !valid_utf8(s.subrange(from, end + 1)) {
        FrameOutcome::Failed(FrameError::InvalidEncoding)
    } else if end == from + 1 && s[from] == CR {
        body_outcome(s, from, closed)
    } else {
        lines_outcome(s, end + 1, closed)
    }
}

#[via_fn]
proof fn lines_outcome_decreases(s: Seq<u8>, from: int, closed: bool) {
    lemma_find_byte(s, LF, from);
}

/// What the bytes `s` of a stream amount to; `closed` says that no more will
/// come.
pub open spec fn frame_outcome(s: Seq<u8>, closed: bool) -> FrameOutcome {
    lines_outcome(s, 0, closed)
}

/// The result of looking for a frame in the bytes received so far.
#[derive(Debug, Clone, PartialEq, Eq)]
pub enum Decoded {
    /// A whole frame: its text, and how many bytes of the stream it took.
    Frame { payload: String, consumed: usize },
    /// The stream is broken for good.
    Failed(FrameError),
    /// More bytes are needed to tell.
    Pending,
}

impl View for Decoded {
    type V = FrameOutcome;

    open spec fn view(&self) -> FrameOutcome {
        match self {
            Decoded::Frame { payload, consumed } => FrameOutcome::Complete {
                payload: payload@,
                consumed: *consumed as nat,
            },
            Decoded::Failed(e) => FrameOutcome::Failed(*e),
            Decoded::Pending => FrameOutcome::Pending,
        }
    }
}

/// Finds the length that the header `h` declares.
pub fn read_header_length(h: &[u8]) -> (r: Option<usize>)
    ensures
        r == header_length(h@, 0),
{
    let mut from: usize = 0;
    while from < h.len()
        invariant
            from <= h.len(),
            header_length(h@, from as int) == header_length(h@, 0),
        decreases h.len() - from,
    {
        let end = position(h, LF, from);
        let line = slice_subrange(h, from, end);
        let text = if line.len() > 0 && line[line.len() - 1] == CR {
            slice_subrange(line, 0, line.len() - 1)
        } else {
            line
        };
        assert(text@ == without_cr(h@.subrange(from as int, end as int)));
        let declared = read_declared_length(text);
        if declared.is_some() || end >= h.len() {
            return declared;
        }
        from = end + 1;
    }
    None
}

/// Reads the body that follows the blank line at `blank`.
fn decode_body(buf: &[u8], blank: usize, closed: bool) -> (r: Decoded)
    requires
        blank + 2 <= buf.len(),
    ensures
        r@ == body_outcome(buf@, blank as int, closed),
{
    let start = blank + 2;
    match read_header_length(slice_subrange(buf, 0, blank)) {
        None => Decoded::Failed(FrameError::MissingContentLength),
        Some(n) => {
            if buf.len() - start < n {
                if closed {
                    Decoded::Failed(FrameError::UnexpectedEof)
                } else {
                    Decoded::Pending
                }
            } else {
                match text_of(slice_subrange(buf, start, start + n)) {
                    Some(text) => Decoded::Frame { payload: text.to_owned(), consumed: start + n },
                    None => Decoded::Failed(FrameError::InvalidEncoding),
                }
            }
        },
    }
}

/// Looks for one frame at the start of `buf`, the bytes received so far;
/// `closed` says that the stream has ended.
pub fn decode(buf: &[u8], closed: bool) -> (r: Decoded)
    ensures
        r@ == frame_outcome(buf@, closed),
        closed ==> !(r is Pending),
{
    let mut from: usize = 0;
    loop
        invariant
            from <= buf.len(),
            lines_outcome(buf@, from as int, closed) == frame_outcome(buf@, closed),
        decreases buf.len() - from,
    {
        let end = position(buf, LF, from);
        if end >= buf.len() {
            return if !closed {
                Decoded::Pending
            } else if text_of(slice_subrange(buf, from, buf.len())).is_some() {
                Decoded::Failed(FrameError::UnexpectedEof)
            } else {
                Decoded::Failed(FrameError::InvalidEncoding)
            };
        }
        if text_of(slice_subrange(buf, from, end + 1)).is_none() {
            return Decoded::Failed(FrameError::InvalidEncoding);
        }
        if end == from + 1 && buf[from] == CR {
            return decode_body(buf, from, closed);
        }
        from = end + 1;
    }
}

/// A frame on the wire: the header block for the payload's length, then the
/// payload as it is.
pub open spec fn frame_bytes(payload: Seq<u8>) -> Seq<u8> {
    frame_header(payload.len()) + payload
}

/// Frames `payload` for the wire.
pub fn encode(payload: &[u8]) -> (out: Vec<u8>)
    ensures
        out@ == frame_bytes(payload@),
{
    let name = "Content-Length: ".as_bytes();
    proof {
        reveal_strlit("Content-Length: ");
        vstd::string::is_ascii_spec_bytes("Content-Length: ");
        assert(name@ =~= written_name());
    }
    let mut out: Vec<u8> = Vec::new();
    out.extend_from_slice(name);
    push_decimal(&mut out, payload.len());
    out.push(CR);
    out.push(LF);
    out.push(CR);
    out.push(LF);
    out.extend_from_slice(payload);
    assert(out@ =~= frame_bytes(payload@));
    out
}

/// A framer that holds the bytes received on a stream until they make up
/// frames. It reads from no stream itself: the bytes are handed to it, and
/// what it writes is handed back as bytes.
pub struct LengthDelimited {
    inbound: Vec<u8>,
    closed: bool,
}

impl LengthDelimited {
    /// The bytes received and not yet taken as frames.
    pub closed spec fn buffered(&self) -> Seq<u8> {
        self.inbound@
    }

    /// Whether the stream has ended.
    pub closed spec fn ended(&self) -> bool {
        self.closed
    }

    /// A framer for a stream on which nothing has come yet.
    pub fn new() -> (r: Self)
        ensures
            r.buffered() == Seq::<u8>::empty(),
            !r.ended(),
    {
        LengthDelimited { inbound: Vec::new(), closed: false }
    }

    /// Takes in bytes that came on the stream.
    pub fn receive(&mut self, bytes: &[u8])
        ensures
            final(self).buffered() == old(self).buffered() + bytes@,
            final(self).ended() == old(self).ended(),
    {
        self.inbound.extend_from_slice(bytes);
    }

    /// Notes that the stream has ended.
    pub fn close(&mut self)
        ensures
            final(self).buffered() == old(self).buffered(),
            final(self).ended(),
    {
        self.closed = true;
    }

    /// Takes the next frame out of the bytes received: its text where a whole
    /// frame is there, nothing where more bytes are needed, and the framing
    /// error where the stream is broken. Only a whole frame takes bytes away.
    pub fn read_frame(&mut self) -> (r: Result<Option<String>, FrameError>)
        ensures
            final(self).ended() == old(self).ended(),
            match frame_outcome(old(self).buffered(), old(self).ended()) {
                FrameOutcome::Complete { payload, consumed } => {
                    &&& r matches Ok(Some(text)) && text@ == payload
                    &&& consumed <= old(self).buffered().len()
                    &&& final(self).buffered() == old(self).buffered().subrange(
                        consumed as int,
                        old(self).buffered().len() as int,
                    )
                },
                FrameOutcome::Failed(e) => {
                    &&& r == Err::<Option<String>, FrameError>(e)
                    &&& final(self).buffered() == old(self).buffered()
                },
                FrameOutcome::Pending => {
                    &&& r == Ok::<Option<String>, FrameError>(None)
                    &&& final(self).buffered() == old(self).buffered()
                },
            },
    {
        match decode(self.inbound.as_slice(), self.closed) {
            Decoded::Frame { payload, consumed } => {
                proof {
                    lemma_consumed_in_stream(self.inbound@, self.closed);
                }
                let rest = self.inbound.split_off(consumed);
                self.inbound = rest;
                Ok(Some(payload))
            },
            Decoded::Failed(e) => Err(e),
            Decoded::Pending => Ok(None),
        }
    }

    /// The bytes to write for `frame`: its header, then `frame` as it is.
    pub fn write_frame(&self, frame: &[u8]) -> (out: Vec<u8>)
        ensures
            out@ == frame_bytes(frame@),
    {
        encode(frame)
    }
}

/// A frame takes no more bytes than the stream holds.
pub proof fn lemma_consumed_in_stream(s: Seq<u8>, closed: bool)
    ensures
        frame_outcome(s, closed) matches FrameOutcome::Complete { consumed, .. } ==> consumed
            <= s.len(),
{
    lemma_consumed_from(s, 0, closed);
}

proof fn lemma_consumed_from(s: Seq<u8>, from: int, closed: bool)
    requires
        0 <= from <= s.len(),
    ensures
        lines_outcome(s, from, closed) matches FrameOutcome::Complete { consumed, .. } ==> consumed
            <= s.len(),
    decreases s.len() - from,
{
    let end = find_byte(s, LF, from);
    lemma_find_byte(s, LF, from);
    if end < s.len() && valid_utf8(s.subrange(from, end + 1)) && !(end == from + 1 && s[from]
        == CR) {
        lemma_consumed_from(s, end + 1, closed);
    }
}

} // verus!
