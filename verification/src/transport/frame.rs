//! Frame extraction: a stateful scanner that carves complete
//! sentinel-delimited SLIP frames out of a growing, chunk-fed byte buffer.
//!
//! Chunks arrive in arbitrary sizes from the transport; frame boundaries
//! never have to align with chunk boundaries. Bytes before the first
//! sentinel are unsynchronized noise and are discarded with the frame that
//! follows them, so a lost delimiter self-heals once the next sentinel
//! appears.

use vstd::prelude::*;
use crate::Error;
use crate::transport::slip;
use crate::transport::slip::SLIP_END;
use crate::transport::h5;
use crate::transport::h5::H5Packet;

verus! {

/// The index of the first sentinel byte at or after `from`, or the length
/// of the sequence when there is none.
pub open spec fn find_delim(s: Seq<u8>, from: int) -> int
    recommends
        0 <= from <= s.len(),
    decreases s.len() - from when from <= s.len()
{
    if from >= s.len() {
        s.len() as int
    } else if s[from] == SLIP_END {
        from
    } else {
        find_delim(s, from + 1)
    }
}

/// A sentinel at `k` with none between `from` and `k` is exactly what
/// `find_delim` returns.
pub proof fn lemma_find_delim_at(s: Seq<u8>, from: int, k: int)
    requires
        0 <= from <= k <= s.len(),
        k < s.len() ==> s[k] == SLIP_END,
        k == s.len() ==> forall|i: int| from <= i < s.len() ==> s[i] != SLIP_END,
        forall|i: int| from <= i < k ==> s[i] != SLIP_END,
    ensures
        find_delim(s, from) == k,
    decreases k - from,
{
    if from < k {
        lemma_find_delim_at(s, from + 1, k);
    }
}

/// What one extraction step yields on a buffer: the first complete
/// sentinel-delimited frame, both delimiters included, together with the
/// bytes that remain after it; or nothing, when the buffer holds no two
/// sentinel bytes yet. Bytes before the frame's leading sentinel are
/// dropped as noise.
pub open spec fn spec_extract(s: Seq<u8>) -> Option<(Seq<u8>, Seq<u8>)> {
    let start = find_delim(s, 0);
    let end = find_delim(s, start + 1);
    if start < s.len() && end < s.len() {
        Some((s.subrange(start, end + 1), s.subrange(end + 1, s.len() as int)))
    } else {
        None
    }
}

/// The scanner. It owns the accumulation buffer exclusively: chunks are
/// appended by [`FrameExtractor::feed`], complete frames are removed by
/// [`FrameExtractor::next_frame`], and a partial frame is retained for the
/// next call.
pub struct FrameExtractor {
    buffer: Vec<u8>,
}

impl View for FrameExtractor {
    type V = Seq<u8>;

    closed spec fn view(&self) -> Seq<u8> {
        self.buffer@
    }
}

impl FrameExtractor {
    /// A fresh scanner with an empty accumulation buffer.
    pub fn new() -> (r: FrameExtractor)
        ensures
            r@ == Seq::<u8>::empty(),
    {
        FrameExtractor { buffer: Vec::new() }
    }

    /// Appends one chunk, of whatever size the transport happened to
    /// deliver, to the accumulation buffer.
    pub fn feed(&mut self, chunk: &[u8])
        ensures
            final(self)@ == old(self)@ + chunk@,
    {
        let mut index: usize = 0;
        while index < chunk.len()
            invariant
                index <= chunk.len(),
                self.buffer@ == old(self)@ + chunk@.subrange(0, index as int),
            decreases chunk.len() - index,
        {
            self.buffer.push(chunk[index]);
            proof {
                assert(self.buffer@ =~= old(self)@ + chunk@.subrange(0, index + 1));
            }
            index = index + 1;
        }
        proof {
            assert(old(self)@ + chunk@.subrange(0, chunk@.len() as int) =~= old(self)@ + chunk@);
        }
    }

    /// Removes and returns the first complete sentinel-delimited frame,
    /// both delimiters included, discarding any noise bytes before it;
    /// or returns nothing and leaves the buffer as it is, when no complete
    /// frame has arrived yet.
    pub fn next_frame(&mut self) -> (r: Option<Vec<u8>>)
        ensures
            match r {
                Some(f) => spec_extract(old(self)@) == Some((f@, final(self)@)),
                None => spec_extract(old(self)@) is None && final(self)@ == old(self)@,
            },
    {
        let len = self.buffer.len();

        let mut start: usize = 0;
        while start < len && self.buffer[start] != SLIP_END
            invariant
                0 <= start <= len,
                len == self.buffer@.len(),
                self.buffer@ == old(self)@,
                forall|i: int| 0 <= i < start ==> self.buffer@[i] != SLIP_END,
            decreases len - start,
        {
            start = start + 1;
        }
        proof {
            if start == len {
                lemma_find_delim_at(self.buffer@, 0, len as int);
            } else {
                lemma_find_delim_at(self.buffer@, 0, start as int);
            }
        }

        if start == len {
            return None;
        }

        let mut end: usize = start + 1;
        while end < len && self.buffer[end] != SLIP_END
            invariant
                start + 1 <= end <= len,
                len == self.buffer@.len(),
                self.buffer@ == old(self)@,
                forall|i: int| start + 1 <= i < end ==> self.buffer@[i] != SLIP_END,
            decreases len - end,
        {
            end = end + 1;
        }
        proof {
            if end == len {
                lemma_find_delim_at(self.buffer@, start + 1, len as int);
            } else {
                lemma_find_delim_at(self.buffer@, start + 1, end as int);
            }
        }

        if end == len {
            return None;
        }

        let mut frame: Vec<u8> = Vec::new();
        let mut index: usize = start;
        while index <= end
            invariant
                start <= index <= end + 1,
                end < len == self.buffer@.len(),
                self.buffer@ == old(self)@,
                frame@ == self.buffer@.subrange(start as int, index as int),
            decreases end + 1 - index,
        {
            frame.push(self.buffer[index]);
            proof {
                assert(frame@ =~= self.buffer@.subrange(start as int, index + 1));
            }
            index = index + 1;
        }

        let mut rest: Vec<u8> = Vec::new();
        let mut tail: usize = end + 1;
        while tail < len
            invariant
                end + 1 <= tail <= len,
                len == self.buffer@.len(),
                self.buffer@ == old(self)@,
                rest@ == self.buffer@.subrange(end + 1, tail as int),
            decreases len - tail,
        {
            rest.push(self.buffer[tail]);
            proof {
                assert(rest@ =~= self.buffer@.subrange(end + 1, tail + 1));
            }
            tail = tail + 1;
        }

        self.buffer = rest;
        Some(frame)
    }

    /// One step of the whole decode pipeline: extracts the first complete
    /// frame, unescapes it, and parses the result into a packet. Returns
    /// nothing when no complete frame has arrived; a frame that fails to
    /// unescape or to parse is consumed all the same, and its typed error
    /// is returned, so a corrupt frame never stalls the stream.
    pub fn next_packet(&mut self) -> (r: Option<Result<H5Packet, Error>>)
        ensures
            match r {
                None => spec_extract(old(self)@) is None && final(self)@ == old(self)@,
                Some(pr) => spec_extract(old(self)@) matches Some((frame, rest))
                    && final(self)@ == rest
                    && match pr {
                        Ok(p) => slip::spec_decode(frame) matches Some(d)
                            && h5::spec_parse(d) == Ok::<h5::H5PacketView, Error>(p@),
                        Err(e) => (slip::spec_decode(frame) is None
                                && e == Error::DecodingError)
                            || (slip::spec_decode(frame) matches Some(d)
                                && h5::spec_parse(d) == Err::<h5::H5PacketView, Error>(e)),
                    },
            },
    {
        match self.next_frame() {
            None => None,
            Some(frame) => match slip::decode(frame.as_slice()) {
                Err(e) => Some(Err(e)),
                Ok(decoded) => match H5Packet::new(decoded.as_slice()) {
                    Ok(packet) => Some(Ok(packet)),
                    Err(e) => Some(Err(e)),
                },
            },
        }
    }
}

/// However a stream of two encoded frames is cut into three chunks, the
/// buffer that accumulates them is their concatenation, and extraction
/// yields exactly the two frames, in order, and then nothing.
pub proof fn lemma_two_frames_extracted(f1: Seq<u8>, f2: Seq<u8>, a: Seq<u8>, b: Seq<u8>, c: Seq<u8>)
    requires
        a + b + c == slip::spec_encode(f1) + slip::spec_encode(f2),
    ensures
        spec_extract(a + b + c) == Some((slip::spec_encode(f1), slip::spec_encode(f2))),
        spec_extract(slip::spec_encode(f2)) == Some((slip::spec_encode(f2), Seq::<u8>::empty())),
        spec_extract(Seq::<u8>::empty()) is None,
{
    lemma_extract_encoded_frame(f1, slip::spec_encode(f2));
    lemma_extract_encoded_frame(f2, Seq::<u8>::empty());
    assert(slip::spec_encode(f2) + Seq::<u8>::empty() =~= slip::spec_encode(f2));
}

/// An encoded frame at the head of a buffer is exactly what extraction
/// removes: the frame comes out whole, and the bytes after it stay.
pub proof fn lemma_extract_encoded_frame(f: Seq<u8>, rest: Seq<u8>)
    ensures
        spec_extract(slip::spec_encode(f) + rest) == Some((slip::spec_encode(f), rest)),
{
    let enc = slip::spec_encode(f);
    let body = slip::spec_encode_body(f);
    let s = enc + rest;
    slip::lemma_encode_body_no_end(f);
    assert(s[0] == SLIP_END);
    lemma_find_delim_at(s, 0, 0);
    let k = 1 + body.len() as int;
    assert(s[k] == SLIP_END);
    assert forall|i: int| 1 <= i < k implies s[i] != SLIP_END by {
        assert(s[i] == body[i - 1]);
    }
    lemma_find_delim_at(s, 1, k);
    assert(s.subrange(0, k + 1) =~= enc);
    assert(s.subrange(k + 1, s.len() as int) =~= rest);
}

} // verus!
