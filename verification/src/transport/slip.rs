//! SLIP byte stuffing: frames are delimited by a sentinel byte, and literal
//! occurrences of the sentinel or of the escape byte inside a frame body are
//! replaced by two-byte escape sequences.

use vstd::prelude::*;
use crate::Error;

verus! {

/// Frame delimiter (sentinel) byte.
pub const SLIP_END: u8 = 0xC0;
/// Escape byte.
pub const SLIP_ESC: u8 = 0xDB;
/// Second byte of the escape sequence standing for a literal sentinel.
pub const SLIP_ESC_END: u8 = 0xDC;
/// Second byte of the escape sequence standing for a literal escape byte.
pub const SLIP_ESC_ESC: u8 = 0xDD;

/// The encoding of one body byte: the sentinel and the escape byte become
/// two-byte escape sequences, every other byte stands for itself.
pub open spec fn spec_encode_byte(b: u8) -> Seq<u8> {
    if b == SLIP_END {
        seq![SLIP_ESC, SLIP_ESC_END]
    } else if b == SLIP_ESC {
        seq![SLIP_ESC, SLIP_ESC_ESC]
    } else {
        seq![b]
    }
}

/// The escaped frame body: each input byte encoded in order, without the
/// surrounding delimiters.
pub open spec fn spec_encode_body(s: Seq<u8>) -> Seq<u8>
    decreases s.len(),
{
    if s.len() == 0 {
        Seq::empty()
    } else {
        spec_encode_byte(s[0]) + spec_encode_body(s.drop_first())
    }
}

/// A complete SLIP frame: the escaped body wrapped in a leading and a
/// trailing sentinel byte.
pub open spec fn spec_encode(s: Seq<u8>) -> Seq<u8> {
    seq![SLIP_END] + spec_encode_body(s) + seq![SLIP_END]
}

/// The unescaping of a byte sequence. Sentinel bytes are skipped, so the
/// input may be the raw inter-delimiter bytes or the full delimited frame.
/// `None` stands for a malformed escape: an escape byte at the end of the
/// input, or one followed by anything but the two recognized codes.
pub open spec fn spec_decode(s: Seq<u8>) -> Option<Seq<u8>>
    decreases s.len(),
{
    if s.len() == 0 {
        Some(Seq::empty())
    } else if s[0] == SLIP_END {
        spec_decode(s.drop_first())
    } else if s[0] == SLIP_ESC {
        if s.len() == 1 {
            None
        } else if s[1] == SLIP_ESC_END {
            match spec_decode(s.subrange(2, s.len() as int)) {
                Some(t) => Some(seq![SLIP_END] + t),
                None => None,
            }
        } else if s[1] == SLIP_ESC_ESC {
            match spec_decode(s.subrange(2, s.len() as int)) {
                Some(t) => Some(seq![SLIP_ESC] + t),
                None => None,
            }
        } else {
            None
        }
    } else {
        match spec_decode(s.drop_first()) {
            Some(t) => Some(seq![s[0]] + t),
            None => None,
        }
    }
}

proof fn lemma_encode_body_push(s: Seq<u8>, b: u8)
    ensures
        spec_encode_body(s.push(b)) == spec_encode_body(s) + spec_encode_byte(b),
    decreases s.len(),
{
    if s.len() == 0 {
        assert(s.push(b).drop_first() =~= Seq::<u8>::empty());
        assert(s.push(b)[0] == b);
        assert(spec_encode_body(s.push(b))
            == spec_encode_byte(b) + spec_encode_body(Seq::<u8>::empty()));
        assert(spec_encode_byte(b) + Seq::<u8>::empty() =~= spec_encode_byte(b));
        assert(spec_encode_body(s) + spec_encode_byte(b) =~= spec_encode_byte(b));
    } else {
        assert(s.push(b).drop_first() =~= s.drop_first().push(b));
        assert(s.push(b)[0] == s[0]);
        lemma_encode_body_push(s.drop_first(), b);
        assert(spec_encode_body(s.push(b))
            =~= spec_encode_byte(s[0]) + (spec_encode_body(s.drop_first()) + spec_encode_byte(b)));
        assert(spec_encode_byte(s[0]) + (spec_encode_body(s.drop_first()) + spec_encode_byte(b))
            =~= spec_encode_body(s) + spec_encode_byte(b));
    }
}

/// The escaped frame body never contains the sentinel byte: that is what
/// makes the sentinel a reliable frame delimiter.
pub proof fn lemma_encode_body_no_end(s: Seq<u8>)
    ensures
        forall|i: int| 0 <= i < spec_encode_body(s).len() ==> spec_encode_body(s)[i] != SLIP_END,
    decreases s.len(),
{
    if s.len() != 0 {
        lemma_encode_body_no_end(s.drop_first());
        assert forall|i: int| 0 <= i < spec_encode_body(s).len()
            implies spec_encode_body(s)[i] != SLIP_END by {
            let head = spec_encode_byte(s[0]);
            if i < head.len() {
                assert(spec_encode_body(s)[i] == head[i]);
            } else {
                assert(spec_encode_body(s)[i] == spec_encode_body(s.drop_first())[i - head.len()]);
            }
        }
    }
}

/// Unescaping undoes escaping of the frame body, whatever follows it: the
/// decode of an escaped body followed by any remainder is the body's bytes
/// followed by the decode of the remainder.
pub proof fn lemma_decode_encoded_body(s: Seq<u8>, rest: Seq<u8>)
    ensures
        spec_decode(spec_encode_body(s) + rest) == match spec_decode(rest) {
            Some(t) => Some(s + t),
            None => None::<Seq<u8>>,
        },
    decreases s.len(),
{
    if s.len() == 0 {
        assert(spec_encode_body(s) + rest =~= rest);
        if spec_decode(rest) is Some {
            assert(s + spec_decode(rest)->Some_0 =~= spec_decode(rest)->Some_0);
        }
    } else {
        let b = s[0];
        let tail = s.drop_first();
        let u = spec_encode_body(tail) + rest;
        let w = spec_encode_body(s) + rest;
        assert(w =~= spec_encode_byte(b) + u);
        lemma_decode_encoded_body(tail, rest);
        if b == SLIP_END {
            assert(w[0] == SLIP_ESC && w[1] == SLIP_ESC_END);
            assert(w.subrange(2, w.len() as int) =~= u);
            if spec_decode(rest) is Some {
                let t = spec_decode(rest)->Some_0;
                assert(seq![SLIP_END] + (tail + t) =~= s + t);
            }
        } else if b == SLIP_ESC {
            assert(w[0] == SLIP_ESC && w[1] == SLIP_ESC_ESC);
            assert(w.subrange(2, w.len() as int) =~= u);
            if spec_decode(rest) is Some {
                let t = spec_decode(rest)->Some_0;
                assert(seq![SLIP_ESC] + (tail + t) =~= s + t);
            }
        } else {
            assert(w[0] == b);
            assert(w.drop_first() =~= u);
            if spec_decode(rest) is Some {
                let t = spec_decode(rest)->Some_0;
                assert(seq![b] + (tail + t) =~= s + t);
            }
        }
    }
}

/// Round trip: unescaping a complete encoded frame gives back exactly the
/// bytes that were encoded, for every byte sequence.
pub proof fn lemma_encode_decode_round_trip(s: Seq<u8>)
    ensures
        spec_decode(spec_encode(s)) == Some(s),
{
    let w = spec_encode(s);
    assert(w[0] == SLIP_END);
    assert(w.drop_first() =~= spec_encode_body(s) + seq![SLIP_END]);
    let delim = seq![SLIP_END];
    assert(delim[0] == SLIP_END);
    assert(delim.drop_first() =~= Seq::<u8>::empty());
    assert(spec_decode(Seq::<u8>::empty()) == Some(Seq::<u8>::empty()));
    assert(spec_decode(delim) == Some(Seq::<u8>::empty()));
    lemma_decode_encoded_body(s, delim);
    assert(s + Seq::<u8>::empty() =~= s);
}

/// Wraps the input in a leading and a trailing sentinel byte, escaping every
/// literal sentinel and escape byte of the body. Encoding never fails.
pub fn encode(input: &[u8]) -> (r: Vec<u8>)
    ensures
        r@ == spec_encode(input@),
{
    let mut encoded_data: Vec<u8> = Vec::new();
    encoded_data.push(SLIP_END);

    let mut index: usize = 0;
    while index < input.len()
        invariant
            index <= input.len(),
            encoded_data@ == seq![SLIP_END] + spec_encode_body(input@.subrange(0, index as int)),
        decreases input.len() - index,
    {
        let byte = input[index];
        if byte == SLIP_END {
            encoded_data.push(SLIP_ESC);
            encoded_data.push(SLIP_ESC_END);
        } else if byte == SLIP_ESC {
            encoded_data.push(SLIP_ESC);
            encoded_data.push(SLIP_ESC_ESC);
        } else {
            encoded_data.push(byte);
        }
        proof {
            let pre = input@.subrange(0, index as int);
            assert(input@.subrange(0, index + 1) =~= pre.push(input@[index as int]));
            lemma_encode_body_push(pre, input@[index as int]);
            assert(encoded_data@ =~= seq![SLIP_END] + spec_encode_body(input@.subrange(0, index + 1)));
        }
        index = index + 1;
    }

    encoded_data.push(SLIP_END);

    proof {
        assert(input@.subrange(0, input@.len() as int) =~= input@);
        assert(encoded_data@ =~= spec_encode(input@));
    }

    encoded_data
}

/// Reverses the escaping. Sentinel bytes in the input are skipped, so both
/// the raw inter-delimiter bytes and the full delimited frame are accepted.
/// Fails with [`Error::DecodingError`] exactly when the input holds a
/// dangling escape byte or an escape followed by an unrecognized code.
pub fn decode(input: &[u8]) -> (r: Result<Vec<u8>, Error>)
    ensures
        match r {
            Ok(v) => spec_decode(input@) == Some(v@),
            Err(e) => spec_decode(input@) is None && e == Error::DecodingError,
        },
{
    let mut decoded_data: Vec<u8> = Vec::new();
    let mut index: usize = 0;
    let len = input.len();

    proof {
        assert(input@.subrange(0, len as int) =~= input@);
        if spec_decode(input@) is Some {
            assert(Seq::<u8>::empty() + spec_decode(input@)->Some_0
                =~= spec_decode(input@)->Some_0);
        }
    }

    while index < len
        invariant
            index <= len,
            len == input@.len(),
            spec_decode(input@) == match spec_decode(input@.subrange(index as int, len as int)) {
                Some(t) => Some(decoded_data@ + t),
                None => None::<Seq<u8>>,
            },
        decreases len - index,
    {
        let ghost rest = input@.subrange(index as int, len as int);
        let byte = input[index];
        assert(byte == rest[0]);
        if byte == SLIP_END {
            proof {
                assert(rest.drop_first() =~= input@.subrange(index + 1, len as int));
            }
            index = index + 1;
        } else if byte == SLIP_ESC {
            index = index + 1;
            if index == len {
                proof {
                    assert(spec_decode(rest) is None);
                }
                return Err(Error::DecodingError);
            }
            let next = input[index];
            assert(next == rest[1]);
            proof {
                assert(rest.subrange(2, rest.len() as int) =~= input@.subrange(index + 1, len as int));
            }
            if next == SLIP_ESC_END {
                decoded_data.push(SLIP_END);
            } else if next == SLIP_ESC_ESC {
                decoded_data.push(SLIP_ESC);
            } else {
                proof {
                    assert(spec_decode(rest) is None);
                }
                return Err(Error::DecodingError);
            }
            proof {
                let tail = input@.subrange(index + 1, len as int);
                if spec_decode(tail) is Some {
                    assert(decoded_data@ + spec_decode(tail)->Some_0
                        =~= decoded_data@.subrange(0, decoded_data@.len() - 1)
                            + (seq![decoded_data@[decoded_data@.len() - 1]] + spec_decode(tail)->Some_0));
                }
            }
            index = index + 1;
        } else {
            decoded_data.push(byte);
            proof {
                let tail = input@.subrange(index + 1, len as int);
                assert(rest.drop_first() =~= tail);
                if spec_decode(tail) is Some {
                    assert(decoded_data@ + spec_decode(tail)->Some_0
                        =~= decoded_data@.subrange(0, decoded_data@.len() - 1)
                            + (seq![byte] + spec_decode(tail)->Some_0));
                }
            }
            index = index + 1;
        }
    }

    proof {
        assert(input@.subrange(len as int, len as int) =~= Seq::<u8>::empty());
        assert(decoded_data@ + Seq::<u8>::empty() =~= decoded_data@);
    }

    Ok(decoded_data)
}

} // verus!
