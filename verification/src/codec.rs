//! Newline-delimited line framing.
//!
//! Decoding consumes the buffered byte stream up to and including the first
//! newline, checks that the consumed bytes are 7-bit ASCII (the transport
//! carries ASCII text only), and yields the line with surrounding
//! whitespace trimmed.  With no newline buffered yet it yields nothing and
//! keeps the input.  Encoding appends a single newline terminator; there is
//! no escaping and no further framing.

use vstd::prelude::*;

use crate::text::{
    all_ascii_range, find_byte, lemma_find_props, spec_all_ascii, spec_find, spec_is_space,
    spec_trim, trim_copy,
};

verus! {

/// The consumed bytes were not valid ASCII text.
#[derive(Clone, Copy, PartialEq, Eq, Structural, Debug)]
pub struct DecodeError;

/// Line framing state: the bytes received so far that have not yet been
/// consumed as complete lines.
pub struct LineCodec {
    pub buf: Vec<u8>,
}

/// The byte stream that encoding `item` produces.
pub open spec fn spec_encode(item: Seq<u8>) -> Seq<u8> {
    item + seq![10u8]
}

impl LineCodec {
    /// A codec with nothing buffered.
    pub fn new() -> (r: LineCodec)
        ensures
            r.buf@ == Seq::<u8>::empty(),
    {
        LineCodec { buf: Vec::new() }
    }

    /// Buffer newly received bytes after the ones already held.
    pub fn push_bytes(&mut self, chunk: &[u8])
        ensures
            final(self).buf@ == old(self).buf@ + chunk@,
    {
        let len = chunk.len();
        let mut i: usize = 0;
        while i < len
            invariant
                i <= len,
                len == chunk@.len(),
                self.buf@ == old(self).buf@ + chunk@.take(i as int),
            decreases len - i,
        {
            self.buf.push(chunk[i]);
            proof {
                assert(old(self).buf@ + chunk@.take(i as int + 1) =~= (old(self).buf@
                    + chunk@.take(i as int)).push(chunk@[i as int]));
            }
            i = i + 1;
        }
        proof {
            assert(chunk@.take(len as int) =~= chunk@);
        }
    }

    /// Append `item` and its newline terminator to `dst`.
    pub fn encode(&self, item: &[u8], dst: &mut Vec<u8>)
        ensures
            final(dst)@ == old(dst)@ + spec_encode(item@),
    {
        let len = item.len();
        let mut i: usize = 0;
        while i < len
            invariant
                i <= len,
                len == item@.len(),
                dst@ == old(dst)@ + item@.take(i as int),
            decreases len - i,
        {
            dst.push(item[i]);
            proof {
                assert(old(dst)@ + item@.take(i as int + 1) =~= (old(dst)@ + item@.take(
                    i as int,
                )).push(item@[i as int]));
            }
            i = i + 1;
        }
        dst.push(10);
        proof {
            assert(item@.take(len as int) =~= item@);
            assert(final(dst)@ =~= old(dst)@ + spec_encode(item@));
        }
    }

    /// Consume the next complete line, if one is buffered.
    ///
    /// With no newline buffered, nothing is consumed and nothing yielded.
    /// Otherwise everything up to and including the first newline is
    /// consumed; if those bytes are ASCII the trimmed line is yielded, and
    /// if not, decoding fails (the malformed bytes stay consumed).
    pub fn decode(&mut self) -> (r: Result<Option<Vec<u8>>, DecodeError>)
        ensures
            ({
                let s = old(self).buf@;
                let nl = spec_find(s, 10, 0);
                if nl == -1 {
                    r matches Ok(None) && final(self).buf@ == s
                } else {
                    &&& final(self).buf@ == s.skip(nl + 1)
                    &&& if spec_all_ascii(s.take(nl + 1)) {
                        r matches Ok(Some(line)) && line@ == spec_trim(s.take(nl + 1))
                    } else {
                        r matches Err(_)
                    }
                }
            }),
    {
        let ghost s = self.buf@;
        let buf_len = self.buf.len();
        match find_byte(self.buf.as_slice(), 10, 0) {
            None => {
                proof {
                    assert(final(self).buf@ == s);
                }
                Ok(None)
            },
            Some(n) => {
                assert(n < buf_len);
                let rest = self.buf.split_off(n + 1);
                // self.buf now holds the consumed bytes, `rest` what follows
                proof {
                    assert(self.buf@ =~= s.take(n + 1));
                    assert(rest@ =~= s.skip(n + 1));
                }
                let ok = all_ascii_range(self.buf.as_slice(), 0, self.buf.len());
                proof {
                    assert(self.buf@.subrange(0, self.buf@.len() as int) =~= self.buf@);
                }
                let result = if ok {
                    Ok(Some(trim_copy(self.buf.as_slice())))
                } else {
                    Err(DecodeError)
                };
                self.buf = rest;
                result
            },
        }
    }
}

/// Framing round trip: a line that contains no newline, once encoded and
/// fed back through decoding, comes out as the same line with surrounding
/// whitespace trimmed, after exactly one decode, with nothing left
/// buffered.  Together with the contracts of `encode` and `decode` this
/// pins the behaviour of the framing pair on every such line.
pub proof fn lemma_round_trip(item: Seq<u8>)
    requires
        forall|i: int| 0 <= i < item.len() ==> item[i] != 10,
        spec_all_ascii(item),
    ensures
        spec_find(spec_encode(item), 10, 0) == item.len(),
        spec_encode(item).take(item.len() as int + 1) == spec_encode(item),
        spec_all_ascii(spec_encode(item)),
        spec_trim(spec_encode(item)) == spec_trim(item),
        spec_encode(item).skip(item.len() as int + 1) == Seq::<u8>::empty(),
{
    let enc = spec_encode(item);
    lemma_find_props(enc, 10, 0);
    let nl = spec_find(enc, 10, 0);
    assert(enc[item.len() as int] == 10);
    assert(nl != -1);
    assert(nl == item.len()) by {
        if 0 <= nl < item.len() {
            assert(enc[nl] == item[nl]);
            assert(item[nl] != 10);
        }
    }
    assert(enc.take(item.len() as int + 1) =~= enc);
    assert(enc.skip(item.len() as int + 1) =~= Seq::<u8>::empty());
    lemma_trim_trailing_newline(item);
}

/// Trimming ignores the newline terminator.
proof fn lemma_trim_trailing_newline(item: Seq<u8>)
    ensures
        spec_trim(item + seq![10u8]) == spec_trim(item),
    decreases item.len(),
{
    let ext = item + seq![10u8];
    if item.len() == 0 {
        assert(ext.len() == 1);
        assert(ext[0] == 10);
        assert(spec_is_space(ext[0]));
        assert(ext.skip(1) =~= item);
    } else if spec_is_space(item[0]) {
        assert(ext[0] == item[0]);
        assert(ext.skip(1) =~= item.skip(1) + seq![10u8]);
        lemma_trim_trailing_newline(item.skip(1));
    } else {
        assert(ext[0] == item[0]);
        assert(ext.last() == 10);
        assert(spec_is_space(ext.last()));
        assert(ext.drop_last() =~= item);
    }
}

} // verus!
