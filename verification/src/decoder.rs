//! A decoder that is fed the helper's output piece by piece and hands out
//! one frame at a time.

use crate::frame::{Decoded, Parse, decode_frame, parse_frame};
use crate::frame_laws::frame_lies_within;
use vstd::prelude::*;
use vstd::slice::slice_subrange;

verus! {

/// The length that a decoder's scratch buffer starts with.
pub const INITIAL_SCRATCH: usize = 500;

/// The bytes that were fed and not yet handed out as frames. They are kept
/// at the front of a scratch buffer that grows to fit and never shrinks.
pub struct Decoder {
    scratch: Vec<u8>,
    filled: usize,
}

impl View for Decoder {
    type V = Seq<u8>;

    /// The bytes that are held, oldest first.
    closed spec fn view(&self) -> Seq<u8> {
        self.scratch@.take(self.filled as int)
    }
}

impl Decoder {
    #[verifier::type_invariant]
    spec fn well_formed(self) -> bool {
        self.filled <= self.scratch.len()
    }

    /// The length of the scratch buffer.
    pub closed spec fn room(&self) -> nat {
        self.scratch.len() as nat
    }

    /// A decoder that holds no bytes.
    pub fn new() -> (decoder: Decoder)
        ensures
            decoder@ == Seq::<u8>::empty(),
            decoder.room() == INITIAL_SCRATCH,
    {
        let decoder = Decoder { scratch: vec![0u8; INITIAL_SCRATCH], filled: 0 };
        assert(decoder@ =~= Seq::<u8>::empty());
        decoder
    }

    /// The length of the scratch buffer.
    pub fn scratch_len(&self) -> (n: usize)
        ensures
            n == self.room(),
    {
        self.scratch.len()
    }

    /// Takes in bytes that were read behind those already held. The scratch
    /// buffer grows where it must, and by no more than it must.
    pub fn feed(&mut self, chunk: &[u8])
        ensures
            final(self)@ == old(self)@ + chunk@,
            final(self).room() == if final(self)@.len() <= old(self).room() {
                old(self).room()
            } else {
                final(self)@.len()
            },
    {
        proof {
            use_type_invariant(&*self);
        }
        // The buffer is taken out while it is written to, and put back with
        // the new count: the decoder itself is well formed at every step.
        let mut filled: usize = self.filled;
        let mut scratch: Vec<u8> = Vec::new();
        self.filled = 0;
        core::mem::swap(&mut self.scratch, &mut scratch);
        let mut i: usize = 0;
        assert(scratch@.take(filled as int) =~= old(self)@ + chunk@.take(0));
        while i < chunk.len()
            invariant
                i <= chunk.len(),
                filled <= scratch.len(),
                scratch@.take(filled as int) == old(self)@ + chunk@.take(i as int),
                scratch.len() == if filled <= old(self).room() {
                    old(self).room()
                } else {
                    filled as nat
                },
            decreases chunk.len() - i,
        {
            let ghost before = scratch@.take(filled as int);
            let byte: u8 = chunk[i];
            if filled < scratch.len() {
                scratch.set(filled, byte);
            } else {
                scratch.push(byte);
            }
            let room: usize = scratch.len();
            assert(filled < room);
            filled = filled + 1;
            i = i + 1;
            assert(scratch@.take(filled as int) =~= before.push(byte));
            assert(chunk@.take(i as int) =~= chunk@.take(i - 1).push(byte));
            assert(scratch@.take(filled as int) =~= old(self)@ + chunk@.take(i as int));
        }
        assert(chunk@.take(i as int) =~= chunk@);
        core::mem::swap(&mut self.scratch, &mut scratch);
        self.filled = filled;
    }

    /// Hands out the frame at the front of the bytes held, and lets go of its
    /// bytes. Where there is no whole frame, says why, and holds on to every
    /// byte.
    pub fn next_event(&mut self) -> (out: Decoded)
        ensures
            out@ == parse_frame(old(self)@),
            final(self)@ == match out@ {
                Parse::Complete { len, .. } => old(self)@.skip(len as int),
                _ => old(self)@,
            },
            final(self).room() == old(self).room(),
    {
        proof {
            use_type_invariant(&*self);
        }
        let out = decode_frame(slice_subrange(self.scratch.as_slice(), 0, self.filled));
        match out {
            Decoded::Complete { event, len } => {
                proof {
                    frame_lies_within(old(self)@);
                }
                // What lies behind the frame moves to the front of the buffer.
                let filled: usize = self.filled;
                let rest: usize = filled - len;
                let mut scratch: Vec<u8> = Vec::new();
                self.filled = 0;
                core::mem::swap(&mut self.scratch, &mut scratch);
                let mut i: usize = 0;
                while i < rest
                    invariant
                        i <= rest,
                        rest + len == filled,
                        filled <= scratch.len(),
                        scratch.len() == old(self).scratch.len(),
                        forall|j: int| 0 <= j < i ==> scratch@[j] == old(self).scratch@[len + j],
                        forall|j: int|
                            i <= j < scratch.len() ==> scratch@[j] == old(self).scratch@[j],
                    decreases rest - i,
                {
                    let byte: u8 = scratch[len + i];
                    scratch.set(i, byte);
                    i = i + 1;
                }
                assert(scratch@.take(rest as int) =~= old(self)@.skip(len as int));
                core::mem::swap(&mut self.scratch, &mut scratch);
                self.filled = rest;
                Decoded::Complete { event, len }
            },
            other => other,
        }
    }
}

} // verus!
