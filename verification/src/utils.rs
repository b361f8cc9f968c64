//! Taking groups of bits out of a buffer, one after the other.

use crate::bits::{raw_range, Bits};
use crate::error::DecodeError;
use vstd::prelude::*;

verus! {

/// How many bits a buffer of `len` bits has from index `cursor` on.
pub open spec fn bits_left(len: nat, cursor: nat) -> nat {
    if cursor <= len {
        (len - cursor) as nat
    } else {
        0
    }
}

/// Copies the `size` bits of `array` that start at index `cursor`.
///
/// Where `array` has fewer than `size` bits from `cursor` on, nothing is copied and the
/// error says how many were asked for and how many were left.
pub fn access(array: &Bits, cursor: usize, size: usize) -> (r: Result<Bits, DecodeError>)
    ensures
        array@.len() <= usize::MAX,
        match r {
            Ok(group) => {
                &&& cursor + size <= array@.len()
                &&& group@ == array@.subrange(cursor as int, cursor + size)
            },
            Err(e) => {
                &&& cursor + size > array@.len()
                &&& e == (DecodeError::BufferExhausted {
                    requested: size,
                    remaining: bits_left(array@.len(), cursor as nat) as usize,
                })
            },
        },
{
    let len: usize = array.len();
    if cursor > len {
        Err(DecodeError::BufferExhausted { requested: size, remaining: 0 })
    } else if size > len - cursor {
        Err(DecodeError::BufferExhausted { requested: size, remaining: len - cursor })
    } else {
        Ok(raw_range(array, cursor, cursor + size))
    }
}

/// A position in a buffer of bits, from which groups of bits are taken in sequence.
///
/// A cursor borrows its buffer and belongs to whoever made it: two cursors over one
/// buffer do not move each other.
pub struct BitCursor<'a> {
    bits: &'a Bits,
    pos: usize,
}

impl<'a> BitCursor<'a> {
    #[verifier::type_invariant]
    spec fn in_bounds(self) -> bool {
        self.pos <= self.bits@.len()
    }

    /// The bits of the buffer that the cursor reads.
    pub closed spec fn buffer(&self) -> Seq<bool> {
        self.bits@
    }

    /// The number of bits taken so far, which is the index of the next bit.
    pub closed spec fn spec_position(&self) -> usize {
        self.pos
    }

    /// A cursor at the first bit of `bits`.
    pub fn new(bits: &'a Bits) -> (cursor: Self)
        ensures
            cursor.buffer() == bits@,
            cursor.position() == 0,
    {
        BitCursor { bits, pos: 0 }
    }

    /// The number of bits taken so far.
    #[verifier::when_used_as_spec(spec_position)]
    pub fn position(&self) -> (pos: usize)
        ensures
            pos == self.position(),
            pos <= self.buffer().len(),
    {
        proof {
            use_type_invariant(self);
        }
        self.pos
    }

    /// The number of bits that are left to take.
    pub fn remaining(&self) -> (left: usize)
        ensures
            left == self.buffer().len() - self.position(),
    {
        proof {
            use_type_invariant(self);
        }
        self.bits.len() - self.pos
    }

    /// Takes the next `n` bits and moves past them.
    ///
    /// Where fewer than `n` bits are left, the cursor stays where it is and the error
    /// says how many were asked for and how many were left.
    pub fn take(&mut self, n: usize) -> (r: Result<Bits, DecodeError>)
        ensures
            final(self).buffer() == old(self).buffer(),
            match r {
                Ok(group) => {
                    &&& old(self).position() + n <= old(self).buffer().len()
                    &&& group@ == old(self).buffer().subrange(
                        old(self).position() as int,
                        old(self).position() + n,
                    )
                    &&& final(self).position() == old(self).position() + n
                },
                Err(e) => {
                    &&& old(self).position() + n > old(self).buffer().len()
                    &&& e == (DecodeError::BufferExhausted {
                        requested: n,
                        remaining: (old(self).buffer().len() - old(self).position()) as usize,
                    })
                    &&& final(self).position() == old(self).position()
                },
            },
    {
        proof {
            use_type_invariant(&*self);
        }
        match access(self.bits, self.pos, n) {
            Ok(group) => {
                self.pos = self.pos + n;
                Ok(group)
            },
            Err(e) => Err(e),
        }
    }
}

} // verus!
