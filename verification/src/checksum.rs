//! The 8-bit checksum that closes a frame header, and a reader that computes
//! it over the bytes that pass through it.

use vstd::prelude::*;
use crate::error::{Error, FlacResult};
use crate::input::{SliceReader, be_u16};

verus! {

/// One step of the checksum's shift register: the register moves up by one
/// bit, and where a bit falls out at the top, the generator polynomial
/// x^8 + x^2 + x + 1 is taken off.
pub open spec fn crc8_shift(register: u8) -> u8 {
    if register & 0x80 != 0 {
        (register << 1) ^ 0x07
    } else {
        register << 1
    }
}

/// `rounds` steps of the shift register.
pub open spec fn crc8_shifts(register: u8, rounds: nat) -> u8
    decreases rounds,
{
    if rounds == 0 {
        register
    } else {
        crc8_shifts(crc8_shift(register), (rounds - 1) as nat)
    }
}

/// The checksum after one more byte: the byte is added to the register,
/// which then takes eight steps.
pub open spec fn crc8_update(crc: u8, byte: u8) -> u8 {
    crc8_shifts(crc ^ byte, 8)
}

/// The checksum of a sequence of bytes, which starts from zero and takes
/// the bytes in order.
pub open spec fn crc8(bytes: Seq<u8>) -> u8
    decreases bytes.len(),
{
    if bytes.len() == 0 {
        0
    } else {
        crc8_update(crc8(bytes.drop_last()), bytes.last())
    }
}

/// The checksum of the first `n + 1` bytes follows from that of the first `n`.
pub proof fn lemma_crc8_take(bytes: Seq<u8>, n: int)
    requires
        0 <= n < bytes.len(),
    ensures
        crc8(bytes.take(n + 1)) == crc8_update(crc8(bytes.take(n)), bytes[n]),
{
    assert(bytes.take(n + 1).drop_last() =~= bytes.take(n));
}

/// Computes [`crc8_update`].
pub fn update_crc8(crc: u8, byte: u8) -> (r: u8)
    ensures
        r == crc8_update(crc, byte),
{
    let mut register: u8 = crc ^ byte;
    let mut round: u8 = 0;
    while round < 8
        invariant
            round <= 8,
            crc8_shifts(register, (8 - round) as nat) == crc8_update(crc, byte),
        decreases 8 - round,
    {
        register = if register & 0x80 != 0 {
            (register << 1) ^ 0x07
        } else {
            register << 1
        };
        round = round + 1;
    }
    register
}

/// Computes the checksum of `bytes`.
pub fn compute_crc8(bytes: &[u8]) -> (r: u8)
    ensures
        r == crc8(bytes@),
{
    let mut crc: u8 = 0;
    let mut i: usize = 0;
    while i < bytes.len()
        invariant
            i <= bytes@.len(),
            crc == crc8(bytes@.take(i as int)),
        decreases bytes@.len() - i,
    {
        proof {
            lemma_crc8_take(bytes@, i as int);
        }
        crc = update_crc8(crc, bytes[i]);
        i = i + 1;
    }
    proof {
        assert(bytes@.take(i as int) =~= bytes@);
    }
    crc
}

/// A reader that passes bytes on from a [`SliceReader`] unchanged and keeps
/// the checksum of every byte that it has passed on.
pub struct Crc8Reader<'a> {
    input: SliceReader<'a>,
    crc: u8,
    source: Ghost<Seq<u8>>,
    position: Ghost<nat>,
}

impl<'a> Crc8Reader<'a> {
    #[verifier::type_invariant]
    spec fn well_formed(self) -> bool {
        &&& self.position@ <= self.source@.len()
        &&& self.input@ == self.source@.skip(self.position@ as int)
        &&& self.crc == crc8(self.source@.take(self.position@ as int))
    }

    /// The bytes that the wrapped reader held when it was wrapped.
    pub closed spec fn source(&self) -> Seq<u8> {
        self.source@
    }

    /// The number of bytes that have been read through this reader.
    pub closed spec fn position(&self) -> nat {
        self.position@
    }

    /// Wraps `input`. The checksum starts afresh.
    pub fn new(input: SliceReader<'a>) -> (r: Crc8Reader<'a>)
        ensures
            r.source() == input@,
            r.position() == 0,
    {
        proof {
            assert(input@.skip(0) =~= input@);
            assert(input@.take(0).len() == 0);
        }
        Crc8Reader { input, crc: 0, source: Ghost(input@), position: Ghost(0) }
    }

    /// Reads one byte and takes it into the checksum. At the end of the input
    /// this fails with an I/O error, and nothing changes.
    pub fn read_byte(&mut self) -> (r: FlacResult<u8>)
        ensures
            final(self).source() == old(self).source(),
            old(self).position() + 1 <= old(self).source().len() ==> r == Ok::<u8, Error>(
                old(self).source()[old(self).position() as int],
            ) && final(self).position() == old(self).position() + 1,
            old(self).position() + 1 > old(self).source().len() ==> (r matches Err(
                Error::IoError(_),
            )) && final(self).position() == old(self).position(),
    {
        proof {
            use_type_invariant(&*self);
        }
        let mut input = self.input.fork();
        let byte: u8 = input.read_byte()?;
        let crc: u8 = update_crc8(self.crc, byte);
        let source = self.source;
        let position: Ghost<nat> = Ghost((self.position@ + 1) as nat);
        proof {
            lemma_crc8_take(source@, self.position@ as int);
            assert(source@.skip(self.position@ as int).skip(1) =~= source@.skip(
                position@ as int,
            ));
        }
        *self = Crc8Reader { input, crc, source, position };
        Ok(byte)
    }

    /// Reads two bytes as a big-endian number and takes both into the
    /// checksum, the high byte first. Where fewer than two bytes are left this
    /// fails with an I/O error, and nothing changes.
    pub fn read_be_u16(&mut self) -> (r: FlacResult<u16>)
        ensures
            final(self).source() == old(self).source(),
            old(self).position() + 2 <= old(self).source().len() ==> r == Ok::<u16, Error>(
                be_u16(
                    old(self).source()[old(self).position() as int],
                    old(self).source()[old(self).position() as int + 1],
                ),
            ) && final(self).position() == old(self).position() + 2,
            old(self).position() + 2 > old(self).source().len() ==> (r matches Err(
                Error::IoError(_),
            )) && final(self).position() == old(self).position(),
    {
        proof {
            use_type_invariant(&*self);
        }
        let mut input = self.input.fork();
        let value: u16 = input.read_be_u16()?;
        let hi: u8 = (value / 256) as u8;
        let lo: u8 = (value % 256) as u8;
        let crc: u8 = update_crc8(update_crc8(self.crc, hi), lo);
        let source = self.source;
        let position: Ghost<nat> = Ghost((self.position@ + 2) as nat);
        proof {
            lemma_crc8_take(source@, self.position@ as int);
            lemma_crc8_take(source@, self.position@ as int + 1);
            assert(source@.skip(self.position@ as int).skip(2) =~= source@.skip(
                position@ as int,
            ));
        }
        *self = Crc8Reader { input, crc, source, position };
        Ok(value)
    }

    /// The checksum of the bytes read so far. This reads nothing.
    pub fn crc(&self) -> (r: u8)
        ensures
            r == crc8(self.source().take(self.position() as int)),
    {
        proof {
            use_type_invariant(self);
        }
        self.crc
    }

    /// Gives back the wrapped reader, which stands behind the bytes read.
    pub fn into_inner(self) -> (r: SliceReader<'a>)
        ensures
            r@ == self.source().skip(self.position() as int),
    {
        proof {
            use_type_invariant(&self);
        }
        self.input
    }
}

} // verus!
