//! The byte source that the decoder reads from: a cursor over bytes held in
//! memory, which hands out single bytes and big-endian integers.

use vstd::prelude::*;
use crate::error::{Error, FlacResult};

verus! {

/// The 16-bit number whose big-endian form is the bytes `hi`, `lo`.
pub open spec fn be_u16(hi: u8, lo: u8) -> u16 {
    (hi * 256 + lo) as u16
}

/// The 32-bit number whose big-endian form is the bytes `b0` to `b3`.
pub open spec fn be_u32(b0: u8, b1: u8, b2: u8, b3: u8) -> u32 {
    (b0 * 16777216 + b1 * 65536 + b2 * 256 + b3) as u32
}

/// Trusted: calls `std::io::Error::from` on `std::io::ErrorKind::UnexpectedEof`,
/// which builds the error that std's readers give when the input ends too
/// early. Nothing is claimed of the value but that it is returned.
#[verifier::external_body]
fn unexpected_eof() -> (e: std::io::Error) {
    std::io::Error::from(std::io::ErrorKind::UnexpectedEof)
}

/// A forward-only reader over a slice of bytes. Its view is the sequence of
/// bytes that are still unread.
///
/// A reader cannot be copied: whoever holds it, or borrows it mutably, is
/// the only one to move it on.
#[derive(Debug)]
pub struct SliceReader<'a> {
    rest: &'a [u8],
}

impl<'a> View for SliceReader<'a> {
    type V = Seq<u8>;

    closed spec fn view(&self) -> Seq<u8> {
        self.rest@
    }
}

impl<'a> SliceReader<'a> {
    /// A reader that stands at the start of `data`.
    pub fn new(data: &'a [u8]) -> (r: SliceReader<'a>)
        ensures
            r@ == data@,
    {
        SliceReader { rest: data }
    }

    /// A second reader at the same place, for a reader in this library that
    /// wraps this one for a while and then gives its place back.
    pub(crate) fn fork(&self) -> (r: SliceReader<'a>)
        ensures
            r@ == self@,
    {
        SliceReader { rest: self.rest }
    }

    /// The number of bytes that are still unread.
    pub fn remaining(&self) -> (n: usize)
        ensures
            n == self@.len(),
    {
        self.rest.len()
    }

    /// Reads one byte. At the end of the input this fails with an I/O error
    /// and reads nothing.
    pub fn read_byte(&mut self) -> (r: FlacResult<u8>)
        ensures
            old(self)@.len() >= 1 ==> r == Ok::<u8, Error>(old(self)@[0]) && final(self)@
                == old(self)@.skip(1),
            old(self)@.len() < 1 ==> (r matches Err(Error::IoError(_))) && final(self)@ == old(
                self,
            )@,
    {
        let n: usize = self.rest.len();
        if n < 1 {
            return Err(Error::IoError(unexpected_eof()));
        }
        let byte: u8 = self.rest[0];
        self.rest = &self.rest[1..n];
        Ok(byte)
    }

    /// Reads two bytes as a big-endian number. Where fewer than two bytes are
    /// left this fails with an I/O error and reads nothing.
    pub fn read_be_u16(&mut self) -> (r: FlacResult<u16>)
        ensures
            old(self)@.len() >= 2 ==> r == Ok::<u16, Error>(be_u16(old(self)@[0], old(self)@[1]))
                && final(self)@ == old(self)@.skip(2),
            old(self)@.len() < 2 ==> (r matches Err(Error::IoError(_))) && final(self)@ == old(
                self,
            )@,
    {
        let n: usize = self.rest.len();
        if n < 2 {
            return Err(Error::IoError(unexpected_eof()));
        }
        let hi: u16 = self.rest[0] as u16;
        let lo: u16 = self.rest[1] as u16;
        self.rest = &self.rest[2..n];
        Ok(hi * 256 + lo)
    }

    /// Reads four bytes as a big-endian number. Where fewer than four bytes
    /// are left this fails with an I/O error and reads nothing.
    pub fn read_be_u32(&mut self) -> (r: FlacResult<u32>)
        ensures
            old(self)@.len() >= 4 ==> r == Ok::<u32, Error>(
                be_u32(old(self)@[0], old(self)@[1], old(self)@[2], old(self)@[3]),
            ) && final(self)@ == old(self)@.skip(4),
            old(self)@.len() < 4 ==> (r matches Err(Error::IoError(_))) && final(self)@ == old(
                self,
            )@,
    {
        let n: usize = self.rest.len();
        if n < 4 {
            return Err(Error::IoError(unexpected_eof()));
        }
        let b0: u32 = self.rest[0] as u32;
        let b1: u32 = self.rest[1] as u32;
        let b2: u32 = self.rest[2] as u32;
        let b3: u32 = self.rest[3] as u32;
        self.rest = &self.rest[4..n];
        Ok(b0 * 16777216 + b1 * 65536 + b2 * 256 + b3)
    }
}

} // verus!
