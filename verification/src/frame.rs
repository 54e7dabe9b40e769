//! The reader that goes through the frames of a stream.

use vstd::prelude::*;
use crate::decode::{FrameHeader, frame_header, frame_header_len, read_frame_header};
use crate::error::{Error, FlacResult};
use crate::input::SliceReader;

verus! {

/// Reads frame headers from the input of a stream, which it holds for as
/// long as it lives. Its view is the sequence of bytes that are still
/// unread.
pub struct FrameReader<'r> {
    input: &'r mut SliceReader<'r>,
}

impl<'r> View for FrameReader<'r> {
    type V = Seq<u8>;

    closed spec fn view(&self) -> Seq<u8> {
        (*self.input)@
    }
}

impl<'r> FrameReader<'r> {
    /// A frame reader that reads on from where `input` stands.
    pub fn new(input: &'r mut SliceReader<'r>) -> (r: FrameReader<'r>)
        ensures
            r@ == old(input)@,
    {
        FrameReader { input }
    }

    /// Reads the header of the frame that the input stands at, as
    /// [`read_frame_header`] does.
    pub fn read_header(&mut self) -> (r: FlacResult<FrameHeader>)
        ensures
            (match frame_header(old(self)@) {
                Some(outcome) => r == outcome,
                None => r matches Err(Error::IoError(_)),
            }),
            r matches Ok(header) ==> header.is_valid(),
            r is Ok ==> final(self)@ == old(self)@.skip(frame_header_len(old(self)@)),
            r is Err ==> final(self)@ == old(self)@,
    {
        read_frame_header(self.input)
    }
}

} // verus!
