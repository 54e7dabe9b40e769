//! Claxon, a FLAC decoding library.
//!
//! This is the part of a decoder that deals with the structure of a stream
//! rather than with its samples. It checks the four bytes that open a
//! stream, takes the streaminfo block from the metadata, and reads frame
//! headers, each of which ends in a checksum of its own bytes.
//!
//! The input is a slice of bytes with a cursor, [`input::SliceReader`].
//! What a sequence of bytes means is written down as a function on
//! `Seq<u8>` ([`decode::frame_header`], [`checksum::crc8`],
//! [`metadata::metadata_of`]), and each reader is proved to return what that
//! function says, for every input.

use vstd::prelude::*;
use crate::error::{Error, FlacResult};
use crate::frame::FrameReader;
use crate::input::SliceReader;
use crate::metadata::{MetadataBlock, StreamInfo, collect_metadata, metadata_of};

pub mod checksum;
pub mod decode;
pub mod encode;
pub mod error;
pub mod frame;
pub mod input;
pub mod metadata;

verus! {

/// A number type that has a zero.
pub trait Zero: Sized {
    fn zero() -> Self;
}

impl Zero for i8 {
    fn zero() -> (r: i8)
        ensures
            r == 0,
    {
        0i8
    }
}

impl Zero for i16 {
    fn zero() -> (r: i16)
        ensures
            r == 0,
    {
        0i16
    }
}

impl Zero for i32 {
    fn zero() -> (r: i32)
        ensures
            r == 0,
    {
        0i32
    }
}

impl Zero for i64 {
    fn zero() -> (r: i64)
        ensures
            r == 0,
    {
        0i64
    }
}

/// A number type that has a one.
pub trait One: Sized {
    fn one() -> Self;
}

impl One for i8 {
    fn one() -> (r: i8)
        ensures
            r == 1,
    {
        1i8
    }
}

impl One for i16 {
    fn one() -> (r: i16)
        ensures
            r == 1,
    {
        1i16
    }
}

impl One for i32 {
    fn one() -> (r: i32)
        ensures
            r == 1,
    {
        1i32
    }
}

impl One for i64 {
    fn one() -> (r: i64)
        ensures
            r == 1,
    {
        1i64
    }
}

/// The four bytes 'fLaC' that open a stream, as a big-endian number.
pub const STREAM_HEADER: u32 = 0x66_4c_61_43;

/// Whether `bytes` starts with the four bytes 'fLaC'.
pub open spec fn has_stream_header(bytes: Seq<u8>) -> bool {
    &&& bytes.len() >= 4
    &&& bytes[0] == 0x66
    &&& bytes[1] == 0x4c
    &&& bytes[2] == 0x61
    &&& bytes[3] == 0x43
}

/// Reads the four bytes that open a stream and checks that they are 'fLaC'.
/// Whatever the four bytes are, they are read; where fewer are left, nothing
/// is read and the result is an I/O error.
pub fn read_stream_header(input: &mut SliceReader) -> (r: FlacResult<()>)
    ensures
        old(input)@.len() < 4 ==> (r matches Err(Error::IoError(_))) && final(input)@ == old(
            input,
        )@,
        old(input)@.len() >= 4 ==> final(input)@ == old(input)@.skip(4),
        has_stream_header(old(input)@) ==> r is Ok,
        old(input)@.len() >= 4 && !has_stream_header(old(input)@) ==> r == Err::<(), Error>(
            Error::InvalidStreamHeader,
        ),
{
    let header: u32 = input.read_be_u32()?;
    if header != STREAM_HEADER {
        return Err(Error::InvalidStreamHeader);
    }
    Ok(())
}

/// A FLAC stream whose metadata has been read: the streaminfo block, the
/// other metadata blocks, and the input, which stands at the first frame.
pub struct FlacStream<'r> {
    streaminfo: StreamInfo,
    metadata_blocks: Vec<MetadataBlock>,
    input: SliceReader<'r>,
}

/// What a [`FlacStream`] holds.
pub struct FlacStreamView {
    pub streaminfo: StreamInfo,
    pub metadata_blocks: Seq<MetadataBlock>,
    /// The bytes of the input that are still unread.
    pub input: Seq<u8>,
}

impl<'r> View for FlacStream<'r> {
    type V = FlacStreamView;

    closed spec fn view(&self) -> FlacStreamView {
        FlacStreamView {
            streaminfo: self.streaminfo,
            metadata_blocks: self.metadata_blocks@,
            input: self.input@,
        }
    }
}

/// What opening a stream gives, once its header has passed: `blocks` is
/// what reading the metadata gave, and `rest` the input behind the metadata.
pub open spec fn stream_of(blocks: Seq<FlacResult<MetadataBlock>>, rest: Seq<u8>) -> Result<
    FlacStreamView,
    Error,
> {
    match metadata_of(blocks) {
        Ok((streaminfo, metadata_blocks)) => Ok(
            FlacStreamView { streaminfo, metadata_blocks, input: rest },
        ),
        Err(error) => Err(error),
    }
}

impl<'r> FlacStream<'r> {
    /// Constructs a flac stream from the given input.
    ///
    /// This reads the stream header and then has `read_metadata` read all
    /// metadata blocks, so that the input stops at the first audio frame.
    /// `read_metadata` is handed the input behind the stream header and gives
    /// back the blocks in their order, each one a block or the error that
    /// reading it gave, and the input behind them. It is not called unless
    /// the stream header is there.
    pub fn new<F>(input: SliceReader<'r>, read_metadata: F) -> (r: FlacResult<FlacStream<'r>>)
        where
            F: FnOnce(SliceReader<'r>) -> (Vec<FlacResult<MetadataBlock>>, SliceReader<'r>),
        requires
            has_stream_header(input@) ==> forall|after_header: SliceReader<'r>|
                after_header@ == input@.skip(4) ==> read_metadata.requires((after_header,)),
        ensures
            input@.len() < 4 ==> r matches Err(Error::IoError(_)),
            input@.len() >= 4 && !has_stream_header(input@) ==> r matches Err(
                Error::InvalidStreamHeader,
            ),
            has_stream_header(input@) ==> exists|
                after_header: SliceReader<'r>,
                blocks: Vec<FlacResult<MetadataBlock>>,
                rest: SliceReader<'r>,
            |
                ({
                    &&& after_header@ == input@.skip(4)
                    &&& read_metadata.ensures((after_header,), (blocks, rest))
                    &&& match stream_of(blocks@, rest@) {
                        Ok(view) => r matches Ok(stream) && stream@ == view,
                        Err(error) => r matches Err(e) && e == error,
                    }
                }),
    {
        let mut input = input;
        // A flac stream first of all starts with a stream header.
        read_stream_header(&mut input)?;

        // Next are one or more metadata blocks, of which the streaminfo
        // block must be the first.
        let (blocks, rest) = read_metadata(input);
        let (streaminfo, metadata_blocks) = collect_metadata(blocks)?;

        // The flac stream will contain the reader that will read frames.
        Ok(FlacStream { streaminfo, metadata_blocks, input: rest })
    }

    /// Returns the streaminfo metadata.
    pub fn streaminfo(&self) -> (r: &StreamInfo)
        ensures
            *r == self@.streaminfo,
    {
        &self.streaminfo
    }

    /// Returns the metadata blocks behind the streaminfo block, in the order
    /// in which they stand in the stream.
    pub fn metadata_blocks(&self) -> (r: &Vec<MetadataBlock>)
        ensures
            r@ == self@.metadata_blocks,
    {
        &self.metadata_blocks
    }

    /// Returns a reader that decodes the header of a single frame on every
    /// call. It holds the input of the stream from then on, and starts
    /// where the input stands: the call itself reads nothing. The streaminfo
    /// block and the other metadata blocks stay as they are.
    pub fn blocks(&'r mut self) -> (r: FrameReader<'r>)
        ensures
            r@ == old(self)@.input,
            final(self)@.streaminfo == old(self)@.streaminfo,
            final(self)@.metadata_blocks == old(self)@.metadata_blocks,
    {
        FrameReader::new(&mut self.input)
    }
}

} // verus!
