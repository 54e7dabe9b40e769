//! The frame header: its fields, the meaning of each code in it, and the
//! reader that decodes one header and checks its checksum.

use vstd::prelude::*;
use vstd::arithmetic::power2::{pow2, lemma2_to64};
use vstd::bits::{lemma_u16_shl_is_mul, lemma_u8_shr_is_div};
use crate::checksum::{Crc8Reader, crc8};
use crate::error::{Error, FlacResult};
use crate::input::{SliceReader, be_u16};

verus! {

/// Whether all blocks of the stream have one size, or each frame its own.
#[derive(Clone, Copy, Debug, PartialEq, Eq, Structural)]
pub enum BlockingStrategy {
    Fixed,
    Variable,
}

/// How the channels of a frame were stored.
#[derive(Clone, Copy, Debug, PartialEq, Eq, Structural)]
pub enum ChannelMode {
    /// The channels are coded as-is.
    Raw,
    /// Channel 0 is the left channel, channel 1 is the side channel.
    LeftSideStereo,
    /// Channel 0 is the side channel, channel 1 is the right channel.
    RightSideStereo,
    /// Channel 0 is the mid channel, channel 1 is the side channel.
    MidSideStereo,
}

/// What a decoded frame header says of its frame.
#[derive(Clone, Copy, Debug, PartialEq, Eq)]
pub struct FrameHeader {
    pub blocking_strategy: BlockingStrategy,
    /// The number of samples per channel in the frame; never zero.
    pub block_size: u16,
    /// The sample rate in Hz; `None` where the streaminfo block gives it.
    pub sample_rate: Option<u32>,
    /// The number of channels, from 1 to 8.
    pub n_channels: u8,
    /// Any mode but `Raw` goes with two channels.
    pub channel_mode: ChannelMode,
    /// 8, 12, 16, 20 or 24; `None` where the streaminfo block gives it.
    pub bits_per_sample: Option<u8>,
}

/// What the block size code of a header stands for: a size, or the notice
/// that the size follows at the end of the header.
#[derive(Clone, Copy, Debug, PartialEq, Eq)]
pub enum BlockSizeField {
    Known(u16),
    /// One byte follows that holds the size less one.
    Escape8,
    /// Two bytes follow that hold the size less one.
    Escape16,
}

/// What the sample rate code of a header stands for: a rate, the notice that
/// the streaminfo block gives it, or the notice that it follows at the end of
/// the header.
#[derive(Clone, Copy, Debug, PartialEq, Eq)]
pub enum SampleRateField {
    Inherited,
    Known(u32),
    /// One byte follows that holds the rate in Hz.
    Escape8,
    /// Two bytes follow that hold the rate in Hz.
    Escape16,
    /// Two bytes follow that hold the rate in tens of Hz.
    Escape16Tens,
}

/// The fourteen bits that open every frame.
pub const FRAME_SYNC_CODE: u16 = 0x3ffe;

/// The top fourteen bits of the first two bytes of a header.
pub open spec fn sync_code_of(word: u16) -> u16 {
    word / 4
}

/// The bit behind the sync code, which is reserved and must be 0.
pub open spec fn reserved_bit_of(word: u16) -> u16 {
    (word / 2) % 2
}

/// What the first two bytes of a header, as a big-endian number, stand for.
pub open spec fn blocking_strategy_of(word: u16) -> FlacResult<BlockingStrategy> {
    if sync_code_of(word) != FRAME_SYNC_CODE {
        Err(Error::MissingFrameSyncCode)
    } else if reserved_bit_of(word) != 0 {
        Err(Error::InvalidFrameHeader)
    } else if word % 2 == 0 {
        Ok(BlockingStrategy::Fixed)
    } else {
        Ok(BlockingStrategy::Variable)
    }
}

/// What the top four bits of the third byte of a header stand for.
pub open spec fn block_size_field_of(byte: u8) -> FlacResult<BlockSizeField> {
    let code = byte / 16;
    if code == 0 {
        Err(Error::InvalidFrameHeader)
    } else if code == 1 {
        Ok(BlockSizeField::Known(192))
    } else if code <= 5 {
        Ok(BlockSizeField::Known((576 * pow2((code - 2) as nat)) as u16))
    } else if code == 6 {
        Ok(BlockSizeField::Escape8)
    } else if code == 7 {
        Ok(BlockSizeField::Escape16)
    } else {
        Ok(BlockSizeField::Known((256 * pow2((code - 8) as nat)) as u16))
    }
}

/// What the low four bits of the third byte of a header stand for.
pub open spec fn sample_rate_field_of(byte: u8) -> FlacResult<SampleRateField> {
    let code = byte % 16;
    if code == 0 {
        Ok(SampleRateField::Inherited)
    } else if code == 1 {
        Ok(SampleRateField::Known(88200))
    } else if code == 2 {
        Ok(SampleRateField::Known(176400))
    } else if code == 3 {
        Ok(SampleRateField::Known(192000))
    } else if code == 4 {
        Ok(SampleRateField::Known(8000))
    } else if code == 5 {
        Ok(SampleRateField::Known(16000))
    } else if code == 6 {
        Ok(SampleRateField::Known(22050))
    } else if code == 7 {
        Ok(SampleRateField::Known(24000))
    } else if code == 8 {
        Ok(SampleRateField::Known(32000))
    } else if code == 9 {
        Ok(SampleRateField::Known(44100))
    } else if code == 10 {
        Ok(SampleRateField::Known(48000))
    } else if code == 11 {
        Ok(SampleRateField::Known(96000))
    } else if code == 12 {
        Ok(SampleRateField::Escape8)
    } else if code == 13 {
        Ok(SampleRateField::Escape16)
    } else if code == 14 {
        Ok(SampleRateField::Escape16Tens)
    } else {
        Err(Error::InvalidFrameHeader)
    }
}

/// What the top four bits of the fourth byte of a header stand for: the
/// number of channels and how they were stored.
pub open spec fn channels_of(byte: u8) -> FlacResult<(u8, ChannelMode)> {
    let code = byte / 16;
    if code < 8 {
        Ok(((code + 1) as u8, ChannelMode::Raw))
    } else if code == 8 {
        Ok((2u8, ChannelMode::LeftSideStereo))
    } else if code == 9 {
        Ok((2u8, ChannelMode::RightSideStereo))
    } else if code == 10 {
        Ok((2u8, ChannelMode::MidSideStereo))
    } else {
        Err(Error::InvalidFrameHeader)
    }
}

/// What the three bits behind the channel code stand for.
pub open spec fn bits_per_sample_of(byte: u8) -> FlacResult<Option<u8>> {
    let code = (byte / 2) % 8;
    if code == 0 {
        Ok(None)
    } else if code == 1 {
        Ok(Some(8u8))
    } else if code == 2 {
        Ok(Some(12u8))
    } else if code == 4 {
        Ok(Some(16u8))
    } else if code == 5 {
        Ok(Some(20u8))
    } else if code == 6 {
        Ok(Some(24u8))
    } else {
        Err(Error::InvalidFrameHeader)
    }
}

/// Decodes the first two bytes of a header, read as a big-endian number.
/// It fails with `MissingFrameSyncCode` on every number whose top fourteen
/// bits are not the sync code, and with `InvalidFrameHeader` on every other
/// number whose reserved bit is set; the last bit gives the strategy.
pub fn decode_blocking_strategy(word: u16) -> (r: FlacResult<BlockingStrategy>)
    ensures
        r == blocking_strategy_of(word),
        sync_code_of(word) != FRAME_SYNC_CODE ==> r == Err::<BlockingStrategy, Error>(
            Error::MissingFrameSyncCode,
        ),
        sync_code_of(word) == FRAME_SYNC_CODE && reserved_bit_of(word) == 1 ==> r == Err::<
            BlockingStrategy,
            Error,
        >(Error::InvalidFrameHeader),
        sync_code_of(word) == FRAME_SYNC_CODE && reserved_bit_of(word) == 0 ==> r is Ok,
{
    assert((word & 0xfffc == 0xfff8) == (word / 4 == 0x3ffe)) by (bit_vector);
    assert((word & 0x0002 != 0) == ((word / 2) % 2 != 0)) by (bit_vector);
    assert((word & 0x0001 == 0) == (word % 2 == 0)) by (bit_vector);
    if word & 0xfffc != 0xfff8 {
        return Err(Error::MissingFrameSyncCode);
    }
    if word & 0x0002 != 0 {
        return Err(Error::InvalidFrameHeader);
    }
    if word & 0x0001 == 0 {
        Ok(BlockingStrategy::Fixed)
    } else {
        Ok(BlockingStrategy::Variable)
    }
}

/// Decodes the block size code, the top four bits of `byte`: code 0 is
/// reserved; code 1 is 192; codes 2 to 5 are 576 times 1, 2, 4 and 8; codes
/// 6 and 7 say that the size follows; codes 8 to 15 are 256 times 1 up to
/// 128.
pub fn decode_block_size(byte: u8) -> (r: FlacResult<BlockSizeField>)
    ensures
        r == block_size_field_of(byte),
        r is Err <==> byte / 16 == 0,
        r matches Ok(BlockSizeField::Known(size)) ==> size > 0,
{
    proof {
        lemma_u8_shr_is_div(byte, 4);
        lemma2_to64();
    }
    let code: u8 = byte >> 4;
    if code == 0 {
        Err(Error::InvalidFrameHeader)
    } else if code == 1 {
        Ok(BlockSizeField::Known(192))
    } else if code <= 5 {
        let shift: u16 = (code - 2) as u16;
        proof {
            lemma_u16_shl_is_mul(576, shift);
        }
        Ok(BlockSizeField::Known(576u16 << shift))
    } else if code == 6 {
        Ok(BlockSizeField::Escape8)
    } else if code == 7 {
        Ok(BlockSizeField::Escape16)
    } else {
        let shift: u16 = (code - 8) as u16;
        proof {
            lemma_u16_shl_is_mul(256, shift);
        }
        Ok(BlockSizeField::Known(256u16 << shift))
    }
}

/// Decodes the sample rate code, the low four bits of `byte`: code 0 leaves
/// the rate to the streaminfo block, codes 1 to 11 name a rate, codes 12 to
/// 14 say that the rate follows, and code 15 is invalid.
pub fn decode_sample_rate(byte: u8) -> (r: FlacResult<SampleRateField>)
    ensures
        r == sample_rate_field_of(byte),
        r is Err <==> byte % 16 == 15,
{
    assert(byte & 0x0f == byte % 16) by (bit_vector);
    let code: u8 = byte & 0x0f;
    match code {
        0 => Ok(SampleRateField::Inherited),
        1 => Ok(SampleRateField::Known(88_200)),
        2 => Ok(SampleRateField::Known(176_400)),
        3 => Ok(SampleRateField::Known(192_000)),
        4 => Ok(SampleRateField::Known(8_000)),
        5 => Ok(SampleRateField::Known(16_000)),
        6 => Ok(SampleRateField::Known(22_050)),
        7 => Ok(SampleRateField::Known(24_000)),
        8 => Ok(SampleRateField::Known(32_000)),
        9 => Ok(SampleRateField::Known(44_100)),
        10 => Ok(SampleRateField::Known(48_000)),
        11 => Ok(SampleRateField::Known(96_000)),
        12 => Ok(SampleRateField::Escape8),
        13 => Ok(SampleRateField::Escape16),
        14 => Ok(SampleRateField::Escape16Tens),
        _ => Err(Error::InvalidFrameHeader),
    }
}

/// Decodes the channel code, the top four bits of `byte`: codes 0 to 7 are
/// one to eight channels stored as they are, codes 8 to 10 are the three
/// stereo modes, and codes 11 to 15 are reserved.
pub fn decode_channels(byte: u8) -> (r: FlacResult<(u8, ChannelMode)>)
    ensures
        r == channels_of(byte),
        byte / 16 <= 10 ==> r is Ok,
        byte / 16 >= 11 ==> r == Err::<(u8, ChannelMode), Error>(Error::InvalidFrameHeader),
        r matches Ok((n, mode)) ==> 1 <= n <= 8 && (mode != ChannelMode::Raw ==> n == 2),
{
    proof {
        lemma_u8_shr_is_div(byte, 4);
        lemma2_to64();
    }
    let code: u8 = byte >> 4;
    if code < 8 {
        Ok((code + 1, ChannelMode::Raw))
    } else if code == 8 {
        Ok((2, ChannelMode::LeftSideStereo))
    } else if code == 9 {
        Ok((2, ChannelMode::RightSideStereo))
    } else if code == 10 {
        Ok((2, ChannelMode::MidSideStereo))
    } else {
        Err(Error::InvalidFrameHeader)
    }
}

/// Decodes the sample size code, the three bits above the last bit of
/// `byte`: code 0 leaves the size to the streaminfo block, codes 1, 2, 4, 5
/// and 6 are 8, 12, 16, 20 and 24 bits, and codes 3 and 7 are reserved.
pub fn decode_bits_per_sample(byte: u8) -> (r: FlacResult<Option<u8>>)
    ensures
        r == bits_per_sample_of(byte),
        r is Err <==> (byte / 2) % 8 == 3 || (byte / 2) % 8 == 7,
{
    assert((byte & 0x0e) >> 1 == (byte / 2) % 8) by (bit_vector);
    let code: u8 = (byte & 0x0e) >> 1;
    match code {
        0 => Ok(None),
        1 => Ok(Some(8)),
        2 => Ok(Some(12)),
        4 => Ok(Some(16)),
        5 => Ok(Some(20)),
        6 => Ok(Some(24)),
        _ => Err(Error::InvalidFrameHeader),
    }
}

impl BlockSizeField {
    /// The number of bytes at the end of the header that hold the size.
    pub open spec fn escape_len(self) -> int {
        match self {
            BlockSizeField::Known(_) => 0,
            BlockSizeField::Escape8 => 1,
            BlockSizeField::Escape16 => 2,
        }
    }

    /// The block size, where the bytes that may hold it stand at `at` in
    /// `bytes`.
    pub open spec fn resolve(self, bytes: Seq<u8>, at: int) -> int {
        match self {
            BlockSizeField::Known(size) => size as int,
            BlockSizeField::Escape8 => bytes[at] + 1,
            BlockSizeField::Escape16 => be_u16(bytes[at], bytes[at + 1]) + 1,
        }
    }
}

impl SampleRateField {
    /// The number of bytes at the end of the header that hold the rate.
    pub open spec fn escape_len(self) -> int {
        match self {
            SampleRateField::Inherited => 0,
            SampleRateField::Known(_) => 0,
            SampleRateField::Escape8 => 1,
            SampleRateField::Escape16 => 2,
            SampleRateField::Escape16Tens => 2,
        }
    }

    /// The sample rate, where the bytes that may hold it stand at `at` in
    /// `bytes`.
    pub open spec fn resolve(self, bytes: Seq<u8>, at: int) -> Option<u32> {
        match self {
            SampleRateField::Inherited => None,
            SampleRateField::Known(rate) => Some(rate),
            SampleRateField::Escape8 => Some(bytes[at] as u32),
            SampleRateField::Escape16 => Some(be_u16(bytes[at], bytes[at + 1]) as u32),
            SampleRateField::Escape16Tens => Some((be_u16(bytes[at], bytes[at + 1]) * 10) as u32),
        }
    }
}

impl FrameHeader {
    /// What holds of every header that was read: the block size is not
    /// zero, there are one to eight channels, a stereo mode goes with two
    /// channels, and the sample size is one of the five that exist.
    pub open spec fn is_valid(&self) -> bool {
        &&& self.block_size >= 1
        &&& 1 <= self.n_channels <= 8
        &&& self.channel_mode != ChannelMode::Raw ==> self.n_channels == 2
        &&& self.bits_per_sample matches Some(bits) ==> bits == 8 || bits == 12 || bits == 16
            || bits == 20 || bits == 24
    }
}

/// The first two bytes of `bytes` as a big-endian number: the sync code, the
/// reserved bit and the blocking strategy.
pub open spec fn first_word(bytes: Seq<u8>) -> u16 {
    be_u16(bytes[0], bytes[1])
}

/// Whether the four bytes that every header starts with are free of
/// reserved and invalid codes. `bytes` holds at least four bytes.
pub open spec fn fixed_part_is_valid(bytes: Seq<u8>) -> bool {
    &&& blocking_strategy_of(first_word(bytes)) is Ok
    &&& block_size_field_of(bytes[2]) is Ok
    &&& sample_rate_field_of(bytes[2]) is Ok
    &&& channels_of(bytes[3]) is Ok
    &&& bits_per_sample_of(bytes[3]) is Ok
    &&& bytes[3] % 2 == 0
}

/// The place of the checksum byte in a header that starts `bytes`: behind
/// the four bytes that every header has and the bytes that its third byte
/// asks for. `bytes` holds at least three bytes, and neither code of the
/// third is invalid.
pub open spec fn checksum_offset(bytes: Seq<u8>) -> int {
    4 + block_size_field_of(bytes[2])->Ok_0.escape_len() + sample_rate_field_of(
        bytes[2],
    )->Ok_0.escape_len()
}

/// Whether `bytes` holds a header up to its checksum byte, with nothing in
/// it that is reserved or invalid, so that the checksum alone decides.
pub open spec fn is_valid_up_to_checksum(bytes: Seq<u8>) -> bool {
    &&& bytes.len() >= 4
    &&& fixed_part_is_valid(bytes)
    &&& bytes.len() > checksum_offset(bytes)
    &&& !(block_size_field_of(bytes[2])->Ok_0 is Escape16 && be_u16(bytes[4], bytes[5])
        == 0xffff)
}

/// The length of the header that starts `bytes`, checksum included.
pub open spec fn frame_header_len(bytes: Seq<u8>) -> int {
    checksum_offset(bytes) + 1
}

/// What reading one frame header from `bytes` gives: the header, the error
/// that rejects it, or `None` where `bytes` ends before the reader has seen
/// enough to decide. The fields are taken in the order in which they stand,
/// so the first fault decides.
///
/// A header is taken to be four bytes of codes, then the block size and the
/// sample rate where the codes ask for them, then the checksum. The coded
/// number of the frame or of its first sample, which a FLAC encoder writes
/// behind the fourth byte, is not known here: these are headers without it,
/// and nothing is skipped in its place.
pub open spec fn frame_header(bytes: Seq<u8>) -> Option<FlacResult<FrameHeader>> {
    if bytes.len() < 2 {
        None
    } else if blocking_strategy_of(first_word(bytes)) is Err {
        Some(Err(blocking_strategy_of(first_word(bytes))->Err_0))
    } else if bytes.len() < 3 {
        None
    } else if block_size_field_of(bytes[2]) is Err || sample_rate_field_of(bytes[2]) is Err {
        Some(Err(Error::InvalidFrameHeader))
    } else if bytes.len() < 4 {
        None
    } else if !fixed_part_is_valid(bytes) {
        Some(Err(Error::InvalidFrameHeader))
    } else {
        let block_size = block_size_field_of(bytes[2])->Ok_0;
        let sample_rate = sample_rate_field_of(bytes[2])->Ok_0;
        let end = checksum_offset(bytes);
        if bytes.len() < 4 + block_size.escape_len() {
            None
        } else if block_size is Escape16 && be_u16(bytes[4], bytes[5]) == 0xffff {
            Some(Err(Error::InvalidBlockSize))
        } else if bytes.len() < end + 1 {
            None
        } else if bytes[end] != crc8(bytes.take(end)) {
            Some(Err(Error::FrameHeaderCrcMismatch))
        } else {
            Some(
                Ok(
                    FrameHeader {
                        blocking_strategy: blocking_strategy_of(first_word(bytes))->Ok_0,
                        block_size: block_size.resolve(bytes, 4) as u16,
                        sample_rate: sample_rate.resolve(bytes, 4 + block_size.escape_len()),
                        n_channels: channels_of(bytes[3])->Ok_0.0,
                        channel_mode: channels_of(bytes[3])->Ok_0.1,
                        bits_per_sample: bits_per_sample_of(bytes[3])->Ok_0,
                    },
                ),
            )
        }
    }
}

/// Reads one frame header from `input` and checks the checksum that closes
/// it against the bytes before.
///
/// The result is what [`frame_header`] says of the unread bytes; where they
/// end too early, it is an I/O error. After a header, `input` stands behind
/// its checksum byte. After an error, `input` stands where it stood, so
/// that a caller can look for the next sync code from there.
pub fn read_frame_header(input: &mut SliceReader) -> (r: FlacResult<FrameHeader>)
    ensures
        (match frame_header(old(input)@) {
            Some(outcome) => r == outcome,
            None => r matches Err(Error::IoError(_)),
        }),
        r matches Ok(header) ==> header.is_valid(),
        r is Ok ==> final(input)@ == old(input)@.skip(frame_header_len(old(input)@)),
        r is Err ==> final(input)@ == old(input)@,
        // Without the sync code, or with the reserved bit set, there is no header.
        old(input)@.len() >= 2 && sync_code_of(first_word(old(input)@)) != FRAME_SYNC_CODE
            ==> r matches Err(Error::MissingFrameSyncCode),
        old(input)@.len() >= 2 && sync_code_of(first_word(old(input)@)) == FRAME_SYNC_CODE
            && reserved_bit_of(first_word(old(input)@)) != 0 ==> r matches Err(
            Error::InvalidFrameHeader,
        ),
        // Block size code 0 and channel codes 11 to 15 are reserved.
        old(input)@.len() >= 3 && blocking_strategy_of(first_word(old(input)@)) is Ok && old(
            input,
        )@[2] / 16 == 0 ==> r matches Err(Error::InvalidFrameHeader),
        old(input)@.len() >= 4 && blocking_strategy_of(first_word(old(input)@)) is Ok && old(
            input,
        )@[3] / 16 >= 11 ==> r matches Err(Error::InvalidFrameHeader),
        // A block size that follows in two bytes cannot be all ones.
        old(input)@.len() >= 6 && fixed_part_is_valid(old(input)@) && old(input)@[2] / 16 == 7
            && old(input)@[4] == 0xff && old(input)@[5] == 0xff ==> r matches Err(
            Error::InvalidBlockSize,
        ),
        // Where all else is valid, the checksum decides.
        is_valid_up_to_checksum(old(input)@) ==> (r is Ok <==> old(input)@[checksum_offset(
            old(input)@,
        )] == crc8(old(input)@.take(checksum_offset(old(input)@)))),
        is_valid_up_to_checksum(old(input)@) && r is Err ==> r matches Err(
            Error::FrameHeaderCrcMismatch,
        ),
        // The header holds what its codes stand for.
        r matches Ok(header) ==> ({
            &&& blocking_strategy_of(first_word(old(input)@)) == Ok::<BlockingStrategy, Error>(
                header.blocking_strategy,
            )
            &&& block_size_field_of(old(input)@[2]) matches Ok(field) && header.block_size
                == field.resolve(old(input)@, 4)
            &&& sample_rate_field_of(old(input)@[2]) matches Ok(field) && header.sample_rate
                == field.resolve(
                old(input)@,
                4 + block_size_field_of(old(input)@[2])->Ok_0.escape_len(),
            )
            &&& channels_of(old(input)@[3]) == Ok::<(u8, ChannelMode), Error>(
                (header.n_channels, header.channel_mode),
            )
            &&& bits_per_sample_of(old(input)@[3]) == Ok::<Option<u8>, Error>(
                header.bits_per_sample,
            )
        }),
{
    let mut crc_input = Crc8Reader::new(input.fork());

    // First are 14 bits frame sync code, a reserved bit, and blocking strategy.
    let sync_res_block: u16 = crc_input.read_be_u16()?;
    let blocking_strategy = decode_blocking_strategy(sync_res_block)?;

    // Next are 4 bits block size and 4 bits sample rate.
    let bs_sr: u8 = crc_input.read_byte()?;
    let block_size_field = decode_block_size(bs_sr)?;
    let sample_rate_field = decode_sample_rate(bs_sr)?;

    // Next are 4 bits channel assignment, 3 bits sample size, and 1 reserved bit.
    let chan_bps_res: u8 = crc_input.read_byte()?;
    let (n_channels, channel_mode) = decode_channels(chan_bps_res)?;
    let bits_per_sample = decode_bits_per_sample(chan_bps_res)?;
    assert((chan_bps_res & 0x01 != 0) == (chan_bps_res % 2 != 0)) by (bit_vector);
    if chan_bps_res & 0x01 != 0 {
        return Err(Error::InvalidFrameHeader);
    }

    // What the codes left open comes now, the block size first.
    let block_size: u16 = match block_size_field {
        BlockSizeField::Known(size) => size,
        BlockSizeField::Escape8 => {
            let raw: u8 = crc_input.read_byte()?;
            raw as u16 + 1
        },
        BlockSizeField::Escape16 => {
            let raw: u16 = crc_input.read_be_u16()?;
            if raw == 0xffff {
                return Err(Error::InvalidBlockSize);
            }
            raw + 1
        },
    };
    let sample_rate: Option<u32> = match sample_rate_field {
        SampleRateField::Inherited => None,
        SampleRateField::Known(rate) => Some(rate),
        SampleRateField::Escape8 => {
            let raw: u8 = crc_input.read_byte()?;
            Some(raw as u32)
        },
        SampleRateField::Escape16 => {
            let raw: u16 = crc_input.read_be_u16()?;
            Some(raw as u32)
        },
        SampleRateField::Escape16Tens => {
            let raw: u16 = crc_input.read_be_u16()?;
            Some(raw as u32 * 10)
        },
    };

    // Last is the checksum of all that came before.
    let computed_crc: u8 = crc_input.crc();
    let presumed_crc: u8 = crc_input.read_byte()?;
    if computed_crc != presumed_crc {
        return Err(Error::FrameHeaderCrcMismatch);
    }
    *input = crc_input.into_inner();
    Ok(
        FrameHeader {
            blocking_strategy,
            block_size,
            sample_rate,
            n_channels,
            channel_mode,
            bits_per_sample,
        },
    )
}

/// The sync code and the reserved bit as masks on the first two bytes: the
/// sync code is there where the top fourteen bits read 11111111111110, and
/// the reserved bit is the second lowest.
pub proof fn lemma_sync_code_bits(word: u16)
    ensures
        sync_code_of(word) == FRAME_SYNC_CODE <==> word & 0xfffc == 0xfff8,
        reserved_bit_of(word) != 0 <==> word & 0x0002 != 0,
{
    assert((word & 0xfffc == 0xfff8) == (word / 4 == 0x3ffe)) by (bit_vector);
    assert((word & 0x0002 != 0) == ((word / 2) % 2 != 0)) by (bit_vector);
}

/// No header is read from bytes that do not start with the sync code, nor
/// from bytes whose reserved bit is set, whatever the other bits and the
/// bytes behind are: the first is a missing sync code, the second, with the
/// sync code there, an invalid header.
pub proof fn lemma_sync_code_required(bytes: Seq<u8>)
    requires
        bytes.len() >= 2,
    ensures
        sync_code_of(first_word(bytes)) != FRAME_SYNC_CODE ==> frame_header(bytes)
            == Some(Err::<FrameHeader, Error>(Error::MissingFrameSyncCode)),
        sync_code_of(first_word(bytes)) == FRAME_SYNC_CODE && reserved_bit_of(first_word(bytes))
            != 0 ==> frame_header(bytes) == Some(
            Err::<FrameHeader, Error>(Error::InvalidFrameHeader),
        ),
        reserved_bit_of(first_word(bytes)) != 0 ==> frame_header(bytes) matches Some(
            Err(_),
        ),
{
}

/// The block size that each of the sixteen codes stands for.
pub proof fn lemma_block_size_table()
    ensures
        forall|byte: u8|
            #![trigger block_size_field_of(byte)]
            ({
                let field = block_size_field_of(byte);
                &&& byte / 16 == 0 ==> field == Err::<BlockSizeField, Error>(
                    Error::InvalidFrameHeader,
                )
                &&& byte / 16 == 1 ==> field == Ok::<BlockSizeField, Error>(
                    BlockSizeField::Known(192),
                )
                &&& byte / 16 == 2 ==> field == Ok::<BlockSizeField, Error>(
                    BlockSizeField::Known(576),
                )
                &&& byte / 16 == 3 ==> field == Ok::<BlockSizeField, Error>(
                    BlockSizeField::Known(1152),
                )
                &&& byte / 16 == 4 ==> field == Ok::<BlockSizeField, Error>(
                    BlockSizeField::Known(2304),
                )
                &&& byte / 16 == 5 ==> field == Ok::<BlockSizeField, Error>(
                    BlockSizeField::Known(4608),
                )
                &&& byte / 16 == 6 ==> field == Ok::<BlockSizeField, Error>(
                    BlockSizeField::Escape8,
                )
                &&& byte / 16 == 7 ==> field == Ok::<BlockSizeField, Error>(
                    BlockSizeField::Escape16,
                )
                &&& byte / 16 == 8 ==> field == Ok::<BlockSizeField, Error>(
                    BlockSizeField::Known(256),
                )
                &&& byte / 16 == 9 ==> field == Ok::<BlockSizeField, Error>(
                    BlockSizeField::Known(512),
                )
                &&& byte / 16 == 10 ==> field == Ok::<BlockSizeField, Error>(
                    BlockSizeField::Known(1024),
                )
                &&& byte / 16 == 11 ==> field == Ok::<BlockSizeField, Error>(
                    BlockSizeField::Known(2048),
                )
                &&& byte / 16 == 12 ==> field == Ok::<BlockSizeField, Error>(
                    BlockSizeField::Known(4096),
                )
                &&& byte / 16 == 13 ==> field == Ok::<BlockSizeField, Error>(
                    BlockSizeField::Known(8192),
                )
                &&& byte / 16 == 14 ==> field == Ok::<BlockSizeField, Error>(
                    BlockSizeField::Known(16384),
                )
                &&& byte / 16 == 15 ==> field == Ok::<BlockSizeField, Error>(
                    BlockSizeField::Known(32768),
                )
            }),
{
    lemma2_to64();
}

/// A header with block size code 0 is rejected as invalid as soon as its
/// sync code and reserved bit have passed, and a header with any other code
/// is not rejected for its block size code.
pub proof fn lemma_reserved_block_size_rejected(bytes: Seq<u8>)
    requires
        bytes.len() >= 3,
        blocking_strategy_of(first_word(bytes)) is Ok,
    ensures
        bytes[2] / 16 == 0 ==> frame_header(bytes) == Some(
            Err::<FrameHeader, Error>(Error::InvalidFrameHeader),
        ),
        bytes[2] / 16 != 0 ==> block_size_field_of(bytes[2]) is Ok,
{
}

/// A header that is read holds the block size that its code stands for, or
/// the size that the bytes behind the fourth give where the code is 6 or 7.
pub proof fn lemma_block_size_read(bytes: Seq<u8>)
    requires
        frame_header(bytes) matches Some(Ok(_)),
    ensures
        block_size_field_of(bytes[2]) matches Ok(field) && frame_header(
            bytes,
        )->Some_0->Ok_0.block_size == field.resolve(bytes, 4),
{
}

/// A header that is read holds the channels that its channel code stands
/// for, whatever its checksum byte had to be.
pub proof fn lemma_channels_read(bytes: Seq<u8>)
    requires
        frame_header(bytes) matches Some(Ok(_)),
    ensures
        bytes[3] / 16 <= 10,
        channels_of(bytes[3]) == Ok::<(u8, ChannelMode), Error>(
            (
                frame_header(bytes)->Some_0->Ok_0.n_channels,
                frame_header(bytes)->Some_0->Ok_0.channel_mode,
            ),
        ),
{
}

/// With the sync code there and the reserved bit clear, a channel code
/// from 11 to 15 rejects the header as invalid, whatever else it holds.
pub proof fn lemma_reserved_channels_rejected(bytes: Seq<u8>)
    requires
        bytes.len() >= 4,
        blocking_strategy_of(first_word(bytes)) is Ok,
        bytes[3] / 16 >= 11,
    ensures
        frame_header(bytes) == Some(Err::<FrameHeader, Error>(Error::InvalidFrameHeader)),
{
}

/// With its first four bytes valid, a header whose block size follows in
/// two bytes that are both 0xff is rejected for its block size, whatever
/// its other fields and the bytes behind are.
pub proof fn lemma_block_size_escape_limit(bytes: Seq<u8>)
    requires
        bytes.len() >= 6,
        fixed_part_is_valid(bytes),
        bytes[2] / 16 == 7,
        bytes[4] == 0xff,
        bytes[5] == 0xff,
    ensures
        frame_header(bytes) == Some(Err::<FrameHeader, Error>(Error::InvalidBlockSize)),
{
}

/// A header that is valid up to its checksum byte is read where that byte
/// is the checksum of the bytes before it.
pub proof fn lemma_right_checksum_accepted(bytes: Seq<u8>)
    requires
        is_valid_up_to_checksum(bytes),
        bytes[checksum_offset(bytes)] == crc8(bytes.take(checksum_offset(bytes))),
    ensures
        frame_header(bytes) matches Some(Ok(header)) && header.is_valid(),
{
    lemma2_to64();
}

/// A header that is valid up to its checksum byte is rejected for its
/// checksum, and for nothing else, where that byte is anything but the
/// checksum of the bytes before it.
pub proof fn lemma_wrong_checksum_rejected(bytes: Seq<u8>)
    requires
        is_valid_up_to_checksum(bytes),
        bytes[checksum_offset(bytes)] != crc8(bytes.take(checksum_offset(bytes))),
    ensures
        frame_header(bytes) == Some(Err::<FrameHeader, Error>(Error::FrameHeaderCrcMismatch)),
{
}

/// Where a header is read, the same bytes with any one bit of the checksum
/// byte flipped are rejected for their checksum.
pub proof fn lemma_flipped_checksum_rejected(bytes: Seq<u8>, bit: u8)
    requires
        frame_header(bytes) matches Some(Ok(_)),
        bit < 8,
    ensures
        frame_header(
            bytes.update(
                checksum_offset(bytes),
                bytes[checksum_offset(bytes)] ^ (1u8 << bit),
            ),
        ) == Some(Err::<FrameHeader, Error>(Error::FrameHeaderCrcMismatch)),
{
    let end = checksum_offset(bytes);
    let stored = bytes[end];
    let flipped = bytes.update(end, stored ^ (1u8 << bit));
    assert(stored ^ (1u8 << bit) != stored) by (bit_vector)
        requires
            bit < 8,
    ;
    assert(flipped.take(end) =~= bytes.take(end));
}

} // verus!
