//! The bytes of a frame header, for the headers that state all their fields
//! by code, and the proof that reading them gives the header back.

use vstd::prelude::*;
use vstd::arithmetic::power2::lemma2_to64;
use crate::checksum::{compute_crc8, crc8};
use crate::decode::{BlockingStrategy, ChannelMode, FrameHeader, frame_header};
use crate::error::Error;

verus! {

/// The code that stands for the block size `size`, where there is one.
pub open spec fn block_size_code(size: u16) -> Option<u8> {
    if size == 192 {
        Some(1u8)
    } else if size == 576 {
        Some(2u8)
    } else if size == 1152 {
        Some(3u8)
    } else if size == 2304 {
        Some(4u8)
    } else if size == 4608 {
        Some(5u8)
    } else if size == 256 {
        Some(8u8)
    } else if size == 512 {
        Some(9u8)
    } else if size == 1024 {
        Some(10u8)
    } else if size == 2048 {
        Some(11u8)
    } else if size == 4096 {
        Some(12u8)
    } else if size == 8192 {
        Some(13u8)
    } else if size == 16384 {
        Some(14u8)
    } else if size == 32768 {
        Some(15u8)
    } else {
        None
    }
}

/// The code that stands for the sample rate `rate`, where there is one.
pub open spec fn sample_rate_code(rate: Option<u32>) -> Option<u8> {
    match rate {
        None => Some(0u8),
        Some(hz) => if hz == 88200 {
            Some(1u8)
        } else if hz == 176400 {
            Some(2u8)
        } else if hz == 192000 {
            Some(3u8)
        } else if hz == 8000 {
            Some(4u8)
        } else if hz == 16000 {
            Some(5u8)
        } else if hz == 22050 {
            Some(6u8)
        } else if hz == 24000 {
            Some(7u8)
        } else if hz == 32000 {
            Some(8u8)
        } else if hz == 44100 {
            Some(9u8)
        } else if hz == 48000 {
            Some(10u8)
        } else if hz == 96000 {
            Some(11u8)
        } else {
            None
        },
    }
}

/// The code that stands for `n_channels` channels stored in `mode`.
pub open spec fn channels_code(n_channels: u8, mode: ChannelMode) -> u8 {
    match mode {
        ChannelMode::Raw => (n_channels - 1) as u8,
        ChannelMode::LeftSideStereo => 8,
        ChannelMode::RightSideStereo => 9,
        ChannelMode::MidSideStereo => 10,
    }
}

/// The code that stands for the sample size `bits`.
pub open spec fn bits_per_sample_code(bits: Option<u8>) -> u8 {
    match bits {
        None => 0,
        Some(n) => if n == 8 {
            1
        } else if n == 12 {
            2
        } else if n == 16 {
            4
        } else if n == 20 {
            5
        } else {
            6
        },
    }
}

/// Whether `header` can be written with codes alone: it is valid, and both
/// its block size and its sample rate have a code.
pub open spec fn is_plain(header: FrameHeader) -> bool {
    &&& header.is_valid()
    &&& block_size_code(header.block_size) is Some
    &&& sample_rate_code(header.sample_rate) is Some
}

/// The four bytes that state the fields of a plain header.
pub open spec fn fixed_part(header: FrameHeader) -> Seq<u8> {
    seq![
        0xffu8,
        if header.blocking_strategy == BlockingStrategy::Fixed {
            0xf8u8
        } else {
            0xf9u8
        },
        (block_size_code(header.block_size)->Some_0 * 16 + sample_rate_code(
            header.sample_rate,
        )->Some_0) as u8,
        (channels_code(header.n_channels, header.channel_mode) * 16 + bits_per_sample_code(
            header.bits_per_sample,
        ) * 2) as u8,
    ]
}

/// The five bytes of a plain header: its fields and their checksum.
pub open spec fn header_bytes(header: FrameHeader) -> Seq<u8> {
    fixed_part(header).push(crc8(fixed_part(header)))
}

/// Reading the bytes of a plain header gives that header back.
pub proof fn lemma_header_round_trip(header: FrameHeader)
    requires
        is_plain(header),
    ensures
        frame_header(header_bytes(header)) == Some(Ok::<FrameHeader, Error>(header)),
{
    lemma2_to64();
    let bytes = header_bytes(header);
    assert(bytes.take(4) =~= fixed_part(header));
    assert(bytes[0] == 0xff);
    assert(bytes[1] == 0xf8 || bytes[1] == 0xf9);
}

/// Writes the five bytes of `header`, or nothing where `header` is not
/// plain.
pub fn encode_frame_header(header: &FrameHeader) -> (r: Option<Vec<u8>>)
    ensures
        r is Some <==> is_plain(*header),
        r matches Some(bytes) ==> bytes@ == header_bytes(*header),
{
    let block_size: u8 = match header.block_size {
        192 => 1,
        576 => 2,
        1152 => 3,
        2304 => 4,
        4608 => 5,
        256 => 8,
        512 => 9,
        1024 => 10,
        2048 => 11,
        4096 => 12,
        8192 => 13,
        16384 => 14,
        32768 => 15,
        _ => {
            return None;
        },
    };
    let sample_rate: u8 = match header.sample_rate {
        None => 0,
        Some(88_200) => 1,
        Some(176_400) => 2,
        Some(192_000) => 3,
        Some(8_000) => 4,
        Some(16_000) => 5,
        Some(22_050) => 6,
        Some(24_000) => 7,
        Some(32_000) => 8,
        Some(44_100) => 9,
        Some(48_000) => 10,
        Some(96_000) => 11,
        Some(_) => {
            return None;
        },
    };
    if header.n_channels < 1 || header.n_channels > 8 {
        return None;
    }
    let channels: u8 = match header.channel_mode {
        ChannelMode::Raw => header.n_channels - 1,
        ChannelMode::LeftSideStereo => 8,
        ChannelMode::RightSideStereo => 9,
        ChannelMode::MidSideStereo => 10,
    };
    if channels >= 8 && header.n_channels != 2 {
        return None;
    }
    let bits_per_sample: u8 = match header.bits_per_sample {
        None => 0,
        Some(8) => 1,
        Some(12) => 2,
        Some(16) => 4,
        Some(20) => 5,
        Some(24) => 6,
        Some(_) => {
            return None;
        },
    };
    let strategy: u8 = match header.blocking_strategy {
        BlockingStrategy::Fixed => 0xf8,
        BlockingStrategy::Variable => 0xf9,
    };
    let mut bytes: Vec<u8> = Vec::new();
    bytes.push(0xff);
    bytes.push(strategy);
    bytes.push(block_size * 16 + sample_rate);
    bytes.push(channels * 16 + bits_per_sample * 2);
    assert(bytes@ =~= fixed_part(*header));
    let crc: u8 = compute_crc8(bytes.as_slice());
    bytes.push(crc);
    Some(bytes)
}

} // verus!
