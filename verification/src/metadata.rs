//! The metadata blocks that open a stream, as far as the decoder looks at
//! them, and the rule for what a stream must open with.

use vstd::prelude::*;
use crate::error::{Error, FlacResult};

verus! {

/// The streaminfo metadata block, with what holds for the whole stream. A
/// frame header that leaves its sample rate or sample size open takes them
/// from here.
#[derive(Clone, Copy, Debug, PartialEq, Eq)]
pub struct StreamInfo {
    /// The minimum block size (in inter-channel samples) used in the stream.
    pub min_block_size: u16,
    /// The maximum block size (in inter-channel samples) used in the stream.
    pub max_block_size: u16,
    /// The sample rate in Hz.
    pub sample_rate: u32,
    /// The number of channels.
    pub n_channels: u8,
    /// The number of bits per sample.
    pub bits_per_sample: u8,
}

/// A metadata block of the stream. The decoder looks into the streaminfo
/// block only; a block of any other kind is kept as it came.
#[derive(Debug, PartialEq, Eq)]
pub enum MetadataBlock {
    StreamInfo(StreamInfo),
    /// A block of another kind: the type that its header names, and its
    /// contents.
    Opaque { block_type: u8, data: Vec<u8> },
}

/// The place of the first error in `blocks` at or behind `from`, or the
/// length of `blocks` where there is none.
pub open spec fn first_error_from(blocks: Seq<FlacResult<MetadataBlock>>, from: int) -> int
    decreases blocks.len() - from,
{
    if from >= blocks.len() {
        blocks.len() as int
    } else if blocks[from] is Err {
        from
    } else {
        first_error_from(blocks, from + 1)
    }
}

/// What the metadata of a stream comes to, given the blocks in the order in
/// which they were read, each one a block or the error that reading it
/// gave: the streaminfo block, which must come first, and the blocks behind
/// it; or the first error met. A stream without blocks, or with another
/// block first, lacks its streaminfo block.
pub open spec fn metadata_of(blocks: Seq<FlacResult<MetadataBlock>>) -> FlacResult<
    (StreamInfo, Seq<MetadataBlock>),
> {
    if blocks.len() == 0 {
        Err(Error::MissingStreamInfoBlock)
    } else {
        match blocks[0] {
            Err(error) => Err(error),
            Ok(MetadataBlock::StreamInfo(streaminfo)) => {
                let stop = first_error_from(blocks, 1);
                if stop < blocks.len() {
                    Err(blocks[stop]->Err_0)
                } else {
                    Ok((streaminfo, Seq::new((blocks.len() - 1) as nat, |i: int| blocks[i + 1]->Ok_0)))
                }
            },
            Ok(_) => Err(Error::MissingStreamInfoBlock),
        }
    }
}

/// Takes the streaminfo block from the front of `blocks` and collects the
/// blocks behind it in their order. The first error among `blocks` ends this
/// and is returned; what was collected is dropped.
pub fn collect_metadata(blocks: Vec<FlacResult<MetadataBlock>>) -> (r: FlacResult<
    (StreamInfo, Vec<MetadataBlock>),
>)
    ensures
        (match metadata_of(blocks@) {
            Ok((streaminfo, rest)) => r matches Ok((info, others)) && info == streaminfo
                && others@ == rest,
            Err(error) => r == Err::<(StreamInfo, Vec<MetadataBlock>), Error>(error),
        }),
{
    let ghost all = blocks@;
    let mut streaminfo: Option<StreamInfo> = None;
    let mut metadata_blocks: Vec<MetadataBlock> = Vec::new();
    for block_result in iter: blocks
        invariant
            iter.seq() == all,
            streaminfo is None <==> iter.index() == 0,
            streaminfo matches Some(info) ==> all[0] == Ok::<MetadataBlock, Error>(
                MetadataBlock::StreamInfo(info),
            ),
            iter.index() >= 1 ==> metadata_blocks@.len() == iter.index() - 1,
            iter.index() == 0 ==> metadata_blocks@.len() == 0,
            forall|i: int|
                0 <= i < metadata_blocks@.len() ==> all[i + 1] == Ok::<MetadataBlock, Error>(
                    #[trigger] metadata_blocks@[i],
                ),
            iter.index() >= 1 ==> first_error_from(all, 1) == first_error_from(
                all,
                iter.index() as int,
            ),
    {
        match block_result {
            Err(error) => {
                return Err(error);
            },
            Ok(block) => {
                match streaminfo {
                    None => {
                        match block {
                            MetadataBlock::StreamInfo(info) => {
                                streaminfo = Some(info);
                            },
                            _ => {
                                return Err(Error::MissingStreamInfoBlock);
                            },
                        }
                    },
                    Some(_) => {
                        metadata_blocks.push(block);
                    },
                }
            },
        }
    }
    match streaminfo {
        None => Err(Error::MissingStreamInfoBlock),
        Some(info) => {
            proof {
                assert(metadata_blocks@ =~= Seq::new(
                    (all.len() - 1) as nat,
                    |i: int| all[i + 1]->Ok_0,
                ));
            }
            Ok((info, metadata_blocks))
        },
    }
}

} // verus!
