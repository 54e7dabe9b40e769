use claxon::error::{Error, FlacResult};
use claxon::input::SliceReader;
use claxon::metadata::{collect_metadata, MetadataBlock, StreamInfo};
use claxon::{read_stream_header, FlacStream};
use std::io;

fn streaminfo() -> StreamInfo {
    StreamInfo {
        min_block_size: 4096,
        max_block_size: 4096,
        sample_rate: 44_100,
        n_channels: 2,
        bits_per_sample: 16,
    }
}

fn padding() -> MetadataBlock {
    MetadataBlock::Opaque { block_type: 1, data: vec![0, 0, 0, 0] }
}

fn comment() -> MetadataBlock {
    MetadataBlock::Opaque { block_type: 4, data: vec![1, 2, 3] }
}

#[test]
fn stream_header_is_flac() {
    let data = [0x66u8, 0x4c, 0x61, 0x43, 0x80];
    let mut input = SliceReader::new(&data);
    assert!(read_stream_header(&mut input).is_ok());
    assert_eq!(input.remaining(), 1);
}

#[test]
fn other_stream_headers_are_invalid() {
    let wrong: [[u8; 4]; 6] = [
        [0x00, 0x00, 0x00, 0x00],
        [0x66, 0x4c, 0x61, 0x44],
        [0x67, 0x4c, 0x61, 0x43],
        [0x66, 0x6c, 0x61, 0x63],
        [0x43, 0x61, 0x4c, 0x66],
        [0x4f, 0x67, 0x67, 0x53],
    ];
    for data in wrong {
        let mut input = SliceReader::new(&data);
        assert!(matches!(
            read_stream_header(&mut input),
            Err(Error::InvalidStreamHeader)
        ));
        assert_eq!(input.remaining(), 0);
    }
}

#[test]
fn short_stream_header_is_an_io_error() {
    let data = [0x66u8, 0x4c, 0x61];
    let mut input = SliceReader::new(&data);
    assert!(matches!(read_stream_header(&mut input), Err(Error::IoError(_))));
    assert_eq!(input.remaining(), 3);
}

#[test]
fn collects_the_blocks_behind_the_streaminfo_block() {
    let blocks = vec![
        Ok(MetadataBlock::StreamInfo(streaminfo())),
        Ok(padding()),
        Ok(comment()),
    ];
    let (info, others) = collect_metadata(blocks).unwrap();
    assert_eq!(info, streaminfo());
    assert_eq!(others, vec![padding(), comment()]);
}

#[test]
fn streaminfo_block_alone_is_enough() {
    let blocks = vec![Ok(MetadataBlock::StreamInfo(streaminfo()))];
    let (info, others) = collect_metadata(blocks).unwrap();
    assert_eq!(info, streaminfo());
    assert!(others.is_empty());
}

#[test]
fn a_later_streaminfo_block_is_kept_as_a_block() {
    let second = StreamInfo { sample_rate: 48_000, ..streaminfo() };
    let blocks = vec![
        Ok(MetadataBlock::StreamInfo(streaminfo())),
        Ok(MetadataBlock::StreamInfo(second)),
    ];
    let (info, others) = collect_metadata(blocks).unwrap();
    assert_eq!(info, streaminfo());
    assert_eq!(others, vec![MetadataBlock::StreamInfo(second)]);
}

#[test]
fn no_blocks_is_a_missing_streaminfo_block() {
    assert!(matches!(
        collect_metadata(Vec::new()),
        Err(Error::MissingStreamInfoBlock)
    ));
}

#[test]
fn another_block_first_is_a_missing_streaminfo_block() {
    let blocks = vec![Ok(padding()), Ok(MetadataBlock::StreamInfo(streaminfo()))];
    assert!(matches!(
        collect_metadata(blocks),
        Err(Error::MissingStreamInfoBlock)
    ));
    // The first block decides, also where an error follows it.
    let blocks = vec![Ok(padding()), Err(Error::InvalidMetadataBlockType)];
    assert!(matches!(
        collect_metadata(blocks),
        Err(Error::MissingStreamInfoBlock)
    ));
}

#[test]
fn an_error_in_first_place_is_handed_on() {
    let blocks = vec![
        Err(Error::InvalidMetadataBlockLength),
        Ok(MetadataBlock::StreamInfo(streaminfo())),
    ];
    assert!(matches!(
        collect_metadata(blocks),
        Err(Error::InvalidMetadataBlockLength)
    ));
}

#[test]
fn the_first_error_behind_the_streaminfo_block_is_handed_on() {
    let blocks = vec![
        Ok(MetadataBlock::StreamInfo(streaminfo())),
        Ok(padding()),
        Err(Error::InvalidMetadataBlockType),
        Ok(comment()),
        Err(Error::InconsistentBounds),
    ];
    assert!(matches!(
        collect_metadata(blocks),
        Err(Error::InvalidMetadataBlockType)
    ));
}

#[test]
fn an_io_error_among_the_blocks_is_handed_on() {
    let blocks = vec![
        Ok(MetadataBlock::StreamInfo(streaminfo())),
        Err(Error::IoError(io::Error::from(io::ErrorKind::ConnectionReset))),
    ];
    match collect_metadata(blocks) {
        Err(Error::IoError(error)) => assert_eq!(error.kind(), io::ErrorKind::ConnectionReset),
        other => panic!("expected the I/O error, got {:?}", other.map(|_| ())),
    }
}

/// Stands for a metadata reader: it takes as many bytes as the blocks have
/// and hands out the blocks.
fn read_two_blocks<'a>(
    mut input: SliceReader<'a>,
) -> (Vec<FlacResult<MetadataBlock>>, SliceReader<'a>) {
    input.read_be_u16().unwrap();
    (vec![Ok(MetadataBlock::StreamInfo(streaminfo())), Ok(padding())], input)
}

#[test]
fn bootstraps_a_stream() {
    let data = [0x66u8, 0x4c, 0x61, 0x43, 0x00, 0x01, 0xff, 0xf8, 0xc9, 0x18, 0xf4];
    let stream = FlacStream::new(SliceReader::new(&data), read_two_blocks).unwrap();
    assert_eq!(*stream.streaminfo(), streaminfo());
    assert_eq!(stream.streaminfo().sample_rate, 44_100);
    assert_eq!(stream.streaminfo().bits_per_sample, 16);
    assert_eq!(stream.streaminfo().n_channels, 2);
    assert_eq!(stream.streaminfo().min_block_size, 4096);
    assert_eq!(stream.streaminfo().max_block_size, 4096);
}

#[test]
fn keeps_the_blocks_behind_the_streaminfo_block() {
    let data = [0x66u8, 0x4c, 0x61, 0x43, 0x00, 0x01];
    let stream = FlacStream::new(SliceReader::new(&data), read_two_blocks).unwrap();
    assert_eq!(*stream.metadata_blocks(), vec![padding()]);
}

#[test]
fn reads_frames_behind_the_metadata() {
    let data = [0x66u8, 0x4c, 0x61, 0x43, 0x00, 0x01, 0xff, 0xf8, 0xc9, 0x18, 0xf4];
    let mut stream = FlacStream::new(SliceReader::new(&data), read_two_blocks).unwrap();
    let mut frames = stream.blocks();
    let header = frames.read_header().unwrap();
    assert_eq!(header.block_size, 4096);
    assert_eq!(header.sample_rate, Some(44_100));
    assert!(matches!(frames.read_header(), Err(Error::IoError(_))));
}

#[test]
fn wrong_stream_header_fails_before_metadata_is_read() {
    let data = [0x66u8, 0x4c, 0x61, 0x44, 0x00, 0x01];
    let mut called = false;
    let result = FlacStream::new(SliceReader::new(&data), |input| {
        called = true;
        (vec![Ok(MetadataBlock::StreamInfo(streaminfo()))], input)
    });
    assert!(matches!(result, Err(Error::InvalidStreamHeader)));
    assert!(!called);
}

#[test]
fn short_stream_fails_before_metadata_is_read() {
    let data = [0x66u8, 0x4c];
    let mut called = false;
    let result = FlacStream::new(SliceReader::new(&data), |input| {
        called = true;
        (Vec::new(), input)
    });
    assert!(matches!(result, Err(Error::IoError(_))));
    assert!(!called);
}

#[test]
fn metadata_is_read_from_behind_the_stream_header() {
    let data = [0x66u8, 0x4c, 0x61, 0x43, 0xab, 0xcd];
    let mut seen = 0usize;
    let result = FlacStream::new(SliceReader::new(&data), |mut input| {
        seen = input.remaining();
        assert_eq!(input.read_byte().unwrap(), 0xab);
        (vec![Ok(MetadataBlock::StreamInfo(streaminfo()))], input)
    });
    assert!(result.is_ok());
    assert_eq!(seen, 2);
}

#[test]
fn bootstrap_without_streaminfo_block_fails() {
    let data = [0x66u8, 0x4c, 0x61, 0x43];
    let result = FlacStream::new(SliceReader::new(&data), |input| (vec![Ok(padding())], input));
    assert!(matches!(result, Err(Error::MissingStreamInfoBlock)));
    let result = FlacStream::new(SliceReader::new(&data), |input| (Vec::new(), input));
    assert!(matches!(result, Err(Error::MissingStreamInfoBlock)));
}

#[test]
fn bootstrap_hands_on_a_metadata_error() {
    let data = [0x66u8, 0x4c, 0x61, 0x43];
    let result = FlacStream::new(SliceReader::new(&data), |input| {
        (
            vec![
                Ok(MetadataBlock::StreamInfo(streaminfo())),
                Err(Error::InvalidMetadataBlockLength),
            ],
            input,
        )
    });
    assert!(matches!(result, Err(Error::InvalidMetadataBlockLength)));
}
