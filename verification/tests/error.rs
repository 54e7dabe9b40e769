use claxon::error::{Error, FlacResult};
use std::io;

#[test]
fn malformed_stream_errors_equal_themselves() {
    assert!(Error::InvalidStreamHeader == Error::InvalidStreamHeader);
    assert!(Error::InvalidMetadataBlockType == Error::InvalidMetadataBlockType);
    assert!(Error::InvalidMetadataBlockLength == Error::InvalidMetadataBlockLength);
    assert!(Error::InvalidVarLengthInt == Error::InvalidVarLengthInt);
}

#[test]
fn different_errors_are_not_equal() {
    assert!(Error::InvalidStreamHeader != Error::InvalidMetadataBlockType);
    assert!(Error::InvalidVarLengthInt != Error::InvalidStreamHeader);
    assert!(Error::InvalidStreamHeader != Error::InvalidFrameHeader);
}

#[test]
fn other_errors_equal_nothing() {
    assert!(Error::InvalidFrameHeader != Error::InvalidFrameHeader);
    assert!(Error::MissingFrameSyncCode != Error::MissingFrameSyncCode);
    assert!(Error::FrameHeaderCrcMismatch != Error::FrameHeaderCrcMismatch);
    let a = Error::IoError(io::Error::from(io::ErrorKind::UnexpectedEof));
    let b = Error::IoError(io::Error::from(io::ErrorKind::UnexpectedEof));
    assert!(a != b);
}

#[test]
fn io_errors_convert() {
    let error = Error::from(io::Error::from(io::ErrorKind::BrokenPipe));
    match error {
        Error::IoError(inner) => assert_eq!(inner.kind(), io::ErrorKind::BrokenPipe),
        other => panic!("expected an I/O error, got {:?}", other),
    }
}

fn fails_on_io() -> FlacResult<()> {
    Err(io::Error::from(io::ErrorKind::UnexpectedEof))?;
    Ok(())
}

#[test]
fn question_mark_converts_io_errors() {
    assert!(matches!(fails_on_io(), Err(Error::IoError(_))));
}
