//! The error and result types.

use vstd::prelude::*;

verus! {

/// Declares `std::io::Error`, the failure of a byte source. Nothing is
/// known of such a value here: it is made, carried along and handed out.
#[verifier::external_type_specification]
#[verifier::external_body]
pub struct ExIoError(std::io::Error);

/// An error that prevents successful decoding of the FLAC stream.
#[derive(Debug)]
pub enum Error {
    /// Not a decoding error, but a problem with the underlying input, such as
    /// its end in the middle of a value.
    IoError(std::io::Error),
    /// The stream header does not equal 'fLaC'.
    InvalidStreamHeader,
    /// Metadata block type 127 is invalid, to avoid confusion with a frame sync code.
    InvalidMetadataBlockType,
    /// The streaminfo block must have length 34.
    InvalidMetadataBlockLength,
    /// A lower bound was encountered that was bigger than an upper bound.
    InconsistentBounds,
    /// The minimum block size must be larger than 15, and the block size must
    /// not exceed 65535.
    InvalidBlockSize,
    /// The sample rate must be positive and no larger than 6553550 Hz.
    InvalidSampleRate,
    /// The streaminfo block must be the very first metadata block.
    MissingStreamInfoBlock,
    /// A frame must start with the frame sync code.
    MissingFrameSyncCode,
    /// The frame header contains an invalid value in one of the reserved bits,
    /// or it contains one of the bit patterns that is invalid to prevent
    /// confusion with a frame sync code, or a bit pattern that is reserved.
    InvalidFrameHeader,
    /// The expected UTF-8-ish encoded integer contains invalid bit sequences.
    InvalidVarLengthInt,
    /// The observed frame header CRC does not match the stored CRC.
    FrameHeaderCrcMismatch,
    /// The subframe header contains an invalid or reserved bit pattern.
    InvalidSubframeHeader,
    /// The subframe contains an invalid or reserved bit pattern.
    InvalidSubframe,
    /// The residual contains an invalid or reserved bit pattern.
    InvalidResidual,
    /// The number of bits per sample in an unencoded binary Rice partition
    /// is larger than the bits per sample of the stream.
    InvalidBitsPerSample,
    /// A bit pattern is not a valid Rice code in the context.
    InvalidRiceCode,
    /// An overflow occurred when decoding the side channel.
    InvalidSideSample,
    /// An overflow occurred when doing fixed prediction.
    InvalidFixedSample,
    /// An overflow occurred when doing LPC prediction.
    InvalidLpcSample,
    /// The audio stream has more bits per sample than the provided sample
    /// buffer to decode into.
    SampleTooWide,
}

/// Either `T` on success, or an `Error` on failure.
pub type FlacResult<T> = Result<T, Error>;

impl Error {
    /// Whether `==` can find two errors of this kind equal. It does so for the
    /// four kinds that a malformed stream header, metadata block or
    /// variable-length integer gives; an error of any other kind equals nothing,
    /// itself included.
    pub open spec fn is_comparable(&self) -> bool {
        *self is InvalidStreamHeader || *self is InvalidMetadataBlockType
            || *self is InvalidMetadataBlockLength || *self is InvalidVarLengthInt
    }
}

impl vstd::std_specs::convert::FromSpecImpl<std::io::Error> for Error {
    open spec fn obeys_from_spec() -> bool {
        true
    }

    open spec fn from_spec(err: std::io::Error) -> Error {
        Error::IoError(err)
    }
}

impl From<std::io::Error> for Error {
    /// Wraps a failure of the byte source, so that `?` hands it on unchanged.
    fn from(err: std::io::Error) -> (r: Error) {
        Error::IoError(err)
    }
}

impl vstd::std_specs::cmp::PartialEqSpecImpl for Error {
    open spec fn obeys_eq_spec() -> bool {
        true
    }

    open spec fn eq_spec(&self, other: &Error) -> bool {
        self.is_comparable() && *self == *other
    }
}

impl PartialEq for Error {
    /// Equality of errors is partial: see [`Error::is_comparable`].
    fn eq(&self, other: &Error) -> (r: bool) {
        match (self, other) {
            (Error::InvalidStreamHeader, Error::InvalidStreamHeader) => true,
            (Error::InvalidMetadataBlockType, Error::InvalidMetadataBlockType) => true,
            (Error::InvalidMetadataBlockLength, Error::InvalidMetadataBlockLength) => true,
            (Error::InvalidVarLengthInt, Error::InvalidVarLengthInt) => true,
            _ => false,
        }
    }
}

} // verus!
