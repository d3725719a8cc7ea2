//! Errors of each stage, and the outcome of one archive.
use vstd::prelude::*;

verus! {

/// Why an archive could not be extracted.
#[derive(Clone, Copy, Debug, PartialEq, Eq, Structural)]
pub enum ExtractError {
    /// The archive file does not exist or cannot be read.
    OpenError,
    /// The bytes are not a readable zip container, or its entry cannot be read.
    FormatError,
    /// The container holds no entry.
    EmptyArchiveError,
    /// The extracted file could not be created or written.
    WriteError,
}

/// Why an extracted table could not be converted.
#[derive(Clone, Copy, Debug, PartialEq, Eq, Structural)]
pub enum ConvertError {
    /// The text cannot be read, lacks a header, or a field does not fit its
    /// column's type.
    ParseError,
    /// The columnar output could not be created or encoded.
    EncodeError,
}

/// The reason one archive failed.
#[derive(Clone, Copy, Debug, PartialEq, Eq, Structural)]
pub enum Failure {
    ExtractionFailed(ExtractError),
    ConversionFailed(ConvertError),
}

/// The outcome of one archive.
#[derive(Clone, Copy, Debug, PartialEq, Eq, Structural)]
pub enum Outcome {
    Success,
    Failed(Failure),
}

impl Outcome {
    /// A short description of the outcome.
    pub fn describe(&self) -> (r: String) {
        let s = match self {
            Outcome::Success => "converted",
            Outcome::Failed(Failure::ExtractionFailed(ExtractError::OpenError)) => "archive could not be opened",
            Outcome::Failed(Failure::ExtractionFailed(ExtractError::FormatError)) => "archive is not a readable zip",
            Outcome::Failed(Failure::ExtractionFailed(ExtractError::EmptyArchiveError)) => "zip archive is empty",
            Outcome::Failed(Failure::ExtractionFailed(ExtractError::WriteError)) => "extracted file could not be written",
            Outcome::Failed(Failure::ConversionFailed(ConvertError::ParseError)) => "csv does not match the record layout",
            Outcome::Failed(Failure::ConversionFailed(ConvertError::EncodeError)) => "parquet output could not be written",
        };
        s.to_owned()
    }
}

} // verus!
