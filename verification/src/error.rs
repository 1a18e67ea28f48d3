//! The importer's error taxonomy. Every variant aborts the whole parse: a row
//! that merely fails to map into a transaction is dropped silently instead
//! (see the row mappers) and never surfaces here.
use vstd::prelude::*;

verus! {

/// A fatal statement-import failure.
#[derive(Debug)]
pub enum Error {
    /// The file could not be opened or read.
    Io(String),
    /// Automatic encoding detection had too little confidence; carries its
    /// best guess for diagnostics and manual override.
    Encoding { best_match: String },
    /// The explicit or detected encoding label names no known decoder.
    UnknownEncoding,
    /// Transcoding itself reported an error (rare: decoding is lossy by
    /// design and normally substitutes a replacement character instead).
    Decoding(String),
    /// The decoded text is structurally corrupt as delimited data, for
    /// example through an unterminated quoted field.
    CsvError(String),
}

/// The mathematical value of an `Error`.
pub ghost enum ErrorV {
    Io(Seq<char>),
    Encoding { best_match: Seq<char> },
    UnknownEncoding,
    Decoding(Seq<char>),
    CsvError(Seq<char>),
}

impl View for Error {
    type V = ErrorV;

    open spec fn view(&self) -> ErrorV {
        match self {
            Error::Io(m) => ErrorV::Io(m@),
            Error::Encoding { best_match } => ErrorV::Encoding { best_match: best_match@ },
            Error::UnknownEncoding => ErrorV::UnknownEncoding,
            Error::Decoding(m) => ErrorV::Decoding(m@),
            Error::CsvError(m) => ErrorV::CsvError(m@),
        }
    }
}

} // verus!
