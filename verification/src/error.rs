//! What can go wrong while a source is driven.

use vstd::prelude::*;

verus! {

/// Why a line that was read is no event.
#[derive(Clone, Copy, Debug, PartialEq, Eq, Structural)]
pub enum DecodeReason {
    /// The line is not UTF-8 text.
    Encoding,
    /// The line holds nothing but whitespace.
    Blank,
    /// The line is not a JSON document.
    Syntax,
    /// The line is JSON, but not an event.
    Schema,
}

/// A line that could not be decoded, as it was read.
#[derive(Clone, Debug, PartialEq, Eq)]
pub struct DecodeFailure {
    pub line: Vec<u8>,
    pub reason: DecodeReason,
}

/// A failure to open or to read the file, as the driver describes it.
#[derive(Clone, Debug, PartialEq, Eq)]
pub struct IoFailure {
    pub detail: String,
}

/// Why a pull on the source yielded an error.
#[derive(Clone, Debug, PartialEq, Eq)]
pub enum SourceError {
    /// Reading failed. The source closes: the stream cannot be read on.
    Io(IoFailure),
    /// The line that was read is no event. The source stays open, and the
    /// next pull reads the line after it.
    Decode(DecodeFailure),
}

/// The mathematical value of a [`SourceError`].
pub enum SourceErrorView {
    Io(Seq<char>),
    Decode(Seq<u8>, DecodeReason),
}

impl View for SourceError {
    type V = SourceErrorView;

    open spec fn view(&self) -> SourceErrorView {
        match self {
            SourceError::Io(failure) => SourceErrorView::Io(failure.detail@),
            SourceError::Decode(failure) => SourceErrorView::Decode(failure.line@, failure.reason),
        }
    }
}

} // verus!
