//! The reportable error of an output operation.

use crate::decoding::{HttpError, HttpFailure};
use crate::position::SourceInfo;
use vstd::prelude::*;

verus! {

/// A failure in the shape in which all failures of a run are reported: where
/// in the source it arose, what went wrong, and whether it ends the process.
#[derive(Clone, Debug, PartialEq, Eq)]
pub struct Error {
    pub source_info: SourceInfo,
    pub inner: HttpError,
    pub fatal: bool,
}

/// The mathematical value of an `Error`.
pub struct ErrorView {
    pub source_info: SourceInfo,
    pub failure: HttpFailure,
    pub fatal: bool,
}

impl View for Error {
    type V = ErrorView;

    open spec fn view(&self) -> ErrorView {
        ErrorView { source_info: self.source_info, failure: self.inner@, fatal: self.fatal }
    }
}

impl ErrorView {
    /// The report of a body that could not be decoded: it has no location,
    /// carries the cause, and does not end the process.
    pub open spec fn undecodable(failure: HttpFailure) -> ErrorView {
        ErrorView { source_info: SourceInfo::spec_unlocated(), failure, fatal: false }
    }
}

impl Error {
    pub fn new(source_info: SourceInfo, inner: HttpError, fatal: bool) -> (e: Error)
        ensures
            e@ == (ErrorView { source_info, failure: inner@, fatal }),
    {
        Error { source_info, inner, fatal }
    }

    /// Wraps the cause for which a body could not be decoded. No source
    /// location is meaningful at output time, so the placeholder location is
    /// used.
    pub fn undecodable(cause: HttpError) -> (e: Error)
        ensures
            e@ == ErrorView::undecodable(cause@),
    {
        Error::new(SourceInfo::unlocated(), cause, false)
    }
}

} // verus!
