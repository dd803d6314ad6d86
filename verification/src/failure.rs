//! The failures that ingestion tells apart.

use vstd::prelude::*;

verus! {

/// The failures of the strict parser, as far as ingestion distinguishes them.
#[derive(Clone, Copy, Debug, PartialEq, Eq, Structural)]
pub enum ParseFailureKind {
    /// The file header is absent or malformed: the input is not a PDF.
    HeaderInvalid,
    /// The cross-reference table is inconsistent.
    CrossReference,
    /// Anything else the parser reports.
    Other,
}

/// A failure of the strict parser, with the parser's message.
#[derive(Debug)]
pub struct ParseFailure {
    pub kind: ParseFailureKind,
    pub message: String,
}

/// A failure of the recovery toolkit, with the toolkit's message.
#[derive(Debug)]
pub struct RepairFailure {
    pub message: String,
}

/// The classes of error that a session can report.
#[derive(Clone, Copy, Debug, PartialEq, Eq, Structural)]
pub enum IngestError {
    /// Not a PDF, or the header cannot be read.
    HeaderInvalid,
    /// The cross-reference table is corrupt; recovery is attempted.
    CrossReferenceCorrupt,
    /// The recovery toolkit could not open or could not serialize the file.
    RecoveryToolkitFailure,
    /// The recovery toolkit produced bytes that the strict parser rejects.
    RecoveredDocumentStillInvalid,
    /// Any other failure of the strict parser.
    OtherParseFailure,
    /// The merge step failed.
    MergeFailure,
}

impl IngestError {
    /// Every class ends the handling of its input, except a corrupt
    /// cross-reference table, which sends the input to recovery.
    pub open spec fn terminal(self) -> bool {
        self != IngestError::CrossReferenceCorrupt
    }

    /// Whether an error of this class ends the handling of its input.
    pub fn is_terminal(self) -> (terminal: bool)
        ensures
            terminal == self.terminal(),
    {
        match self {
            IngestError::CrossReferenceCorrupt => false,
            _ => true,
        }
    }
}

/// The last error observed: its class and the message to display.
#[derive(Debug)]
pub struct FailureReport {
    pub error: IngestError,
    pub message: String,
}

} // verus!
