//! Decides whether a failure of the strict parser can be recovered from.

use vstd::prelude::*;
use crate::failure::ParseFailure;
use crate::failure::ParseFailureKind;

verus! {

/// The damage that recovery is attempted on.
#[derive(Clone, Copy, Debug, PartialEq, Eq, Structural)]
pub enum RecoverableKind {
    /// An inconsistent cross-reference table.
    CrossReference,
}

/// What to do about a failure of the strict parser.
#[derive(Clone, Copy, Debug, PartialEq, Eq, Structural)]
pub enum Classification {
    /// The input is not a PDF, or damaged beyond what recovery handles.
    Terminal,
    /// Recovery should be attempted.
    Recoverable(RecoverableKind),
    /// A failure that recovery was never validated against; handled as
    /// terminal.
    Unknown,
}

impl Classification {
    /// Recovery is attempted on recoverable failures and on no others.
    pub open spec fn recoverable(self) -> bool {
        self is Recoverable
    }

    /// Whether recovery is attempted.
    pub fn is_recoverable(self) -> (recoverable: bool)
        ensures
            recoverable == self.recoverable(),
    {
        match self {
            Classification::Recoverable(_) => true,
            _ => false,
        }
    }
}

/// The classification of each kind of failure.
pub open spec fn classification_of(kind: ParseFailureKind) -> Classification {
    match kind {
        ParseFailureKind::HeaderInvalid => Classification::Terminal,
        ParseFailureKind::CrossReference => Classification::Recoverable(
            RecoverableKind::CrossReference,
        ),
        ParseFailureKind::Other => Classification::Unknown,
    }
}

/// Classifies a failure of the strict parser.  The message plays no part.
pub fn classify(failure: &ParseFailure) -> (classification: Classification)
    ensures
        classification == classification_of(failure.kind),
{
    match failure.kind {
        ParseFailureKind::HeaderInvalid => Classification::Terminal,
        ParseFailureKind::CrossReference => Classification::Recoverable(
            RecoverableKind::CrossReference,
        ),
        ParseFailureKind::Other => Classification::Unknown,
    }
}

/// Only a cross-reference failure is recoverable.
pub proof fn lemma_only_cross_reference_is_recoverable(kind: ParseFailureKind)
    ensures
        classification_of(kind).recoverable() <==> kind == ParseFailureKind::CrossReference,
        kind == ParseFailureKind::HeaderInvalid ==> classification_of(kind)
            == Classification::Terminal,
{
}

} // verus!
