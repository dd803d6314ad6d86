//! The state of a session: the batch that was picked last, the documents that
//! were accepted from it, and whether all of it was valid.

use vstd::prelude::*;
use lopdf::Document;
use std::path::PathBuf;
use crate::failure::FailureReport;
use crate::failure::IngestError;
use crate::pipeline::IngestionPass;
use crate::pipeline::PassView;

verus! {

/// Whether the batch that was picked last is fit to be merged.
#[derive(Clone, Copy, Debug, PartialEq, Eq, Structural)]
pub enum ValidityStatus {
    /// No pass has run since the session began or was reset.
    Unset,
    /// The last pass rejected no input.
    AllValid,
    /// The last pass rejected at least one input.
    SomeInvalid,
}

impl Default for ValidityStatus {
    fn default() -> (status: ValidityStatus)
        ensures
            status == ValidityStatus::Unset,
    {
        ValidityStatus::Unset
    }
}

/// The status of a batch of which `tally` inputs were rejected.
pub open spec fn status_of_tally(tally: nat) -> ValidityStatus {
    if tally == 0 {
        ValidityStatus::AllValid
    } else {
        ValidityStatus::SomeInvalid
    }
}

/// Derives the status of a batch from the number of rejected inputs.
pub fn derive_status(tally: usize) -> (status: ValidityStatus)
    ensures
        status == status_of_tally(tally as nat),
{
    if tally == 0 {
        ValidityStatus::AllValid
    } else {
        ValidityStatus::SomeInvalid
    }
}

/// What a session holds.
pub struct SessionView {
    /// The batch that was picked last.
    pub batch: Seq<PathBuf>,
    /// The documents accepted from it, in input order.
    pub documents: Seq<Document>,
    /// Whether all of it was valid.
    pub status: ValidityStatus,
    /// The last failure observed.
    pub last_error: Option<FailureReport>,
}

impl SessionView {
    /// A session in which nothing was picked yet.
    pub open spec fn empty() -> SessionView {
        SessionView {
            batch: Seq::empty(),
            documents: Seq::empty(),
            status: ValidityStatus::Unset,
            last_error: None,
        }
    }

    /// The session after the finished pass `pass` replaced what it held.
    /// A pass without a failure leaves the last error as it was.
    pub open spec fn installed(self, pass: PassView) -> SessionView {
        SessionView {
            batch: pass.batch,
            documents: pass.documents,
            status: status_of_tally(pass.tally),
            last_error: if pass.last_error is Some {
                pass.last_error
            } else {
                self.last_error
            },
        }
    }

    /// The session after the documents were dropped.  The batch stays.
    pub open spec fn dropped(self) -> SessionView {
        SessionView { documents: Seq::empty(), status: ValidityStatus::Unset, ..self }
    }

    /// The session after a merge failed with `message`.
    pub open spec fn merge_failed(self, message: String) -> SessionView {
        SessionView {
            last_error: Some(FailureReport { error: IngestError::MergeFailure, message }),
            ..self
        }
    }
}

/// The state of a session.
pub struct MyApp {
    picked_path: Vec<PathBuf>,
    documents: Vec<Document>,
    pdf_valid: ValidityStatus,
    error: Option<FailureReport>,
}

impl View for MyApp {
    type V = SessionView;

    closed spec fn view(&self) -> SessionView {
        SessionView {
            batch: self.picked_path@,
            documents: self.documents@,
            status: self.pdf_valid,
            last_error: self.error,
        }
    }
}

impl Default for MyApp {
    fn default() -> (app: MyApp)
        ensures
            app@ == SessionView::empty(),
    {
        MyApp::new()
    }
}

impl MyApp {
    /// A session in which nothing was picked yet.
    pub fn new() -> (app: MyApp)
        ensures
            app@ == SessionView::empty(),
    {
        MyApp {
            picked_path: Vec::new(),
            documents: Vec::new(),
            pdf_valid: ValidityStatus::Unset,
            error: None,
        }
    }

    /// Starts a pass over `paths`.  The session shows what it held until
    /// the pass is finished and handed to `complete_ingestion`.
    pub fn begin_ingestion(&self, paths: Vec<PathBuf>) -> (pass: IngestionPass)
        ensures
            pass.wf(),
            pass@ == PassView::initial(paths@),
    {
        IngestionPass::begin(paths)
    }

    /// Replaces the batch, the documents and the status by those of a
    /// finished pass, all at once, and returns the new status.
    ///
    /// Every input of the new batch is then counted once: as a document of
    /// the session or in the tally of the pass.  A pass with unsettled
    /// inputs is handed back, and the session stays as it was.
    pub fn complete_ingestion(&mut self, pass: IngestionPass) -> (result: Result<
        ValidityStatus,
        IngestionPass,
    >)
        requires
            pass.wf(),
        ensures
            pass@.finished() ==> {
                &&& result == Ok::<ValidityStatus, IngestionPass>(status_of_tally(pass@.tally))
                &&& final(self)@ == old(self)@.installed(pass@)
                &&& final(self)@.documents.len() + pass@.tally == final(self)@.batch.len()
                &&& (final(self)@.status == ValidityStatus::SomeInvalid
                    ==> final(self)@.last_error is Some)
            },
            !pass@.finished() ==> {
                &&& result == Err::<ValidityStatus, IngestionPass>(pass)
                &&& final(self)@ == old(self)@
            },
    {
        match pass.finish() {
            Ok(output) => {
                let status = derive_status(output.tally);
                self.picked_path = output.batch;
                self.documents = output.documents;
                self.pdf_valid = status;
                match output.last_error {
                    Some(report) => {
                        self.error = Some(report);
                    },
                    None => {},
                }
                Ok(status)
            },
            Err(unfinished) => Err(unfinished),
        }
    }

    /// Drops the documents and unsets the status.  The batch and the last
    /// error stay as they were.
    pub fn reset(&mut self)
        ensures
            final(self)@ == old(self)@.dropped(),
            final(self)@.documents.len() == 0,
            final(self)@.status == ValidityStatus::Unset,
            final(self)@.batch == old(self)@.batch,
    {
        self.documents = Vec::new();
        self.pdf_valid = ValidityStatus::Unset;
    }

    /// Records that the merge failed with `message`.  The batch, the
    /// documents and the status stay as they were, so that the merge can be
    /// tried again.
    pub fn record_merge_failure(&mut self, message: String)
        ensures
            final(self)@ == old(self)@.merge_failed(message),
    {
        self.error = Some(FailureReport { error: IngestError::MergeFailure, message });
    }

    /// The batch that was picked last.
    pub fn picked_paths(&self) -> (paths: &Vec<PathBuf>)
        ensures
            paths@ == self@.batch,
    {
        &self.picked_path
    }

    /// The documents of the session, in input order.
    pub fn current_documents(&self) -> (documents: &Vec<Document>)
        ensures
            documents@ == self@.documents,
    {
        &self.documents
    }

    /// Whether the batch that was picked last is fit to be merged.
    pub fn validity(&self) -> (status: ValidityStatus)
        ensures
            status == self@.status,
    {
        self.pdf_valid
    }

    /// The last failure observed.
    pub fn last_error(&self) -> (report: &Option<FailureReport>)
        ensures
            *report == self@.last_error,
    {
        &self.error
    }

    /// The message of the last failure observed.
    pub fn last_error_message(&self) -> (message: Option<&String>)
        ensures
            match self@.last_error {
                Some(report) => message == Some(&report.message),
                None => message is None,
            },
    {
        match &self.error {
            Some(report) => Some(&report.message),
            None => None,
        }
    }
}

} // verus!
