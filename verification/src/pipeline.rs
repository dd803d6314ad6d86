//! The ingestion pipeline: a batch of inputs, handled one at a time and in
//! input order.
//!
//! For each input the strict parser is tried first.  A document is accepted.
//! A cross-reference failure sends the input to the recovery toolkit, whose
//! output is parsed strictly again; every other failure, and every failure on
//! the way through recovery, rejects the input.  Each input ends in exactly
//! one of the two: its document joins the document set, or the failure tally
//! grows by one.
//!
//! The pass neither reads nor parses.  [`IngestionPass::next_action`] names
//! the operation that is due, and the caller reports how it ended through
//! [`IngestionPass::primary_parsed`], [`IngestionPass::repair_opened`],
//! [`IngestionPass::buffer_written`] and [`IngestionPass::revalidated`].  A
//! report that is not due changes nothing.

use vstd::prelude::*;
use lopdf::Document;
use std::path::PathBuf;
use crate::classifier::classification_of;
use crate::classifier::classify;
use crate::classifier::Classification;
use crate::failure::FailureReport;
use crate::failure::IngestError;
use crate::failure::ParseFailure;
use crate::failure::RepairFailure;

verus! {

/// A parsed PDF document.  The pass stores and hands on such values and
/// never looks inside one.
#[verifier::external_type_specification]
#[verifier::external_body]
pub struct ExDocument(lopdf::Document);

/// A path of the file system.  The pass keeps paths and never reads one.
#[verifier::external_type_specification]
#[verifier::external_body]
pub struct ExPathBuf(std::path::PathBuf);

/// Where the input that is being handled stands.
#[derive(Clone, Copy, Debug, PartialEq, Eq, Structural)]
pub enum Stage {
    /// Nothing was tried yet: the strict parser is due.
    Start,
    /// The strict parser reported a cross-reference failure: the recovery
    /// toolkit is due to open the file.
    XrefFailure,
    /// The recovery toolkit opened the file: it is due to write the repaired
    /// document to a buffer.
    RepairOk,
    /// The recovery toolkit wrote the buffer: the strict parser is due on
    /// what it wrote.
    BufferOk,
}

/// Why an input was rejected.
#[derive(Clone, Copy, Debug, PartialEq, Eq, Structural)]
pub enum Rejection {
    /// The strict parser found no valid header.
    HeaderFailure,
    /// The strict parser failed in a way that recovery is not attempted on.
    OtherFailure,
    /// The recovery toolkit could not open the file.
    RepairFailure,
    /// The recovery toolkit could not write the repaired document.
    WriteFailure,
    /// The strict parser rejected what the recovery toolkit wrote.
    RecoveredParseFailure,
}

impl Rejection {
    /// The class of error that a rejection is reported under.
    pub open spec fn error_class(self) -> IngestError {
        match self {
            Rejection::HeaderFailure => IngestError::HeaderInvalid,
            Rejection::OtherFailure => IngestError::OtherParseFailure,
            Rejection::RepairFailure => IngestError::RecoveryToolkitFailure,
            Rejection::WriteFailure => IngestError::RecoveryToolkitFailure,
            Rejection::RecoveredParseFailure => IngestError::RecoveredDocumentStillInvalid,
        }
    }

    /// The class of error that this rejection is reported under.
    pub fn error(self) -> (error: IngestError)
        ensures
            error == self.error_class(),
            error.terminal(),
    {
        match self {
            Rejection::HeaderFailure => IngestError::HeaderInvalid,
            Rejection::OtherFailure => IngestError::OtherParseFailure,
            Rejection::RepairFailure => IngestError::RecoveryToolkitFailure,
            Rejection::WriteFailure => IngestError::RecoveryToolkitFailure,
            Rejection::RecoveredParseFailure => IngestError::RecoveredDocumentStillInvalid,
        }
    }
}

/// How the handling of one input ended.
#[derive(Clone, Copy, Debug, PartialEq, Eq, Structural)]
pub enum Outcome {
    /// The strict parser accepted the file as it is.
    Success,
    /// The strict parser accepted the file after repair.
    Recovered,
    /// The input was rejected.
    Rejected(Rejection),
}

impl Outcome {
    /// An input is accepted when its document joined the document set.
    pub open spec fn accepted(self) -> bool {
        self !is Rejected
    }

    /// Whether the input's document joined the document set.
    pub fn is_accepted(self) -> (accepted: bool)
        ensures
            accepted == self.accepted(),
    {
        match self {
            Outcome::Rejected(_) => false,
            _ => true,
        }
    }
}

/// The operation that a pass is waiting for.  The number is the position of
/// the input in the batch.
#[derive(Clone, Copy, Debug, PartialEq, Eq, Structural)]
pub enum Action {
    /// Parse the file strictly; report with `primary_parsed`.
    LoadFromPath(usize),
    /// Open the file with the recovery toolkit, repair enabled; report with
    /// `repair_opened`.
    ReadWithRepair(usize),
    /// Write the repaired document to a buffer; report with `buffer_written`.
    RewriteToBuffer(usize),
    /// Parse the buffer strictly; report with `revalidated`.
    LoadFromMemory(usize),
    /// Every input is settled.
    Finished,
}

impl Action {
    /// The two operations of the recovery toolkit.
    pub open spec fn calls_recovery(self) -> bool {
        self is ReadWithRepair || self is RewriteToBuffer
    }

    /// Whether the action is an operation of the recovery toolkit.
    pub fn is_recovery(self) -> (recovery: bool)
        ensures
            recovery == self.calls_recovery(),
    {
        match self {
            Action::ReadWithRepair(_) => true,
            Action::RewriteToBuffer(_) => true,
            _ => false,
        }
    }
}

/// The number of accepted inputs among `outcomes`.
pub open spec fn count_accepted(outcomes: Seq<Outcome>) -> nat
    decreases outcomes.len(),
{
    if outcomes.len() == 0 {
        0
    } else {
        count_accepted(outcomes.drop_last()) + if outcomes.last().accepted() {
            1nat
        } else {
            0nat
        }
    }
}

/// The number of rejected inputs among `outcomes`.
pub open spec fn count_rejected(outcomes: Seq<Outcome>) -> nat
    decreases outcomes.len(),
{
    if outcomes.len() == 0 {
        0
    } else {
        count_rejected(outcomes.drop_last()) + if outcomes.last().accepted() {
            0nat
        } else {
            1nat
        }
    }
}

/// Every outcome is counted once, as accepted or as rejected.
pub proof fn lemma_counts_partition(outcomes: Seq<Outcome>)
    ensures
        count_accepted(outcomes) + count_rejected(outcomes) == outcomes.len(),
    decreases outcomes.len(),
{
    if outcomes.len() > 0 {
        lemma_counts_partition(outcomes.drop_last());
    }
}

/// One more outcome adds one to the count it belongs to.
pub proof fn lemma_count_push(outcomes: Seq<Outcome>, outcome: Outcome)
    ensures
        count_accepted(outcomes.push(outcome)) == count_accepted(outcomes) + if outcome.accepted() {
            1nat
        } else {
            0nat
        },
        count_rejected(outcomes.push(outcome)) == count_rejected(outcomes) + if outcome.accepted() {
            0nat
        } else {
            1nat
        },
{
    assert(outcomes.push(outcome).drop_last() =~= outcomes);
}

/// What the collaborators can report to a pass.
pub enum Observation {
    /// The strict parser ran on the file.
    PrimaryParsed(Result<Document, ParseFailure>),
    /// The recovery toolkit tried to open the file.
    RepairOpened(Result<(), RepairFailure>),
    /// The recovery toolkit tried to write the repaired document to a buffer.
    BufferWritten(Result<(), RepairFailure>),
    /// The strict parser ran on what the recovery toolkit wrote.
    Revalidated(Result<Document, ParseFailure>),
}

/// The state of a pass.
pub struct PassView {
    /// The inputs, in the order in which they were picked.
    pub batch: Seq<PathBuf>,
    /// How each settled input ended, in input order.
    pub outcomes: Seq<Outcome>,
    /// Where the first unsettled input stands.
    pub stage: Stage,
    /// The documents of the accepted inputs, in input order.
    pub documents: Seq<Document>,
    /// The number of rejected inputs.
    pub tally: nat,
    /// The last failure observed.
    pub last_error: Option<FailureReport>,
}

impl PassView {
    /// A pass over `batch` before anything was tried.
    pub open spec fn initial(batch: Seq<PathBuf>) -> PassView {
        PassView {
            batch,
            outcomes: Seq::empty(),
            stage: Stage::Start,
            documents: Seq::empty(),
            tally: 0,
            last_error: None,
        }
    }

    /// The books are kept: the document set holds as many documents as
    /// inputs were accepted, the tally counts the rejected ones, a rejection
    /// leaves its message, and only an unsettled input can be under repair.
    pub open spec fn wf(self) -> bool {
        &&& self.outcomes.len() <= self.batch.len()
        &&& self.batch.len() <= usize::MAX
        &&& self.documents.len() == count_accepted(self.outcomes)
        &&& self.tally == count_rejected(self.outcomes)
        &&& (self.tally > 0 ==> self.last_error is Some)
        &&& (self.stage != Stage::Start ==> self.outcomes.len() < self.batch.len())
    }

    /// Every input is settled.
    pub open spec fn finished(self) -> bool {
        self.outcomes.len() >= self.batch.len()
    }

    /// An input is unsettled and stands at `stage`.
    pub open spec fn awaits(self, stage: Stage) -> bool {
        !self.finished() && self.stage == stage
    }

    /// The operation that is due.
    pub open spec fn pending_action(self) -> Action {
        if self.finished() {
            Action::Finished
        } else {
            match self.stage {
                Stage::Start => Action::LoadFromPath(self.outcomes.len() as usize),
                Stage::XrefFailure => Action::ReadWithRepair(self.outcomes.len() as usize),
                Stage::RepairOk => Action::RewriteToBuffer(self.outcomes.len() as usize),
                Stage::BufferOk => Action::LoadFromMemory(self.outcomes.len() as usize),
            }
        }
    }

    /// The input at hand is settled by accepting `document`.
    pub open spec fn accept(self, document: Document, outcome: Outcome) -> PassView {
        PassView {
            outcomes: self.outcomes.push(outcome),
            stage: Stage::Start,
            documents: self.documents.push(document),
            ..self
        }
    }

    /// The input at hand is settled by rejecting it.
    pub open spec fn reject(self, rejection: Rejection, message: String) -> PassView {
        PassView {
            outcomes: self.outcomes.push(Outcome::Rejected(rejection)),
            stage: Stage::Start,
            tally: self.tally + 1,
            last_error: Some(FailureReport { error: rejection.error_class(), message }),
            ..self
        }
    }

    /// The strict parser ran on the input at hand.
    pub open spec fn primary_parsed(self, result: Result<Document, ParseFailure>) -> PassView {
        if !self.awaits(Stage::Start) {
            self
        } else {
            match result {
                Ok(document) => self.accept(document, Outcome::Success),
                Err(failure) => match classification_of(failure.kind) {
                    Classification::Terminal => self.reject(
                        Rejection::HeaderFailure,
                        failure.message,
                    ),
                    Classification::Unknown => self.reject(
                        Rejection::OtherFailure,
                        failure.message,
                    ),
                    Classification::Recoverable(_) => PassView {
                        stage: Stage::XrefFailure,
                        last_error: Some(
                            FailureReport {
                                error: IngestError::CrossReferenceCorrupt,
                                message: failure.message,
                            },
                        ),
                        ..self
                    },
                },
            }
        }
    }

    /// The recovery toolkit tried to open the input at hand.
    pub open spec fn repair_opened(self, result: Result<(), RepairFailure>) -> PassView {
        if !self.awaits(Stage::XrefFailure) {
            self
        } else {
            match result {
                Ok(_) => PassView { stage: Stage::RepairOk, ..self },
                Err(failure) => self.reject(Rejection::RepairFailure, failure.message),
            }
        }
    }

    /// The recovery toolkit tried to write the repaired input at hand to a
    /// buffer.
    pub open spec fn buffer_written(self, result: Result<(), RepairFailure>) -> PassView {
        if !self.awaits(Stage::RepairOk) {
            self
        } else {
            match result {
                Ok(_) => PassView { stage: Stage::BufferOk, ..self },
                Err(failure) => self.reject(Rejection::WriteFailure, failure.message),
            }
        }
    }

    /// The strict parser ran on the repaired input at hand.
    pub open spec fn revalidated(self, result: Result<Document, ParseFailure>) -> PassView {
        if !self.awaits(Stage::BufferOk) {
            self
        } else {
            match result {
                Ok(document) => self.accept(document, Outcome::Recovered),
                Err(failure) => self.reject(Rejection::RecoveredParseFailure, failure.message),
            }
        }
    }

    /// The state after one observation.
    pub open spec fn observe(self, observation: Observation) -> PassView {
        match observation {
            Observation::PrimaryParsed(result) => self.primary_parsed(result),
            Observation::RepairOpened(result) => self.repair_opened(result),
            Observation::BufferWritten(result) => self.buffer_written(result),
            Observation::Revalidated(result) => self.revalidated(result),
        }
    }

    /// The state after a run of observations, first to last.
    pub open spec fn replay(self, observations: Seq<Observation>) -> PassView
        decreases observations.len(),
    {
        if observations.len() == 0 {
            self
        } else {
            self.replay(observations.drop_last()).observe(observations.last())
        }
    }
}

/// What a finished pass hands over.
pub struct PipelineOutput {
    /// The inputs, in the order in which they were picked.
    pub batch: Vec<PathBuf>,
    /// How each input ended, in input order.
    pub outcomes: Vec<Outcome>,
    /// The documents of the accepted inputs, in input order.
    pub documents: Vec<Document>,
    /// The number of rejected inputs.
    pub tally: usize,
    /// The last failure observed.
    pub last_error: Option<FailureReport>,
}

impl PipelineOutput {
    /// The output holds what the finished pass `pass` held, and with it
    /// every input is counted once: as a document or in the tally.
    pub open spec fn is_output_of(self, pass: PassView) -> bool {
        &&& self.batch@ == pass.batch
        &&& self.outcomes@ == pass.outcomes
        &&& self.documents@ == pass.documents
        &&& self.tally == pass.tally
        &&& self.last_error == pass.last_error
        &&& self.outcomes@.len() == self.batch@.len()
        &&& self.documents@.len() + self.tally == self.batch@.len()
        &&& (self.tally > 0 ==> self.last_error is Some)
    }
}

/// A pass of the ingestion pipeline over one batch.
pub struct IngestionPass {
    batch: Vec<PathBuf>,
    outcomes: Vec<Outcome>,
    stage: Stage,
    documents: Vec<Document>,
    tally: usize,
    last_error: Option<FailureReport>,
}

impl View for IngestionPass {
    type V = PassView;

    closed spec fn view(&self) -> PassView {
        PassView {
            batch: self.batch@,
            outcomes: self.outcomes@,
            stage: self.stage,
            documents: self.documents@,
            tally: self.tally as nat,
            last_error: self.last_error,
        }
    }
}

impl IngestionPass {
    /// The books of the pass are kept.
    pub open spec fn wf(&self) -> bool {
        self@.wf()
    }

    /// Starts a pass over `paths`.
    pub fn begin(paths: Vec<PathBuf>) -> (pass: IngestionPass)
        ensures
            pass.wf(),
            pass@ == PassView::initial(paths@),
    {
        assert(paths@.len() <= usize::MAX) by {
            vstd::std_specs::vec::axiom_spec_len(&paths);
        }
        IngestionPass {
            batch: paths,
            outcomes: Vec::new(),
            stage: Stage::Start,
            documents: Vec::new(),
            tally: 0,
            last_error: None,
        }
    }

    /// Whether every input is settled.
    pub fn is_finished(&self) -> (finished: bool)
        ensures
            finished == self@.finished(),
    {
        self.outcomes.len() >= self.batch.len()
    }

    /// The operation that is due.  An index it names is within the batch.
    pub fn next_action(&self) -> (action: Action)
        ensures
            action == self@.pending_action(),
            action matches Action::LoadFromPath(index) ==> index < self@.batch.len(),
            action matches Action::ReadWithRepair(index) ==> index < self@.batch.len(),
            action matches Action::RewriteToBuffer(index) ==> index < self@.batch.len(),
            action matches Action::LoadFromMemory(index) ==> index < self@.batch.len(),
    {
        let index: usize = self.outcomes.len();
        if index >= self.batch.len() {
            Action::Finished
        } else {
            match self.stage {
                Stage::Start => Action::LoadFromPath(index),
                Stage::XrefFailure => Action::ReadWithRepair(index),
                Stage::RepairOk => Action::RewriteToBuffer(index),
                Stage::BufferOk => Action::LoadFromMemory(index),
            }
        }
    }

    /// Whether an input is unsettled and stands at `stage`.
    fn awaits(&self, stage: Stage) -> (due: bool)
        ensures
            due == self@.awaits(stage),
    {
        self.outcomes.len() < self.batch.len() && self.stage == stage
    }

    /// Settles the input at hand by accepting `document`.
    fn accept(&mut self, document: Document, outcome: Outcome)
        requires
            old(self).wf(),
            !old(self)@.finished(),
            outcome.accepted(),
        ensures
            final(self).wf(),
            final(self)@ == old(self)@.accept(document, outcome),
    {
        proof {
            lemma_count_push(self.outcomes@, outcome);
        }
        self.outcomes.push(outcome);
        self.documents.push(document);
        self.stage = Stage::Start;
    }

    /// Settles the input at hand by rejecting it.
    fn reject(&mut self, rejection: Rejection, message: String)
        requires
            old(self).wf(),
            !old(self)@.finished(),
        ensures
            final(self).wf(),
            final(self)@ == old(self)@.reject(rejection, message),
    {
        proof {
            lemma_count_push(self.outcomes@, Outcome::Rejected(rejection));
            lemma_counts_partition(self.outcomes@);
        }
        self.outcomes.push(Outcome::Rejected(rejection));
        self.tally = self.tally + 1;
        self.last_error = Some(FailureReport { error: rejection.error(), message });
        self.stage = Stage::Start;
    }

    /// Reports how the strict parser ended on the input at hand, and returns
    /// the operation that is due next.
    ///
    /// A document is accepted.  A failure is classified: a cross-reference
    /// failure leaves its message and sends the input to recovery, any other
    /// failure rejects the input.  Where no strict parse is due, nothing
    /// changes.
    pub fn primary_parsed(&mut self, result: Result<Document, ParseFailure>) -> (next: Action)
        requires
            old(self).wf(),
        ensures
            final(self).wf(),
            final(self)@ == old(self)@.primary_parsed(result),
            next == final(self)@.pending_action(),
    {
        if self.awaits(Stage::Start) {
            match result {
                Ok(document) => {
                    self.accept(document, Outcome::Success);
                },
                Err(failure) => {
                    match classify(&failure) {
                        Classification::Terminal => {
                            self.reject(Rejection::HeaderFailure, failure.message);
                        },
                        Classification::Unknown => {
                            self.reject(Rejection::OtherFailure, failure.message);
                        },
                        Classification::Recoverable(_) => {
                            self.stage = Stage::XrefFailure;
                            self.last_error = Some(
                                FailureReport {
                                    error: IngestError::CrossReferenceCorrupt,
                                    message: failure.message,
                                },
                            );
                        },
                    }
                },
            }
        }
        self.next_action()
    }

    /// Reports whether the recovery toolkit could open the input at hand,
    /// and returns the operation that is due next.
    ///
    /// A failure rejects the input.  Where the toolkit is not due to open a
    /// file, nothing changes.
    pub fn repair_opened(&mut self, result: Result<(), RepairFailure>) -> (next: Action)
        requires
            old(self).wf(),
        ensures
            final(self).wf(),
            final(self)@ == old(self)@.repair_opened(result),
            next == final(self)@.pending_action(),
    {
        if self.awaits(Stage::XrefFailure) {
            match result {
                Ok(_) => {
                    self.stage = Stage::RepairOk;
                },
                Err(failure) => {
                    self.reject(Rejection::RepairFailure, failure.message);
                },
            }
        }
        self.next_action()
    }

    /// Reports how the strict parser ended on what the recovery toolkit
    /// wrote for the input at hand, and returns the operation that is due
    /// next.
    ///
    /// A document is accepted as recovered; a failure rejects the input.
    /// Where no repaired document is due, nothing changes.
    pub fn revalidated(&mut self, result: Result<Document, ParseFailure>) -> (next: Action)
        requires
            old(self).wf(),
        ensures
            final(self).wf(),
            final(self)@ == old(self)@.revalidated(result),
            next == final(self)@.pending_action(),
    {
        if self.awaits(Stage::BufferOk) {
            match result {
                Ok(document) => {
                    self.accept(document, Outcome::Recovered);
                },
                Err(failure) => {
                    self.reject(Rejection::RecoveredParseFailure, failure.message);
                },
            }
        }
        self.next_action()
    }

    /// Reports whether the recovery toolkit could write the repaired input
    /// at hand to a buffer, and returns the operation that is due next.
    ///
    /// A failure rejects the input.  Where no buffer is due, nothing changes.
    pub fn buffer_written(&mut self, result: Result<(), RepairFailure>) -> (next: Action)
        requires
            old(self).wf(),
        ensures
            final(self).wf(),
            final(self)@ == old(self)@.buffer_written(result),
            next == final(self)@.pending_action(),
    {
        if self.awaits(Stage::RepairOk) {
            match result {
                Ok(_) => {
                    self.stage = Stage::BufferOk;
                },
                Err(failure) => {
                    self.reject(Rejection::WriteFailure, failure.message);
                },
            }
        }
        self.next_action()
    }

    /// Reports one observation, and returns the operation that is due next.
    /// An observation that is not due changes nothing.
    pub fn observe(&mut self, observation: Observation) -> (next: Action)
        requires
            old(self).wf(),
        ensures
            final(self).wf(),
            final(self)@ == old(self)@.observe(observation),
            next == final(self)@.pending_action(),
    {
        match observation {
            Observation::PrimaryParsed(result) => self.primary_parsed(result),
            Observation::RepairOpened(result) => self.repair_opened(result),
            Observation::BufferWritten(result) => self.buffer_written(result),
            Observation::Revalidated(result) => self.revalidated(result),
        }
    }

    /// The pass over `paths` that was told `observations`, first to last.
    pub fn replayed(paths: Vec<PathBuf>, observations: Vec<Observation>) -> (pass: IngestionPass)
        ensures
            pass.wf(),
            pass@ == PassView::initial(paths@).replay(observations@),
    {
        let mut pass = IngestionPass::begin(paths);
        let ghost start = pass@;
        for observation in told: observations
            invariant
                pass.wf(),
                told.seq() == observations@,
                pass@ == start.replay(observations@.take(told.index() as int)),
        {
            assert(observations@.take(told.index() + 1).drop_last() =~= observations@.take(
                told.index() as int,
            ));
            pass.observe(observation);
        }
        assert(observations@.take(observations@.len() as int) =~= observations@);
        pass
    }

    /// Ends the pass.  A pass with unsettled inputs is handed back as it is.
    pub fn finish(self) -> (result: Result<PipelineOutput, IngestionPass>)
        requires
            self.wf(),
        ensures
            self@.finished() ==> (result matches Ok(output) && output.is_output_of(self@)),
            !self@.finished() ==> result == Err::<PipelineOutput, IngestionPass>(self),
    {
        if self.is_finished() {
            proof {
                lemma_counts_partition(self.outcomes@);
            }
            Ok(
                PipelineOutput {
                    batch: self.batch,
                    outcomes: self.outcomes,
                    documents: self.documents,
                    tally: self.tally,
                    last_error: self.last_error,
                },
            )
        } else {
            Err(self)
        }
    }

    /// The inputs of the pass, in the order in which they were picked.
    pub fn input_batch(&self) -> (batch: &Vec<PathBuf>)
        ensures
            batch@ == self@.batch,
    {
        &self.batch
    }

    /// How each settled input ended, in input order.
    pub fn outcomes(&self) -> (outcomes: &Vec<Outcome>)
        ensures
            outcomes@ == self@.outcomes,
    {
        &self.outcomes
    }

    /// The documents accepted so far, in input order.
    pub fn documents(&self) -> (documents: &Vec<Document>)
        ensures
            documents@ == self@.documents,
    {
        &self.documents
    }

    /// The number of inputs rejected so far.
    pub fn failure_tally(&self) -> (tally: usize)
        ensures
            tally == self@.tally,
    {
        self.tally
    }

    /// The last failure observed.
    pub fn last_error(&self) -> (report: &Option<FailureReport>)
        ensures
            *report == self@.last_error,
    {
        &self.last_error
    }
}

} // verus!
