//! What holds of every pass and of every session.

use vstd::prelude::*;
use lopdf::Document;
use std::path::PathBuf;
use crate::classifier::classification_of;
use crate::classifier::Classification;
use crate::failure::IngestError;
use crate::failure::ParseFailure;
use crate::failure::ParseFailureKind;
use crate::failure::RepairFailure;
use crate::pipeline::count_accepted;
use crate::pipeline::lemma_count_push;
use crate::pipeline::lemma_counts_partition;
use crate::pipeline::Action;
use crate::pipeline::Observation;
use crate::pipeline::Outcome;
use crate::pipeline::PassView;
use crate::pipeline::Rejection;
use crate::pipeline::Stage;
use crate::session::status_of_tally;
use crate::session::SessionView;
use crate::session::ValidityStatus;

verus! {

/// Whatever is observed, the books of a pass stay kept.
pub proof fn lemma_observation_keeps_books(pass: PassView, observation: Observation)
    requires
        pass.wf(),
    ensures
        pass.observe(observation).wf(),
{
    let next = pass.observe(observation);
    if next.outcomes != pass.outcomes {
        lemma_count_push(pass.outcomes, next.outcomes.last());
        assert(next.outcomes =~= pass.outcomes.push(next.outcomes.last()));
    }
}

/// Whatever run of observations a pass is told, its books stay kept.
pub proof fn lemma_replay_keeps_books(pass: PassView, observations: Seq<Observation>)
    requires
        pass.wf(),
    ensures
        pass.replay(observations).wf(),
    decreases observations.len(),
{
    if observations.len() > 0 {
        lemma_replay_keeps_books(pass, observations.drop_last());
        lemma_observation_keeps_books(
            pass.replay(observations.drop_last()),
            observations.last(),
        );
    }
}

/// Every settled input is counted once: as a document or in the tally.  Of a
/// finished pass, the documents and the tally add up to the size of the
/// batch.
pub proof fn lemma_every_input_is_counted(pass: PassView)
    requires
        pass.wf(),
    ensures
        pass.documents.len() + pass.tally == pass.outcomes.len(),
        pass.finished() ==> pass.documents.len() + pass.tally == pass.batch.len(),
{
    lemma_counts_partition(pass.outcomes);
}

/// A pass over any batch that was told any run of observations and is
/// finished holds as many documents, with its tally, as the batch has
/// inputs.
pub proof fn lemma_finished_run_counts_every_input(
    batch: Seq<PathBuf>,
    observations: Seq<Observation>,
)
    requires
        batch.len() <= usize::MAX,
    ensures
        ({
            let end = PassView::initial(batch).replay(observations);
            &&& end.batch == batch
            &&& end.documents.len() + end.tally == end.outcomes.len()
            &&& end.finished() ==> end.documents.len() + end.tally == batch.len()
        }),
{
    lemma_replay_keeps_books(PassView::initial(batch), observations);
    lemma_replay_keeps_batch(PassView::initial(batch), observations);
    lemma_every_input_is_counted(PassView::initial(batch).replay(observations));
}

/// No observation changes the batch.
pub proof fn lemma_replay_keeps_batch(pass: PassView, observations: Seq<Observation>)
    ensures
        pass.replay(observations).batch == pass.batch,
    decreases observations.len(),
{
    if observations.len() > 0 {
        lemma_replay_keeps_batch(pass, observations.drop_last());
    }
}

/// One observation settles one input at most, and a settled input is
/// accepted or rejected, never both and never neither: either nothing is
/// settled and the documents and the tally stay; or one document is added
/// and the tally stays; or the tally grows by one and the documents stay.
pub proof fn lemma_observation_settles_one_input_at_most(
    pass: PassView,
    observation: Observation,
)
    requires
        pass.wf(),
    ensures
        ({
            let next = pass.observe(observation);
            ||| {
                &&& next.outcomes == pass.outcomes
                &&& next.documents == pass.documents
                &&& next.tally == pass.tally
            }
            ||| {
                &&& next.outcomes == pass.outcomes.push(next.outcomes.last())
                &&& next.outcomes.last().accepted()
                &&& next.documents == pass.documents.push(next.documents.last())
                &&& next.tally == pass.tally
            }
            ||| {
                &&& next.outcomes == pass.outcomes.push(next.outcomes.last())
                &&& !next.outcomes.last().accepted()
                &&& next.documents == pass.documents
                &&& next.tally == pass.tally + 1
            }
        }),
{
}

/// A file that the strict parser accepts is settled at once: its document
/// is added behind those of the inputs before it, the tally stays, and what
/// is due next is no operation of the recovery toolkit.
pub proof fn lemma_valid_file_skips_recovery(pass: PassView, document: Document)
    requires
        pass.wf(),
        pass.awaits(Stage::Start),
    ensures
        ({
            let next = pass.primary_parsed(Ok(document));
            &&& next.outcomes == pass.outcomes.push(Outcome::Success)
            &&& next.documents == pass.documents.push(document)
            &&& next.tally == pass.tally
            &&& !next.pending_action().calls_recovery()
        }),
{
}

/// A file without a valid header is terminal: it is rejected at once, the
/// tally grows by one, the documents stay, and what is due next is no
/// operation of the recovery toolkit.
pub proof fn lemma_header_failure_skips_recovery(pass: PassView, failure: ParseFailure)
    requires
        pass.wf(),
        pass.awaits(Stage::Start),
        failure.kind == ParseFailureKind::HeaderInvalid,
    ensures
        classification_of(failure.kind) == Classification::Terminal,
        ({
            let next = pass.primary_parsed(Err(failure));
            &&& next.outcomes == pass.outcomes.push(Outcome::Rejected(Rejection::HeaderFailure))
            &&& next.documents == pass.documents
            &&& next.tally == pass.tally + 1
            &&& next.last_error matches Some(report) && report.error
                == IngestError::HeaderInvalid && report.message == failure.message
            &&& !next.pending_action().calls_recovery()
        }),
{
}

/// A failure that is neither of the header nor of the cross-reference table
/// is handled as terminal too: the input is rejected at once and the
/// recovery toolkit is not asked.
pub proof fn lemma_other_failure_skips_recovery(pass: PassView, failure: ParseFailure)
    requires
        pass.wf(),
        pass.awaits(Stage::Start),
        failure.kind == ParseFailureKind::Other,
    ensures
        classification_of(failure.kind) == Classification::Unknown,
        ({
            let next = pass.primary_parsed(Err(failure));
            &&& next.outcomes == pass.outcomes.push(Outcome::Rejected(Rejection::OtherFailure))
            &&& next.documents == pass.documents
            &&& next.tally == pass.tally + 1
            &&& !next.pending_action().calls_recovery()
        }),
{
}

/// A cross-reference failure sends its input through recovery once.
///
/// The failure settles nothing and makes the opening of the file by the
/// toolkit due.  Whatever the toolkit reports of the opening, the opening is
/// not due again: either the writing of the buffer is due, for the same
/// input, or the input is rejected.  Whatever it reports of the writing, the
/// writing is not due again: either the strict parse of the buffer is due,
/// for the same input, or the input is rejected.  Whatever the strict parser
/// reports of the buffer, the input is settled after it.  Once the input is
/// settled, what is due next is no operation of the recovery toolkit.
pub proof fn lemma_cross_reference_failure_is_repaired_once(
    pass: PassView,
    failure: ParseFailure,
    opened: Result<(), RepairFailure>,
    written: Result<(), RepairFailure>,
    reparsed: Result<Document, ParseFailure>,
)
    requires
        pass.wf(),
        pass.awaits(Stage::Start),
        failure.kind == ParseFailureKind::CrossReference,
    ensures
        ({
            let index = pass.outcomes.len() as usize;
            let sent = pass.primary_parsed(Err(failure));
            let open = sent.repair_opened(opened);
            let buffered = open.buffer_written(written);
            let done = buffered.revalidated(reparsed);
            &&& sent.pending_action() == Action::ReadWithRepair(index)
            &&& sent.outcomes == pass.outcomes
            &&& sent.documents == pass.documents
            &&& sent.tally == pass.tally
            &&& open.pending_action() != Action::ReadWithRepair(index)
            &&& opened is Err ==> {
                &&& open.outcomes == pass.outcomes.push(
                    Outcome::Rejected(Rejection::RepairFailure),
                )
                &&& open.documents == pass.documents
                &&& open.tally == pass.tally + 1
                &&& !open.pending_action().calls_recovery()
            }
            &&& opened is Ok ==> {
                &&& open.pending_action() == Action::RewriteToBuffer(index)
                &&& open.outcomes == pass.outcomes
                &&& buffered.pending_action() != Action::RewriteToBuffer(index)
                &&& !buffered.pending_action().calls_recovery()
            }
            &&& opened is Ok && written is Err ==> {
                &&& buffered.outcomes == pass.outcomes.push(
                    Outcome::Rejected(Rejection::WriteFailure),
                )
                &&& buffered.documents == pass.documents
                &&& buffered.tally == pass.tally + 1
            }
            &&& opened is Ok && written is Ok ==> {
                &&& buffered.pending_action() == Action::LoadFromMemory(index)
                &&& buffered.outcomes == pass.outcomes
                &&& done.outcomes.len() == pass.outcomes.len() + 1
                &&& !done.pending_action().calls_recovery()
            }
        }),
{
}

/// A file that is repaired, written and then accepted by the strict parser
/// takes the place of its input: its document stands behind the documents of
/// the accepted inputs before it, and the tally stays.
pub proof fn lemma_recovered_document_keeps_its_place(
    pass: PassView,
    failure: ParseFailure,
    document: Document,
)
    requires
        pass.wf(),
        pass.awaits(Stage::Start),
        failure.kind == ParseFailureKind::CrossReference,
    ensures
        ({
            let done = pass.primary_parsed(Err(failure)).repair_opened(Ok(())).buffer_written(
                Ok(()),
            ).revalidated(Ok(document));
            &&& done.outcomes == pass.outcomes.push(Outcome::Recovered)
            &&& done.documents == pass.documents.push(document)
            &&& done.documents[count_accepted(pass.outcomes) as int] == document
            &&& done.tally == pass.tally
            &&& done.wf()
        }),
{
    let sent = pass.primary_parsed(Err(failure));
    let open = sent.repair_opened(Ok(()));
    let buffered = open.buffer_written(Ok(()));
    lemma_observation_keeps_books(pass, Observation::PrimaryParsed(Err(failure)));
    lemma_observation_keeps_books(sent, Observation::RepairOpened(Ok(())));
    lemma_observation_keeps_books(open, Observation::BufferWritten(Ok(())));
    lemma_observation_keeps_books(buffered, Observation::Revalidated(Ok(document)));
}

/// A failure on the way through recovery rejects the input once: whether
/// the toolkit cannot write the buffer or the strict parser rejects what it
/// wrote, the tally grows by one and the documents stay.
pub proof fn lemma_failed_recovery_is_tallied_once(pass: PassView, report: Observation)
    requires
        pass.wf(),
        !pass.finished(),
        match report {
            Observation::BufferWritten(result) => pass.stage == Stage::RepairOk && result is Err,
            Observation::Revalidated(result) => pass.stage == Stage::BufferOk && result is Err,
            _ => false,
        },
    ensures
        ({
            let done = pass.observe(report);
            &&& done.tally == pass.tally + 1
            &&& done.documents == pass.documents
            &&& done.outcomes.len() == pass.outcomes.len() + 1
            &&& !done.outcomes.last().accepted()
        }),
{
}

/// Documents are added at the end and never moved or taken away: what a
/// pass held before an observation, it holds after it, at the same places.
pub proof fn lemma_observation_extends(pass: PassView, observation: Observation)
    ensures
        pass.documents.is_prefix_of(pass.observe(observation).documents),
        pass.outcomes.is_prefix_of(pass.observe(observation).outcomes),
{
    let next = pass.observe(observation);
    assert(pass.documents =~= next.documents.subrange(0, pass.documents.len() as int));
    assert(pass.outcomes =~= next.outcomes.subrange(0, pass.outcomes.len() as int));
}

/// The documents keep the order of their inputs through any run: what a
/// pass held before the run, it holds after it, at the same places.
pub proof fn lemma_replay_extends(pass: PassView, observations: Seq<Observation>)
    ensures
        pass.documents.is_prefix_of(pass.replay(observations).documents),
        pass.outcomes.is_prefix_of(pass.replay(observations).outcomes),
    decreases observations.len(),
{
    if observations.len() > 0 {
        let before = pass.replay(observations.drop_last());
        lemma_replay_extends(pass, observations.drop_last());
        lemma_observation_extends(before, observations.last());
        let after = before.observe(observations.last());
        assert(pass.documents =~= after.documents.subrange(0, pass.documents.len() as int));
        assert(pass.outcomes =~= after.outcomes.subrange(0, pass.outcomes.len() as int));
    } else {
        assert(pass.documents =~= pass.documents.subrange(0, pass.documents.len() as int));
        assert(pass.outcomes =~= pass.outcomes.subrange(0, pass.outcomes.len() as int));
    }
}

/// The reports that a pass has still to hear, at most: four for each
/// untouched input, fewer for the input at hand as it moves on.
pub open spec fn reports_left(pass: PassView) -> nat {
    if pass.finished() {
        0
    } else {
        let untouched = (pass.batch.len() - pass.outcomes.len()) as nat;
        match pass.stage {
            Stage::Start => 4 * untouched,
            Stage::XrefFailure => (4 * untouched - 1) as nat,
            Stage::RepairOk => (4 * untouched - 2) as nat,
            Stage::BufferOk => (4 * untouched - 3) as nat,
        }
    }
}

/// Every report that is due brings a pass nearer to its end, so a pass over
/// `n` inputs is finished after `4 * n` reports at most.
pub proof fn lemma_due_report_makes_progress(pass: PassView, observation: Observation)
    requires
        pass.wf(),
        !pass.finished(),
        match observation {
            Observation::PrimaryParsed(_) => pass.stage == Stage::Start,
            Observation::RepairOpened(_) => pass.stage == Stage::XrefFailure,
            Observation::BufferWritten(_) => pass.stage == Stage::RepairOk,
            Observation::Revalidated(_) => pass.stage == Stage::BufferOk,
        },
    ensures
        reports_left(pass.observe(observation)) < reports_left(pass),
        reports_left(PassView::initial(pass.batch)) == 4 * pass.batch.len(),
{
}

/// A pass is a function of its batch and of what it is told: two passes
/// over the same batch that are told the same, report by report, end with
/// the same documents, the same tally and the same outcomes.
pub proof fn lemma_same_run_same_result(
    batch: Seq<PathBuf>,
    first: Seq<Observation>,
    second: Seq<Observation>,
)
    requires
        first.len() == second.len(),
        forall|i: int| 0 <= i < first.len() ==> first[i] == second[i],
    ensures
        PassView::initial(batch).replay(first) == PassView::initial(batch).replay(second),
{
    assert(first =~= second);
}

/// What a session holds after a pass does not depend on what it held
/// before: the batch, the documents and the status are those of the pass.
pub proof fn lemma_completion_replaces_the_session(
    first: SessionView,
    second: SessionView,
    pass: PassView,
)
    ensures
        first.installed(pass).batch == second.installed(pass).batch,
        first.installed(pass).documents == second.installed(pass).documents,
        first.installed(pass).status == second.installed(pass).status,
        first.installed(pass).batch == pass.batch,
        first.installed(pass).documents == pass.documents,
        first.installed(pass).status == status_of_tally(pass.tally),
{
}

/// Completing the same pass a second time changes nothing.
pub proof fn lemma_completing_twice_changes_nothing(session: SessionView, pass: PassView)
    ensures
        session.installed(pass).installed(pass) == session.installed(pass),
{
}

/// After a finished pass the status tells whether the tally is zero, and a
/// session that is not all valid has an error to show.
pub proof fn lemma_status_follows_tally(session: SessionView, pass: PassView)
    requires
        pass.wf(),
        pass.finished(),
    ensures
        session.installed(pass).status == ValidityStatus::AllValid <==> pass.tally == 0,
        session.installed(pass).status == ValidityStatus::SomeInvalid <==> pass.tally > 0,
        session.installed(pass).status == ValidityStatus::AllValid
            <==> session.installed(pass).documents.len() == pass.batch.len(),
        session.installed(pass).status == ValidityStatus::SomeInvalid ==> session.installed(
            pass,
        ).last_error is Some,
{
    lemma_every_input_is_counted(pass);
}

/// Dropping the documents empties the document set and unsets the status,
/// and leaves the batch and the last error as they were.  Dropping twice is
/// dropping once.
pub proof fn lemma_reset_keeps_batch(session: SessionView)
    ensures
        session.dropped().documents.len() == 0,
        session.dropped().status == ValidityStatus::Unset,
        session.dropped().batch == session.batch,
        session.dropped().last_error == session.last_error,
        session.dropped().dropped() == session.dropped(),
{
}

/// A failed merge leaves the batch, the documents and the status as they
/// were.
pub proof fn lemma_merge_failure_keeps_documents(session: SessionView, message: String)
    ensures
        session.merge_failed(message).batch == session.batch,
        session.merge_failed(message).documents == session.documents,
        session.merge_failed(message).status == session.status,
        session.merge_failed(message).last_error matches Some(report) && report.error
            == IngestError::MergeFailure && report.message == message,
{
}

} // verus!
