use lopdf::Dictionary;
use lopdf::Document;
use lopdf::Object;
use pdf_merger::failure::IngestError;
use pdf_merger::failure::ParseFailure;
use pdf_merger::failure::ParseFailureKind;
use pdf_merger::failure::RepairFailure;
use pdf_merger::pipeline::Action;
use pdf_merger::pipeline::IngestionPass;
use pdf_merger::session::derive_status;
use pdf_merger::session::MyApp;
use pdf_merger::session::ValidityStatus;
use std::path::PathBuf;

/// The bytes of a one-page document of the given version.
fn sample_pdf(version: &str) -> Vec<u8> {
    let mut document = Document::with_version(version);
    let pages_id = document.new_object_id();
    let mut page = Dictionary::new();
    page.set("Type", Object::Name(b"Page".to_vec()));
    page.set("Parent", Object::Reference(pages_id));
    let page_id = document.add_object(Object::Dictionary(page));
    let mut pages = Dictionary::new();
    pages.set("Type", Object::Name(b"Pages".to_vec()));
    pages.set("Kids", Object::Array(vec![Object::Reference(page_id)]));
    pages.set("Count", Object::Integer(1));
    document.objects.insert(pages_id, Object::Dictionary(pages));
    let mut catalog = Dictionary::new();
    catalog.set("Type", Object::Name(b"Catalog".to_vec()));
    catalog.set("Pages", Object::Reference(pages_id));
    let catalog_id = document.add_object(Object::Dictionary(catalog));
    document.trailer.set("Root", Object::Reference(catalog_id));
    let mut bytes = Vec::new();
    document.save_to(&mut bytes).unwrap();
    bytes
}

/// The sample with a `startxref` offset that lies far behind its end.
fn with_xref_start_out_of_range(version: &str) -> Vec<u8> {
    let bytes = sample_pdf(version);
    let needle = b"startxref";
    let at = bytes
        .windows(needle.len())
        .rposition(|window| window == needle)
        .unwrap();
    let mut corrupt = bytes[..at].to_vec();
    corrupt.extend_from_slice(b"startxref\n99999999\n%%EOF");
    corrupt
}

/// Parses as the strict parser of a caller does, and sorts the failure.
fn load_from_memory(bytes: &[u8]) -> Result<Document, ParseFailure> {
    match Document::load_mem(bytes) {
        Ok(document) => Ok(document),
        Err(error @ lopdf::Error::Header) => Err(ParseFailure {
            kind: ParseFailureKind::HeaderInvalid,
            message: error.to_string(),
        }),
        Err(lopdf::Error::Xref(fault)) => Err(ParseFailure {
            kind: ParseFailureKind::CrossReference,
            message: fault.to_string(),
        }),
        Err(error) => Err(ParseFailure {
            kind: ParseFailureKind::Other,
            message: error.to_string(),
        }),
    }
}

fn paths(names: &[&str]) -> Vec<PathBuf> {
    names.iter().map(PathBuf::from).collect()
}

fn versions(app: &MyApp) -> Vec<String> {
    app.current_documents().iter().map(|document| document.version.clone()).collect()
}

/// What stands for a file: the bytes that the strict parser reads, and the
/// bytes that the recovery toolkit would write for it.
struct Shelf {
    files: Vec<(Vec<u8>, Result<Vec<u8>, String>)>,
}

/// Runs a pass of `app` over the files of `shelf`, as a caller does that
/// performs each operation that is due.
fn run(app: &MyApp, batch: Vec<PathBuf>, shelf: &Shelf) -> IngestionPass {
    let mut pass = app.begin_ingestion(batch);
    let mut next = pass.next_action();
    loop {
        next = match next {
            Action::LoadFromPath(index) => {
                pass.primary_parsed(load_from_memory(&shelf.files[index].0))
            }
            Action::ReadWithRepair(index) => match &shelf.files[index].1 {
                Ok(_) => pass.repair_opened(Ok(())),
                Err(message) => pass.repair_opened(Err(RepairFailure { message: message.clone() })),
            },
            Action::RewriteToBuffer(index) => match &shelf.files[index].1 {
                Ok(_) => pass.buffer_written(Ok(())),
                Err(message) => pass.buffer_written(Err(RepairFailure { message: message.clone() })),
            },
            Action::LoadFromMemory(index) => match &shelf.files[index].1 {
                Ok(bytes) => pass.revalidated(load_from_memory(bytes)),
                Err(message) => pass.revalidated(Err(ParseFailure {
                    kind: ParseFailureKind::Other,
                    message: message.clone(),
                })),
            },
            Action::Finished => return pass,
        };
    }
}

fn mixed_shelf() -> Shelf {
    Shelf {
        files: vec![
            (sample_pdf("1.4"), Err("not asked".to_string())),
            (Vec::new(), Err("not asked".to_string())),
            (with_xref_start_out_of_range("1.6"), Ok(sample_pdf("1.6"))),
        ],
    }
}

fn complete(app: &mut MyApp, pass: IngestionPass) -> ValidityStatus {
    match app.complete_ingestion(pass) {
        Ok(status) => status,
        Err(_) => panic!("the pass was finished"),
    }
}

#[test]
fn new_session_holds_nothing() {
    let app = MyApp::new();
    assert!(app.picked_paths().is_empty());
    assert!(app.current_documents().is_empty());
    assert_eq!(app.validity(), ValidityStatus::Unset);
    assert!(app.last_error().is_none());
    assert!(app.last_error_message().is_none());
}

#[test]
fn default_session_holds_nothing() {
    let app = MyApp::default();
    assert!(app.picked_paths().is_empty());
    assert!(app.current_documents().is_empty());
    assert_eq!(app.validity(), ValidityStatus::Unset);
    assert!(app.last_error_message().is_none());
}

#[test]
fn default_status_is_unset() {
    assert_eq!(ValidityStatus::default(), ValidityStatus::Unset);
}

#[test]
fn status_follows_the_tally() {
    assert_eq!(derive_status(0), ValidityStatus::AllValid);
    assert_eq!(derive_status(1), ValidityStatus::SomeInvalid);
    assert_eq!(derive_status(5), ValidityStatus::SomeInvalid);
    assert_eq!(derive_status(usize::MAX), ValidityStatus::SomeInvalid);
}

#[test]
fn beginning_a_pass_leaves_the_session() {
    let mut app = MyApp::new();
    let shelf = mixed_shelf();
    let pass = run(&app, paths(&["good.pdf", "empty.pdf", "xref.pdf"]), &shelf);
    complete(&mut app, pass);
    let pending = app.begin_ingestion(paths(&["other.pdf"]));
    assert_eq!(pending.next_action(), Action::LoadFromPath(0));
    assert_eq!(app.picked_paths(), &paths(&["good.pdf", "empty.pdf", "xref.pdf"]));
    assert_eq!(versions(&app), vec!["1.4", "1.6"]);
    assert_eq!(app.validity(), ValidityStatus::SomeInvalid);
}

#[test]
fn valid_empty_and_repairable_file_in_a_session() {
    let mut app = MyApp::new();
    let shelf = mixed_shelf();
    let pass = run(&app, paths(&["good.pdf", "empty.pdf", "xref.pdf"]), &shelf);
    assert_eq!(pass.failure_tally(), 1);
    let status = complete(&mut app, pass);
    assert_eq!(status, ValidityStatus::SomeInvalid);
    assert_eq!(app.validity(), ValidityStatus::SomeInvalid);
    assert_eq!(app.current_documents().len(), 2);
    assert_eq!(versions(&app), vec!["1.4", "1.6"]);
    assert_eq!(app.picked_paths(), &paths(&["good.pdf", "empty.pdf", "xref.pdf"]));
    assert!(app.last_error_message().is_some());
}

#[test]
fn documents_and_tally_add_up_to_the_batch() {
    let app = MyApp::new();
    let shelf = mixed_shelf();
    let pass = run(&app, paths(&["good.pdf", "empty.pdf", "xref.pdf"]), &shelf);
    let tally = pass.failure_tally();
    let mut app = app;
    complete(&mut app, pass);
    assert_eq!(app.current_documents().len() + tally, app.picked_paths().len());
}

#[test]
fn batch_of_valid_files_is_all_valid() {
    let mut app = MyApp::new();
    let shelf = Shelf {
        files: vec![
            (sample_pdf("1.3"), Err("not asked".to_string())),
            (sample_pdf("1.4"), Err("not asked".to_string())),
        ],
    };
    let pass = run(&app, paths(&["a.pdf", "b.pdf"]), &shelf);
    assert_eq!(complete(&mut app, pass), ValidityStatus::AllValid);
    assert_eq!(versions(&app), vec!["1.3", "1.4"]);
    assert!(app.last_error_message().is_none());
}

#[test]
fn repaired_batch_is_all_valid() {
    let mut app = MyApp::new();
    let shelf = Shelf {
        files: vec![
            (sample_pdf("1.3"), Err("not asked".to_string())),
            (with_xref_start_out_of_range("1.4"), Ok(sample_pdf("1.4"))),
            (sample_pdf("1.5"), Err("not asked".to_string())),
        ],
    };
    let pass = run(&app, paths(&["a.pdf", "b.pdf", "c.pdf"]), &shelf);
    assert_eq!(complete(&mut app, pass), ValidityStatus::AllValid);
    assert_eq!(versions(&app), vec!["1.3", "1.4", "1.5"]);
    assert_eq!(app.last_error_message().map(String::as_str), Some("invalid start value"));
    assert_eq!(app.last_error().as_ref().unwrap().error, IngestError::CrossReferenceCorrupt);
}

#[test]
fn file_that_cannot_be_repaired_is_invalid() {
    let mut app = MyApp::new();
    let shelf = Shelf {
        files: vec![(
            with_xref_start_out_of_range("1.4"),
            Err("DamagedPdf: unable to find trailer".to_string()),
        )],
    };
    let pass = run(&app, paths(&["a.pdf"]), &shelf);
    assert_eq!(complete(&mut app, pass), ValidityStatus::SomeInvalid);
    assert!(app.current_documents().is_empty());
    assert_eq!(
        app.last_error_message().map(String::as_str),
        Some("DamagedPdf: unable to find trailer")
    );
    assert_eq!(app.last_error().as_ref().unwrap().error, IngestError::RecoveryToolkitFailure);
}

#[test]
fn empty_batch_is_all_valid() {
    let mut app = MyApp::new();
    let pass = app.begin_ingestion(Vec::new());
    assert_eq!(complete(&mut app, pass), ValidityStatus::AllValid);
    assert!(app.current_documents().is_empty());
    assert!(app.picked_paths().is_empty());
}

#[test]
fn unfinished_pass_leaves_the_session() {
    let mut app = MyApp::new();
    let shelf = mixed_shelf();
    let pass = run(&app, paths(&["good.pdf", "empty.pdf", "xref.pdf"]), &shelf);
    complete(&mut app, pass);

    let mut pending = app.begin_ingestion(paths(&["a.pdf", "b.pdf"]));
    pending.primary_parsed(load_from_memory(&sample_pdf("1.7")));
    let pending = match app.complete_ingestion(pending) {
        Ok(_) => panic!("an input is unsettled"),
        Err(pending) => pending,
    };
    assert_eq!(pending.next_action(), Action::LoadFromPath(1));
    assert_eq!(pending.documents().len(), 1);
    assert_eq!(app.picked_paths(), &paths(&["good.pdf", "empty.pdf", "xref.pdf"]));
    assert_eq!(versions(&app), vec!["1.4", "1.6"]);
    assert_eq!(app.validity(), ValidityStatus::SomeInvalid);
}

#[test]
fn reset_drops_documents_and_keeps_the_batch() {
    let mut app = MyApp::new();
    let shelf = mixed_shelf();
    let pass = run(&app, paths(&["good.pdf", "empty.pdf", "xref.pdf"]), &shelf);
    complete(&mut app, pass);
    let message = app.last_error_message().cloned();
    app.reset();
    assert!(app.current_documents().is_empty());
    assert_eq!(app.validity(), ValidityStatus::Unset);
    assert_eq!(app.picked_paths(), &paths(&["good.pdf", "empty.pdf", "xref.pdf"]));
    assert_eq!(app.last_error_message().cloned(), message);
    app.reset();
    assert!(app.current_documents().is_empty());
    assert_eq!(app.validity(), ValidityStatus::Unset);
    assert_eq!(app.picked_paths(), &paths(&["good.pdf", "empty.pdf", "xref.pdf"]));
}

#[test]
fn reset_of_a_new_session_changes_nothing() {
    let mut app = MyApp::new();
    app.reset();
    assert!(app.current_documents().is_empty());
    assert!(app.picked_paths().is_empty());
    assert_eq!(app.validity(), ValidityStatus::Unset);
}

#[test]
fn same_batch_twice_gives_the_same_session() {
    let mut app = MyApp::new();
    let shelf = mixed_shelf();
    let first = run(&app, paths(&["good.pdf", "empty.pdf", "xref.pdf"]), &shelf);
    let first_tally = first.failure_tally();
    let first_outcomes = first.outcomes().clone();
    let first_status = complete(&mut app, first);
    let first_versions = versions(&app);
    let first_message = app.last_error_message().cloned();

    let second = run(&app, paths(&["good.pdf", "empty.pdf", "xref.pdf"]), &shelf);
    assert_eq!(second.failure_tally(), first_tally);
    assert_eq!(second.outcomes(), &first_outcomes);
    let second_status = complete(&mut app, second);
    assert_eq!(second_status, first_status);
    assert_eq!(versions(&app), first_versions);
    assert_eq!(app.current_documents().len(), 2);
    assert_eq!(app.last_error_message().cloned(), first_message);
    assert_eq!(app.picked_paths(), &paths(&["good.pdf", "empty.pdf", "xref.pdf"]));
}

#[test]
fn new_batch_replaces_the_old_one() {
    let mut app = MyApp::new();
    let shelf = mixed_shelf();
    let pass = run(&app, paths(&["good.pdf", "empty.pdf", "xref.pdf"]), &shelf);
    complete(&mut app, pass);
    let fresh = Shelf { files: vec![(sample_pdf("1.2"), Err("not asked".to_string()))] };
    let pass = run(&app, paths(&["fresh.pdf"]), &fresh);
    assert_eq!(complete(&mut app, pass), ValidityStatus::AllValid);
    assert_eq!(app.picked_paths(), &paths(&["fresh.pdf"]));
    assert_eq!(versions(&app), vec!["1.2"]);
    assert_eq!(app.last_error_message().map(String::as_str), Some("invalid start value"));
}

#[test]
fn merge_failure_leaves_the_documents() {
    let mut app = MyApp::new();
    let shelf = mixed_shelf();
    let pass = run(&app, paths(&["good.pdf", "empty.pdf", "xref.pdf"]), &shelf);
    complete(&mut app, pass);
    app.record_merge_failure("No such file or directory (os error 2)".to_string());
    assert_eq!(
        app.last_error_message().map(String::as_str),
        Some("No such file or directory (os error 2)")
    );
    assert_eq!(app.last_error().as_ref().unwrap().error, IngestError::MergeFailure);
    assert_eq!(versions(&app), vec!["1.4", "1.6"]);
    assert_eq!(app.validity(), ValidityStatus::SomeInvalid);
    assert_eq!(app.picked_paths(), &paths(&["good.pdf", "empty.pdf", "xref.pdf"]));
}

#[test]
fn header_failure_message_is_shown() {
    let mut app = MyApp::new();
    let mut pass = app.begin_ingestion(paths(&["a.txt"]));
    pass.primary_parsed(Err(ParseFailure {
        kind: ParseFailureKind::HeaderInvalid,
        message: "Invalid file header".to_string(),
    }));
    assert_eq!(complete(&mut app, pass), ValidityStatus::SomeInvalid);
    assert_eq!(app.last_error_message().map(String::as_str), Some("Invalid file header"));
    assert_eq!(app.last_error().as_ref().unwrap().error, IngestError::HeaderInvalid);
}
