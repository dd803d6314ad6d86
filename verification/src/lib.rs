//! Ingestion of a batch of PDF files for merging.
//!
//! Every selected file is parsed strictly.  A file whose cross-reference
//! table is inconsistent is sent through a tolerant toolkit and the repaired
//! bytes are parsed strictly again; any other failure rejects the file.  The
//! accepted documents are kept in input order, together with a count of the
//! rejected inputs.
//!
//! The library decides and keeps the books; reading and parsing files is
//! left to the caller.  A pass, [`pipeline::IngestionPass`], says which operation it needs
//! next and is told how that operation ended; [`session::MyApp`] holds what the
//! last finished pass left.

pub mod classifier;
pub mod failure;
pub mod laws;
pub mod pipeline;
pub mod session;
