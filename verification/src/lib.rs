//! Makes compiled Python bytecode cache (`.pyc`) artifacts reproducible.
//!
//! The crate is one file-type handler inside a build-artifact normalization
//! tool.  It recognizes `.pyc` candidates by their final extension, decodes
//! the four-byte header that opens every `.pyc` file, resolves the embedded
//! magic value to an interpreter-version label through an ordered table with
//! a first-match-wins policy, decides whether the file is eligible for
//! normalization (Python 2.x files are skipped), and drives the processing
//! pipeline that takes a candidate from "selected" through "verified" and
//! "transformed" to "committed or unchanged".
//!
//! The normalization transform itself — rewriting reference-reuse markers
//! inside the marshal-serialized object graph — is an external collaborator.
//! The pipeline here is a state machine from events to actions; the
//! surrounding program performs the actions (read, transform, commit) and
//! feeds the results back as events.

pub mod errors;
pub mod header;
pub mod pipeline;
pub mod selection;
pub mod version;
