//! Extracts the documentation of one crate from a loaded analysis database
//! and renders it as a JSON:API document.
//!
//! The work is done in two stages. The first walks the direct children of
//! the root of the crate and keeps the documented ones in a model
//! ([`model::DocData`], built by `DocData::new` in [`extract`]). The second
//! turns the model into a resource graph, with one primary resource for the
//! crate and one included resource per symbol ([`graph`]), and encodes the
//! graph as text ([`render`]).
//!
//! The database is only ever read, through [`source::AnalysisSource`]. What
//! holds of the two stages for every database is stated in [`laws`].

pub mod artifacts;
pub mod error;
pub mod extract;
pub mod graph;
pub mod laws;
pub mod model;
pub mod qualname;
pub mod render;
pub mod source;
