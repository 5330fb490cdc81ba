//! Maps a laboratory synthesis batch record onto triples of a fixed
//! lab-synthesis ontology, and renders the resulting graph as text.

/// Terms: named nodes, blank nodes, literals; the error kinds.
pub mod term;
/// The insertion-ordered triple store.
pub mod graph;
/// Fresh blank nodes.
pub mod ids;
/// Prefix to IRI-base resolution.
pub mod namespace;
/// The batch record that the mapping reads.
pub mod record;
/// The ontology terms the mapping writes, resolved once.
pub mod vocab;
/// What each part of a batch maps to, as sequences of triples.
pub mod model;
/// The mapping itself.
pub mod mapper;
/// Turtle and JSON-LD text, through sophia.
pub mod render;
/// Properties of the mapping as a whole.
pub mod laws;
