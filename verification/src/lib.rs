//! A verified content-generation and document-assembly pipeline for
//! curriculum lessons: topic records fetched from a document store are
//! turned into structured lesson content, persisted back with their
//! source tag, and flattened into a variant-free document model for
//! deterministic rendering. Every decision — query text, response
//! decoding, class and term resolution, error wrapping, run ordering —
//! is specified and proved here; the surrounding runtime only performs
//! the remote calls it is told to.

pub mod agents;
pub mod content;
pub mod document;
pub mod errors;
pub mod mapping;
pub mod pipeline;
pub mod records;
pub mod render;
pub mod store;
