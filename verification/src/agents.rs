use vstd::prelude::*;

use crate::errors::AgentError;
use crate::records::PersistedRecord;

verus! {

/// The operation surface of the content side: a named agent that runs
/// the bulk generation pipeline over one topic table. The surrounding
/// runtime implements it by driving a `PipelineRun` against the store
/// and the generation service.
pub trait ContentAgent: Sized {
    /// The agent constructor; the name identifies the agent.
    fn new(name: String) -> Self;

    /// Fetches every topic of `table` and, topic by topic and in fetch
    /// order, generates and persists lesson content, returning the
    /// persisted records or the first failure.
    fn content_generator(&mut self, table: String) -> Result<Vec<PersistedRecord>, AgentError>;
}

/// The operation surface of the rendering side: a named agent that
/// renders persisted lessons into study documents.
pub trait PdfAgent: Sized {
    /// The agent constructor; the name identifies the agent.
    fn new(name: String) -> Self;

    /// Renders the persisted lessons of a class and subject.
    fn pdf_generator(&mut self, class: String, subject: String);
}

} // verus!
