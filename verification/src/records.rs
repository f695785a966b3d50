use vstd::prelude::*;

verus! {

/// One unit of curriculum work queued for content generation.
///
/// Records are created by the document store; the pipeline only reads
/// them. The `id` is absent until the store has assigned one; a record
/// can serve as a persistence target only once its `id` is present.
#[derive(Debug)]
pub struct TopicRecord {
    pub id: Option<String>,
    pub agegroup: String,
    pub class: String,
    pub subject: String,
    pub term: String,
    pub topic: String,
    pub week: i32,
}

impl Clone for TopicRecord {
    fn clone(&self) -> (r: Self)
        ensures
            r == *self,
    {
        TopicRecord {
            id: clone_optional_string(&self.id),
            agegroup: self.agegroup.clone(),
            class: self.class.clone(),
            subject: self.subject.clone(),
            term: self.term.clone(),
            topic: self.topic.clone(),
            week: self.week,
        }
    }
}

/// The store's representation of one persisted generated lesson: the
/// row id the store assigned, and the `source_id` tag linking the row
/// back to the originating topic's id.
#[derive(Debug)]
pub struct PersistedRecord {
    pub id: Option<String>,
    pub source_id: String,
}

impl Clone for PersistedRecord {
    fn clone(&self) -> (r: Self)
        ensures
            r == *self,
    {
        PersistedRecord { id: clone_optional_string(&self.id), source_id: self.source_id.clone() }
    }
}

/// Clones an optional string, keeping the exact value.
pub fn clone_optional_string(s: &Option<String>) -> (r: Option<String>)
    ensures
        r == *s,
{
    match s {
        Some(v) => Some(v.clone()),
        None => None,
    }
}

} // verus!
