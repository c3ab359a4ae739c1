//! Records held by the store and the request payloads that create or change them.
use vstd::prelude::*;

verus! {

/// A point in time, UTC, counted in microseconds since the Unix epoch.
#[derive(Clone, Copy, Debug, PartialEq, Eq, Structural, PartialOrd, Ord, Hash)]
pub struct Timestamp {
    pub micros: i64,
}

/// A tutor as persisted: `id` is assigned by the store and never changes.
#[derive(Clone, Debug, PartialEq, Eq)]
pub struct Tutor {
    pub id: i32,
    pub first_name: String,
    pub last_name: String,
    pub email: String,
    pub profile: String,
}

/// The caller-supplied fields of a new tutor.
#[derive(Clone, Debug, PartialEq, Eq)]
pub struct CreateTutor {
    pub first_name: String,
    pub last_name: String,
    pub email: String,
    pub profile: String,
}

/// A partial update of a tutor: `None` keeps the current value.
#[derive(Clone, Debug, PartialEq, Eq, Default)]
pub struct UpdateTutor {
    pub first_name: Option<String>,
    pub last_name: Option<String>,
    pub email: Option<String>,
    pub profile: Option<String>,
}

/// A topic as persisted, owned by the tutor `tutor_id`.
#[derive(Clone, Debug, PartialEq, Eq)]
pub struct Topic {
    pub id: i32,
    pub tutor_id: i32,
    pub title: String,
    pub topic_description: Option<String>,
    pub format: Option<String>,
    pub duration: Option<String>,
    pub topic_level: Option<String>,
    pub created_at: Option<Timestamp>,
    pub updated_at: Option<Timestamp>,
}

/// The caller-supplied fields of a new topic.
#[derive(Clone, Debug, PartialEq, Eq)]
pub struct CreateTopic {
    pub title: String,
    pub tutor_id: i32,
    pub topic_description: Option<String>,
    pub format: Option<String>,
    pub duration: Option<String>,
    pub topic_level: Option<String>,
}

/// A partial update of a topic: `None` keeps the current value.
#[derive(Clone, Debug, PartialEq, Eq, Default)]
pub struct UpdateTopic {
    pub title: Option<String>,
    pub topic_description: Option<String>,
    pub format: Option<String>,
    pub duration: Option<String>,
    pub topic_level: Option<String>,
}

/// A copy of an optional text, equal to the text copied.
fn copy_text(s: &Option<String>) -> (r: Option<String>)
    ensures
        r == *s,
{
    match s {
        Some(v) => Some(v.clone()),
        None => None,
    }
}

impl Tutor {
    /// A field-by-field copy, equal to `self`.
    pub fn duplicate(&self) -> (r: Tutor)
        ensures
            r == *self,
    {
        Tutor {
            id: self.id,
            first_name: self.first_name.clone(),
            last_name: self.last_name.clone(),
            email: self.email.clone(),
            profile: self.profile.clone(),
        }
    }
}

impl Topic {
    /// A field-by-field copy, equal to `self`.
    pub fn duplicate(&self) -> (r: Topic)
        ensures
            r == *self,
    {
        Topic {
            id: self.id,
            tutor_id: self.tutor_id,
            title: self.title.clone(),
            topic_description: copy_text(&self.topic_description),
            format: copy_text(&self.format),
            duration: copy_text(&self.duration),
            topic_level: copy_text(&self.topic_level),
            created_at: self.created_at,
            updated_at: self.updated_at,
        }
    }
}

} // verus!
