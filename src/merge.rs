//! Applying a partial update onto a current record.
//!
//! Each field the update supplies replaces the current value; each field it
//! leaves out keeps the current one. Optional text that was never set is
//! written back as the empty string.
use vstd::prelude::*;
use crate::model::{Timestamp, Topic, Tutor, UpdateTopic, UpdateTutor};

verus! {

/// The value a required field takes after an update.
pub open spec fn kept_or_set(update: Option<String>, current: String) -> String {
    match update {
        Some(v) => v,
        None => current,
    }
}

/// `r` is the value an optional text field takes after an update: the
/// update's value, else the current value, else the empty string.
pub open spec fn is_merged_text(update: Option<String>, current: Option<String>, r: Option<String>) -> bool {
    match update {
        Some(v) => r == Some(v),
        None => match current {
            Some(c) => r == Some(c),
            None => r.is_some() && r.unwrap()@ == Seq::<char>::empty(),
        },
    }
}

/// A tutor after the partial update `u`.
pub open spec fn merged_tutor(current: Tutor, u: UpdateTutor) -> Tutor {
    Tutor {
        id: current.id,
        first_name: kept_or_set(u.first_name, current.first_name),
        last_name: kept_or_set(u.last_name, current.last_name),
        email: kept_or_set(u.email, current.email),
        profile: kept_or_set(u.profile, current.profile),
    }
}

/// `r` is the topic `current` after the partial update `u`, written at `now`.
pub open spec fn is_merged_topic(current: Topic, u: UpdateTopic, now: Timestamp, r: Topic) -> bool {
    &&& r.id == current.id
    &&& r.tutor_id == current.tutor_id
    &&& r.title == kept_or_set(u.title, current.title)
    &&& is_merged_text(u.topic_description, current.topic_description, r.topic_description)
    &&& is_merged_text(u.format, current.format, r.format)
    &&& is_merged_text(u.duration, current.duration, r.duration)
    &&& is_merged_text(u.topic_level, current.topic_level, r.topic_level)
    &&& r.created_at == current.created_at
    &&& r.updated_at == Some(now)
}

/// The update's value if it has one, else the current value.
pub fn merge_text(update: Option<String>, current: String) -> (r: String)
    ensures
        r == kept_or_set(update, current),
{
    match update {
        Some(v) => v,
        None => current,
    }
}

/// The update's value if it has one, else the current value, else the empty string.
pub fn merge_optional_text(update: Option<String>, current: Option<String>) -> (r: Option<String>)
    ensures
        is_merged_text(update, current, r),
{
    match update {
        Some(v) => Some(v),
        None => match current {
            Some(c) => Some(c),
            None => Some(String::new()),
        },
    }
}

/// The tutor `current` with every field that `u` supplies replaced.
pub fn merge_tutor(current: Tutor, u: UpdateTutor) -> (r: Tutor)
    ensures
        r == merged_tutor(current, u),
{
    Tutor {
        id: current.id,
        first_name: merge_text(u.first_name, current.first_name),
        last_name: merge_text(u.last_name, current.last_name),
        email: merge_text(u.email, current.email),
        profile: merge_text(u.profile, current.profile),
    }
}

/// The topic `current` with every field that `u` supplies replaced, the
/// optional texts normalised, and stamped as modified at `now`.
pub fn merge_topic(current: Topic, u: UpdateTopic, now: Timestamp) -> (r: Topic)
    ensures
        is_merged_topic(current, u, now, r),
{
    Topic {
        id: current.id,
        tutor_id: current.tutor_id,
        title: merge_text(u.title, current.title),
        topic_description: merge_optional_text(u.topic_description, current.topic_description),
        format: merge_optional_text(u.format, current.format),
        duration: merge_optional_text(u.duration, current.duration),
        topic_level: merge_optional_text(u.topic_level, current.topic_level),
        created_at: current.created_at,
        updated_at: Some(now),
    }
}

} // verus!
