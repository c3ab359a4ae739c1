//! How the answers of store calls become results or failures.
use vstd::prelude::*;
use crate::errors::AppErrorType;
use crate::model::{Topic, Tutor};
use crate::store::DeleteSummary;

verus! {

/// All tutors, or `NotFoundError` when there are none.
pub fn tutors_found(rows: Vec<Tutor>) -> (r: Result<Vec<Tutor>, AppErrorType>)
    ensures
        rows@.len() == 0 ==> r matches Err(AppErrorType::NotFoundError(_)),
        rows@.len() > 0 ==> r == Ok::<Vec<Tutor>, AppErrorType>(rows),
{
    if rows.len() == 0 {
        Err(AppErrorType::NotFoundError("No tutors found".to_string()))
    } else {
        Ok(rows)
    }
}

/// All topics, or `NotFoundError` when there are none.
pub fn topics_found(rows: Vec<Topic>) -> (r: Result<Vec<Topic>, AppErrorType>)
    ensures
        rows@.len() == 0 ==> r matches Err(AppErrorType::NotFoundError(_)),
        rows@.len() > 0 ==> r == Ok::<Vec<Topic>, AppErrorType>(rows),
{
    if rows.len() == 0 {
        Err(AppErrorType::NotFoundError("No topics found".to_string()))
    } else {
        Ok(rows)
    }
}

/// The tutor a keyed lookup or write returned, or `NotFoundError` when it returned none.
pub fn tutor_found(row: Option<Tutor>) -> (r: Result<Tutor, AppErrorType>)
    ensures
        match row {
            Some(t) => r == Ok::<Tutor, AppErrorType>(t),
            None => r matches Err(AppErrorType::NotFoundError(_)),
        },
{
    match row {
        Some(t) => Ok(t),
        None => Err(AppErrorType::NotFoundError("Tutor id not found".to_string())),
    }
}

/// The topic a keyed lookup or write returned, or `NotFoundError` when it returned none.
pub fn topic_found(row: Option<Topic>) -> (r: Result<Topic, AppErrorType>)
    ensures
        match row {
            Some(t) => r == Ok::<Topic, AppErrorType>(t),
            None => r matches Err(AppErrorType::NotFoundError(_)),
        },
{
    match row {
        Some(t) => Ok(t),
        None => Err(AppErrorType::NotFoundError("Topic id not found".to_string())),
    }
}

/// The id of the topic a delete removed, or `NotFoundError` when it removed none.
pub fn topic_deleted(removed: Option<i32>) -> (r: Result<i32, AppErrorType>)
    ensures
        match removed {
            Some(id) => r == Ok::<i32, AppErrorType>(id),
            None => r matches Err(AppErrorType::NotFoundError(_)),
        },
{
    match removed {
        Some(id) => Ok(id),
        None => Err(AppErrorType::NotFoundError("Topic id not found".to_string())),
    }
}


/// The next step of a cascading delete of a tutor, run against a store
/// inside one transaction: the owned topics go first, then the tutor.
#[derive(Debug, Clone, PartialEq, Eq)]
pub enum CascadeStep {
    /// Delete every topic the tutor owns.
    DeleteTopics,
    /// Delete the tutor's own row.
    DeleteOwner,
    /// Commit; the delete removed these rows.
    Commit(DeleteSummary),
    /// Roll back and report this failure.
    Abort(AppErrorType),
}

/// Decides the next step of a cascading delete from the answers so far:
/// `topics` to deleting the owned topics and `tutor` to deleting the
/// tutor, each `None` while that step has not run. A failure aborts at
/// once, so the tutor is never deleted after its topics could not be.
pub fn cascade_step(topics: &Option<Result<u64, AppErrorType>>, tutor: &Option<Result<u64, AppErrorType>>) -> (r: CascadeStep)
    ensures
        match (*topics, *tutor) {
            (None, _) => r == CascadeStep::DeleteTopics,
            (Some(Err(e)), _) => r == CascadeStep::Abort(e),
            (Some(Ok(_)), None) => r == CascadeStep::DeleteOwner,
            (Some(Ok(_)), Some(Err(e))) => r == CascadeStep::Abort(e),
            (Some(Ok(n)), Some(Ok(m))) => r == CascadeStep::Commit(
                DeleteSummary { tutors_deleted: m, topics_deleted: n },
            ),
        },
{
    match topics {
        None => CascadeStep::DeleteTopics,
        Some(Err(e)) => CascadeStep::Abort(e.duplicate()),
        Some(Ok(n)) => match tutor {
            None => CascadeStep::DeleteOwner,
            Some(Err(e)) => CascadeStep::Abort(e.duplicate()),
            Some(Ok(m)) => CascadeStep::Commit(DeleteSummary { tutors_deleted: *m, topics_deleted: *n }),
        },
    }
}

} // verus!
