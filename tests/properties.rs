use tutor_topics::errors::{AppErrorResponse, AppErrorType};
use tutor_topics::merge::{merge_optional_text, merge_text, merge_topic, merge_tutor};
use tutor_topics::model::{CreateTopic, CreateTutor, Timestamp, Topic, Tutor, UpdateTopic, UpdateTutor};
use tutor_topics::outcome::{
    cascade_step, topic_deleted, topic_found, topics_found, tutor_found, tutors_found, CascadeStep,
};
use tutor_topics::store::{
    delete_topic_db, delete_tutor_db, get_all_topics_db, get_all_tutors_db, get_topic_details_db,
    get_topics_for_tutor_db, get_tutor_details_db, post_new_topic_at, post_new_topic_db,
    post_new_tutor_db, update_topic_details_at, update_topic_details_db, update_tutor_details_db,
    DeleteSummary, Store,
};

fn ada() -> CreateTutor {
    CreateTutor {
        first_name: "Ada".into(),
        last_name: "Lovelace".into(),
        email: "ada@x.io".into(),
        profile: "math".into(),
    }
}

fn bare_topic(tutor_id: i32, title: &str) -> CreateTopic {
    CreateTopic {
        title: title.into(),
        tutor_id,
        topic_description: None,
        format: None,
        duration: None,
        topic_level: None,
    }
}

fn full_topic(tutor_id: i32, title: &str) -> CreateTopic {
    CreateTopic {
        title: title.into(),
        tutor_id,
        topic_description: Some("about it".into()),
        format: Some("video".into()),
        duration: Some("30m".into()),
        topic_level: Some("Beginner".into()),
    }
}

#[test]
fn empty_tutor_update_leaves_record_unchanged() {
    let mut store = Store::new();
    let t = post_new_tutor_db(&mut store, ada()).unwrap();
    let after = update_tutor_details_db(&mut store, t.id, UpdateTutor::default()).unwrap();
    assert_eq!(after, t);
    assert_eq!(get_tutor_details_db(&store, t.id).unwrap(), t);
}

#[test]
fn title_update_changes_only_title_and_time() {
    let mut store = Store::new();
    let t = post_new_tutor_db(&mut store, ada()).unwrap();
    let p = post_new_topic_at(&mut store, full_topic(t.id, "Algebra"), Timestamp { micros: 100 }).unwrap();
    let upd = UpdateTopic { title: Some("X".into()), ..UpdateTopic::default() };
    let q = update_topic_details_at(&mut store, t.id, p.id, upd, Timestamp { micros: 200 }).unwrap();
    assert_eq!(q.title, "X");
    assert_eq!(q.id, p.id);
    assert_eq!(q.tutor_id, p.tutor_id);
    assert_eq!(q.topic_description, p.topic_description);
    assert_eq!(q.format, p.format);
    assert_eq!(q.duration, p.duration);
    assert_eq!(q.topic_level, p.topic_level);
    assert_eq!(q.created_at, p.created_at);
    assert!(q.updated_at.unwrap() > p.updated_at.unwrap());
}

#[test]
fn tutor_delete_cascades_to_owned_topics() {
    let mut store = Store::new();
    let a = post_new_tutor_db(&mut store, ada()).unwrap();
    let b = post_new_tutor_db(&mut store, ada()).unwrap();
    let p1 = post_new_topic_db(&mut store, bare_topic(a.id, "One")).unwrap();
    let other = post_new_topic_db(&mut store, bare_topic(b.id, "Other")).unwrap();
    let p2 = post_new_topic_db(&mut store, bare_topic(a.id, "Two")).unwrap();
    let summary = delete_tutor_db(&mut store, a.id).unwrap();
    assert_eq!(summary, DeleteSummary { tutors_deleted: 1, topics_deleted: 2 });
    assert!(matches!(get_tutor_details_db(&store, a.id), Err(AppErrorType::NotFoundError(_))));
    assert!(matches!(get_topic_details_db(&store, p1.id), Err(AppErrorType::NotFoundError(_))));
    assert!(matches!(get_topic_details_db(&store, p2.id), Err(AppErrorType::NotFoundError(_))));
    assert_eq!(get_topic_details_db(&store, other.id).unwrap(), other);
    assert_eq!(get_tutor_details_db(&store, b.id).unwrap(), b);
}

#[test]
fn foreign_tutor_cannot_update_or_delete_topic() {
    let mut store = Store::new();
    let a = post_new_tutor_db(&mut store, ada()).unwrap();
    let b = post_new_tutor_db(&mut store, ada()).unwrap();
    let p = post_new_topic_db(&mut store, bare_topic(a.id, "Owned by a")).unwrap();
    let upd = UpdateTopic { title: Some("Hijack".into()), ..UpdateTopic::default() };
    assert!(matches!(
        update_topic_details_db(&mut store, b.id, p.id, upd),
        Err(AppErrorType::NotFoundError(_))
    ));
    assert!(matches!(delete_topic_db(&mut store, b.id, p.id), Err(AppErrorType::NotFoundError(_))));
    assert_eq!(get_topic_details_db(&store, p.id).unwrap(), p);
}

#[test]
fn empty_listings() {
    let mut store = Store::new();
    assert!(matches!(get_all_tutors_db(&store), Err(AppErrorType::NotFoundError(_))));
    assert!(matches!(get_all_topics_db(&store), Err(AppErrorType::NotFoundError(_))));
    let a = post_new_tutor_db(&mut store, ada()).unwrap();
    assert_eq!(get_topics_for_tutor_db(&store, a.id).unwrap(), Vec::<Topic>::new());
    assert_eq!(get_topics_for_tutor_db(&store, 77).unwrap(), Vec::<Topic>::new());
}

#[test]
fn topics_for_tutor_newest_id_first() {
    let mut store = Store::new();
    let a = post_new_tutor_db(&mut store, ada()).unwrap();
    let b = post_new_tutor_db(&mut store, ada()).unwrap();
    let p1 = post_new_topic_db(&mut store, bare_topic(a.id, "One")).unwrap();
    post_new_topic_db(&mut store, bare_topic(b.id, "Other")).unwrap();
    let p3 = post_new_topic_db(&mut store, bare_topic(a.id, "Three")).unwrap();
    let listed = get_topics_for_tutor_db(&store, a.id).unwrap();
    assert_eq!(listed, vec![p3, p1]);
}

#[test]
fn create_then_get_round_trip() {
    let mut store = Store::new();
    let t = post_new_tutor_db(&mut store, ada()).unwrap();
    assert_eq!(get_tutor_details_db(&store, t.id).unwrap(), t);
    let p = post_new_topic_db(&mut store, full_topic(t.id, "Algebra")).unwrap();
    assert_eq!(get_topic_details_db(&store, p.id).unwrap(), p);
    assert_eq!(p.title, "Algebra");
    assert_eq!(p.format, Some("video".to_string()));
}

#[test]
fn create_ada_and_algebra_scenario() {
    let mut store = Store::new();
    let t = post_new_tutor_db(&mut store, ada()).unwrap();
    assert_ne!(t.id, 0);
    assert_eq!(t.first_name, "Ada");
    assert_eq!(t.last_name, "Lovelace");
    assert_eq!(t.email, "ada@x.io");
    assert_eq!(t.profile, "math");
    let p = post_new_topic_db(&mut store, bare_topic(t.id, "Algebra")).unwrap();
    assert_eq!(p.tutor_id, t.id);
    assert_eq!(p.title, "Algebra");
    assert!(p.created_at.is_some());
    assert_eq!(p.created_at, p.updated_at);
    assert_eq!(p.format, None);
    assert_eq!(p.duration, None);
    assert_eq!(p.topic_level, None);
}

#[test]
fn duration_update_normalises_unset_format() {
    let mut store = Store::new();
    let t = post_new_tutor_db(&mut store, ada()).unwrap();
    let p = post_new_topic_db(&mut store, bare_topic(t.id, "Algebra")).unwrap();
    let upd = UpdateTopic { duration: Some("45m".into()), ..UpdateTopic::default() };
    let q = update_topic_details_db(&mut store, t.id, p.id, upd).unwrap();
    assert_eq!(q.duration, Some("45m".to_string()));
    assert_eq!(q.format, Some(String::new()));
    assert_eq!(q.topic_description, Some(String::new()));
    assert_eq!(q.topic_level, Some(String::new()));
    assert_eq!(get_topic_details_db(&store, p.id).unwrap(), q);
}

#[test]
fn topic_for_unknown_tutor_is_store_failure() {
    let mut store = Store::new();
    let r = post_new_topic_db(&mut store, bare_topic(5, "Orphan"));
    assert!(matches!(r, Err(AppErrorType::DbError(_))));
    assert!(matches!(get_all_topics_db(&store), Err(AppErrorType::NotFoundError(_))));
}

#[test]
fn update_of_unknown_tutor_is_not_found() {
    let mut store = Store::new();
    let r = update_tutor_details_db(&mut store, 9, UpdateTutor::default());
    assert!(matches!(r, Err(AppErrorType::NotFoundError(_))));
}

#[test]
fn update_of_unknown_topic_is_not_found() {
    let mut store = Store::new();
    let t = post_new_tutor_db(&mut store, ada()).unwrap();
    let r = update_topic_details_db(&mut store, t.id, 3, UpdateTopic::default());
    assert!(matches!(r, Err(AppErrorType::NotFoundError(_))));
}

#[test]
fn ids_are_not_reused_after_delete() {
    let mut store = Store::new();
    let a = post_new_tutor_db(&mut store, ada()).unwrap();
    delete_tutor_db(&mut store, a.id).unwrap();
    let b = post_new_tutor_db(&mut store, ada()).unwrap();
    assert_eq!(b.id, a.id + 1);
    assert_eq!(get_all_tutors_db(&store).unwrap(), vec![b]);
}

#[test]
fn status_codes_per_kind() {
    assert_eq!(AppErrorType::NotFoundError("a".into()).status_code(), 404);
    assert_eq!(AppErrorType::DbError("b".into()).status_code(), 500);
    assert_eq!(AppErrorType::ActixError("c".into()).status_code(), 500);
    assert_eq!(AppErrorType::InvalidInput("d".into()).status_code(), 400);
}

#[test]
fn error_message_and_body() {
    let e = AppErrorType::InvalidInput("Invalid JSON input".into());
    assert_eq!(e.error_response(), "Invalid JSON input");
    assert_eq!(e.error_body(), AppErrorResponse { error_message: "Invalid JSON input".into() });
}

#[test]
fn store_error_becomes_db_error_with_description() {
    let e = sqlx::Error::RowNotFound;
    let described = e.to_string();
    assert!(!described.is_empty());
    assert_eq!(AppErrorType::from_store_error(&e), AppErrorType::DbError(described));
}

#[test]
fn merge_fields() {
    assert_eq!(merge_text(Some("new".into()), "old".into()), "new");
    assert_eq!(merge_text(None, "old".into()), "old");
    assert_eq!(merge_optional_text(None, None), Some(String::new()));
    assert_eq!(merge_optional_text(None, Some("c".into())), Some("c".to_string()));
    assert_eq!(merge_optional_text(Some("u".into()), None), Some("u".to_string()));
}

#[test]
fn merge_whole_records() {
    let t = Tutor {
        id: 4,
        first_name: "A".into(),
        last_name: "B".into(),
        email: "e".into(),
        profile: "p".into(),
    };
    let u = UpdateTutor { email: Some("new@x".into()), ..UpdateTutor::default() };
    let m = merge_tutor(t.clone(), u);
    assert_eq!(m, Tutor { email: "new@x".into(), ..t });
    let p = Topic {
        id: 2,
        tutor_id: 4,
        title: "T".into(),
        topic_description: None,
        format: Some("f".into()),
        duration: None,
        topic_level: None,
        created_at: Some(Timestamp { micros: 1 }),
        updated_at: Some(Timestamp { micros: 1 }),
    };
    let q = merge_topic(p, UpdateTopic::default(), Timestamp { micros: 9 });
    assert_eq!(q.title, "T");
    assert_eq!(q.topic_description, Some(String::new()));
    assert_eq!(q.format, Some("f".to_string()));
    assert_eq!(q.created_at, Some(Timestamp { micros: 1 }));
    assert_eq!(q.updated_at, Some(Timestamp { micros: 9 }));
}

#[test]
fn outcome_decisions() {
    assert!(matches!(tutors_found(vec![]), Err(AppErrorType::NotFoundError(_))));
    assert!(matches!(topics_found(vec![]), Err(AppErrorType::NotFoundError(_))));
    assert!(matches!(tutor_found(None), Err(AppErrorType::NotFoundError(_))));
    assert!(matches!(topic_found(None), Err(AppErrorType::NotFoundError(_))));
    assert_eq!(topic_deleted(Some(7)), Ok(7));
    assert!(matches!(topic_deleted(None), Err(AppErrorType::NotFoundError(_))));
}

#[test]
fn clock_stamps_current_time() {
    let mut store = Store::new();
    let t = post_new_tutor_db(&mut store, ada()).unwrap();
    let p = post_new_topic_db(&mut store, bare_topic(t.id, "Now")).unwrap();
    // 2020-01-01T00:00:00Z in microseconds.
    assert!(p.created_at.unwrap().micros > 1_577_836_800_000_000);
}

#[test]
fn cascade_runs_dependents_first_and_aborts_on_failure() {
    let fail = AppErrorType::DbError("connection lost".into());
    assert_eq!(cascade_step(&None, &None), CascadeStep::DeleteTopics);
    assert_eq!(cascade_step(&Some(Ok(3)), &None), CascadeStep::DeleteOwner);
    assert_eq!(
        cascade_step(&Some(Ok(3)), &Some(Ok(1))),
        CascadeStep::Commit(DeleteSummary { tutors_deleted: 1, topics_deleted: 3 })
    );
    assert_eq!(cascade_step(&Some(Err(fail.clone())), &None), CascadeStep::Abort(fail.clone()));
    assert_eq!(cascade_step(&Some(Ok(2)), &Some(Err(fail.clone()))), CascadeStep::Abort(fail));
}

#[test]
fn unknown_tutor_delete_removes_nothing() {
    let mut store = Store::new();
    let a = post_new_tutor_db(&mut store, ada()).unwrap();
    let p = post_new_topic_db(&mut store, bare_topic(a.id, "Kept")).unwrap();
    let summary = delete_tutor_db(&mut store, a.id + 5).unwrap();
    assert_eq!(summary, DeleteSummary { tutors_deleted: 0, topics_deleted: 0 });
    assert_eq!(get_tutor_details_db(&store, a.id).unwrap(), a);
    assert_eq!(get_topic_details_db(&store, p.id).unwrap(), p);
}
