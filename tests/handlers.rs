use tutor_topics::model::{CreateTopic, CreateTutor, UpdateTopic, UpdateTutor};
use tutor_topics::store::{
    delete_topic_db, delete_tutor_db, get_all_topics_db, get_all_tutors_db, get_topic_details_db,
    get_tutor_details_db, post_new_topic_db, post_new_tutor_db, update_topic_details_db,
    update_tutor_details_db, DeleteSummary, Store,
};

fn seeded() -> Store {
    let mut store = Store::new();
    let tutor = post_new_tutor_db(
        &mut store,
        CreateTutor {
            first_name: "Jane".into(),
            last_name: "Doe".into(),
            email: "jane@example.com".into(),
            profile: "physics".into(),
        },
    )
    .unwrap();
    assert_eq!(tutor.id, 1);
    let topic = post_new_topic_db(
        &mut store,
        CreateTopic {
            title: "First topic".into(),
            tutor_id: 1,
            topic_description: None,
            format: None,
            duration: None,
            topic_level: None,
        },
    )
    .unwrap();
    assert_eq!(topic.id, 1);
    store
}

#[test]
fn get_all_topics_success() {
    let store = seeded();
    let resp = get_all_topics_db(&store);
    assert!(resp.is_ok());
    assert_eq!(resp.unwrap().len(), 1);
}

#[test]
fn get_topic_details_success() {
    let store = seeded();
    let resp = get_topic_details_db(&store, 1).unwrap();
    assert_eq!(resp.title, "First topic");
}

#[test]
fn post_topic_success() {
    let mut store = seeded();
    let new_topic_payload = CreateTopic {
        tutor_id: 1,
        title: "Test topic".into(),
        topic_description: Some("This is a test topic".into()),
        format: None,
        topic_level: Some("Beginner".into()),
        duration: None,
    };
    let resp = post_new_topic_db(&mut store, new_topic_payload).unwrap();
    assert_eq!(resp.id, 2);
    assert_eq!(resp.title, "Test topic");
    assert_eq!(resp.topic_description, Some("This is a test topic".to_string()));
    assert_eq!(resp.topic_level, Some("Beginner".to_string()));
    assert_eq!(resp.format, None);
    assert_eq!(resp.created_at, resp.updated_at);
}

#[test]
fn update_topic_success() {
    let mut store = seeded();
    let update_topic_payload = UpdateTopic {
        title: Some("Updated title".into()),
        topic_description: Some("Updated topic description".into()),
        format: Some("Updated topic format".into()),
        duration: None,
        topic_level: Some("Updated topic level".into()),
    };
    let resp = update_topic_details_db(&mut store, 1, 1, update_topic_payload).unwrap();
    assert_eq!(resp.title, "Updated title");
    assert_eq!(resp.topic_description, Some("Updated topic description".to_string()));
    assert_eq!(resp.format, Some("Updated topic format".to_string()));
    assert_eq!(resp.duration, Some(String::new()));
    assert_eq!(resp.topic_level, Some("Updated topic level".to_string()));
}

#[test]
fn delete_test_success() {
    let mut store = seeded();
    let resp = delete_topic_db(&mut store, 1, 1);
    assert_eq!(resp, Ok(1));
}

#[test]
fn get_topic_details_failure_test() {
    let store = seeded();
    let resp = get_topic_details_db(&store, 1000);
    assert_eq!(resp.is_err(), true);
}

#[test]
fn delete_test_failure() {
    let mut store = seeded();
    let resp = delete_topic_db(&mut store, 1, 100);
    assert_eq!(resp.is_err(), true);
}

#[test]
fn get_all_tutors_success() {
    let store = seeded();
    let resp = get_all_tutors_db(&store).unwrap();
    assert_eq!(resp.len(), 1);
}

#[test]
fn get_tutor_details_test() {
    let store = seeded();
    let resp = get_tutor_details_db(&store, 1).unwrap();
    assert_eq!(resp.first_name, "Jane");
}

#[test]
fn post_tutor_success() {
    let mut store = seeded();
    let new_tutor_payload = CreateTutor {
        first_name: "Phil".into(),
        last_name: "Collins".into(),
        email: "PCgenesismail.com".into(),
        profile: String::new(),
    };
    let resp = post_new_tutor_db(&mut store, new_tutor_payload).unwrap();
    assert_eq!(resp.id, 2);
    assert_eq!(resp.first_name, "Phil");
    assert_eq!(resp.last_name, "Collins");
    assert_eq!(resp.email, "PCgenesismail.com");
}

#[test]
fn update_tutor_success() {
    let mut store = seeded();
    let update_tutor_payload = UpdateTutor {
        first_name: Some("Tom".into()),
        last_name: Some("Hanks".into()),
        email: Some("gump@bubbagump.com".into()),
        profile: None,
    };
    let resp = update_tutor_details_db(&mut store, 1, update_tutor_payload).unwrap();
    assert_eq!(resp.first_name, "Tom");
    assert_eq!(resp.last_name, "Hanks");
    assert_eq!(resp.email, "gump@bubbagump.com");
    assert_eq!(resp.profile, "physics");
}

#[test]
fn delete_tutor_success() {
    let mut store = seeded();
    let resp = delete_tutor_db(&mut store, 1).unwrap();
    assert_eq!(resp.tutors_deleted, 1);
    assert_eq!(resp.topics_deleted, 1);
}

#[test]
fn get_tutor_detail_failure_test() {
    let store = seeded();
    let resp = get_tutor_details_db(&store, 1000);
    assert_eq!(resp.is_err(), true);
}

#[test]
fn delete_tutor_failure() {
    let mut store = seeded();
    let resp = delete_tutor_db(&mut store, 1000);
    assert_eq!(resp, Ok(DeleteSummary { tutors_deleted: 0, topics_deleted: 0 }));
    assert_eq!(get_all_tutors_db(&store).unwrap().len(), 1);
}
