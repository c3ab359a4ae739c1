//! Properties that hold across the repository operations, stated over the
//! same tables and records their contracts speak of.
use vstd::prelude::*;
use crate::merge::{is_merged_topic, merged_tutor};
use crate::model::{CreateTopic, CreateTutor, Timestamp, Topic, Tutor, UpdateTopic, UpdateTutor};
use crate::rows::{
    ascending, backwards, lemma_filter_keeps_order, lemma_filter_keeps_passing, lemma_filter_split_len,
};
use crate::store::{
    created_topic, created_tutor, find_topic, find_tutor, has_owned_topic, has_tutor, owner_is,
    owner_is_not, topic_key, topics_not_owned_by, topics_owned_by, tutor_id_is, tutor_id_is_not,
    tutor_key, tutors_after_update, tutors_without, Store,
};

verus! {

/// The partial update of a tutor that supplies no field.
pub open spec fn empty_tutor_update() -> UpdateTutor {
    UpdateTutor { first_name: None, last_name: None, email: None, profile: None }
}

/// The partial update of a topic that supplies only a title.
pub open spec fn title_only_update(title: String) -> UpdateTopic {
    UpdateTopic {
        title: Some(title),
        topic_description: None,
        format: None,
        duration: None,
        topic_level: None,
    }
}

/// An update of a tutor that supplies no field returns the tutor as it was
/// and leaves the tutor table as it was.
pub proof fn law_empty_tutor_update_changes_nothing(rows: Seq<Tutor>, id: i32, t: Tutor)
    ensures
        merged_tutor(t, empty_tutor_update()) == t,
        tutors_after_update(rows, id, empty_tutor_update()) == rows,
{
    assert(tutors_after_update(rows, id, empty_tutor_update()) =~= rows);
}

/// An update of a topic that supplies only a title changes the title and the
/// modification time and nothing else, when every optional text of the topic
/// was set; the modification time moves forward when the clock has.
pub proof fn law_title_update_changes_only_title(p: Topic, title: String, now: Timestamp, q: Topic)
    requires
        is_merged_topic(p, title_only_update(title), now, q),
        p.topic_description.is_some(),
        p.format.is_some(),
        p.duration.is_some(),
        p.topic_level.is_some(),
        p.updated_at matches Some(before) && before.micros < now.micros,
    ensures
        q.title == title,
        q.id == p.id,
        q.tutor_id == p.tutor_id,
        q.topic_description == p.topic_description,
        q.format == p.format,
        q.duration == p.duration,
        q.topic_level == p.topic_level,
        q.created_at == p.created_at,
        q.updated_at.unwrap().micros > p.updated_at.unwrap().micros,
{
}

/// Deleting a tutor leaves neither the tutor nor any topic it owned to be
/// found, and removes exactly as many topics as it owned.
pub proof fn law_tutor_delete_leaves_no_trace(tutors: Seq<Tutor>, topics: Seq<Topic>, id: i32)
    requires
        ascending(tutors, tutor_key()),
        ascending(topics, topic_key()),
    ensures
        find_tutor(tutors_without(tutors, id), id).is_none(),
        forall|p: Topic| topics.contains(p) && p.tutor_id == id
            ==> #[trigger] find_topic(topics_not_owned_by(topics, id), p.id).is_none(),
        topics.len() - topics_not_owned_by(topics, id).len() == topics_owned_by(topics, id).len(),
{
    let ts = tutors_without(tutors, id);
    let ps = topics_not_owned_by(topics, id);
    lemma_filter_keeps_order(tutors, tutor_id_is_not(id), tutor_key());
    lemma_filter_keeps_order(topics, owner_is_not(id), topic_key());
    assert forall|i: int| 0 <= i < ts.len() implies ts[i].id != id by {
        assert(ts.contains(ts[i]));
    }
    assert forall|p: Topic| topics.contains(p) && p.tutor_id == id
        implies #[trigger] find_topic(ps, p.id).is_none() by {
        assert forall|i: int| 0 <= i < ps.len() implies ps[i].id != p.id by {
            assert(ps.contains(ps[i]));
            let a = choose|a: int| 0 <= a < topics.len() && topics[a] == ps[i];
            let b = choose|b: int| 0 <= b < topics.len() && topics[b] == p;
            if a < b {
                assert(topic_key()(topics[a]) < topic_key()(topics[b]));
            } else if b < a {
                assert(topic_key()(topics[b]) < topic_key()(topics[a]));
            }
        }
    }
    lemma_filter_split_len(topics, owner_is(id), owner_is_not(id));
}

/// A topic cannot be reached through a tutor that does not own it: the
/// compound key of that tutor and the topic's id matches no row.
pub proof fn law_foreign_tutor_cannot_reach_topic(topics: Seq<Topic>, tutor_id: i32, topic_id: i32)
    requires
        ascending(topics, topic_key()),
        find_topic(topics, topic_id) matches Some(p) && p.tutor_id != tutor_id,
    ensures
        !has_owned_topic(topics, tutor_id, topic_id),
{
    let k = choose|k: int| 0 <= k < topics.len() && topics[k].id == topic_id;
    assert forall|i: int| 0 <= i < topics.len() && topics[i].id == topic_id implies i == k by {
        if i < k {
            assert(topic_key()(topics[i]) < topic_key()(topics[k]));
        } else if k < i {
            assert(topic_key()(topics[k]) < topic_key()(topics[i]));
        }
    }
}

/// Listing the topics of a tutor that owns none gives the empty sequence.
pub proof fn law_tutor_without_topics_lists_empty(topics: Seq<Topic>, tutor_id: i32)
    requires
        forall|i: int| 0 <= i < topics.len() ==> #[trigger] topics[i].tutor_id != tutor_id,
    ensures
        backwards(topics_owned_by(topics, tutor_id)).len() == 0,
    decreases topics.len(),
{
    reveal(Seq::filter);
    if topics.len() > 0 {
        let d = topics.drop_last();
        assert forall|i: int| 0 <= i < d.len() implies #[trigger] d[i].tutor_id != tutor_id by {
            assert(d[i] == topics[i]);
        }
        law_tutor_without_topics_lists_empty(d, tutor_id);
        assert(topics.last().tutor_id != tutor_id);
    }
}

/// In a well-formed store, a tutor that does not own a topic cannot reach
/// it: updating or deleting through that tutor finds no row, although the
/// topic exists under its real owner.
pub proof fn law_foreign_tutor_is_refused(store: &Store, tutor_id: i32, topic_id: i32)
    requires
        store.wf(),
        find_topic(store.topics(), topic_id) matches Some(p) && p.tutor_id != tutor_id,
    ensures
        !has_owned_topic(store.topics(), tutor_id, topic_id),
{
    store.lemma_wf();
    law_foreign_tutor_cannot_reach_topic(store.topics(), tutor_id, topic_id);
}

/// The partial update that keeps the later value of each field of `first`
/// and `second`, and the earlier one where the later leaves it out.
pub open spec fn combined_tutor_update(first: UpdateTutor, second: UpdateTutor) -> UpdateTutor {
    UpdateTutor {
        first_name: if second.first_name.is_some() { second.first_name } else { first.first_name },
        last_name: if second.last_name.is_some() { second.last_name } else { first.last_name },
        email: if second.email.is_some() { second.email } else { first.email },
        profile: if second.profile.is_some() { second.profile } else { first.profile },
    }
}

/// Making the same update of a tutor twice gives what making it once gave.
pub proof fn law_repeated_tutor_update_changes_nothing(rows: Seq<Tutor>, id: i32, u: UpdateTutor, t: Tutor)
    ensures
        merged_tutor(merged_tutor(t, u), u) == merged_tutor(t, u),
        tutors_after_update(tutors_after_update(rows, id, u), id, u) == tutors_after_update(rows, id, u),
{
    assert(tutors_after_update(tutors_after_update(rows, id, u), id, u) =~= tutors_after_update(rows, id, u));
}

/// Two updates of a tutor in a row equal one update in which the later
/// value of each field wins.
pub proof fn law_sequential_tutor_updates_compose(rows: Seq<Tutor>, id: i32, first: UpdateTutor, second: UpdateTutor, t: Tutor)
    ensures
        merged_tutor(merged_tutor(t, first), second) == merged_tutor(t, combined_tutor_update(first, second)),
        tutors_after_update(tutors_after_update(rows, id, first), id, second)
            == tutors_after_update(rows, id, combined_tutor_update(first, second)),
{
    assert(tutors_after_update(tutors_after_update(rows, id, first), id, second)
        =~= tutors_after_update(rows, id, combined_tutor_update(first, second)));
}

/// A tutor created under a fresh id is found again under that id, equal to
/// what the creation returned.
pub proof fn law_created_tutor_is_found(tutors: Seq<Tutor>, new: CreateTutor, id: i32)
    requires
        forall|i: int| 0 <= i < tutors.len() ==> #[trigger] tutors[i].id < id,
    ensures
        find_tutor(tutors.push(created_tutor(id, new)), id) == Some(created_tutor(id, new)),
{
    let rows = tutors.push(created_tutor(id, new));
    assert(rows[tutors.len() as int].id == id);
    let k = choose|k: int| 0 <= k < rows.len() && rows[k].id == id;
    assert(k == tutors.len() as int) by {
        if k < tutors.len() {
            assert(rows[k] == tutors[k]);
        }
    }
}

/// A topic created under a fresh id is found again under that id, equal to
/// what the creation returned.
pub proof fn law_created_topic_is_found(topics: Seq<Topic>, new: CreateTopic, id: i32, now: Timestamp)
    requires
        forall|i: int| 0 <= i < topics.len() ==> #[trigger] topics[i].id < id,
    ensures
        find_topic(topics.push(created_topic(id, new, now)), id) == Some(created_topic(id, new, now)),
{
    let rows = topics.push(created_topic(id, new, now));
    assert(rows[topics.len() as int].id == id);
    let k = choose|k: int| 0 <= k < rows.len() && rows[k].id == id;
    assert(k == topics.len() as int) by {
        if k < topics.len() {
            assert(rows[k] == topics[k]);
        }
    }
}


/// Ids are unique, so removing a tutor's id removes one row when the tutor
/// is live and none otherwise.
pub proof fn lemma_one_tutor_per_id(tutors: Seq<Tutor>, id: i32)
    requires
        ascending(tutors, tutor_key()),
    ensures
        tutors_without(tutors, id).len() == tutors.len() - (if has_tutor(tutors, id) { 1int } else { 0int }),
{
    let same = tutors.filter(tutor_id_is(id));
    lemma_filter_keeps_order(tutors, tutor_id_is(id), tutor_key());
    if has_tutor(tutors, id) {
        let w = choose|w: int| 0 <= w < tutors.len() && tutors[w].id == id;
        assert(tutors.contains(tutors[w]));
        lemma_filter_keeps_passing(tutors, tutor_id_is(id), tutors[w]);
        if same.len() >= 2 {
            assert(same.contains(same[0]));
            assert(same.contains(same[1]));
            assert(tutor_key()(same[0]) < tutor_key()(same[1]));
        }
    } else if same.len() > 0 {
        assert(same.contains(same[0]));
    }
    lemma_filter_split_len(tutors, tutor_id_is(id), tutor_id_is_not(id));
}

} // verus!
