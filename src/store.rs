//! A model of the relational store, held in memory: a tutor table and a
//! topic table, each keyed by a store-assigned id, with every topic owned by
//! a live tutor. The repository operations are stated and proved against it;
//! a service backed by a database runs the same decisions (see `merge` and
//! `outcome`) on the rows its queries return.
use vstd::prelude::*;
use crate::clock::utc_now;
use crate::errors::AppErrorType;
use crate::laws::{
    law_created_topic_is_found, law_created_tutor_is_found, law_tutor_delete_leaves_no_trace,
    lemma_one_tutor_per_id,
};
use crate::merge::{is_merged_topic, merge_topic, merge_tutor, merged_tutor};
use crate::outcome::{topic_deleted, topic_found, topics_found, tutor_found, tutors_found};
use crate::model::{CreateTopic, CreateTutor, Timestamp, Topic, Tutor, UpdateTopic, UpdateTutor};
use crate::rows::{ascending, backwards, lemma_filter_keeps_order, lemma_filter_keeps_passing, lemma_filter_prefix_step};

verus! {

/// Ordering key of the tutor table.
pub open spec fn tutor_key() -> spec_fn(Tutor) -> int {
    |t: Tutor| t.id as int
}

/// Ordering key of the topic table.
pub open spec fn topic_key() -> spec_fn(Topic) -> int {
    |p: Topic| p.id as int
}

/// Some row of `rows` has the id `id`.
pub open spec fn has_tutor(rows: Seq<Tutor>, id: i32) -> bool {
    exists|i: int| 0 <= i < rows.len() && rows[i].id == id
}

/// The tutor with id `id`, if there is one.
pub open spec fn find_tutor(rows: Seq<Tutor>, id: i32) -> Option<Tutor> {
    if has_tutor(rows, id) {
        Some(rows[choose|i: int| 0 <= i < rows.len() && rows[i].id == id])
    } else {
        None
    }
}

/// Some topic of `rows` has the id `id` and is owned by `tutor_id`.
pub open spec fn has_owned_topic(rows: Seq<Topic>, tutor_id: i32, id: i32) -> bool {
    exists|i: int| 0 <= i < rows.len() && rows[i].id == id && rows[i].tutor_id == tutor_id
}

/// Some topic of `rows` has the id `id`.
pub open spec fn has_topic(rows: Seq<Topic>, id: i32) -> bool {
    exists|i: int| 0 <= i < rows.len() && rows[i].id == id
}

/// The topic with id `id`, if there is one.
pub open spec fn find_topic(rows: Seq<Topic>, id: i32) -> Option<Topic> {
    if has_topic(rows, id) {
        Some(rows[choose|i: int| 0 <= i < rows.len() && rows[i].id == id])
    } else {
        None
    }
}

/// Rows of the tutor table whose id is not `id`.
pub open spec fn tutor_id_is_not(id: i32) -> spec_fn(Tutor) -> bool {
    |t: Tutor| t.id != id
}

/// Rows of the tutor table whose id is `id`.
pub open spec fn tutor_id_is(id: i32) -> spec_fn(Tutor) -> bool {
    |t: Tutor| t.id == id
}

/// Topics whose id is not `id`.
pub open spec fn topic_id_is_not(id: i32) -> spec_fn(Topic) -> bool {
    |p: Topic| p.id != id
}

/// Topics owned by `tutor_id`.
pub open spec fn owner_is(tutor_id: i32) -> spec_fn(Topic) -> bool {
    |p: Topic| p.tutor_id == tutor_id
}

/// Topics owned by a tutor other than `tutor_id`.
pub open spec fn owner_is_not(tutor_id: i32) -> spec_fn(Topic) -> bool {
    |p: Topic| p.tutor_id != tutor_id
}

/// The tutor table after `u` is merged into the tutor `id`.
pub open spec fn tutors_after_update(rows: Seq<Tutor>, id: i32, u: UpdateTutor) -> Seq<Tutor> {
    rows.map_values(|t: Tutor| if t.id == id { merged_tutor(t, u) } else { t })
}

/// The tutor table without the tutor `id`.
pub open spec fn tutors_without(rows: Seq<Tutor>, id: i32) -> Seq<Tutor> {
    rows.filter(tutor_id_is_not(id))
}

/// The topic table without the topics owned by `tutor_id`.
pub open spec fn topics_not_owned_by(rows: Seq<Topic>, tutor_id: i32) -> Seq<Topic> {
    rows.filter(owner_is_not(tutor_id))
}

/// The topics owned by `tutor_id`, in table order.
pub open spec fn topics_owned_by(rows: Seq<Topic>, tutor_id: i32) -> Seq<Topic> {
    rows.filter(owner_is(tutor_id))
}

/// The record a new tutor gets when the store assigns it `id`.
pub open spec fn created_tutor(id: i32, new: CreateTutor) -> Tutor {
    Tutor {
        id,
        first_name: new.first_name,
        last_name: new.last_name,
        email: new.email,
        profile: new.profile,
    }
}

/// The record a new topic gets when the store assigns it `id` at `now`.
pub open spec fn created_topic(id: i32, new: CreateTopic, now: Timestamp) -> Topic {
    Topic {
        id,
        tutor_id: new.tutor_id,
        title: new.title,
        topic_description: new.topic_description,
        format: new.format,
        duration: new.duration,
        topic_level: new.topic_level,
        created_at: Some(now),
        updated_at: Some(now),
    }
}

/// The topic table with the topic `id` replaced by `q`.
pub open spec fn topics_with(rows: Seq<Topic>, id: i32, q: Topic) -> Seq<Topic> {
    rows.map_values(|x: Topic| if x.id == id { q } else { x })
}

/// `after` and `r` are what creating `new` at `now` makes of `before`: the
/// topic is inserted under the next free id when its owner is a live tutor
/// and the id space is not used up, and `DbError` comes otherwise.
pub open spec fn topic_posted(before: Store, after: Store, new: CreateTopic, now: Timestamp, r: Result<Topic, AppErrorType>) -> bool {
    if has_tutor(before.tutors(), new.tutor_id) && before.next_topic_id() < i32::MAX {
        let p = created_topic(before.next_topic_id(), new, now);
        &&& r == Ok::<Topic, AppErrorType>(p)
        &&& !has_topic(before.topics(), p.id)
        &&& after.topics() == before.topics().push(p)
        &&& find_topic(after.topics(), p.id) == Some(p)
        &&& after.tutors() == before.tutors()
        &&& after.next_topic_id() == before.next_topic_id() + 1
        &&& after.next_tutor_id() == before.next_tutor_id()
    } else {
        &&& r matches Err(AppErrorType::DbError(_))
        &&& after.same_as(&before)
    }
}

/// `after` and `r` are what merging `u` at `now` into the topic `topic_id`
/// owned by `tutor_id` makes of `before`; `NotFoundError` when `tutor_id`
/// owns no such topic.
pub open spec fn topic_updated(before: Store, after: Store, tutor_id: i32, topic_id: i32, u: UpdateTopic, now: Timestamp, r: Result<Topic, AppErrorType>) -> bool {
    if has_owned_topic(before.topics(), tutor_id, topic_id) {
        match r {
            Ok(q) => {
                &&& is_merged_topic(find_topic(before.topics(), topic_id).unwrap(), u, now, q)
                &&& after.topics() == topics_with(before.topics(), topic_id, q)
                &&& has_owned_topic(after.topics(), tutor_id, topic_id)
                &&& find_topic(after.topics(), topic_id) == Some(q)
                &&& after.tutors() == before.tutors()
                &&& after.next_topic_id() == before.next_topic_id()
                &&& after.next_tutor_id() == before.next_tutor_id()
            },
            Err(_) => false,
        }
    } else {
        &&& r matches Err(AppErrorType::NotFoundError(_))
        &&& after.same_as(&before)
    }
}

/// Counts of the rows a cascading delete removed from each table.
#[derive(Clone, Copy, Debug, PartialEq, Eq, Structural)]
pub struct DeleteSummary {
    pub tutors_deleted: u64,
    pub topics_deleted: u64,
}

/// The two tables and the next id each will assign.
pub struct Store {
    tutors: Vec<Tutor>,
    topics: Vec<Topic>,
    next_tutor_id: i32,
    next_topic_id: i32,
}

impl Store {
    /// The tutor table, in ascending id order.
    pub closed spec fn tutors(&self) -> Seq<Tutor> {
        self.tutors@
    }

    /// The topic table, in ascending id order.
    pub closed spec fn topics(&self) -> Seq<Topic> {
        self.topics@
    }

    /// The id the next created tutor gets.
    pub closed spec fn next_tutor_id(&self) -> i32 {
        self.next_tutor_id
    }

    /// The id the next created topic gets.
    pub closed spec fn next_topic_id(&self) -> i32 {
        self.next_topic_id
    }

    /// Ids are positive, unique, ascending and below the next id to assign,
    /// and every topic's owner is a live tutor.
    pub closed spec fn wf(&self) -> bool {
        &&& self.next_tutor_id >= 1
        &&& self.next_topic_id >= 1
        &&& ascending(self.tutors@, tutor_key())
        &&& ascending(self.topics@, topic_key())
        &&& forall|i: int| 0 <= i < self.tutors@.len() ==>
            0 < #[trigger] self.tutors@[i].id < self.next_tutor_id
        &&& forall|i: int| 0 <= i < self.topics@.len() ==>
            0 < #[trigger] self.topics@[i].id < self.next_topic_id
        &&& forall|i: int| 0 <= i < self.topics@.len() ==>
            has_tutor(self.tutors@, #[trigger] self.topics@[i].tutor_id)
    }

    /// What a well-formed store holds: ids in each table are positive,
    /// strictly ascending (so unique) and below the next id to assign, and
    /// every topic's owner is a live tutor.
    pub proof fn lemma_wf(&self)
        requires
            self.wf(),
        ensures
            ascending(self.tutors(), tutor_key()),
            ascending(self.topics(), topic_key()),
            self.next_tutor_id() >= 1,
            self.next_topic_id() >= 1,
            forall|i: int| 0 <= i < self.tutors().len() ==>
                0 < #[trigger] self.tutors()[i].id < self.next_tutor_id(),
            forall|i: int| 0 <= i < self.topics().len() ==>
                0 < #[trigger] self.topics()[i].id < self.next_topic_id(),
            forall|i: int| 0 <= i < self.topics().len() ==>
                has_tutor(self.tutors(), #[trigger] self.topics()[i].tutor_id),
    {
    }

    /// An empty store.
    pub fn new() -> (r: Store)
        ensures
            r.wf(),
            r.tutors().len() == 0,
            r.topics().len() == 0,
            r.next_tutor_id() == 1,
            r.next_topic_id() == 1,
    {
        Store { tutors: Vec::new(), topics: Vec::new(), next_tutor_id: 1, next_topic_id: 1 }
    }

    /// The position of the tutor `id`, if there is one.
    fn tutor_index(&self, id: i32) -> (r: Option<usize>)
        requires
            self.wf(),
        ensures
            match r {
                Some(i) => i < self.tutors@.len() && self.tutors@[i as int].id == id
                    && find_tutor(self.tutors@, id) == Some(self.tutors@[i as int]),
                None => !has_tutor(self.tutors@, id) && find_tutor(self.tutors@, id).is_none(),
            },
    {
        let mut i: usize = 0;
        while i < self.tutors.len()
            invariant
                self.wf(),
                i <= self.tutors@.len(),
                forall|j: int| 0 <= j < i ==> self.tutors@[j].id != id,
            decreases self.tutors@.len() - i,
        {
            if self.tutors[i].id == id {
                proof {
                    let k = choose|k: int| 0 <= k < self.tutors@.len() && self.tutors@[k].id == id;
                    assert(k == i as int) by {
                        if k > i as int {
                            assert(tutor_key()(self.tutors@[i as int]) < tutor_key()(self.tutors@[k]));
                        }
                    }
                }
                return Some(i);
            }
            i += 1;
        }
        None
    }
}


impl Store {
    /// Both stores hold the same tables and will assign the same ids.
    pub open spec fn same_as(&self, other: &Store) -> bool {
        &&& self.tutors() == other.tutors()
        &&& self.topics() == other.topics()
        &&& self.next_tutor_id() == other.next_tutor_id()
        &&& self.next_topic_id() == other.next_topic_id()
    }
}

/// Every tutor, in ascending id order; `NotFoundError` when there is none.
pub fn get_all_tutors_db(store: &Store) -> (r: Result<Vec<Tutor>, AppErrorType>)
    requires
        store.wf(),
    ensures
        store.tutors().len() == 0 ==> r matches Err(AppErrorType::NotFoundError(_)),
        store.tutors().len() > 0 ==> (r matches Ok(v) && v@ == store.tutors()),
{
    let mut rows: Vec<Tutor> = Vec::new();
    let mut i: usize = 0;
    while i < store.tutors.len()
        invariant
            i <= store.tutors@.len(),
            rows@ == store.tutors@.subrange(0, i as int),
        decreases store.tutors@.len() - i,
    {
        rows.push(store.tutors[i].duplicate());
        i += 1;
        assert(rows@ =~= store.tutors@.subrange(0, i as int));
    }
    assert(rows@ =~= store.tutors@);
    tutors_found(rows)
}

/// Inserts a tutor under the next free id and returns it; `DbError` when
/// the id space is used up.
pub fn post_new_tutor_db(store: &mut Store, new_tutor: CreateTutor) -> (r: Result<Tutor, AppErrorType>)
    requires
        old(store).wf(),
    ensures
        final(store).wf(),
        old(store).next_tutor_id() < i32::MAX ==> {
            let t = created_tutor(old(store).next_tutor_id(), new_tutor);
            &&& r == Ok::<Tutor, AppErrorType>(t)
            &&& !has_tutor(old(store).tutors(), t.id)
            &&& final(store).tutors() == old(store).tutors().push(t)
            &&& find_tutor(final(store).tutors(), t.id) == Some(t)
            &&& final(store).topics() == old(store).topics()
            &&& final(store).next_tutor_id() == old(store).next_tutor_id() + 1
            &&& final(store).next_topic_id() == old(store).next_topic_id()
        },
        old(store).next_tutor_id() == i32::MAX ==> {
            &&& r matches Err(AppErrorType::DbError(_))
            &&& final(store).same_as(old(store))
        },
{
    if store.next_tutor_id == i32::MAX {
        return Err(AppErrorType::DbError("Tutor id space exhausted".to_string()));
    }
    let ghost before = store.tutors@;
    let t = Tutor {
        id: store.next_tutor_id,
        first_name: new_tutor.first_name,
        last_name: new_tutor.last_name,
        email: new_tutor.email,
        profile: new_tutor.profile,
    };
    store.tutors.push(t.duplicate());
    store.next_tutor_id = store.next_tutor_id + 1;
    proof {
        law_created_tutor_is_found(before, new_tutor, t.id);
        assert forall|i: int| 0 <= i < store.topics@.len() implies
            has_tutor(store.tutors@, #[trigger] store.topics@[i].tutor_id) by {
            assert(has_tutor(before, store.topics@[i].tutor_id));
            let w = choose|w: int| 0 <= w < before.len() && before[w].id == store.topics@[i].tutor_id;
            assert(store.tutors@[w] == before[w]);
        }
        assert forall|i: int, j: int| 0 <= i < j < store.tutors@.len() implies
            tutor_key()(store.tutors@[i]) < tutor_key()(store.tutors@[j]) by {
            if j < before.len() {
                assert(tutor_key()(before[i]) < tutor_key()(before[j]));
            } else {
                assert(0 < before[i].id < store.next_tutor_id - 1);
            }
        }
    }
    Ok(t)
}

/// The tutor `id`; `NotFoundError` when there is none.
pub fn get_tutor_details_db(store: &Store, id: i32) -> (r: Result<Tutor, AppErrorType>)
    requires
        store.wf(),
    ensures
        match find_tutor(store.tutors(), id) {
            Some(t) => r == Ok::<Tutor, AppErrorType>(t),
            None => r matches Err(AppErrorType::NotFoundError(_)),
        },
{
    match store.tutor_index(id) {
        Some(i) => tutor_found(Some(store.tutors[i].duplicate())),
        None => tutor_found(None),
    }
}

/// Merges `update_tutor` into the tutor `tutor_id`, writes the whole record
/// back and returns it; `NotFoundError` when there is no such tutor.
pub fn update_tutor_details_db(store: &mut Store, tutor_id: i32, update_tutor: UpdateTutor) -> (r: Result<Tutor, AppErrorType>)
    requires
        old(store).wf(),
    ensures
        final(store).wf(),
        match find_tutor(old(store).tutors(), tutor_id) {
            Some(t) => {
                &&& r == Ok::<Tutor, AppErrorType>(merged_tutor(t, update_tutor))
                &&& final(store).tutors() == tutors_after_update(old(store).tutors(), tutor_id, update_tutor)
                &&& find_tutor(final(store).tutors(), tutor_id) == Some(merged_tutor(t, update_tutor))
                &&& final(store).topics() == old(store).topics()
                &&& final(store).next_tutor_id() == old(store).next_tutor_id()
                &&& final(store).next_topic_id() == old(store).next_topic_id()
            },
            None => {
                &&& r matches Err(AppErrorType::NotFoundError(_))
                &&& final(store).same_as(old(store))
            },
        },
{
    let idx = match store.tutor_index(tutor_id) {
        Some(i) => i,
        None => return tutor_found(None),
    };
    let ghost before = store.tutors@;
    let merged = merge_tutor(store.tutors[idx].duplicate(), update_tutor);
    store.tutors.set(idx, merged.duplicate());
    proof {
        assert forall|k: int| 0 <= k < before.len() && k != idx as int implies before[k].id != tutor_id by {
            if k < idx as int {
                assert(tutor_key()(before[k]) < tutor_key()(before[idx as int]));
            } else {
                assert(tutor_key()(before[idx as int]) < tutor_key()(before[k]));
            }
        }
        assert(store.tutors@ =~= tutors_after_update(before, tutor_id, update_tutor));
        assert(store.tutors@[idx as int] == merged);
        let k = choose|k: int| 0 <= k < store.tutors@.len() && store.tutors@[k].id == tutor_id;
        assert(k == idx as int);
        assert forall|i: int| 0 <= i < store.topics@.len() implies
            has_tutor(store.tutors@, #[trigger] store.topics@[i].tutor_id) by {
            let w = choose|w: int| 0 <= w < before.len() && before[w].id == store.topics@[i].tutor_id;
            assert(store.tutors@[w].id == before[w].id);
        }
        assert forall|i: int, j: int| 0 <= i < j < store.tutors@.len() implies
            tutor_key()(store.tutors@[i]) < tutor_key()(store.tutors@[j]) by {
            assert(tutor_key()(before[i]) < tutor_key()(before[j]));
        }
        assert forall|i: int| 0 <= i < store.tutors@.len() implies
            0 < #[trigger] store.tutors@[i].id < store.next_tutor_id by {
            assert(store.tutors@[i].id == before[i].id);
        }
    }
    tutor_found(Some(merged))
}


/// The tutor rows of `rows` whose id is not `id`, in order.
fn tutors_except(rows: &Vec<Tutor>, id: i32) -> (r: Vec<Tutor>)
    ensures
        r@ == tutors_without(rows@, id),
{
    let mut kept: Vec<Tutor> = Vec::new();
    let mut i: usize = 0;
    while i < rows.len()
        invariant
            i <= rows@.len(),
            kept@ == rows@.subrange(0, i as int).filter(tutor_id_is_not(id)),
        decreases rows@.len() - i,
    {
        proof {
            lemma_filter_prefix_step(rows@, i as int, tutor_id_is_not(id));
        }
        if rows[i].id != id {
            kept.push(rows[i].duplicate());
        }
        i += 1;
    }
    assert(rows@.subrange(0, rows@.len() as int) =~= rows@);
    kept
}

/// The topic rows of `rows` that satisfy `owned == (owner == tutor_id)`, in order.
fn topics_by_owner(rows: &Vec<Topic>, tutor_id: i32, owned: bool) -> (r: Vec<Topic>)
    ensures
        owned ==> r@ == topics_owned_by(rows@, tutor_id),
        !owned ==> r@ == topics_not_owned_by(rows@, tutor_id),
{
    let ghost pred = if owned { owner_is(tutor_id) } else { owner_is_not(tutor_id) };
    let mut kept: Vec<Topic> = Vec::new();
    let mut i: usize = 0;
    while i < rows.len()
        invariant
            i <= rows@.len(),
            pred == (if owned { owner_is(tutor_id) } else { owner_is_not(tutor_id) }),
            kept@ == rows@.subrange(0, i as int).filter(pred),
        decreases rows@.len() - i,
    {
        proof {
            lemma_filter_prefix_step(rows@, i as int, pred);
        }
        if (rows[i].tutor_id == tutor_id) == owned {
            kept.push(rows[i].duplicate());
        }
        i += 1;
    }
    assert(rows@.subrange(0, rows@.len() as int) =~= rows@);
    kept
}

/// Deletes every topic the tutor `tutor_id` owns, then the tutor, as one
/// step, and reports how many rows left each table (none when there is no
/// such tutor).
pub fn delete_tutor_db(store: &mut Store, tutor_id: i32) -> (r: Result<DeleteSummary, AppErrorType>)
    requires
        old(store).wf(),
    ensures
        final(store).wf(),
        final(store).tutors() == tutors_without(old(store).tutors(), tutor_id),
        final(store).topics() == topics_not_owned_by(old(store).topics(), tutor_id),
        r == Ok::<DeleteSummary, AppErrorType>(DeleteSummary {
            tutors_deleted: if has_tutor(old(store).tutors(), tutor_id) { 1 } else { 0 },
            topics_deleted: topics_owned_by(old(store).topics(), tutor_id).len() as u64,
        }),
        final(store).tutors().len() == old(store).tutors().len()
            - (if has_tutor(old(store).tutors(), tutor_id) { 1int } else { 0int }),
        find_tutor(final(store).tutors(), tutor_id).is_none(),
        forall|p: Topic| old(store).topics().contains(p) && p.tutor_id == tutor_id
            ==> #[trigger] find_topic(final(store).topics(), p.id).is_none(),
        final(store).next_tutor_id() == old(store).next_tutor_id(),
        final(store).next_topic_id() == old(store).next_topic_id(),
{
    let ghost old_tutors = store.tutors@;
    let ghost old_topics = store.topics@;
    let kept_topics = topics_by_owner(&store.topics, tutor_id, false);
    let kept_tutors = tutors_except(&store.tutors, tutor_id);
    proof {
        old_topics.lemma_filter_len(owner_is_not(tutor_id));
        old_tutors.lemma_filter_len(tutor_id_is_not(tutor_id));
        law_tutor_delete_leaves_no_trace(old_tutors, old_topics, tutor_id);
        lemma_one_tutor_per_id(old_tutors, tutor_id);
    }
    let topics_deleted = (store.topics.len() - kept_topics.len()) as u64;
    let tutors_deleted = (store.tutors.len() - kept_tutors.len()) as u64;
    store.topics = kept_topics;
    store.tutors = kept_tutors;
    proof {
        lemma_filter_keeps_order(old_tutors, tutor_id_is_not(tutor_id), tutor_key());
        lemma_filter_keeps_order(old_topics, owner_is_not(tutor_id), topic_key());
        assert forall|i: int| 0 <= i < store.tutors@.len() implies
            0 < #[trigger] store.tutors@[i].id < store.next_tutor_id by {
            assert(store.tutors@.contains(store.tutors@[i]));
            let w = choose|w: int| 0 <= w < old_tutors.len() && old_tutors[w] == store.tutors@[i];
        }
        assert forall|i: int| 0 <= i < store.topics@.len() implies
            0 < #[trigger] store.topics@[i].id < store.next_topic_id by {
            assert(store.topics@.contains(store.topics@[i]));
            let w = choose|w: int| 0 <= w < old_topics.len() && old_topics[w] == store.topics@[i];
        }
        assert forall|i: int| 0 <= i < store.topics@.len() implies
            has_tutor(store.tutors@, #[trigger] store.topics@[i].tutor_id) by {
            let p = store.topics@[i];
            assert(store.topics@.contains(p));
            let w = choose|w: int| 0 <= w < old_topics.len() && old_topics[w] == p;
            assert(has_tutor(old_tutors, old_topics[w].tutor_id));
            let v = choose|v: int| 0 <= v < old_tutors.len() && old_tutors[v].id == p.tutor_id;
            assert(old_tutors.contains(old_tutors[v]));
            lemma_filter_keeps_passing(old_tutors, tutor_id_is_not(tutor_id), old_tutors[v]);
            let u = choose|u: int| 0 <= u < store.tutors@.len() && store.tutors@[u] == old_tutors[v];
        }
    }
    Ok(DeleteSummary { tutors_deleted, topics_deleted })
}


impl Store {
    /// The position of the topic `id`, if there is one.
    fn topic_index(&self, id: i32) -> (r: Option<usize>)
        requires
            self.wf(),
        ensures
            match r {
                Some(i) => i < self.topics@.len() && self.topics@[i as int].id == id
                    && find_topic(self.topics@, id) == Some(self.topics@[i as int]),
                None => !has_topic(self.topics@, id) && find_topic(self.topics@, id).is_none(),
            },
    {
        let mut i: usize = 0;
        while i < self.topics.len()
            invariant
                self.wf(),
                i <= self.topics@.len(),
                forall|j: int| 0 <= j < i ==> self.topics@[j].id != id,
            decreases self.topics@.len() - i,
        {
            if self.topics[i].id == id {
                proof {
                    let k = choose|k: int| 0 <= k < self.topics@.len() && self.topics@[k].id == id;
                    assert(k == i as int) by {
                        if k > i as int {
                            assert(topic_key()(self.topics@[i as int]) < topic_key()(self.topics@[k]));
                        }
                    }
                }
                return Some(i);
            }
            i += 1;
        }
        None
    }

    /// The position of the topic `id` when `tutor_id` owns it.
    fn owned_topic_index(&self, tutor_id: i32, id: i32) -> (r: Option<usize>)
        requires
            self.wf(),
        ensures
            match r {
                Some(i) => i < self.topics@.len() && self.topics@[i as int].id == id
                    && self.topics@[i as int].tutor_id == tutor_id
                    && find_topic(self.topics@, id) == Some(self.topics@[i as int]),
                None => !has_owned_topic(self.topics@, tutor_id, id),
            },
    {
        match self.topic_index(id) {
            Some(i) => {
                if self.topics[i].tutor_id == tutor_id {
                    Some(i)
                } else {
                    proof {
                        assert forall|k: int| 0 <= k < self.topics@.len() && self.topics@[k].id == id
                            implies k == i as int by {
                            if k < i as int {
                                assert(topic_key()(self.topics@[k]) < topic_key()(self.topics@[i as int]));
                            } else if k > i as int {
                                assert(topic_key()(self.topics@[i as int]) < topic_key()(self.topics@[k]));
                            }
                        }
                    }
                    None
                }
            },
            None => None,
        }
    }
}

/// Every topic, in ascending id order; `NotFoundError` when there is none.
pub fn get_all_topics_db(store: &Store) -> (r: Result<Vec<Topic>, AppErrorType>)
    requires
        store.wf(),
    ensures
        store.topics().len() == 0 ==> r matches Err(AppErrorType::NotFoundError(_)),
        store.topics().len() > 0 ==> (r matches Ok(v) && v@ == store.topics()),
{
    let mut rows: Vec<Topic> = Vec::new();
    let mut i: usize = 0;
    while i < store.topics.len()
        invariant
            i <= store.topics@.len(),
            rows@ == store.topics@.subrange(0, i as int),
        decreases store.topics@.len() - i,
    {
        rows.push(store.topics[i].duplicate());
        i += 1;
        assert(rows@ =~= store.topics@.subrange(0, i as int));
    }
    assert(rows@ =~= store.topics@);
    topics_found(rows)
}

/// The topics `tutor_id` owns, most recently created id first; empty when
/// it owns none.
pub fn get_topics_for_tutor_db(store: &Store, tutor_id: i32) -> (r: Result<Vec<Topic>, AppErrorType>)
    requires
        store.wf(),
    ensures
        r matches Ok(v) && v@ == backwards(topics_owned_by(store.topics(), tutor_id)),
        r matches Ok(v) && forall|i: int, j: int| 0 <= i < j < v@.len() ==> v@[i].id > v@[j].id,
        r matches Ok(v) && forall|p: Topic|
            #[trigger] v@.contains(p) <==> (store.topics().contains(p) && p.tutor_id == tutor_id),
{
    let owned = topics_by_owner(&store.topics, tutor_id, true);
    let mut rows: Vec<Topic> = Vec::new();
    let mut k: usize = 0;
    while k < owned.len()
        invariant
            k <= owned@.len(),
            rows@ == backwards(owned@).subrange(0, k as int),
        decreases owned@.len() - k,
    {
        rows.push(owned[owned.len() - 1 - k].duplicate());
        k += 1;
        assert(rows@ =~= backwards(owned@).subrange(0, k as int));
    }
    assert(rows@ =~= backwards(owned@));
    proof {
        let o = owned@;
        let n = o.len();
        lemma_filter_keeps_order(store.topics@, owner_is(tutor_id), topic_key());
        assert forall|i: int, j: int| 0 <= i < j < rows@.len() implies rows@[i].id > rows@[j].id by {
            assert(topic_key()(o[n - 1 - j]) < topic_key()(o[n - 1 - i]));
        }
        assert forall|p: Topic| #[trigger] rows@.contains(p) <==>
            (store.topics@.contains(p) && p.tutor_id == tutor_id) by {
            if rows@.contains(p) {
                let i = choose|i: int| 0 <= i < rows@.len() && rows@[i] == p;
                assert(o[n - 1 - i] == p);
                assert(o.contains(p));
            }
            if store.topics@.contains(p) && p.tutor_id == tutor_id {
                lemma_filter_keeps_passing(store.topics@, owner_is(tutor_id), p);
                let k = choose|k: int| 0 <= k < n && o[k] == p;
                assert(rows@[n - 1 - k] == p);
            }
        }
    }
    Ok(rows)
}

/// The topic `topic_id`; `NotFoundError` when there is none.
pub fn get_topic_details_db(store: &Store, topic_id: i32) -> (r: Result<Topic, AppErrorType>)
    requires
        store.wf(),
    ensures
        match find_topic(store.topics(), topic_id) {
            Some(p) => r == Ok::<Topic, AppErrorType>(p),
            None => r matches Err(AppErrorType::NotFoundError(_)),
        },
{
    match store.topic_index(topic_id) {
        Some(i) => topic_found(Some(store.topics[i].duplicate())),
        None => topic_found(None),
    }
}

/// Inserts a topic under the next free id, stamped as created and modified
/// at `now`.
pub fn post_new_topic_at(store: &mut Store, new_topic: CreateTopic, now: Timestamp) -> (r: Result<Topic, AppErrorType>)
    requires
        old(store).wf(),
    ensures
        final(store).wf(),
        topic_posted(*old(store), *final(store), new_topic, now, r),
{
    if store.tutor_index(new_topic.tutor_id).is_none() {
        return Err(AppErrorType::DbError("Topic owner is not a known tutor".to_string()));
    }
    if store.next_topic_id == i32::MAX {
        return Err(AppErrorType::DbError("Topic id space exhausted".to_string()));
    }
    let ghost before = store.topics@;
    let p = Topic {
        id: store.next_topic_id,
        tutor_id: new_topic.tutor_id,
        title: new_topic.title,
        topic_description: new_topic.topic_description,
        format: new_topic.format,
        duration: new_topic.duration,
        topic_level: new_topic.topic_level,
        created_at: Some(now),
        updated_at: Some(now),
    };
    store.topics.push(p.duplicate());
    store.next_topic_id = store.next_topic_id + 1;
    proof {
        law_created_topic_is_found(before, new_topic, p.id, now);
        assert forall|i: int, j: int| 0 <= i < j < store.topics@.len() implies
            topic_key()(store.topics@[i]) < topic_key()(store.topics@[j]) by {
            if j < before.len() {
                assert(topic_key()(before[i]) < topic_key()(before[j]));
            } else {
                assert(0 < before[i].id < store.next_topic_id - 1);
            }
        }
        assert forall|i: int| 0 <= i < store.topics@.len() implies
            has_tutor(store.tutors@, #[trigger] store.topics@[i].tutor_id) by {
            if i < before.len() {
                assert(store.topics@[i] == before[i]);
            }
        }
    }
    Ok(p)
}

/// Inserts a topic under the next free id, stamped with the current time as
/// created and modified; `DbError` when its owner is not a live tutor or the
/// id space is used up.
pub fn post_new_topic_db(store: &mut Store, new_topic: CreateTopic) -> (r: Result<Topic, AppErrorType>)
    requires
        old(store).wf(),
    ensures
        final(store).wf(),
        exists|now: Timestamp| topic_posted(*old(store), *final(store), new_topic, now, r),
{
    let now = utc_now();
    post_new_topic_at(store, new_topic, now)
}

/// Merges `update_topic` into the topic `topic_id` owned by `tutor_id`,
/// stamps it as modified at `now`, writes the whole record back and returns it.
pub fn update_topic_details_at(store: &mut Store, tutor_id: i32, topic_id: i32, update_topic: UpdateTopic, now: Timestamp) -> (r: Result<Topic, AppErrorType>)
    requires
        old(store).wf(),
    ensures
        final(store).wf(),
        topic_updated(*old(store), *final(store), tutor_id, topic_id, update_topic, now, r),
{
    let idx = match store.owned_topic_index(tutor_id, topic_id) {
        Some(i) => i,
        None => return topic_found(None),
    };
    let ghost before = store.topics@;
    let merged = merge_topic(store.topics[idx].duplicate(), update_topic, now);
    store.topics.set(idx, merged.duplicate());
    proof {
        assert forall|k: int| 0 <= k < before.len() && k != idx as int implies before[k].id != topic_id by {
            if k < idx as int {
                assert(topic_key()(before[k]) < topic_key()(before[idx as int]));
            } else {
                assert(topic_key()(before[idx as int]) < topic_key()(before[k]));
            }
        }
        assert(store.topics@ =~= topics_with(before, topic_id, merged));
        assert(store.topics@[idx as int] == merged);
        let k = choose|k: int| 0 <= k < store.topics@.len() && store.topics@[k].id == topic_id;
        assert(k == idx as int);
        assert forall|i: int| 0 <= i < store.topics@.len() implies
            has_tutor(store.tutors@, #[trigger] store.topics@[i].tutor_id) by {
            assert(store.topics@[i].tutor_id == before[i].tutor_id);
        }
        assert forall|i: int, j: int| 0 <= i < j < store.topics@.len() implies
            topic_key()(store.topics@[i]) < topic_key()(store.topics@[j]) by {
            assert(topic_key()(before[i]) < topic_key()(before[j]));
        }
        assert forall|i: int| 0 <= i < store.topics@.len() implies
            0 < #[trigger] store.topics@[i].id < store.next_topic_id by {
            assert(store.topics@[i].id == before[i].id);
        }
    }
    topic_found(Some(merged))
}

/// Merges `update_topic` into the topic `topic_id` owned by `tutor_id`,
/// stamped with the current time; `NotFoundError` when `tutor_id` owns no
/// such topic.
pub fn update_topic_details_db(store: &mut Store, tutor_id: i32, topic_id: i32, update_topic: UpdateTopic) -> (r: Result<Topic, AppErrorType>)
    requires
        old(store).wf(),
    ensures
        final(store).wf(),
        exists|now: Timestamp| topic_updated(*old(store), *final(store), tutor_id, topic_id, update_topic, now, r),
{
    let now = utc_now();
    update_topic_details_at(store, tutor_id, topic_id, update_topic, now)
}

/// Deletes the topic `topic_id` owned by `tutor_id` and returns its id;
/// `NotFoundError` when `tutor_id` owns no such topic.
pub fn delete_topic_db(store: &mut Store, tutor_id: i32, topic_id: i32) -> (r: Result<i32, AppErrorType>)
    requires
        old(store).wf(),
    ensures
        final(store).wf(),
        has_owned_topic(old(store).topics(), tutor_id, topic_id) ==> {
            &&& r == Ok::<i32, AppErrorType>(topic_id)
            &&& final(store).topics() == old(store).topics().filter(topic_id_is_not(topic_id))
            &&& final(store).tutors() == old(store).tutors()
            &&& final(store).next_tutor_id() == old(store).next_tutor_id()
            &&& final(store).next_topic_id() == old(store).next_topic_id()
        },
        !has_owned_topic(old(store).topics(), tutor_id, topic_id) ==> {
            &&& r matches Err(AppErrorType::NotFoundError(_))
            &&& final(store).same_as(old(store))
        },
{
    let idx = match store.owned_topic_index(tutor_id, topic_id) {
        Some(i) => i,
        None => return topic_deleted(None),
    };
    let ghost before = store.topics@;
    let mut kept: Vec<Topic> = Vec::new();
    let mut i: usize = 0;
    while i < store.topics.len()
        invariant
            i <= store.topics@.len(),
            kept@ == store.topics@.subrange(0, i as int).filter(topic_id_is_not(topic_id)),
        decreases store.topics@.len() - i,
    {
        proof {
            lemma_filter_prefix_step(store.topics@, i as int, topic_id_is_not(topic_id));
        }
        if store.topics[i].id != topic_id {
            kept.push(store.topics[i].duplicate());
        }
        i += 1;
    }
    assert(store.topics@.subrange(0, store.topics@.len() as int) =~= store.topics@);
    store.topics = kept;
    proof {
        lemma_filter_keeps_order(before, topic_id_is_not(topic_id), topic_key());
        assert forall|i: int| 0 <= i < store.topics@.len() implies
            0 < #[trigger] store.topics@[i].id < store.next_topic_id
            && has_tutor(store.tutors@, store.topics@[i].tutor_id) by {
            assert(store.topics@.contains(store.topics@[i]));
            let w = choose|w: int| 0 <= w < before.len() && before[w] == store.topics@[i];
        }
    }
    topic_deleted(Some(topic_id))
}

} // verus!
