//! The transactional outbox: a durable store of domain events awaiting
//! delivery, and the publisher poll cycle that moves them to the broker.
//!
//! An event row is created in the same transaction as the business write that
//! produced it, so the event is never lost even if the process crashes before
//! publishing.  A background publisher repeatedly fetches every `Pending` row
//! in ascending id order, publishes each payload to the queue named after its
//! event type, and marks the row `Processed` on success.  A publish failure
//! leaves its row `Pending` — to be retried on the next poll — and does not
//! abort the rest of the batch.  The publish-then-mark sequence is not
//! atomic, so delivery is at least once, never exactly once; downstream
//! consumers must treat deliveries as idempotent.

use vstd::prelude::*;

use crate::app_error::CoreError;

verus! {

/// Delivery status of an outbox row.  The only transition is
/// `Pending -> Processed`; a row never reverts.
#[derive(Debug, Clone, Copy, PartialEq, Eq, Structural)]
pub enum EventStatus {
    Pending,
    Processed,
}

/// One durable outbox row: a unit of work to deliver.
#[derive(Debug)]
pub struct OutboxEntity {
    /// Surrogate key, assigned by the store in ascending insertion order and
    /// immutable once assigned.
    pub id: i32,
    /// Broker routing: the queue the payload is published to.
    pub event_type: String,
    /// Serialized event body, opaque to the publisher.
    pub payload: String,
    pub status: EventStatus,
    /// Store-assigned creation time, milliseconds since the epoch.
    pub created_at: i64,
    /// Last mutation time, milliseconds since the epoch.
    pub updated_at: i64,
}

/// The caller-supplied part of a new outbox row.
#[derive(Debug, Clone)]
pub struct CreateOutboxEntity {
    pub event_type: String,
    pub payload: String,
}

/// Mathematical model of one outbox row.
pub ghost struct EventModel {
    pub id: int,
    pub event_type: Seq<char>,
    pub payload: Seq<char>,
    pub status: EventStatus,
    pub created_at: int,
    pub updated_at: int,
}

impl View for OutboxEntity {
    type V = EventModel;

    open spec fn view(&self) -> EventModel {
        EventModel {
            id: self.id as int,
            event_type: self.event_type@,
            payload: self.payload@,
            status: self.status,
            created_at: self.created_at as int,
            updated_at: self.updated_at as int,
        }
    }
}

impl Clone for OutboxEntity {
    fn clone(&self) -> (r: Self)
        ensures
            r@ == self@,
    {
        OutboxEntity {
            id: self.id,
            event_type: self.event_type.clone(),
            payload: self.payload.clone(),
            status: self.status,
            created_at: self.created_at,
            updated_at: self.updated_at,
        }
    }
}

/// The models of a sequence of rows.
pub open spec fn spec_entities(s: Seq<OutboxEntity>) -> Seq<EventModel> {
    s.map_values(|e: OutboxEntity| e@)
}

/// The rows visible to the publisher: exactly those still `Pending`, in
/// store order (ascending id).
pub open spec fn spec_pending(s: Seq<EventModel>) -> Seq<EventModel> {
    s.filter(|e: EventModel| e.status == EventStatus::Pending)
}

/// How many rows before position `j` are `Pending`: the position a pending
/// row at `j` takes in [`spec_pending`].
pub open spec fn spec_pending_before(s: Seq<EventModel>, j: int) -> int {
    spec_pending(s.take(j)).len() as int
}

/// A row after the publisher marked it delivered.
pub open spec fn spec_marked(e: EventModel, now: int) -> EventModel {
    EventModel {
        id: e.id,
        event_type: e.event_type,
        payload: e.payload,
        status: EventStatus::Processed,
        created_at: e.created_at,
        updated_at: now,
    }
}

/// The store after `mark_processed(id)`: every row keeps its place; the row
/// with the given id (if any) is marked, all others are untouched.
pub open spec fn spec_mark(s: Seq<EventModel>, id: int, now: int) -> Seq<EventModel> {
    Seq::new(s.len(), |j: int| if s[j].id == id { spec_marked(s[j], now) } else { s[j] })
}

/// Whether some row carries the given id.
pub open spec fn spec_contains_id(s: Seq<EventModel>, id: int) -> bool {
    exists|j: int| 0 <= j < s.len() && s[j].id == id
}

/// Ids strictly ascend along the store, hence are unique.
pub open spec fn spec_ids_ascending(s: Seq<EventModel>) -> bool {
    forall|i: int, j: int| 0 <= i < j < s.len() ==> s[i].id < s[j].id
}

/// The store after one publisher poll cycle, given the broker's answer to
/// each publish attempt: the k-th pending row (in store order) was published
/// with outcome `outcomes[k]`, and was marked `Processed` exactly when that
/// outcome is `Ok`.  Every other row is untouched.
pub open spec fn spec_cycle(
    s: Seq<EventModel>,
    outcomes: Seq<Result<(), CoreError>>,
    now: int,
) -> Seq<EventModel> {
    Seq::new(
        s.len(),
        |j: int|
            {
                let k = spec_pending_before(s, j);
                if s[j].status == EventStatus::Pending && 0 <= k < outcomes.len() && outcomes[k]
                    is Ok {
                    spec_marked(s[j], now)
                } else {
                    s[j]
                }
            },
    )
}

/// One publish attempt of a poll cycle, as recorded in its log: which row was
/// published, to which queue, with which payload, and whether the broker
/// accepted it.
#[derive(Debug)]
pub struct PublishAttempt {
    pub id: i32,
    pub queue: String,
    pub payload: String,
    pub delivered: bool,
}

/// Mathematical model of one publish attempt.
pub ghost struct AttemptModel {
    pub id: int,
    pub queue: Seq<char>,
    pub payload: Seq<char>,
    pub delivered: bool,
}

impl View for PublishAttempt {
    type V = AttemptModel;

    open spec fn view(&self) -> AttemptModel {
        AttemptModel {
            id: self.id as int,
            queue: self.queue@,
            payload: self.payload@,
            delivered: self.delivered,
        }
    }
}

/// The models of a publish log.
pub open spec fn spec_attempts(s: Seq<PublishAttempt>) -> Seq<AttemptModel> {
    s.map_values(|a: PublishAttempt| a@)
}

/// The durable store of outbox rows, modelled as the sequence of rows in
/// insertion order.
///
/// Well-formedness ([`OutboxStore::wf`]): ids strictly ascend along the
/// store, start at 1, and stay below `next_id`.
pub struct OutboxStore {
    pub events: Vec<OutboxEntity>,
    pub next_id: i32,
}

impl View for OutboxStore {
    type V = Seq<EventModel>;

    open spec fn view(&self) -> Seq<EventModel> {
        spec_entities(self.events@)
    }
}

impl OutboxStore {
    pub open spec fn wf(&self) -> bool {
        &&& 1 <= self.next_id
        &&& forall|i: int| 0 <= i < self@.len() ==> 1 <= #[trigger] self@[i].id < self.next_id
        &&& spec_ids_ascending(self@)
    }

    /// An empty store; ids start at 1.
    pub fn new() -> (r: OutboxStore)
        ensures
            r.wf(),
            r@ == Seq::<EventModel>::empty(),
            r.next_id == 1,
    {
        let r = OutboxStore { events: Vec::new(), next_id: 1 };
        proof {
            assert(r@ =~= Seq::<EventModel>::empty());
        }
        r
    }

    /// Inserts a new row with the next id, `Pending`, created and updated
    /// now.  The store assigns ids in ascending insertion order.
    pub fn insert(&mut self, values: CreateOutboxEntity, now: i64) -> (r: OutboxEntity)
        requires
            old(self).wf(),
            old(self).next_id < i32::MAX,
        ensures
            final(self).wf(),
            r@.id == old(self).next_id as int,
            r@.event_type == values.event_type@,
            r@.payload == values.payload@,
            r@.status == EventStatus::Pending,
            r@.created_at == now as int,
            r@.updated_at == now as int,
            final(self)@ == old(self)@.push(r@),
            final(self).next_id == old(self).next_id + 1,
    {
        let id = self.next_id;
        self.next_id = self.next_id + 1;
        let entity = OutboxEntity {
            id,
            event_type: values.event_type,
            payload: values.payload,
            status: EventStatus::Pending,
            created_at: now,
            updated_at: now,
        };
        let r = entity.clone();
        proof {
            assert(spec_entities(self.events@.push(entity)) =~= self@.push(entity@));
        }
        self.events.push(entity);
        r
    }

    /// The rows awaiting delivery, in ascending id order: copies of exactly
    /// the `Pending` rows.
    pub fn select_pending(&self) -> (r: Vec<OutboxEntity>)
        ensures
            spec_entities(r@) == spec_pending(self@),
    {
        let mut out: Vec<OutboxEntity> = Vec::new();
        let n = self.events.len();
        for i in 0..n
            invariant
                n == self.events.len(),
                spec_entities(out@) =~= spec_pending(self@.take(i as int)),
        {
            proof {
                reveal(Seq::filter);
                let t = self@.take(i + 1);
                assert(t.drop_last() =~= self@.take(i as int));
                assert(t.last() == self.events@[i as int]@);
                assert(spec_pending(t) == (if self.events@[i as int]@.status
                    == EventStatus::Pending {
                    spec_pending(self@.take(i as int)).push(self.events@[i as int]@)
                } else {
                    spec_pending(self@.take(i as int))
                }));
            }
            if self.events[i].status == EventStatus::Pending {
                let e = self.events[i].clone();
                proof {
                    assert(spec_entities(out@.push(e)) =~= spec_entities(out@).push(e@));
                }
                out.push(e);
            }
        }
        proof {
            assert(self@.take(n as int) =~= self@);
        }
        out
    }

    /// Marks the row with this id `Processed` and freshens its update time;
    /// every other row is untouched.  Returns whether such a row exists.
    pub fn mark_processed(&mut self, id: i32, now: i64) -> (found: bool)
        requires
            old(self).wf(),
        ensures
            final(self).wf(),
            final(self).next_id == old(self).next_id,
            final(self)@ == spec_mark(old(self)@, id as int, now as int),
            found == spec_contains_id(old(self)@, id as int),
    {
        let n = self.events.len();
        let mut found = false;
        for i in 0..n
            invariant
                n == self.events.len(),
                self.events.len() == old(self).events.len(),
                self.next_id == old(self).next_id,
                forall|j: int|
                    0 <= j < n ==> #[trigger] self@[j] == (if j < i && old(self)@[j].id == id as int {
                        spec_marked(old(self)@[j], now as int)
                    } else {
                        old(self)@[j]
                    }),
                found == exists|j: int| 0 <= j < i && old(self)@[j].id == id as int,
        {
            assert(self@[i as int] == self.events@[i as int]@);
            if self.events[i].id == id {
                let marked = OutboxEntity {
                    id: self.events[i].id,
                    event_type: self.events[i].event_type.clone(),
                    payload: self.events[i].payload.clone(),
                    status: EventStatus::Processed,
                    created_at: self.events[i].created_at,
                    updated_at: now,
                };
                proof {
                    assert(marked@ == spec_marked(old(self)@[i as int], now as int));
                }
                self.events[i] = marked;
                found = true;
            }
        }
        proof {
            assert(final(self)@ =~= spec_mark(old(self)@, id as int, now as int));
        }
        found
    }
}

/// Every pending row takes one place in the pending sequence: position
/// [`spec_pending_before`], where the row itself stands.
pub proof fn lemma_pending_at(s: Seq<EventModel>, j: int)
    requires
        0 <= j < s.len(),
        s[j].status == EventStatus::Pending,
    ensures
        0 <= spec_pending_before(s, j) < spec_pending(s).len(),
        spec_pending(s)[spec_pending_before(s, j)] == s[j],
    decreases s.len(),
{
    reveal(Seq::filter);
    if j == s.len() - 1 {
        assert(s.take(j) =~= s.drop_last());
        assert(s.last() == s[j]);
    } else {
        let t = s.drop_last();
        assert(t.take(j) =~= s.take(j));
        assert(t[j] == s[j]);
        lemma_pending_at(t, j);
    }
}

/// Counting pending rows one position further.
pub proof fn lemma_pending_before_step(s: Seq<EventModel>, j: int)
    requires
        0 <= j < s.len(),
    ensures
        spec_pending_before(s, j + 1) == spec_pending_before(s, j) + (
        if s[j].status == EventStatus::Pending {
            1int
        } else {
            0int
        }),
{
    reveal(Seq::filter);
    let t = s.take(j + 1);
    assert(t.drop_last() =~= s.take(j));
    assert(t.last() == s[j]);
}

/// The pending count never decreases along the store.
pub proof fn lemma_pending_before_mono(s: Seq<EventModel>, j1: int, j2: int)
    requires
        0 <= j1 <= j2 <= s.len(),
    ensures
        spec_pending_before(s, j1) <= spec_pending_before(s, j2),
    decreases j2 - j1,
{
    if j1 < j2 {
        lemma_pending_before_step(s, j1);
        lemma_pending_before_mono(s, j1 + 1, j2);
    }
}

/// Two distinct pending rows take strictly ascending places in the pending
/// sequence, so no row is published twice in one cycle.
pub proof fn lemma_pending_before_strict(s: Seq<EventModel>, j1: int, j2: int)
    requires
        0 <= j1 < j2 < s.len(),
        s[j1].status == EventStatus::Pending,
    ensures
        spec_pending_before(s, j1) < spec_pending_before(s, j2),
{
    lemma_pending_before_step(s, j1);
    lemma_pending_before_mono(s, j1 + 1, j2);
}

/// Each place of the pending sequence is taken by a pending row of the store.
pub proof fn lemma_pending_index(s: Seq<EventModel>, k: int)
    requires
        0 <= k < spec_pending(s).len(),
    ensures
        exists|j: int|
            0 <= j < s.len() && (#[trigger] s[j]).status == EventStatus::Pending
                && spec_pending_before(s, j) == k && s[j] == spec_pending(s)[k],
    decreases s.len(),
{
    reveal(Seq::filter);
    assert(s.len() > 0);
    let t = s.drop_last();
    if k < spec_pending(t).len() {
        lemma_pending_index(t, k);
        let j = choose|j: int|
            0 <= j < t.len() && (#[trigger] t[j]).status == EventStatus::Pending
                && spec_pending_before(t, j) == k && t[j] == spec_pending(t)[k];
        assert(s.take(j) =~= t.take(j));
        assert(s[j] == t[j]);
        assert(s[j].status == EventStatus::Pending && spec_pending_before(s, j) == k && s[j]
            == spec_pending(s)[k]);
    } else {
        assert(s.last().status == EventStatus::Pending);
        let j = s.len() - 1;
        assert(s.take(j) =~= t);
        assert((s[j]).status == EventStatus::Pending && spec_pending_before(s, j) == k && s[j]
            == spec_pending(s)[k]);
    }
}

/// A store with no pending rows has an empty pending sequence.
pub proof fn lemma_no_pending(s: Seq<EventModel>)
    requires
        forall|j: int| 0 <= j < s.len() ==> (#[trigger] s[j]).status != EventStatus::Pending,
    ensures
        spec_pending(s) == Seq::<EventModel>::empty(),
    decreases s.len(),
{
    reveal(Seq::filter);
    if s.len() == 0 {
        assert(s =~= Seq::<EventModel>::empty());
    } else {
        lemma_no_pending(s.drop_last());
    }
}

/// Pending rows keep the store's ascending id order: the publisher's batch is
/// ordered by id.
pub proof fn lemma_pending_ascending(s: Seq<EventModel>)
    requires
        spec_ids_ascending(s),
    ensures
        spec_ids_ascending(spec_pending(s)),
{
    assert forall|k1: int, k2: int|
        0 <= k1 < k2 < spec_pending(s).len() implies spec_pending(s)[k1].id < spec_pending(
        s,
    )[k2].id by {
        lemma_pending_index(s, k1);
        lemma_pending_index(s, k2);
        let j1 = choose|j: int|
            0 <= j < s.len() && (#[trigger] s[j]).status == EventStatus::Pending
                && spec_pending_before(s, j) == k1 && s[j] == spec_pending(s)[k1];
        let j2 = choose|j: int|
            0 <= j < s.len() && (#[trigger] s[j]).status == EventStatus::Pending
                && spec_pending_before(s, j) == k2 && s[j] == spec_pending(s)[k2];
        if j1 == j2 {
            assert(false);
        } else if j2 < j1 {
            lemma_pending_before_strict(s, j2, j1);
            assert(false);
        }
    };
}

impl OutboxStore {
    /// One publisher poll cycle, with the broker's answer to each publish
    /// given in batch order: the k-th pending row (ascending id) is published
    /// to the queue named after its event type, and is marked `Processed`
    /// exactly when `outcomes[k]` is `Ok`.  A failed publish leaves its row
    /// `Pending` — retried on the next cycle — and does not abort the batch.
    /// The returned log records the attempts, one per pending row, in the
    /// ascending id order they were published in.
    pub fn run_publish_cycle(
        &mut self,
        outcomes: &Vec<Result<(), CoreError>>,
        now: i64,
    ) -> (log: Vec<PublishAttempt>)
        requires
            old(self).wf(),
            outcomes@.len() == spec_pending(old(self)@).len(),
        ensures
            final(self).wf(),
            final(self).next_id == old(self).next_id,
            final(self)@ == spec_cycle(old(self)@, outcomes@, now as int),
            log@.len() == spec_pending(old(self)@).len(),
            forall|k: int|
                0 <= k < outcomes@.len() ==> {
                    let p = spec_pending(old(self)@)[k];
                    &&& (#[trigger] spec_attempts(log@)[k]).id == p.id
                    &&& spec_attempts(log@)[k].queue == p.event_type
                    &&& spec_attempts(log@)[k].payload == p.payload
                    &&& spec_attempts(log@)[k].delivered == (outcomes@[k] is Ok)
                },
            forall|k1: int, k2: int|
                0 <= k1 < k2 < outcomes@.len() ==> spec_attempts(log@)[k1].id < spec_attempts(
                    log@,
                )[k2].id,
    {
        let pending = self.select_pending();
        let mut log: Vec<PublishAttempt> = Vec::new();
        let n = pending.len();
        for i in 0..n
            invariant
                old(self).wf(),
                n == pending@.len(),
                spec_entities(pending@) == spec_pending(old(self)@),
                outcomes@.len() == n,
                self.wf(),
                self.next_id == old(self).next_id,
                self@ =~= spec_cycle(old(self)@, outcomes@.take(i as int), now as int),
                log@.len() == i,
                forall|k: int|
                    0 <= k < i ==> {
                        let p = spec_pending(old(self)@)[k];
                        &&& (#[trigger] spec_attempts(log@)[k]).id == p.id
                        &&& spec_attempts(log@)[k].queue == p.event_type
                        &&& spec_attempts(log@)[k].payload == p.payload
                        &&& spec_attempts(log@)[k].delivered == (outcomes@[k] is Ok)
                    },
        {
            let delivered = outcomes[i].is_ok();
            proof {
                assert(pending@[i as int]@ == spec_pending(old(self)@)[i as int]);
            }
            if delivered {
                let ghost pre = self@;
                let _found = self.mark_processed(pending[i].id, now);
                proof {
                    let s0 = old(self)@;
                    let id = pending@[i as int]@.id;
                    lemma_pending_index(s0, i as int);
                    let js = choose|j: int|
                        0 <= j < s0.len() && (#[trigger] s0[j]).status == EventStatus::Pending
                            && spec_pending_before(s0, j) == i && s0[j] == spec_pending(s0)[i as int];
                    assert forall|j: int| 0 <= j < s0.len() implies self@[j] == spec_cycle(
                        s0,
                        outcomes@.take(i + 1),
                        now as int,
                    )[j] by {
                        assert(pre[j] == spec_cycle(s0, outcomes@.take(i as int), now as int)[j]);
                        assert(pre[j].id == s0[j].id);
                        if s0[j].id == id {
                            if j != js {
                                assert(s0[j].id != s0[js].id);
                                assert(false);
                            }
                            assert(pre[j] == s0[j]);
                            assert(self@[j] == spec_marked(s0[j], now as int));
                        } else {
                            assert(self@[j] == pre[j]);
                            if s0[j].status == EventStatus::Pending && spec_pending_before(s0, j)
                                == i {
                                lemma_pending_at(s0, j);
                                assert(false);
                            }
                        }
                    };
                    assert(self@ =~= spec_cycle(s0, outcomes@.take(i + 1), now as int));
                }
            } else {
                proof {
                    let s0 = old(self)@;
                    assert forall|j: int| 0 <= j < s0.len() implies self@[j] == spec_cycle(
                        s0,
                        outcomes@.take(i + 1),
                        now as int,
                    )[j] by {
                        assert(self@[j] == spec_cycle(s0, outcomes@.take(i as int), now as int)[j]);
                    };
                    assert(self@ =~= spec_cycle(s0, outcomes@.take(i + 1), now as int));
                }
            }
            let attempt = PublishAttempt {
                id: pending[i].id,
                queue: pending[i].event_type.clone(),
                payload: pending[i].payload.clone(),
                delivered,
            };
            proof {
                assert(spec_attempts(log@.push(attempt)) =~= spec_attempts(log@).push(attempt@));
            }
            log.push(attempt);
        }
        proof {
            assert(outcomes@.take(n as int) =~= outcomes@);
            lemma_pending_ascending(old(self)@);
        }
        log
    }
}

/// Law: with a broker that accepts every publish, one poll cycle moves every
/// pending row to `Processed` and skips none; each pending row takes exactly
/// one place in the publish order, rows already `Processed` are untouched,
/// and nothing is left `Pending`.
pub proof fn lemma_cycle_with_successful_broker(
    s: Seq<EventModel>,
    outcomes: Seq<Result<(), CoreError>>,
    now: int,
)
    requires
        outcomes.len() == spec_pending(s).len(),
        forall|k: int| 0 <= k < outcomes.len() ==> #[trigger] outcomes[k] is Ok,
    ensures
        spec_cycle(s, outcomes, now).len() == s.len(),
        forall|j: int|
            0 <= j < s.len() && (#[trigger] s[j]).status == EventStatus::Pending ==> spec_cycle(
                s,
                outcomes,
                now,
            )[j] == spec_marked(s[j], now),
        forall|j: int|
            0 <= j < s.len() && (#[trigger] s[j]).status == EventStatus::Processed ==> spec_cycle(
                s,
                outcomes,
                now,
            )[j] == s[j],
        forall|j: int|
            0 <= j < s.len() ==> (#[trigger] spec_cycle(s, outcomes, now)[j]).status
                == EventStatus::Processed,
        spec_pending(spec_cycle(s, outcomes, now)) == Seq::<EventModel>::empty(),
        forall|j: int|
            0 <= j < s.len() && (#[trigger] s[j]).status == EventStatus::Pending ==> spec_pending(
                s,
            )[spec_pending_before(s, j)] == s[j],
        forall|j1: int, j2: int|
            0 <= j1 < j2 < s.len() && (#[trigger] s[j1]).status == EventStatus::Pending && (
            #[trigger] s[j2]).status == EventStatus::Pending ==> spec_pending_before(s, j1)
                != spec_pending_before(s, j2),
{
    let s2 = spec_cycle(s, outcomes, now);
    assert forall|j: int|
        0 <= j < s.len() && (#[trigger] s[j]).status == EventStatus::Pending implies s2[j]
        == spec_marked(s[j], now) && spec_pending(s)[spec_pending_before(s, j)] == s[j] by {
        lemma_pending_at(s, j);
    };
    assert forall|j: int| 0 <= j < s.len() implies (#[trigger] s2[j]).status
        == EventStatus::Processed by {
        if s[j].status == EventStatus::Pending {
            lemma_pending_at(s, j);
        }
    };
    lemma_no_pending(s2);
    assert forall|j1: int, j2: int|
        0 <= j1 < j2 < s.len() && (#[trigger] s[j1]).status == EventStatus::Pending && (
        #[trigger] s[j2]).status == EventStatus::Pending implies spec_pending_before(s, j1)
        != spec_pending_before(s, j2) by {
        lemma_pending_before_strict(s, j1, j2);
    };
}

/// Law: a failed publish leaves exactly its own row `Pending`, payload and
/// all, still visible to the next poll cycle; rows whose publish succeeded in
/// the same cycle still reach `Processed`.
pub proof fn lemma_failed_publish_stays_pending(
    s: Seq<EventModel>,
    outcomes: Seq<Result<(), CoreError>>,
    now: int,
    j: int,
)
    requires
        outcomes.len() == spec_pending(s).len(),
        0 <= j < s.len(),
        s[j].status == EventStatus::Pending,
        outcomes[spec_pending_before(s, j)] is Err,
    ensures
        spec_cycle(s, outcomes, now)[j] == s[j],
        spec_cycle(s, outcomes, now)[j].status == EventStatus::Pending,
        spec_pending(spec_cycle(s, outcomes, now)).contains(s[j]),
        forall|j2: int|
            0 <= j2 < s.len() && (#[trigger] s[j2]).status == EventStatus::Pending && outcomes[
                spec_pending_before(s, j2)
            ] is Ok ==> spec_cycle(s, outcomes, now)[j2] == spec_marked(s[j2], now),
{
    let s2 = spec_cycle(s, outcomes, now);
    lemma_pending_at(s, j);
    assert(s2[j] == s[j]);
    lemma_pending_at(s2, j);
    assert(spec_pending(s2)[spec_pending_before(s2, j)] == s2[j]);
    assert(spec_pending(s2).contains(s[j]));
    assert forall|j2: int|
        0 <= j2 < s.len() && (#[trigger] s[j2]).status == EventStatus::Pending && outcomes[
            spec_pending_before(s, j2)
        ] is Ok implies s2[j2] == spec_marked(s[j2], now) by {
        lemma_pending_at(s, j2);
    };
}

/// Law: delivery is at least once, never exactly once, and a re-publish (as
/// after a crash between a publish and its mark) is harmless on the store
/// side — marking a row `Processed` twice equals marking it once, and a
/// `Processed` row never reverts to `Pending`.
pub proof fn lemma_republish_idempotent(s: Seq<EventModel>, id: int, now: int)
    ensures
        spec_mark(spec_mark(s, id, now), id, now) == spec_mark(s, id, now),
        forall|j: int|
            0 <= j < s.len() && (#[trigger] s[j]).status == EventStatus::Processed ==> spec_mark(
                s,
                id,
                now,
            )[j].status == EventStatus::Processed,
{
    assert(spec_mark(spec_mark(s, id, now), id, now) =~= spec_mark(s, id, now));
}

/// Inserts a new outbox row inside the caller's transaction — the only write
/// entry point for application code.  `payload` is the event body as
/// serialized by the caller, or `None` where serialization failed.
///
/// Succeeds if and only if the payload serialized and the store has id room:
/// an unserializable payload is rejected with `SerializationError` and a full
/// store with `StoreError`, both leaving the store untouched.
pub fn publish(
    store: &mut OutboxStore,
    event_type: String,
    payload: Option<String>,
    now: i64,
) -> (r: Result<OutboxEntity, CoreError>)
    requires
        old(store).wf(),
    ensures
        final(store).wf(),
        r is Ok <==> (payload is Some && old(store).next_id < i32::MAX),
        match r {
            Ok(ev) => {
                &&& payload matches Some(p) && ev@.payload == p@
                &&& ev@.event_type == event_type@
                &&& ev@.status == EventStatus::Pending
                &&& ev@.created_at == now as int
                &&& ev@.updated_at == now as int
                &&& ev@.id == old(store).next_id as int
                &&& final(store)@ == old(store)@.push(ev@)
                &&& final(store).next_id == old(store).next_id + 1
            },
            Err(e) => {
                &&& *final(store) == *old(store)
                &&& payload is None ==> e == CoreError::SerializationError
                &&& payload is Some ==> e == CoreError::StoreError
            },
        },
{
    match payload {
        None => Err(CoreError::SerializationError),
        Some(p) => {
            if store.next_id == i32::MAX {
                Err(CoreError::StoreError)
            } else {
                let ev = store.insert(CreateOutboxEntity { event_type, payload: p }, now);
                Ok(ev)
            }
        },
    }
}

/// Law: the publisher never rewrites a row's identity or content — marking
/// changes only the status and the update time, never the id, event type,
/// payload or creation time, and never adds or removes rows.
pub proof fn lemma_mark_changes_status_only(s: Seq<EventModel>, id: int, now: int)
    ensures
        spec_mark(s, id, now).len() == s.len(),
        forall|j: int|
            0 <= j < s.len() ==> {
                let m = #[trigger] spec_mark(s, id, now)[j];
                &&& m.id == s[j].id
                &&& m.event_type == s[j].event_type
                &&& m.payload == s[j].payload
                &&& m.created_at == s[j].created_at
            },
{
}

/// Law: `Processed` is absorbing across whole poll cycles too — a processed
/// row is untouched by any cycle, whatever the broker answered.
pub proof fn lemma_processed_never_reverts(
    s: Seq<EventModel>,
    outcomes: Seq<Result<(), CoreError>>,
    now: int,
    j: int,
)
    requires
        0 <= j < s.len(),
        s[j].status == EventStatus::Processed,
    ensures
        spec_cycle(s, outcomes, now)[j] == s[j],
{
}

/// Relies on `chrono::Utc::now` for the current wall-clock time, converted to
/// milliseconds since the Unix epoch by `DateTime::timestamp_millis`.  The
/// result depends on the clock, so nothing is promised of it.
#[verifier::external_body]
fn now_millis() -> (r: i64) {
    chrono::Utc::now().timestamp_millis()
}

/// [`publish`] with the store-assigned timestamps taken from the wall clock,
/// as the runtime uses it; whatever time the clock reports, the row is
/// created and updated at that same instant.
pub fn publish_now(
    store: &mut OutboxStore,
    event_type: String,
    payload: Option<String>,
) -> (r: Result<OutboxEntity, CoreError>)
    requires
        old(store).wf(),
    ensures
        final(store).wf(),
        r is Ok <==> (payload is Some && old(store).next_id < i32::MAX),
        match r {
            Ok(ev) => {
                &&& payload matches Some(p) && ev@.payload == p@
                &&& ev@.event_type == event_type@
                &&& ev@.status == EventStatus::Pending
                &&& ev@.created_at == ev@.updated_at
                &&& ev@.id == old(store).next_id as int
                &&& final(store)@ == old(store)@.push(ev@)
                &&& final(store).next_id == old(store).next_id + 1
            },
            Err(e) => {
                &&& *final(store) == *old(store)
                &&& payload is None ==> e == CoreError::SerializationError
                &&& payload is Some ==> e == CoreError::StoreError
            },
        },
{
    let now = now_millis();
    publish(store, event_type, payload, now)
}

} // verus!
