//! What a cache holds and how each reply changes it, as mathematics.

use crate::adapters::snapshot::{replay, snapshot_encoding, lemma_replay_push};
use crate::adapters::store::{store_key, stored_text};
use crate::adapters::{
    BackendReplyView, BackendRequestView, CacheErrorView, Durability, SchemaStepView, SchemaView,
    SubjectStepView,
};
use crate::schema_registry::{
    schema_of_reply, schema_request, subject_of_reply, versions_request, SchemaRegistryConfigView,
};
use vstd::prelude::*;
use vstd::utf8::encode_utf8;

verus! {

/// The state of a cache.
pub struct CacheView {
    /// The registry that requests are addressed to.
    pub registry: SchemaRegistryConfigView,
    pub durability: Durability,
    /// The subjects resolved so far.
    pub subjects: Map<u32, Option<Seq<char>>>,
    /// The schemas whose body has been handed out.
    pub seen: Set<u32>,
    /// What the durable snapshot holds, where there is one.
    pub snapshot: Seq<(u32, Option<Seq<char>>)>,
    /// A subject that the registry has named and the durable tier has not
    /// yet confirmed.
    pub staged: Option<(u32, Option<Seq<char>>)>,
}

impl CacheView {
    /// A cache that has resolved nothing.
    pub open spec fn fresh(registry: SchemaRegistryConfigView, durability: Durability) -> CacheView {
        CacheView {
            registry,
            durability,
            subjects: Map::empty(),
            seen: Set::empty(),
            snapshot: Seq::empty(),
            staged: None,
        }
    }

    /// A cache that has read `entries` from its snapshot.
    pub open spec fn restored(
        registry: SchemaRegistryConfigView,
        entries: Seq<(u32, Option<Seq<char>>)>,
    ) -> CacheView {
        CacheView {
            registry,
            durability: Durability::Snapshot,
            subjects: replay(entries),
            seen: Set::empty(),
            snapshot: entries,
            staged: None,
        }
    }

    /// With a snapshot, memory holds what the snapshot holds.
    pub open spec fn wf(self) -> bool {
        if self.durability == Durability::Snapshot {
            self.subjects == replay(self.snapshot)
        } else {
            self.snapshot.len() == 0
        }
    }

    pub open spec fn schema_lookup(self, schema_id: u32) -> SchemaStepView {
        if self.seen.contains(schema_id) {
            SchemaStepView::Done(SchemaView::Seen)
        } else {
            SchemaStepView::Ask(
                BackendRequestView::Registry(schema_request(self.registry, schema_id)),
            )
        }
    }

    pub open spec fn schema_supplied(self, schema_id: u32, reply: BackendReplyView) -> (
        CacheView,
        SchemaStepView,
    ) {
        if self.seen.contains(schema_id) {
            (self, SchemaStepView::Done(SchemaView::Seen))
        } else {
            match reply {
                BackendReplyView::Registry(reply) => match schema_of_reply(reply) {
                    Ok(body) => (
                        CacheView { seen: self.seen.insert(schema_id), ..self },
                        SchemaStepView::Done(SchemaView::New(body)),
                    ),
                    Err(error) => (self, SchemaStepView::Failed(CacheErrorView::Registry(error))),
                },
                _ => (self, SchemaStepView::Failed(CacheErrorView::Unexpected)),
            }
        }
    }

    /// The first request to make for a subject that is not in memory.
    pub open spec fn subject_query(self, schema_id: u32) -> BackendRequestView {
        if self.durability == Durability::Keyed {
            BackendRequestView::StoreGet { key: store_key(schema_id) }
        } else {
            BackendRequestView::Registry(versions_request(self.registry, schema_id))
        }
    }

    pub open spec fn subject_lookup(self, schema_id: u32) -> SubjectStepView {
        if self.subjects.contains_key(schema_id) {
            SubjectStepView::Known(self.subjects[schema_id])
        } else {
            SubjectStepView::Ask(self.subject_query(schema_id))
        }
    }

    /// The cache once `subject` is in memory, and in the snapshot where
    /// there is one.
    pub open spec fn committed(self, schema_id: u32, subject: Option<Seq<char>>) -> CacheView {
        CacheView {
            subjects: self.subjects.insert(schema_id, subject),
            snapshot: if self.durability == Durability::Snapshot {
                self.snapshot.push((schema_id, subject))
            } else {
                self.snapshot
            },
            staged: None,
            ..self
        }
    }

    /// What follows when the snapshot with the new entry has been encoded:
    /// the entry waits until the encoded snapshot has been written.
    pub open spec fn staged_in_snapshot(
        self,
        schema_id: u32,
        subject: Option<Seq<char>>,
        encoded: Option<Seq<u8>>,
    ) -> (CacheView, SubjectStepView) {
        match encoded {
            Some(bytes) => (
                CacheView { staged: Some((schema_id, subject)), ..self },
                SubjectStepView::Ask(BackendRequestView::WriteSnapshot { bytes }),
            ),
            None => (
                CacheView { staged: None, ..self },
                SubjectStepView::Failed(CacheErrorView::Corrupt),
            ),
        }
    }

    /// What follows when the registry has named `subject`: memory is updated
    /// at once only where nothing has to be made durable first.
    pub open spec fn resolved(self, schema_id: u32, subject: Option<Seq<char>>) -> (
        CacheView,
        SubjectStepView,
    ) {
        match self.durability {
            Durability::Volatile => (
                self.committed(schema_id, subject),
                SubjectStepView::Known(subject),
            ),
            Durability::Snapshot => self.staged_in_snapshot(
                schema_id,
                subject,
                snapshot_encoding(self.snapshot.push((schema_id, subject))),
            ),
            Durability::Keyed => match subject {
                Some(name) => (
                    CacheView { staged: Some((schema_id, subject)), ..self },
                    SubjectStepView::Ask(
                        BackendRequestView::StorePut {
                            key: store_key(schema_id),
                            value: encode_utf8(name),
                        },
                    ),
                ),
                None => (self.committed(schema_id, subject), SubjectStepView::Known(subject)),
            },
        }
    }

    pub open spec fn subject_supplied(self, schema_id: u32, reply: BackendReplyView) -> (
        CacheView,
        SubjectStepView,
    ) {
        let idle = CacheView { staged: None, ..self };
        if self.subjects.contains_key(schema_id) {
            (self, SubjectStepView::Known(self.subjects[schema_id]))
        } else {
            match reply {
                BackendReplyView::Registry(reply) => match subject_of_reply(reply) {
                    Ok(subject) => idle.resolved(schema_id, subject),
                    Err(error) => (idle, SubjectStepView::Failed(CacheErrorView::Registry(error))),
                },
                BackendReplyView::StoreValue(value) => if self.durability != Durability::Keyed {
                    (idle, SubjectStepView::Failed(CacheErrorView::Unexpected))
                } else {
                    match value {
                        Some(bytes) => match stored_text(bytes) {
                            Some(name) => (
                                idle.committed(schema_id, Some(name)),
                                SubjectStepView::Known(Some(name)),
                            ),
                            None => (idle, SubjectStepView::Failed(CacheErrorView::Corrupt)),
                        },
                        None => (
                            idle,
                            SubjectStepView::Ask(
                                BackendRequestView::Registry(
                                    versions_request(self.registry, schema_id),
                                ),
                            ),
                        ),
                    }
                },
                BackendReplyView::Written => match self.staged {
                    Some((staged_id, subject)) if staged_id == schema_id => (
                        idle.committed(schema_id, subject),
                        SubjectStepView::Known(subject),
                    ),
                    _ => (idle, SubjectStepView::Failed(CacheErrorView::Unexpected)),
                },
                BackendReplyView::Failed(reason) => (
                    idle,
                    SubjectStepView::Failed(CacheErrorView::Durable(reason)),
                ),
            }
        }
    }
}

/// One reply handed to a cache.
pub enum CacheOp {
    SupplySchema { schema_id: u32, reply: BackendReplyView },
    SupplySubject { schema_id: u32, reply: BackendReplyView },
}

impl CacheView {
    /// The cache after one reply.
    pub open spec fn apply(self, op: CacheOp) -> CacheView {
        match op {
            CacheOp::SupplySchema { schema_id, reply } => self.schema_supplied(schema_id, reply).0,
            CacheOp::SupplySubject { schema_id, reply } => self.subject_supplied(
                schema_id,
                reply,
            ).0,
        }
    }

    /// The cache after a sequence of replies.
    pub open spec fn run(self, ops: Seq<CacheOp>) -> CacheView
        decreases ops.len(),
    {
        if ops.len() == 0 {
            self
        } else {
            self.run(ops.drop_last()).apply(ops.last())
        }
    }
}

/// No reply takes anything away from a cache: what was resolved stays
/// resolved to the same subject, what was seen stays seen, and a well-formed
/// cache stays well formed.
pub proof fn lemma_apply_grows(cache: CacheView, op: CacheOp)
    ensures
        cache.subjects.submap_of(cache.apply(op).subjects),
        cache.seen.subset_of(cache.apply(op).seen),
        cache.apply(op).registry == cache.registry,
        cache.apply(op).durability == cache.durability,
        cache.wf() ==> cache.apply(op).wf(),
{
    match op {
        CacheOp::SupplySchema { schema_id, reply } => {},
        CacheOp::SupplySubject { schema_id, reply } => {
            let idle = CacheView { staged: None, ..cache };
            assert forall|subject: Option<Seq<char>>|
                !cache.subjects.contains_key(schema_id) && cache.wf() implies #[trigger] idle.committed(
                schema_id,
                subject,
            ).wf() by {
                lemma_replay_push(cache.snapshot, schema_id, subject);
            }
        },
    }
}

/// The same holds of any sequence of replies.
pub proof fn lemma_run_grows(cache: CacheView, ops: Seq<CacheOp>)
    ensures
        cache.subjects.submap_of(cache.run(ops).subjects),
        cache.seen.subset_of(cache.run(ops).seen),
        cache.run(ops).registry == cache.registry,
        cache.run(ops).durability == cache.durability,
        cache.wf() ==> cache.run(ops).wf(),
    decreases ops.len(),
{
    if ops.len() > 0 {
        let before = cache.run(ops.drop_last());
        lemma_run_grows(cache, ops.drop_last());
        lemma_apply_grows(before, ops.last());
        assert forall|k: u32| #[trigger] cache.subjects.dom().contains(k) implies cache.run(
            ops,
        ).subjects.dom().contains(k) && cache.subjects[k] == cache.run(ops).subjects[k] by {
            assert(before.subjects.dom().contains(k));
        }
    }
}

/// The body of a schema is handed out once: the reply that brings it makes
/// the schema seen, and whatever replies follow, for this schema or for
/// others, asking again gives `Seen` and a further reply gives `Seen` too.
pub proof fn lemma_schema_handed_out_once(
    cache: CacheView,
    schema_id: u32,
    reply: BackendReplyView,
    later: Seq<CacheOp>,
    again: BackendReplyView,
)
    requires
        cache.schema_supplied(schema_id, reply).1 matches SchemaStepView::Done(SchemaView::New(_)),
    ensures
        !cache.seen.contains(schema_id),
        cache.schema_supplied(schema_id, reply).0.run(later).schema_lookup(schema_id)
            == SchemaStepView::Done(SchemaView::Seen),
        cache.schema_supplied(schema_id, reply).0.run(later).schema_supplied(schema_id, again).1
            == SchemaStepView::Done(SchemaView::Seen),
{
    lemma_run_grows(cache.schema_supplied(schema_id, reply).0, later);
}

/// A schema that was never handed out is asked for at the registry, and a
/// successful reply hands out its body.
pub proof fn lemma_unseen_schema_is_new(cache: CacheView, schema_id: u32, reply: BackendReplyView)
    requires
        !cache.seen.contains(schema_id),
    ensures
        cache.schema_lookup(schema_id) == SchemaStepView::Ask(
            BackendRequestView::Registry(schema_request(cache.registry, schema_id)),
        ),
        match reply {
            BackendReplyView::Registry(r) => match schema_of_reply(r) {
                Ok(body) => cache.schema_supplied(schema_id, reply).1 == SchemaStepView::Done(
                    SchemaView::New(body),
                ),
                Err(_) => cache.schema_supplied(schema_id, reply).1 is Failed,
            },
            _ => cache.schema_supplied(schema_id, reply).1 is Failed,
        },
        CacheView::fresh(cache.registry, cache.durability).schema_lookup(schema_id) is Ask,
{
}

/// A subject is resolved once: from the moment a cache knows the subject of
/// a schema, the absence of one included, it answers from memory with that
/// same subject and names no further request for it, whatever replies it is
/// handed in between.
pub proof fn lemma_subject_resolved_once(
    cache: CacheView,
    schema_id: u32,
    later: Seq<CacheOp>,
    again: BackendReplyView,
)
    requires
        cache.subjects.contains_key(schema_id),
    ensures
        cache.run(later).subject_lookup(schema_id) == SubjectStepView::Known(
            cache.subjects[schema_id],
        ),
        cache.run(later).subject_supplied(schema_id, again) == (
            cache.run(later),
            SubjectStepView::Known(cache.subjects[schema_id]),
        ),
{
    lemma_run_grows(cache, later);
}

/// A cache answers `Known` only for what it holds afterwards, and asks only
/// for what it does not hold.
pub proof fn lemma_known_is_remembered(cache: CacheView, schema_id: u32, reply: BackendReplyView)
    ensures
        cache.subject_supplied(schema_id, reply).1 matches SubjectStepView::Known(subject)
            ==> cache.subject_supplied(schema_id, reply).0.subjects.contains_pair(
            schema_id,
            subject,
        ),
        cache.subject_supplied(schema_id, reply).1 is Ask ==> !cache.subjects.contains_key(
            schema_id,
        ),
        cache.subject_lookup(schema_id) is Ask <==> !cache.subjects.contains_key(schema_id),
        !(cache.subject_supplied(schema_id, reply).1 is Known) ==> cache.subject_supplied(
            schema_id,
            reply,
        ).0.subjects == cache.subjects,
{
}

/// A failed registry request leaves no trace: the schema stays unresolved
/// and is asked for again.
pub proof fn lemma_registry_failure_is_not_remembered(
    cache: CacheView,
    schema_id: u32,
    reply: BackendReplyView,
)
    requires
        !cache.subjects.contains_key(schema_id),
        reply matches BackendReplyView::Registry(r) && subject_of_reply(r) is Err,
    ensures
        cache.subject_supplied(schema_id, reply).1 is Failed,
        cache.subject_supplied(schema_id, reply).0.subject_lookup(schema_id) is Ask,
{
}

/// With a snapshot, a new mapping is written before memory holds it, and
/// what is written is enough to rebuild memory as it will be: a cache
/// restored from the written snapshot holds the new mapping and every
/// mapping that the cache held.
pub proof fn lemma_snapshot_precedes_memory(
    cache: CacheView,
    schema_id: u32,
    subject: Option<Seq<char>>,
)
    requires
        cache.wf(),
        cache.durability == Durability::Snapshot,
        !cache.subjects.contains_key(schema_id),
        snapshot_encoding(cache.snapshot.push((schema_id, subject))) is Some,
    ensures
        cache.resolved(schema_id, subject).1 == SubjectStepView::Ask(
            BackendRequestView::WriteSnapshot {
                bytes: snapshot_encoding(cache.snapshot.push((schema_id, subject))).unwrap(),
            },
        ),
        cache.resolved(schema_id, subject).0.subjects == cache.subjects,
        CacheView::restored(cache.registry, cache.snapshot.push((schema_id, subject))).subjects
            == cache.subjects.insert(schema_id, subject),
        cache.resolved(schema_id, subject).0.subject_supplied(
            schema_id,
            BackendReplyView::Written,
        ).0.subjects == cache.subjects.insert(schema_id, subject),
        cache.resolved(schema_id, subject).0.subject_supplied(
            schema_id,
            BackendReplyView::Written,
        ).0.snapshot == cache.snapshot.push((schema_id, subject)),
{
    lemma_replay_push(cache.snapshot, schema_id, subject);
}

/// With a keyed store, a subject that the store holds is answered without
/// a request to the registry, and a subject that the registry names is
/// written to the store before memory holds it.
pub proof fn lemma_store_precedes_registry(
    cache: CacheView,
    schema_id: u32,
    name: Seq<char>,
)
    requires
        cache.durability == Durability::Keyed,
        !cache.subjects.contains_key(schema_id),
    ensures
        cache.subject_lookup(schema_id) == SubjectStepView::Ask(
            BackendRequestView::StoreGet { key: store_key(schema_id) },
        ),
        cache.subject_supplied(
            schema_id,
            BackendReplyView::StoreValue(Some(encode_utf8(name))),
        ).1 == SubjectStepView::Known(Some(name)),
        cache.subject_supplied(schema_id, BackendReplyView::StoreValue(None)).1
            == SubjectStepView::Ask(
            BackendRequestView::Registry(versions_request(cache.registry, schema_id)),
        ),
        cache.resolved(schema_id, Some(name)).1 == SubjectStepView::Ask(
            BackendRequestView::StorePut { key: store_key(schema_id), value: encode_utf8(name) },
        ),
        cache.resolved(schema_id, Some(name)).0.subjects == cache.subjects,
{
    crate::adapters::store::lemma_stored_text_reads_back(name);
}

} // verus!
