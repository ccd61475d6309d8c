//! The cache that keeps what it resolved in memory, with or without a
//! durable tier behind it.

use crate::adapters::model::CacheView;
use crate::adapters::snapshot::{
    decode_snapshot, encode_snapshot, entries_view, entry_view, lemma_replay_push, replay,
    snapshot_decoding, SubjectEntry,
};
use crate::adapters::store::{bytes_of_text, subject_key, text_of_bytes};
use crate::adapters::{
    BackendReply, BackendRequest, CacheError, CacheErrorView, Durability, RegistryAdapter, Schema,
    SchemaStep, SubjectStep,
};
use crate::schema_registry::SchemaRegistry;
use crate::text::{copy_opt_text, opt_text};
use std::collections::HashMap;
use std::collections::HashSet;
use vstd::prelude::*;

verus! {

broadcast use vstd::std_specs::hash::group_hash_axioms;

/// The subjects in memory, together with the entries of the snapshot
/// where one is kept.
struct SubjectTable {
    names: HashMap<u32, Option<String>>,
    log: Vec<SubjectEntry>,
}

impl SubjectTable {
    spec fn names_view(self) -> Map<u32, Option<Seq<char>>> {
        self.names@.map_values(|subject: Option<String>| opt_text(subject))
    }

    spec fn log_view(self) -> Seq<(u32, Option<Seq<char>>)> {
        entries_view(self.log@)
    }

    spec fn wf(self, logged: bool) -> bool {
        if logged {
            self.names_view() == replay(self.log_view())
        } else {
            self.log_view().len() == 0
        }
    }

    fn empty() -> (out: Self)
        ensures
            out.names_view() == Map::<u32, Option<Seq<char>>>::empty(),
            out.log_view() == Seq::<(u32, Option<Seq<char>>)>::empty(),
            out.wf(true),
            out.wf(false),
    {
        let out = SubjectTable { names: HashMap::new(), log: Vec::new() };
        assert(out.names_view() =~= Map::<u32, Option<Seq<char>>>::empty());
        assert(out.log_view() =~= Seq::<(u32, Option<Seq<char>>)>::empty());
        out
    }

    fn get(&self, schema_id: u32) -> (out: Option<Option<String>>)
        ensures
            match out {
                Some(subject) => self.names_view().contains_pair(schema_id, opt_text(subject)),
                None => !self.names_view().contains_key(schema_id),
            },
    {
        match self.names.get(&schema_id) {
            Some(subject) => Some(copy_opt_text(subject)),
            None => None,
        }
    }

    fn record(&mut self, logged: bool, schema_id: u32, subject: Option<String>)
        requires
            old(self).wf(logged),
        ensures
            final(self).wf(logged),
            final(self).names_view() == old(self).names_view().insert(schema_id, opt_text(subject)),
            final(self).log_view() == (if logged {
                old(self).log_view().push((schema_id, opt_text(subject)))
            } else {
                old(self).log_view()
            }),
    {
        let ghost before = *self;
        assert(self.log_view().len() == self.log@.len());
        if logged {
            self.log.push((schema_id, copy_opt_text(&subject)));
            assert(self.log_view() =~= before.log_view().push((schema_id, opt_text(subject))));
            proof {
                lemma_replay_push(before.log_view(), schema_id, opt_text(subject));
            }
        }
        self.names.insert(schema_id, subject);
        assert(self.names_view() =~= before.names_view().insert(schema_id, opt_text(subject)));
        assert(self.log_view().len() == self.log@.len());
    }
}

fn copy_entries(entries: &Vec<SubjectEntry>) -> (out: Vec<SubjectEntry>)
    ensures
        entries_view(out@) == entries_view(entries@),
{
    let mut out: Vec<SubjectEntry> = Vec::new();
    let mut i: usize = 0;
    while i < entries.len()
        invariant
            0 <= i <= entries.len(),
            out@.len() == i,
            forall|j: int| 0 <= j < i ==> entry_view(#[trigger] out@[j]) == entry_view(entries@[j]),
        decreases entries.len() - i,
    {
        let entry = &entries[i];
        out.push((entry.0, copy_opt_text(&entry.1)));
        i = i + 1;
    }
    assert(entries_view(out@) =~= entries_view(entries@));
    out
}

/// A cache of resolved subjects and seen schemas in front of a registry.
pub struct MemoryAdapter<'a> {
    seen_schemas: HashSet<u32>,
    subject_names: SubjectTable,
    staged: Option<SubjectEntry>,
    durability: Durability,
    schema_registry: &'a SchemaRegistry,
}

impl<'a> View for MemoryAdapter<'a> {
    type V = CacheView;

    closed spec fn view(&self) -> CacheView {
        CacheView {
            registry: self.schema_registry.settings(),
            durability: self.durability,
            subjects: self.subject_names.names_view(),
            seen: self.seen_schemas@,
            snapshot: self.subject_names.log_view(),
            staged: match self.staged {
                Some(entry) => Some(entry_view(entry)),
                None => None,
            },
        }
    }
}

impl<'a> MemoryAdapter<'a> {
    fn build(schema_registry: &'a SchemaRegistry, durability: Durability) -> (out: Self)
        requires
            durability != Durability::Snapshot,
        ensures
            out@ == CacheView::fresh(schema_registry.settings(), durability),
            out@.wf(),
    {
        MemoryAdapter {
            seen_schemas: HashSet::new(),
            subject_names: SubjectTable::empty(),
            staged: None,
            durability,
            schema_registry,
        }
    }

    /// A cache without a durable tier.
    pub fn new(schema_registry: &'a SchemaRegistry) -> (out: Self)
        ensures
            out@ == CacheView::fresh(schema_registry.settings(), Durability::Volatile),
            out@.wf(),
    {
        Self::build(schema_registry, Durability::Volatile)
    }

    /// A cache in front of a keyed store.
    pub fn with_store(schema_registry: &'a SchemaRegistry) -> (out: Self)
        ensures
            out@ == CacheView::fresh(schema_registry.settings(), Durability::Keyed),
            out@.wf(),
    {
        Self::build(schema_registry, Durability::Keyed)
    }

    /// A cache that keeps a snapshot, starting from the entries that the
    /// snapshot holds.
    pub fn with_snapshot(schema_registry: &'a SchemaRegistry, entries: Vec<SubjectEntry>) -> (out:
        Self)
        ensures
            out@ == CacheView::restored(schema_registry.settings(), entries_view(entries@)),
            out@.wf(),
    {
        let mut table = SubjectTable::empty();
        let mut i: usize = 0;
        while i < entries.len()
            invariant
                0 <= i <= entries.len(),
                table.wf(true),
                table.log_view() == entries_view(entries@).take(i as int),
            decreases entries.len() - i,
        {
            let subject = copy_opt_text(&entries[i].1);
            table.record(true, entries[i].0, subject);
            assert(entries_view(entries@).take(i + 1) =~= entries_view(entries@).take(
                i as int,
            ).push(entry_view(entries@[i as int])));
            i = i + 1;
        }
        assert(entries_view(entries@).take(i as int) =~= entries_view(entries@));
        MemoryAdapter {
            seen_schemas: HashSet::new(),
            subject_names: table,
            staged: None,
            durability: Durability::Snapshot,
            schema_registry,
        }
    }

    /// A cache that keeps a snapshot, starting from the bytes of the
    /// snapshot, or from nothing where there is none yet.
    pub fn from_snapshot(schema_registry: &'a SchemaRegistry, bytes: Option<&[u8]>) -> (out:
        Result<Self, CacheError>)
        ensures
            match out {
                Ok(cache) => cache@ == CacheView::restored(
                    schema_registry.settings(),
                    match bytes {
                        Some(bytes) => snapshot_decoding(bytes@).unwrap(),
                        None => Seq::empty(),
                    },
                ),
                Err(error) => error@ == CacheErrorView::Corrupt,
            },
            out is Err <==> (bytes matches Some(b) && snapshot_decoding(b@) is None),
            out matches Ok(cache) ==> cache@.wf(),
    {
        match bytes {
            None => {
                let entries: Vec<SubjectEntry> = Vec::new();
                assert(entries_view(entries@) =~= Seq::empty());
                Ok(Self::with_snapshot(schema_registry, entries))
            },
            Some(bytes) => match decode_snapshot(bytes) {
                Some(entries) => Ok(Self::with_snapshot(schema_registry, entries)),
                None => Err(CacheError::Corrupt),
            },
        }
    }

    /// How this cache makes subjects durable.
    pub fn durability(&self) -> (out: Durability)
        ensures
            out == self@.durability,
    {
        self.durability
    }

    fn subject_query(&self, schema_id: u32) -> (out: BackendRequest)
        ensures
            out@ == self@.subject_query(schema_id),
    {
        match self.durability {
            Durability::Keyed => BackendRequest::StoreGet { key: subject_key(schema_id) },
            _ => BackendRequest::Registry(self.schema_registry.versions_request(schema_id)),
        }
    }

    fn commit(&mut self, schema_id: u32, subject: Option<String>)
        requires
            old(self)@.wf(),
            old(self)@.staged is None,
        ensures
            final(self)@ == old(self)@.committed(schema_id, opt_text(subject)),
            final(self)@.wf(),
    {
        let logged = match self.durability {
            Durability::Snapshot => true,
            _ => false,
        };
        self.subject_names.record(logged, schema_id, subject);
    }

    /// Takes the encoded snapshot that holds a new entry: the entry is
    /// staged, and the cache asks for the snapshot to be written. Without an
    /// encoded snapshot nothing is staged.
    pub fn stage_in_snapshot(
        &mut self,
        schema_id: u32,
        subject: Option<String>,
        encoded: Option<Vec<u8>>,
    ) -> (step: SubjectStep)
        ensures
            (final(self)@, step@) == old(self)@.staged_in_snapshot(
                schema_id,
                opt_text(subject),
                crate::adapters::snapshot::opt_bytes(encoded),
            ),
    {
        match encoded {
            Some(bytes) => {
                self.staged = Some((schema_id, subject));
                SubjectStep::Ask(BackendRequest::WriteSnapshot { bytes })
            },
            None => {
                self.staged = None;
                SubjectStep::Failed(CacheError::Corrupt)
            },
        }
    }

    fn resolve(&mut self, schema_id: u32, subject: Option<String>) -> (step: SubjectStep)
        requires
            old(self)@.wf(),
            old(self)@.staged is None,
        ensures
            (final(self)@, step@) == old(self)@.resolved(schema_id, opt_text(subject)),
            final(self)@.wf(),
            step matches SubjectStep::Ask(BackendRequest::WriteSnapshot { bytes })
                ==> snapshot_decoding(bytes@) == Some(
                old(self)@.snapshot.push((schema_id, opt_text(subject))),
            ),
    {
        match self.durability {
            Durability::Volatile => {
                let answer = copy_opt_text(&subject);
                self.commit(schema_id, subject);
                SubjectStep::Known(answer)
            },
            Durability::Snapshot => {
                let mut entries = copy_entries(&self.subject_names.log);
                let ghost logged = entries_view(entries@);
                entries.push((schema_id, copy_opt_text(&subject)));
                assert(entries_view(entries@) =~= logged.push((schema_id, opt_text(subject))));
                let encoded = encode_snapshot(&entries);
                self.stage_in_snapshot(schema_id, subject, encoded)
            },
            Durability::Keyed => match subject {
                Some(name) => {
                    let value = bytes_of_text(name.as_str());
                    self.staged = Some((schema_id, Some(name)));
                    SubjectStep::Ask(
                        BackendRequest::StorePut { key: subject_key(schema_id), value },
                    )
                },
                None => {
                    self.commit(schema_id, None);
                    SubjectStep::Known(None)
                },
            },
        }
    }
}

impl<'a> RegistryAdapter for MemoryAdapter<'a> {
    open spec fn model(&self) -> CacheView {
        self@
    }

    /// Asks for the body of a schema.
    fn get_schema(&self, schema_id: u32) -> (step: SchemaStep) {
        if self.seen_schemas.contains(&schema_id) {
            SchemaStep::Done(Schema::Seen)
        } else {
            SchemaStep::Ask(BackendRequest::Registry(self.schema_registry.schema_request(schema_id)))
        }
    }

    /// Hands the cache the registry's reply to a schema request.
    fn supply_schema(&mut self, schema_id: u32, reply: BackendReply) -> (step: SchemaStep) {
        if self.seen_schemas.contains(&schema_id) {
            return SchemaStep::Done(Schema::Seen);
        }
        match reply {
            BackendReply::Registry(reply) => match self.schema_registry.get_schema(reply) {
                Ok(body) => {
                    self.seen_schemas.insert(schema_id);
                    SchemaStep::Done(Schema::New(body))
                },
                Err(error) => SchemaStep::Failed(CacheError::Registry(error)),
            },
            _ => SchemaStep::Failed(CacheError::Unexpected),
        }
    }

    /// Asks for the subject of a schema.
    fn get_subject_name(&self, schema_id: u32) -> (step: SubjectStep) {
        match self.subject_names.get(schema_id) {
            Some(subject) => SubjectStep::Known(subject),
            None => SubjectStep::Ask(self.subject_query(schema_id)),
        }
    }

    /// Hands the cache the reply to the request that it named last for the
    /// subject of this schema.
    /// Over what every cache does: the snapshot that this cache asks to be
    /// written reads back as the snapshot so far with the new entry at its
    /// end, so a cache built from the written bytes holds the new mapping
    /// even if this one never learns that they were written.
    fn supply_subject_name(&mut self, schema_id: u32, reply: BackendReply) -> (step: SubjectStep)
        ensures
            step matches SubjectStep::Ask(BackendRequest::WriteSnapshot { bytes }) ==> {
                &&& final(self)@.staged matches Some(entry)
                &&& entry.0 == schema_id
                &&& snapshot_decoding(bytes@) == Some(old(self)@.snapshot.push(entry))
            },
    {
        match self.subject_names.get(schema_id) {
            Some(subject) => {
                return SubjectStep::Known(subject);
            },
            None => {},
        }
        let staged = self.staged.take();
        match reply {
            BackendReply::Registry(reply) => match self.schema_registry.get_subject_name(reply) {
                Ok(subject) => self.resolve(schema_id, subject),
                Err(error) => SubjectStep::Failed(CacheError::Registry(error)),
            },
            BackendReply::StoreValue(value) => match self.durability {
                Durability::Keyed => match value {
                    Some(bytes) => match text_of_bytes(bytes) {
                        Some(name) => {
                            let answer = name.clone();
                            self.commit(schema_id, Some(name));
                            SubjectStep::Known(Some(answer))
                        },
                        None => SubjectStep::Failed(CacheError::Corrupt),
                    },
                    None => SubjectStep::Ask(
                        BackendRequest::Registry(self.schema_registry.versions_request(schema_id)),
                    ),
                },
                _ => SubjectStep::Failed(CacheError::Unexpected),
            },
            BackendReply::Written => match staged {
                Some((staged_id, subject)) => {
                    if staged_id == schema_id {
                        let answer = copy_opt_text(&subject);
                        self.commit(schema_id, subject);
                        SubjectStep::Known(answer)
                    } else {
                        SubjectStep::Failed(CacheError::Unexpected)
                    }
                },
                None => SubjectStep::Failed(CacheError::Unexpected),
            },
            BackendReply::Failed(reason) => SubjectStep::Failed(CacheError::Durable(reason)),
        }
    }
}

} // verus!
