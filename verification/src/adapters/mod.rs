//! Caches in front of the schema registry.
//!
//! A cache never talks to the registry or to a durable store itself. Asked
//! for something it does not hold, it answers with the request that has to
//! be made; handed the reply, it answers with the result or with the next
//! request.

pub mod memory;
pub mod model;
pub mod snapshot;
pub mod store;

pub use memory::MemoryAdapter;

use crate::adapters::model::CacheView;
use crate::schema_registry::{
    RegistryError, RegistryErrorView, RegistryReply, RegistryReplyView, RegistryRequest,
    RegistryRequestView,
};
use crate::text::opt_text;
use vstd::prelude::*;

verus! {

/// What a cache says of a schema: its body the first time, nothing but
/// "seen" from then on.
#[derive(Debug, PartialEq, Eq)]
pub enum Schema {
    Seen,
    New(String),
}

pub enum SchemaView {
    Seen,
    New(Seq<char>),
}

impl View for Schema {
    type V = SchemaView;

    open spec fn view(&self) -> SchemaView {
        match self {
            Schema::Seen => SchemaView::Seen,
            Schema::New(body) => SchemaView::New(body@),
        }
    }
}

/// How resolved subjects outlive the process.
#[derive(Clone, Copy, Debug, PartialEq, Eq, Structural)]
pub enum Durability {
    /// They do not.
    Volatile,
    /// A snapshot of all of them is rewritten for each new one, and read in
    /// full when the cache is built.
    Snapshot,
    /// Each is written to, and looked up in, a keyed store.
    Keyed,
}

/// Work that a cache needs done on its behalf.
#[derive(Debug, PartialEq, Eq)]
pub enum BackendRequest {
    /// Send this request to the registry.
    Registry(RegistryRequest),
    /// Look `key` up in the keyed store.
    StoreGet { key: String },
    /// Write `value` under `key` in the keyed store.
    StorePut { key: String, value: Vec<u8> },
    /// Replace the snapshot by `bytes`, durably.
    WriteSnapshot { bytes: Vec<u8> },
}

pub enum BackendRequestView {
    Registry(RegistryRequestView),
    StoreGet { key: Seq<char> },
    StorePut { key: Seq<char>, value: Seq<u8> },
    WriteSnapshot { bytes: Seq<u8> },
}

impl View for BackendRequest {
    type V = BackendRequestView;

    open spec fn view(&self) -> BackendRequestView {
        match self {
            BackendRequest::Registry(request) => BackendRequestView::Registry(request@),
            BackendRequest::StoreGet { key } => BackendRequestView::StoreGet { key: key@ },
            BackendRequest::StorePut { key, value } => BackendRequestView::StorePut {
                key: key@,
                value: value@,
            },
            BackendRequest::WriteSnapshot { bytes } => BackendRequestView::WriteSnapshot {
                bytes: bytes@,
            },
        }
    }
}

/// What came of a [`BackendRequest`].
#[derive(Debug, PartialEq, Eq)]
pub enum BackendReply {
    /// The outcome of a registry request.
    Registry(RegistryReply),
    /// The value found under the key of a `StoreGet`, if any.
    StoreValue(Option<Vec<u8>>),
    /// A `StorePut` or a `WriteSnapshot` is durable.
    Written,
    /// The store or the snapshot could not be read or written.
    Failed(String),
}

pub enum BackendReplyView {
    Registry(RegistryReplyView),
    StoreValue(Option<Seq<u8>>),
    Written,
    Failed(Seq<char>),
}

impl View for BackendReply {
    type V = BackendReplyView;

    open spec fn view(&self) -> BackendReplyView {
        match self {
            BackendReply::Registry(reply) => BackendReplyView::Registry(reply@),
            BackendReply::StoreValue(value) => BackendReplyView::StoreValue(
                snapshot::opt_bytes(*value),
            ),
            BackendReply::Written => BackendReplyView::Written,
            BackendReply::Failed(reason) => BackendReplyView::Failed(reason@),
        }
    }
}

/// Why a cache could not answer.
#[derive(Debug, PartialEq, Eq)]
pub enum CacheError {
    /// The registry gave no result. Nothing is remembered of the attempt.
    Registry(RegistryError),
    /// The store or the snapshot could not be read or written.
    Durable(String),
    /// A stored subject is not UTF-8, or a snapshot cannot be encoded or
    /// decoded.
    Corrupt,
    /// The reply answers no request that the cache has made.
    Unexpected,
}

pub enum CacheErrorView {
    Registry(RegistryErrorView),
    Durable(Seq<char>),
    Corrupt,
    Unexpected,
}

impl View for CacheError {
    type V = CacheErrorView;

    open spec fn view(&self) -> CacheErrorView {
        match self {
            CacheError::Registry(error) => CacheErrorView::Registry(error@),
            CacheError::Durable(reason) => CacheErrorView::Durable(reason@),
            CacheError::Corrupt => CacheErrorView::Corrupt,
            CacheError::Unexpected => CacheErrorView::Unexpected,
        }
    }
}

/// Where the resolution of a subject stands.
#[derive(Debug, PartialEq, Eq)]
pub enum SubjectStep {
    /// The subject of the schema, or none where it has none.
    Known(Option<String>),
    /// This has to be done first.
    Ask(BackendRequest),
    Failed(CacheError),
}

pub enum SubjectStepView {
    Known(Option<Seq<char>>),
    Ask(BackendRequestView),
    Failed(CacheErrorView),
}

impl View for SubjectStep {
    type V = SubjectStepView;

    open spec fn view(&self) -> SubjectStepView {
        match self {
            SubjectStep::Known(subject) => SubjectStepView::Known(opt_text(*subject)),
            SubjectStep::Ask(request) => SubjectStepView::Ask(request@),
            SubjectStep::Failed(error) => SubjectStepView::Failed(error@),
        }
    }
}

/// Where the retrieval of a schema stands.
#[derive(Debug, PartialEq, Eq)]
pub enum SchemaStep {
    Done(Schema),
    /// This has to be done first.
    Ask(BackendRequest),
    Failed(CacheError),
}

pub enum SchemaStepView {
    Done(SchemaView),
    Ask(BackendRequestView),
    Failed(CacheErrorView),
}

impl View for SchemaStep {
    type V = SchemaStepView;

    open spec fn view(&self) -> SchemaStepView {
        match self {
            SchemaStep::Done(schema) => SchemaStepView::Done(schema@),
            SchemaStep::Ask(request) => SchemaStepView::Ask(request@),
            SchemaStep::Failed(error) => SchemaStepView::Failed(error@),
        }
    }
}

/// What every cache in front of the registry does, whatever it is made of
/// and however it makes subjects durable: it behaves as its [`CacheView`]
/// does.
pub trait RegistryAdapter {
    /// What the cache holds.
    spec fn model(&self) -> CacheView;

    /// Asks for the body of a schema. A schema that was handed out before
    /// is `Seen`; for any other the cache names the request to make.
    fn get_schema(&self, schema_id: u32) -> (step: SchemaStep)
        ensures
            step@ == self.model().schema_lookup(schema_id),
    ;

    /// Hands the cache the reply to the request that [`Self::get_schema`]
    /// named. The body is handed out at most once: with it the schema
    /// becomes seen, and no schema ever stops being seen.
    fn supply_schema(&mut self, schema_id: u32, reply: BackendReply) -> (step: SchemaStep)
        requires
            old(self).model().wf(),
        ensures
            (final(self).model(), step@) == old(self).model().schema_supplied(schema_id, reply@),
            final(self).model().wf(),
    ;

    /// Asks for the subject of a schema. A subject that was resolved before,
    /// the absence of one included, is known; for any other the cache names
    /// the request to make.
    fn get_subject_name(&self, schema_id: u32) -> (step: SubjectStep)
        ensures
            step@ == self.model().subject_lookup(schema_id),
    ;

    /// Hands the cache the reply to the request that it named last for the
    /// subject of this schema. What was resolved stays as it is.
    fn supply_subject_name(&mut self, schema_id: u32, reply: BackendReply) -> (step: SubjectStep)
        requires
            old(self).model().wf(),
        ensures
            (final(self).model(), step@) == old(self).model().subject_supplied(schema_id, reply@),
            final(self).model().wf(),
    ;
}

} // verus!
