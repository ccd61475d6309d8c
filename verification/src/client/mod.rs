//! The two sides of a session on the log: producing with backpressure, and
//! consuming with per-message dispatch to a handler.
//!
//! The broker and the handler are not called from here. Each component
//! answers an event with the action to perform and expects the outcome of
//! that action as its next event.

pub mod consume;
pub mod dispatch;
pub mod model;
pub mod produce;
pub mod setup;

use crate::adapters::snapshot::opt_bytes;
use crate::adapters::{
    BackendReply, BackendReplyView, BackendRequest, BackendRequestView, CacheError, CacheErrorView,
};
use crate::envelope::EnvelopeError;
use crate::metadata::{Metadata, MetadataView};
use vstd::prelude::*;

verus! {

/// Why consumption ended before the source was exhausted.
#[derive(Debug, PartialEq, Eq)]
pub enum ConsumeError {
    /// The broker could not hand over the next message.
    Read(String),
    /// A message without a payload.
    NoPayload,
    /// A payload that is no envelope.
    Envelope(EnvelopeError),
    /// The cache could not resolve the subject or fetch the schema.
    Cache(CacheError),
    /// The handler failed.
    Handler(String),
    /// An event that answers no action that is outstanding.
    Protocol,
}

pub enum ConsumeErrorView {
    Read(Seq<char>),
    NoPayload,
    Envelope(EnvelopeError),
    Cache(CacheErrorView),
    Handler(Seq<char>),
    Protocol,
}

impl View for ConsumeError {
    type V = ConsumeErrorView;

    open spec fn view(&self) -> ConsumeErrorView {
        match self {
            ConsumeError::Read(reason) => ConsumeErrorView::Read(reason@),
            ConsumeError::NoPayload => ConsumeErrorView::NoPayload,
            ConsumeError::Envelope(error) => ConsumeErrorView::Envelope(*error),
            ConsumeError::Cache(error) => ConsumeErrorView::Cache(error@),
            ConsumeError::Handler(reason) => ConsumeErrorView::Handler(reason@),
            ConsumeError::Protocol => ConsumeErrorView::Protocol,
        }
    }
}

/// What the broker handed over when asked for the next message.
#[derive(Debug, PartialEq, Eq)]
pub enum Delivery {
    /// The source has no more messages.
    Exhausted,
    /// Reading failed.
    ReadError(String),
    Message { payload: Option<Vec<u8>>, metadata: Metadata },
}

pub enum DeliveryView {
    Exhausted,
    ReadError(Seq<char>),
    Message { payload: Option<Seq<u8>>, metadata: MetadataView },
}

impl View for Delivery {
    type V = DeliveryView;

    open spec fn view(&self) -> DeliveryView {
        match self {
            Delivery::Exhausted => DeliveryView::Exhausted,
            Delivery::ReadError(reason) => DeliveryView::ReadError(reason@),
            Delivery::Message { payload, metadata } => DeliveryView::Message {
                payload: opt_bytes(*payload),
                metadata: metadata@,
            },
        }
    }
}

/// What came of a call of the handler.
#[derive(Debug, PartialEq, Eq)]
pub enum HandlerReply {
    /// The answer of `should_process`.
    Decision(bool),
    /// `new_schema` or `record` returned.
    Returned,
    /// The handler failed.
    Raised(String),
}

pub enum HandlerReplyView {
    Decision(bool),
    Returned,
    Raised(Seq<char>),
}

impl View for HandlerReply {
    type V = HandlerReplyView;

    open spec fn view(&self) -> HandlerReplyView {
        match self {
            HandlerReply::Decision(eligible) => HandlerReplyView::Decision(*eligible),
            HandlerReply::Returned => HandlerReplyView::Returned,
            HandlerReply::Raised(reason) => HandlerReplyView::Raised(reason@),
        }
    }
}

/// The outcome of the action that the pipeline asked for last.
#[derive(Debug, PartialEq, Eq)]
pub enum Event {
    Delivery(Delivery),
    Backend(BackendReply),
    Handler(HandlerReply),
}

pub enum EventView {
    Delivery(DeliveryView),
    Backend(BackendReplyView),
    Handler(HandlerReplyView),
}

impl View for Event {
    type V = EventView;

    open spec fn view(&self) -> EventView {
        match self {
            Event::Delivery(delivery) => EventView::Delivery(delivery@),
            Event::Backend(reply) => EventView::Backend(reply@),
            Event::Handler(reply) => EventView::Handler(reply@),
        }
    }
}

/// What the pipeline wants done next.
#[derive(Debug, PartialEq, Eq)]
pub enum Action {
    /// Read the next message from the broker.
    Receive,
    /// Make this request on behalf of the cache.
    Backend(BackendRequest),
    /// Call the handler's `should_process`.
    ShouldProcess { schema_id: u32, subject_name: String },
    /// Call the handler's `new_schema`.
    NewSchema { schema_id: u32, subject_name: String, schema: String },
    /// Call the handler's `record`.
    Record { schema_id: u32, subject_name: String, payload: Vec<u8>, metadata: Metadata },
    /// The source is exhausted: consumption is over.
    Finished,
    /// Consumption is over because of this error.
    Abort(ConsumeError),
}

pub enum ActionView {
    Receive,
    Backend(BackendRequestView),
    ShouldProcess { schema_id: u32, subject_name: Seq<char> },
    NewSchema { schema_id: u32, subject_name: Seq<char>, schema: Seq<char> },
    Record { schema_id: u32, subject_name: Seq<char>, payload: Seq<u8>, metadata: MetadataView },
    Finished,
    Abort(ConsumeErrorView),
}

impl View for Action {
    type V = ActionView;

    open spec fn view(&self) -> ActionView {
        match self {
            Action::Receive => ActionView::Receive,
            Action::Backend(request) => ActionView::Backend(request@),
            Action::ShouldProcess { schema_id, subject_name } => ActionView::ShouldProcess {
                schema_id: *schema_id,
                subject_name: subject_name@,
            },
            Action::NewSchema { schema_id, subject_name, schema } => ActionView::NewSchema {
                schema_id: *schema_id,
                subject_name: subject_name@,
                schema: schema@,
            },
            Action::Record { schema_id, subject_name, payload, metadata } => ActionView::Record {
                schema_id: *schema_id,
                subject_name: subject_name@,
                payload: payload@,
                metadata: metadata@,
            },
            Action::Finished => ActionView::Finished,
            Action::Abort(error) => ActionView::Abort(error@),
        }
    }
}

/// A message whose envelope has been opened.
#[derive(Debug, PartialEq, Eq)]
pub struct Incoming {
    pub schema_id: u32,
    pub payload: Vec<u8>,
    pub metadata: Metadata,
}

pub struct IncomingView {
    pub schema_id: u32,
    pub payload: Seq<u8>,
    pub metadata: MetadataView,
}

impl View for Incoming {
    type V = IncomingView;

    open spec fn view(&self) -> IncomingView {
        IncomingView {
            schema_id: self.schema_id,
            payload: self.payload@,
            metadata: self.metadata@,
        }
    }
}

} // verus!
