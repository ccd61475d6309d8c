//! The dispatch pipeline: one message at a time, from the broker through
//! the cache to the handler.

use crate::adapters::{RegistryAdapter, Schema, SchemaStep, SubjectStep};
use crate::client::model::{lemma_step_keeps_wf, DispatcherView, StageView};
use crate::client::{Action, ConsumeError, Delivery, Event, HandlerReply, Incoming};
use crate::envelope::decode;
use std::collections::HashMap;
use vstd::prelude::*;

verus! {

broadcast use vstd::std_specs::hash::group_hash_axioms;

enum Stage {
    Idle,
    Resolving { message: Incoming },
    Deciding { message: Incoming, subject: String },
    Fetching { message: Incoming, subject: String },
    Announcing { message: Incoming, subject: String },
    Recording,
    Stopped,
}

impl View for Stage {
    type V = StageView;

    closed spec fn view(&self) -> StageView {
        match self {
            Stage::Idle => StageView::Idle,
            Stage::Resolving { message } => StageView::Resolving { message: message@ },
            Stage::Deciding { message, subject } => StageView::Deciding {
                message: message@,
                subject: subject@,
            },
            Stage::Fetching { message, subject } => StageView::Fetching {
                message: message@,
                subject: subject@,
            },
            Stage::Announcing { message, subject } => StageView::Announcing {
                message: message@,
                subject: subject@,
            },
            Stage::Recording => StageView::Recording,
            Stage::Stopped => StageView::Stopped,
        }
    }
}

/// The consumption loop without its I/O. It is handed every outcome as an
/// [`Event`] and answers with the next [`Action`]; messages are taken one at
/// a time, in the order in which the broker delivers them.
pub struct Dispatcher<T: RegistryAdapter> {
    adapter: T,
    should_process: HashMap<u32, bool>,
    stage: Stage,
}

impl<T: RegistryAdapter> View for Dispatcher<T> {
    type V = DispatcherView;

    closed spec fn view(&self) -> DispatcherView {
        DispatcherView {
            cache: self.adapter.model(),
            decisions: self.should_process@,
            stage: self.stage@,
        }
    }
}

impl<T: RegistryAdapter> Dispatcher<T> {
    /// A pipeline on top of `adapter`. Its first action is to receive.
    pub fn new(adapter: T) -> (out: Self)
        requires
            adapter.model().wf(),
        ensures
            out@ == DispatcherView::initial(adapter.model()),
            out@.wf(),
    {
        Dispatcher { adapter, should_process: HashMap::new(), stage: Stage::Idle }
    }

    fn stop(&mut self, error: ConsumeError) -> (action: Action)
        ensures
            (final(self)@, action@) == old(self)@.stop(error@),
    {
        self.stage = Stage::Stopped;
        Action::Abort(error)
    }

    fn next_message(&mut self) -> (action: Action)
        ensures
            (final(self)@, action@) == old(self)@.next_message(),
    {
        self.stage = Stage::Idle;
        Action::Receive
    }

    fn deliver(&mut self, message: Incoming, subject: String) -> (action: Action)
        ensures
            (final(self)@, action@) == old(self)@.deliver(message@, subject@),
    {
        self.stage = Stage::Recording;
        Action::Record {
            schema_id: message.schema_id,
            subject_name: subject,
            payload: message.payload,
            metadata: message.metadata,
        }
    }

    fn schema_step(&mut self, message: Incoming, subject: String, step: SchemaStep) -> (action:
        Action)
        ensures
            (final(self)@, action@) == old(self)@.schema_step(message@, subject@, step@),
    {
        match step {
            SchemaStep::Done(Schema::Seen) => self.deliver(message, subject),
            SchemaStep::Done(Schema::New(body)) => {
                let action = Action::NewSchema {
                    schema_id: message.schema_id,
                    subject_name: subject.clone(),
                    schema: body,
                };
                self.stage = Stage::Announcing { message, subject };
                action
            },
            SchemaStep::Ask(request) => {
                self.stage = Stage::Fetching { message, subject };
                Action::Backend(request)
            },
            SchemaStep::Failed(error) => self.stop(ConsumeError::Cache(error)),
        }
    }

    fn decided(&mut self, message: Incoming, subject: String, eligible: bool) -> (action: Action)
        ensures
            (final(self)@, action@) == old(self)@.decided(message@, subject@, eligible),
    {
        if eligible {
            let step = self.adapter.get_schema(message.schema_id);
            self.schema_step(message, subject, step)
        } else {
            self.next_message()
        }
    }

    fn with_subject(&mut self, message: Incoming, subject: Option<String>) -> (action: Action)
        ensures
            (final(self)@, action@) == old(self)@.with_subject(
                message@,
                crate::text::opt_text(subject),
            ),
    {
        match subject {
            None => self.next_message(),
            Some(name) => {
                let known = match self.should_process.get(&message.schema_id) {
                    Some(eligible) => Some(*eligible),
                    None => None,
                };
                match known {
                    Some(eligible) => self.decided(message, name, eligible),
                    None => {
                        let action = Action::ShouldProcess {
                            schema_id: message.schema_id,
                            subject_name: name.clone(),
                        };
                        self.stage = Stage::Deciding { message, subject: name };
                        action
                    },
                }
            },
        }
    }

    fn subject_step(&mut self, message: Incoming, step: SubjectStep) -> (action: Action)
        ensures
            (final(self)@, action@) == old(self)@.subject_step(message@, step@),
    {
        match step {
            SubjectStep::Known(subject) => self.with_subject(message, subject),
            SubjectStep::Ask(request) => {
                self.stage = Stage::Resolving { message };
                Action::Backend(request)
            },
            SubjectStep::Failed(error) => self.stop(ConsumeError::Cache(error)),
        }
    }

    fn accept(&mut self, delivery: Delivery) -> (action: Action)
        ensures
            (final(self)@, action@) == old(self)@.accept(delivery@),
    {
        match delivery {
            Delivery::Exhausted => {
                self.stage = Stage::Stopped;
                Action::Finished
            },
            Delivery::ReadError(reason) => self.stop(ConsumeError::Read(reason)),
            Delivery::Message { payload: None, metadata } => self.stop(ConsumeError::NoPayload),
            Delivery::Message { payload: Some(raw), metadata } => match decode(raw.as_slice()) {
                Err(error) => self.stop(ConsumeError::Envelope(error)),
                Ok(envelope) => {
                    let message = Incoming {
                        schema_id: envelope.schema_id,
                        payload: envelope.payload,
                        metadata,
                    };
                    let step = self.adapter.get_subject_name(message.schema_id);
                    self.subject_step(message, step)
                },
            },
        }
    }

    /// Takes the outcome of the last action and answers with the next one.
    pub fn step(&mut self, event: Event) -> (action: Action)
        requires
            old(self)@.wf(),
        ensures
            (final(self)@, action@) == old(self)@.step(event@),
            final(self)@.wf(),
    {
        proof {
            lemma_step_keeps_wf(self@, event@);
        }
        let mut stage = Stage::Stopped;
        core::mem::swap(&mut self.stage, &mut stage);
        match (stage, event) {
            (Stage::Idle, Event::Delivery(delivery)) => self.accept(delivery),
            (Stage::Resolving { message }, Event::Backend(reply)) => {
                let step = self.adapter.supply_subject_name(message.schema_id, reply);
                self.subject_step(message, step)
            },
            (Stage::Deciding { message, subject }, Event::Handler(HandlerReply::Decision(eligible))) => {
                self.should_process.insert(message.schema_id, eligible);
                self.decided(message, subject, eligible)
            },
            (Stage::Fetching { message, subject }, Event::Backend(reply)) => {
                let step = self.adapter.supply_schema(message.schema_id, reply);
                self.schema_step(message, subject, step)
            },
            (Stage::Announcing { message, subject }, Event::Handler(HandlerReply::Returned)) => {
                self.deliver(message, subject)
            },
            (Stage::Recording, Event::Handler(HandlerReply::Returned)) => self.next_message(),
            (Stage::Deciding { .. }, Event::Handler(HandlerReply::Raised(reason))) => self.stop(
                ConsumeError::Handler(reason),
            ),
            (Stage::Announcing { .. }, Event::Handler(HandlerReply::Raised(reason))) => self.stop(
                ConsumeError::Handler(reason),
            ),
            (Stage::Recording, Event::Handler(HandlerReply::Raised(reason))) => self.stop(
                ConsumeError::Handler(reason),
            ),
            _ => self.stop(ConsumeError::Protocol),
        }
    }

    /// One iteration of the loop begins: takes what the broker handed over
    /// when asked for the next message.
    pub fn message_iteration(&mut self, delivery: Delivery) -> (action: Action)
        requires
            old(self)@.wf(),
        ensures
            (final(self)@, action@) == old(self)@.step(
                crate::client::EventView::Delivery(delivery@),
            ),
            final(self)@.wf(),
    {
        self.step(Event::Delivery(delivery))
    }
}

} // verus!
