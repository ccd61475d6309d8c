//! The dispatch pipeline as mathematics: its states, and what each event
//! leads to.

use crate::adapters::model::{lemma_apply_grows, lemma_known_is_remembered, CacheOp, CacheView};
use crate::adapters::{BackendReplyView, SchemaStepView, SchemaView, SubjectStepView};
use crate::client::{
    ActionView, ConsumeErrorView, DeliveryView, EventView, HandlerReplyView, IncomingView,
};
use crate::envelope::parse_envelope;
use vstd::prelude::*;

verus! {

/// What the pipeline is waiting for.
pub enum StageView {
    /// The next message.
    Idle,
    /// The cache's backend, to learn the subject of the message's schema.
    Resolving { message: IncomingView },
    /// The handler's answer on whether to process the schema.
    Deciding { message: IncomingView, subject: Seq<char> },
    /// The cache's backend, to fetch the body of the schema.
    Fetching { message: IncomingView, subject: Seq<char> },
    /// The handler, which is being told of the new schema.
    Announcing { message: IncomingView, subject: Seq<char> },
    /// The handler, which is being given the message.
    Recording,
    /// Nothing: consumption is over.
    Stopped,
}

/// The state of a pipeline.
pub struct DispatcherView {
    pub cache: CacheView,
    /// The handler's answers so far, by schema identifier.
    pub decisions: Map<u32, bool>,
    pub stage: StageView,
}

impl DispatcherView {
    /// A pipeline that has not read anything yet.
    pub open spec fn initial(cache: CacheView) -> DispatcherView {
        DispatcherView { cache, decisions: Map::empty(), stage: StageView::Idle }
    }

    /// While a message is in hand, the cache holds the subject it travels
    /// under, and once the handler has answered, the answer was "eligible".
    pub open spec fn wf(self) -> bool {
        &&& self.cache.wf()
        &&& match self.stage {
            StageView::Deciding { message, subject } => {
                &&& self.cache.subjects.contains_pair(message.schema_id, Some(subject))
                &&& !self.decisions.contains_key(message.schema_id)
            },
            StageView::Fetching { message, subject } => {
                &&& self.cache.subjects.contains_pair(message.schema_id, Some(subject))
                &&& self.decisions.contains_pair(message.schema_id, true)
            },
            StageView::Announcing { message, subject } => {
                &&& self.cache.subjects.contains_pair(message.schema_id, Some(subject))
                &&& self.decisions.contains_pair(message.schema_id, true)
                &&& self.cache.seen.contains(message.schema_id)
            },
            _ => true,
        }
    }

    pub open spec fn stop(self, error: ConsumeErrorView) -> (DispatcherView, ActionView) {
        (DispatcherView { stage: StageView::Stopped, ..self }, ActionView::Abort(error))
    }

    pub open spec fn next_message(self) -> (DispatcherView, ActionView) {
        (DispatcherView { stage: StageView::Idle, ..self }, ActionView::Receive)
    }

    /// Hands the message to the handler.
    pub open spec fn deliver(self, message: IncomingView, subject: Seq<char>) -> (
        DispatcherView,
        ActionView,
    ) {
        (
            DispatcherView { stage: StageView::Recording, ..self },
            ActionView::Record {
                schema_id: message.schema_id,
                subject_name: subject,
                payload: message.payload,
                metadata: message.metadata,
            },
        )
    }

    /// Goes on with what the cache said of the schema's body: a new schema
    /// is announced before the message is delivered.
    pub open spec fn schema_step(self, message: IncomingView, subject: Seq<char>, step: SchemaStepView)
        -> (DispatcherView, ActionView) {
        match step {
            SchemaStepView::Done(SchemaView::Seen) => self.deliver(message, subject),
            SchemaStepView::Done(SchemaView::New(body)) => (
                DispatcherView { stage: StageView::Announcing { message, subject }, ..self },
                ActionView::NewSchema {
                    schema_id: message.schema_id,
                    subject_name: subject,
                    schema: body,
                },
            ),
            SchemaStepView::Ask(request) => (
                DispatcherView { stage: StageView::Fetching { message, subject }, ..self },
                ActionView::Backend(request),
            ),
            SchemaStepView::Failed(error) => self.stop(ConsumeErrorView::Cache(error)),
        }
    }

    /// Goes on with what the handler answered. A message that is not eligible
    /// is passed over.
    pub open spec fn decided(self, message: IncomingView, subject: Seq<char>, eligible: bool) -> (
        DispatcherView,
        ActionView,
    ) {
        if eligible {
            self.schema_step(message, subject, self.cache.schema_lookup(message.schema_id))
        } else {
            self.next_message()
        }
    }

    /// Goes on with the subject of the message's schema: a message without
    /// a subject is skipped, and the handler is asked whether to process the
    /// schema only where it has not answered that before.
    pub open spec fn with_subject(self, message: IncomingView, subject: Option<Seq<char>>) -> (
        DispatcherView,
        ActionView,
    ) {
        match subject {
            None => self.next_message(),
            Some(name) => if self.decisions.contains_key(message.schema_id) {
                self.decided(message, name, self.decisions[message.schema_id])
            } else {
                (
                    DispatcherView {
                        stage: StageView::Deciding { message, subject: name },
                        ..self
                    },
                    ActionView::ShouldProcess {
                        schema_id: message.schema_id,
                        subject_name: name,
                    },
                )
            },
        }
    }

    /// Goes on with what the cache said of the subject.
    pub open spec fn subject_step(self, message: IncomingView, step: SubjectStepView) -> (
        DispatcherView,
        ActionView,
    ) {
        match step {
            SubjectStepView::Known(subject) => self.with_subject(message, subject),
            SubjectStepView::Ask(request) => (
                DispatcherView { stage: StageView::Resolving { message }, ..self },
                ActionView::Backend(request),
            ),
            SubjectStepView::Failed(error) => self.stop(ConsumeErrorView::Cache(error)),
        }
    }

    /// Takes what the broker handed over.
    pub open spec fn accept(self, delivery: DeliveryView) -> (DispatcherView, ActionView) {
        match delivery {
            DeliveryView::Exhausted => (
                DispatcherView { stage: StageView::Stopped, ..self },
                ActionView::Finished,
            ),
            DeliveryView::ReadError(reason) => self.stop(ConsumeErrorView::Read(reason)),
            DeliveryView::Message { payload: None, metadata } => self.stop(
                ConsumeErrorView::NoPayload,
            ),
            DeliveryView::Message { payload: Some(raw), metadata } => match parse_envelope(raw) {
                Err(error) => self.stop(ConsumeErrorView::Envelope(error)),
                Ok(envelope) => {
                    let message = IncomingView {
                        schema_id: envelope.schema_id,
                        payload: envelope.payload,
                        metadata,
                    };
                    self.subject_step(message, self.cache.subject_lookup(envelope.schema_id))
                },
            },
        }
    }

    /// The state after `event`, and the action that answers it.
    pub open spec fn step(self, event: EventView) -> (DispatcherView, ActionView) {
        match (self.stage, event) {
            (StageView::Idle, EventView::Delivery(delivery)) => self.accept(delivery),
            (StageView::Resolving { message }, EventView::Backend(reply)) => {
                let (cache, step) = self.cache.subject_supplied(message.schema_id, reply);
                DispatcherView { cache, ..self }.subject_step(message, step)
            },
            (
                StageView::Deciding { message, subject },
                EventView::Handler(HandlerReplyView::Decision(eligible)),
            ) => DispatcherView {
                decisions: self.decisions.insert(message.schema_id, eligible),
                ..self
            }.decided(message, subject, eligible),
            (StageView::Fetching { message, subject }, EventView::Backend(reply)) => {
                let (cache, step) = self.cache.schema_supplied(message.schema_id, reply);
                DispatcherView { cache, ..self }.schema_step(message, subject, step)
            },
            (
                StageView::Announcing { message, subject },
                EventView::Handler(HandlerReplyView::Returned),
            ) => self.deliver(message, subject),
            (StageView::Recording, EventView::Handler(HandlerReplyView::Returned)) => {
                self.next_message()
            },
            (StageView::Deciding { .. }, EventView::Handler(HandlerReplyView::Raised(reason))) => {
                self.stop(ConsumeErrorView::Handler(reason))
            },
            (
                StageView::Announcing { .. },
                EventView::Handler(HandlerReplyView::Raised(reason)),
            ) => self.stop(ConsumeErrorView::Handler(reason)),
            (StageView::Recording, EventView::Handler(HandlerReplyView::Raised(reason))) => {
                self.stop(ConsumeErrorView::Handler(reason))
            },
            _ => self.stop(ConsumeErrorView::Protocol),
        }
    }
}

/// Every event leaves a well-formed pipeline well formed.
pub proof fn lemma_step_keeps_wf(state: DispatcherView, event: EventView)
    requires
        state.wf(),
    ensures
        state.step(event).0.wf(),
{
    match (state.stage, event) {
        (StageView::Resolving { message }, EventView::Backend(reply)) => {
            lemma_apply_grows(
                state.cache,
                CacheOp::SupplySubject { schema_id: message.schema_id, reply },
            );
            lemma_known_is_remembered(state.cache, message.schema_id, reply);
        },
        (StageView::Fetching { message, subject }, EventView::Backend(reply)) => {
            lemma_apply_grows(
                state.cache,
                CacheOp::SupplySchema { schema_id: message.schema_id, reply },
            );
        },
        _ => {},
    }
}

/// Nothing is forgotten in a session: the cache only grows, and an answer
/// of the handler stands for every later message of the same schema.
pub proof fn lemma_step_grows(state: DispatcherView, event: EventView)
    requires
        state.wf(),
    ensures
        state.cache.subjects.submap_of(state.step(event).0.cache.subjects),
        state.cache.seen.subset_of(state.step(event).0.cache.seen),
        state.decisions.submap_of(state.step(event).0.decisions),
{
    match (state.stage, event) {
        (StageView::Resolving { message }, EventView::Backend(reply)) => {
            lemma_apply_grows(
                state.cache,
                CacheOp::SupplySubject { schema_id: message.schema_id, reply },
            );
        },
        (StageView::Fetching { message, subject }, EventView::Backend(reply)) => {
            lemma_apply_grows(
                state.cache,
                CacheOp::SupplySchema { schema_id: message.schema_id, reply },
            );
        },
        _ => {},
    }
}

/// A message whose schema has no subject is skipped without a call of the
/// handler: the pipeline asks for the next message, whether the cache knew
/// of the missing subject or has just learnt of it.
pub proof fn lemma_unmapped_message_is_skipped(state: DispatcherView, event: EventView)
    requires
        match (state.stage, event) {
            (
                StageView::Idle,
                EventView::Delivery(DeliveryView::Message { payload: Some(raw), metadata }),
            ) => parse_envelope(raw) matches Ok(envelope) && state.cache.subjects.contains_pair(
                envelope.schema_id,
                None,
            ),
            (StageView::Resolving { message }, EventView::Backend(reply)) => state.cache.subject_supplied(
                message.schema_id,
                reply,
            ).1 == SubjectStepView::Known(None),
            _ => false,
        },
    ensures
        state.step(event).1 == ActionView::Receive,
        state.step(event).0.stage == StageView::Idle,
        state.step(event).0.decisions == state.decisions,
{
}

/// The handler is called only for a schema under the subject that the cache
/// holds for it. It is asked for its answer only where it has given none
/// for the schema; it is told of a schema only on the reply that makes the
/// schema seen, and only after it found the schema eligible; and it is given
/// a message only of a schema that it found eligible and has been told of.
pub proof fn lemma_handler_calls_are_earned(state: DispatcherView, event: EventView)
    requires
        state.wf(),
    ensures
        match state.step(event).1 {
            ActionView::ShouldProcess { schema_id, subject_name } => {
                &&& state.step(event).0.cache.subjects.contains_pair(schema_id, Some(subject_name))
                &&& !state.decisions.contains_key(schema_id)
            },
            ActionView::NewSchema { schema_id, subject_name, schema } => {
                &&& state.step(event).0.cache.subjects.contains_pair(schema_id, Some(subject_name))
                &&& state.step(event).0.decisions.contains_pair(schema_id, true)
                &&& !state.cache.seen.contains(schema_id)
                &&& state.step(event).0.cache.seen.contains(schema_id)
            },
            ActionView::Record { schema_id, subject_name, payload, metadata } => {
                &&& state.step(event).0.cache.subjects.contains_pair(schema_id, Some(subject_name))
                &&& state.step(event).0.decisions.contains_pair(schema_id, true)
                &&& state.step(event).0.cache.seen.contains(schema_id)
            },
            _ => true,
        },
{
    match (state.stage, event) {
        (StageView::Resolving { message }, EventView::Backend(reply)) => {
            lemma_apply_grows(
                state.cache,
                CacheOp::SupplySubject { schema_id: message.schema_id, reply },
            );
            lemma_known_is_remembered(state.cache, message.schema_id, reply);
        },
        (StageView::Fetching { message, subject }, EventView::Backend(reply)) => {
            lemma_apply_grows(
                state.cache,
                CacheOp::SupplySchema { schema_id: message.schema_id, reply },
            );
        },
        _ => {},
    }
}

/// A read error, a message without payload, a payload that is no envelope
/// and a failure of the handler each end consumption at once; so does the
/// end of the source, without an error. Once consumption is over no event
/// starts it again.
pub proof fn lemma_fatal_events_stop(state: DispatcherView, event: EventView)
    ensures
        state.stage == StageView::Idle ==> match event {
            EventView::Delivery(DeliveryView::Exhausted) => state.step(event).1
                == ActionView::Finished,
            EventView::Delivery(DeliveryView::ReadError(reason)) => state.step(event).1
                == ActionView::Abort(ConsumeErrorView::Read(reason)),
            EventView::Delivery(DeliveryView::Message { payload: None, metadata }) => state.step(
                event,
            ).1 == ActionView::Abort(ConsumeErrorView::NoPayload),
            EventView::Delivery(DeliveryView::Message { payload: Some(raw), metadata }) => match parse_envelope(
                raw,
            ) {
                Err(error) => state.step(event).1 == ActionView::Abort(
                    ConsumeErrorView::Envelope(error),
                ),
                Ok(_) => !(state.step(event).1 is Abort) || state.step(event).1 matches ActionView::Abort(
                    ConsumeErrorView::Cache(_),
                ),
            },
            _ => true,
        },
        (state.stage is Deciding || state.stage is Announcing || state.stage is Recording) ==> (
        event matches EventView::Handler(HandlerReplyView::Raised(reason)) ==> state.step(event).1
            == ActionView::Abort(ConsumeErrorView::Handler(reason))),
        (state.step(event).1 is Abort || state.step(event).1 is Finished) <==> state.step(
            event,
        ).0.stage == StageView::Stopped,
        state.stage == StageView::Stopped ==> state.step(event) == (
            state,
            ActionView::Abort(ConsumeErrorView::Protocol),
        ),
{
}

/// The first eligible message of a schema, from delivery to the request
/// for the next message: the handler is asked whether to process the schema
/// under the subject that the cache resolves, is told of the schema with
/// the body that the registry returns, and is then given the payload with
/// the metadata of the message. Nothing else is asked of the handler.
pub proof fn lemma_first_message_calls_in_order(
    state: DispatcherView,
    raw: Seq<u8>,
    metadata: crate::metadata::MetadataView,
    versions: BackendReplyView,
    subject: Seq<char>,
    schema: BackendReplyView,
    body: Seq<char>,
)
    requires
        state.wf(),
        state.stage == StageView::Idle,
        parse_envelope(raw) is Ok,
        !state.cache.subjects.contains_key(parse_envelope(raw).unwrap().schema_id),
        !state.cache.seen.contains(parse_envelope(raw).unwrap().schema_id),
        !state.decisions.contains_key(parse_envelope(raw).unwrap().schema_id),
        state.cache.subject_supplied(parse_envelope(raw).unwrap().schema_id, versions).1
            == SubjectStepView::Known(Some(subject)),
        schema matches BackendReplyView::Registry(reply) && crate::schema_registry::schema_of_reply(
            reply,
        ) == Ok::<Seq<char>, crate::schema_registry::RegistryErrorView>(body),
    ensures
        ({
            let schema_id = parse_envelope(raw).unwrap().schema_id;
            let payload = parse_envelope(raw).unwrap().payload;
            let s1 = state.step(
                EventView::Delivery(DeliveryView::Message { payload: Some(raw), metadata }),
            );
            let s2 = s1.0.step(EventView::Backend(versions));
            let s3 = s2.0.step(EventView::Handler(HandlerReplyView::Decision(true)));
            let s4 = s3.0.step(EventView::Backend(schema));
            let s5 = s4.0.step(EventView::Handler(HandlerReplyView::Returned));
            let s6 = s5.0.step(EventView::Handler(HandlerReplyView::Returned));
            &&& s1.1 == ActionView::Backend(state.cache.subject_query(schema_id))
            &&& s2.1 == ActionView::ShouldProcess { schema_id, subject_name: subject }
            &&& s3.1 is Backend
            &&& s4.1 == ActionView::NewSchema { schema_id, subject_name: subject, schema: body }
            &&& s5.1 == ActionView::Record { schema_id, subject_name: subject, payload, metadata }
            &&& s6.1 == ActionView::Receive
            &&& s6.0.stage == StageView::Idle
            &&& s6.0.decisions.contains_pair(schema_id, true)
            &&& s6.0.cache.seen.contains(schema_id)
        }),
{
    let schema_id = parse_envelope(raw).unwrap().schema_id;
    lemma_apply_grows(state.cache, CacheOp::SupplySubject { schema_id, reply: versions });
    lemma_known_is_remembered(state.cache, schema_id, versions);
}

} // verus!
