//! Producing with backpressure: a submission that finds the producer's
//! queue full is repeated, after the producer had time to serve deliveries,
//! until the queue takes it or the producer fails for another reason.

use crate::envelope::{encode, envelope_bytes};
use vstd::prelude::*;
use vstd::slice::slice_to_vec;
use vstd::string::*;

verus! {

/// How long the producer is polled after it found its queue full.
pub const POLL_TIMEOUT_MS: u64 = 1000;

/// How long to wait between the poll and the next submission.
pub const RETRY_DELAY_MS: u64 = 100;

/// The error codes of the broker client that the library tells apart.
#[derive(Clone, Copy, Debug, PartialEq, Eq, Structural)]
pub enum ErrorCode {
    /// The producer's queue is full.
    QueueFull,
    Other,
}

/// A failure of the broker client.
#[derive(Debug, PartialEq, Eq)]
pub enum BrokerError {
    /// A message could not be produced.
    MessageProduction { code: ErrorCode, reason: String },
    /// Any other failure.
    Other { reason: String },
}

pub enum BrokerErrorView {
    MessageProduction { code: ErrorCode, reason: Seq<char> },
    Other { reason: Seq<char> },
}

impl View for BrokerError {
    type V = BrokerErrorView;

    open spec fn view(&self) -> BrokerErrorView {
        match self {
            BrokerError::MessageProduction { code, reason } => BrokerErrorView::MessageProduction {
                code: *code,
                reason: reason@,
            },
            BrokerError::Other { reason } => BrokerErrorView::Other { reason: reason@ },
        }
    }
}

/// The failure is the transient one: a message could not be produced
/// because the queue is full.
pub open spec fn queue_full(error: BrokerErrorView) -> bool {
    error matches BrokerErrorView::MessageProduction { code: ErrorCode::QueueFull, .. }
}

/// Whether a failure is the one that is answered by polling and trying
/// again.
pub fn is_queue_full(result: &BrokerError) -> (out: bool)
    ensures
        out == queue_full(result@),
{
    match result {
        BrokerError::MessageProduction { code: ErrorCode::QueueFull, .. } => true,
        _ => false,
    }
}

/// A message as it is submitted to the broker client.
#[derive(Debug, PartialEq, Eq)]
pub struct OutgoingRecord {
    pub topic: String,
    pub key: Vec<u8>,
    pub payload: Vec<u8>,
}

pub struct OutgoingRecordView {
    pub topic: Seq<char>,
    pub key: Seq<u8>,
    pub payload: Seq<u8>,
}

impl View for OutgoingRecord {
    type V = OutgoingRecordView;

    open spec fn view(&self) -> OutgoingRecordView {
        OutgoingRecordView { topic: self.topic@, key: self.key@, payload: self.payload@ }
    }
}

/// What came of the last action.
#[derive(Debug, PartialEq, Eq)]
pub enum ProduceEvent {
    /// The queue took the record.
    Accepted,
    /// The submission failed.
    Rejected(BrokerError),
    /// The producer has been polled.
    Polled,
    /// The delay is over.
    Waited,
}

pub enum ProduceEventView {
    Accepted,
    Rejected(BrokerErrorView),
    Polled,
    Waited,
}

impl View for ProduceEvent {
    type V = ProduceEventView;

    open spec fn view(&self) -> ProduceEventView {
        match self {
            ProduceEvent::Accepted => ProduceEventView::Accepted,
            ProduceEvent::Rejected(error) => ProduceEventView::Rejected(error@),
            ProduceEvent::Polled => ProduceEventView::Polled,
            ProduceEvent::Waited => ProduceEventView::Waited,
        }
    }
}

/// What to do next.
#[derive(Debug, PartialEq, Eq)]
pub enum ProduceAction {
    /// Submit the record to the producer's queue.
    Send,
    /// Let the producer serve delivery reports for at most this long.
    Poll { timeout_ms: u64 },
    /// Wait this long.
    Wait { delay_ms: u64 },
    /// The record is in the queue.
    Done,
    /// The record was not produced.
    Fail(BrokerError),
    /// The event answers no action that is outstanding.
    Misused,
}

pub enum ProduceActionView {
    Send,
    Poll { timeout_ms: u64 },
    Wait { delay_ms: u64 },
    Done,
    Fail(BrokerErrorView),
    Misused,
}

impl View for ProduceAction {
    type V = ProduceActionView;

    open spec fn view(&self) -> ProduceActionView {
        match self {
            ProduceAction::Send => ProduceActionView::Send,
            ProduceAction::Poll { timeout_ms } => ProduceActionView::Poll {
                timeout_ms: *timeout_ms,
            },
            ProduceAction::Wait { delay_ms } => ProduceActionView::Wait { delay_ms: *delay_ms },
            ProduceAction::Done => ProduceActionView::Done,
            ProduceAction::Fail(error) => ProduceActionView::Fail(error@),
            ProduceAction::Misused => ProduceActionView::Misused,
        }
    }
}

/// What the controller is waiting for.
#[derive(Clone, Copy, Debug, PartialEq, Eq, Structural)]
pub enum Phase {
    /// The outcome of a submission.
    Sending,
    /// The end of a poll.
    Polling,
    /// The end of a delay.
    Waiting,
    /// Nothing: the call is over.
    Over,
}

/// The phase after `event`, and the action that answers it.
pub open spec fn produce_step(phase: Phase, event: ProduceEventView) -> (Phase, ProduceActionView) {
    match (phase, event) {
        (Phase::Sending, ProduceEventView::Accepted) => (Phase::Over, ProduceActionView::Done),
        (Phase::Sending, ProduceEventView::Rejected(error)) => if queue_full(error) {
            (Phase::Polling, ProduceActionView::Poll { timeout_ms: POLL_TIMEOUT_MS })
        } else {
            (Phase::Over, ProduceActionView::Fail(error))
        },
        (Phase::Polling, ProduceEventView::Polled) => (
            Phase::Waiting,
            ProduceActionView::Wait { delay_ms: RETRY_DELAY_MS },
        ),
        (Phase::Waiting, ProduceEventView::Waited) => (Phase::Sending, ProduceActionView::Send),
        _ => (Phase::Over, ProduceActionView::Misused),
    }
}

/// One call to produce a message. The record is submitted first; every
/// outcome is handed to [`BackpressureController::step`].
pub struct BackpressureController {
    record: OutgoingRecord,
    phase: Phase,
}

impl BackpressureController {
    /// The record that every `Send` submits.
    pub closed spec fn record_view(&self) -> OutgoingRecordView {
        self.record@
    }

    pub closed spec fn phase_view(&self) -> Phase {
        self.phase
    }

    pub fn record(&self) -> (out: &OutgoingRecord)
        ensures
            out@ == self.record_view(),
    {
        &self.record
    }

    pub fn phase(&self) -> (out: Phase)
        ensures
            out == self.phase_view(),
    {
        self.phase
    }

    /// Takes the outcome of the last action and answers with the next one.
    /// The record never changes.
    pub fn step(&mut self, event: ProduceEvent) -> (action: ProduceAction)
        ensures
            (final(self).phase_view(), action@) == produce_step(old(self).phase_view(), event@),
            final(self).record_view() == old(self).record_view(),
    {
        match (self.phase, event) {
            (Phase::Sending, ProduceEvent::Accepted) => {
                self.phase = Phase::Over;
                ProduceAction::Done
            },
            (Phase::Sending, ProduceEvent::Rejected(error)) => {
                if is_queue_full(&error) {
                    self.phase = Phase::Polling;
                    ProduceAction::Poll { timeout_ms: POLL_TIMEOUT_MS }
                } else {
                    self.phase = Phase::Over;
                    ProduceAction::Fail(error)
                }
            },
            (Phase::Polling, ProduceEvent::Polled) => {
                self.phase = Phase::Waiting;
                ProduceAction::Wait { delay_ms: RETRY_DELAY_MS }
            },
            (Phase::Waiting, ProduceEvent::Waited) => {
                self.phase = Phase::Sending;
                ProduceAction::Send
            },
            _ => {
                self.phase = Phase::Over;
                ProduceAction::Misused
            },
        }
    }
}

/// Begins the production of `value` under `schema_id`: wraps it in its
/// envelope and answers with the controller of the call, whose record is to
/// be submitted.
pub fn produce(topic: &str, schema_id: u32, key: &[u8], value: &[u8]) -> (out:
    BackpressureController)
    ensures
        out.phase_view() == Phase::Sending,
        out.record_view() == (OutgoingRecordView {
            topic: topic@,
            key: key@,
            payload: envelope_bytes(schema_id, value@),
        }),
{
    BackpressureController {
        record: OutgoingRecord {
            topic: String::from_str(topic),
            key: slice_to_vec(key),
            payload: encode(schema_id, value),
        },
        phase: Phase::Sending,
    }
}

/// The outcomes that a producer reports whose queue is full for the first
/// `full` submissions and takes the next one.
pub open spec fn events_until_accepted(full: nat, error: BrokerErrorView) -> Seq<ProduceEventView>
    decreases full,
{
    if full == 0 {
        seq![ProduceEventView::Accepted]
    } else {
        seq![
            ProduceEventView::Rejected(error),
            ProduceEventView::Polled,
            ProduceEventView::Waited,
        ] + events_until_accepted((full - 1) as nat, error)
    }
}

/// What is done against such a producer: each failed submission is followed
/// by a poll and a delay, and the last submission by nothing.
pub open spec fn actions_until_accepted(full: nat) -> Seq<ProduceActionView>
    decreases full,
{
    if full == 0 {
        seq![ProduceActionView::Send, ProduceActionView::Done]
    } else {
        seq![
            ProduceActionView::Send,
            ProduceActionView::Poll { timeout_ms: POLL_TIMEOUT_MS },
            ProduceActionView::Wait { delay_ms: RETRY_DELAY_MS },
        ] + actions_until_accepted((full - 1) as nat)
    }
}

/// The actions that answer a sequence of events, one each, from `phase` on.
pub open spec fn produce_run(phase: Phase, events: Seq<ProduceEventView>) -> Seq<ProduceActionView>
    decreases events.len(),
{
    if events.len() == 0 {
        Seq::empty()
    } else {
        seq![produce_step(phase, events[0]).1] + produce_run(
            produce_step(phase, events[0]).0,
            events.drop_first(),
        )
    }
}

/// The number of submissions among some actions.
pub open spec fn submissions(actions: Seq<ProduceActionView>) -> nat
    decreases actions.len(),
{
    if actions.len() == 0 {
        0
    } else {
        submissions(actions.drop_last()) + if actions.last() == ProduceActionView::Send {
            1nat
        } else {
            0nat
        }
    }
}

/// The number of polls among some actions.
pub open spec fn polls(actions: Seq<ProduceActionView>) -> nat
    decreases actions.len(),
{
    if actions.len() == 0 {
        0
    } else {
        polls(actions.drop_last()) + if actions.last() is Poll {
            1nat
        } else {
            0nat
        }
    }
}

proof fn lemma_counts_add(a: Seq<ProduceActionView>, b: Seq<ProduceActionView>)
    ensures
        submissions(a + b) == submissions(a) + submissions(b),
        polls(a + b) == polls(a) + polls(b),
    decreases b.len(),
{
    if b.len() == 0 {
        assert(a + b =~= a);
    } else {
        assert((a + b).drop_last() =~= a + b.drop_last());
        assert((a + b).last() == b.last());
        lemma_counts_add(a, b.drop_last());
    }
}

proof fn lemma_counts_of_one_round()
    ensures
        submissions(
            seq![
                ProduceActionView::Send,
                ProduceActionView::Poll { timeout_ms: POLL_TIMEOUT_MS },
                ProduceActionView::Wait { delay_ms: RETRY_DELAY_MS },
            ],
        ) == 1,
        polls(
            seq![
                ProduceActionView::Send,
                ProduceActionView::Poll { timeout_ms: POLL_TIMEOUT_MS },
                ProduceActionView::Wait { delay_ms: RETRY_DELAY_MS },
            ],
        ) == 1,
        submissions(seq![ProduceActionView::Send, ProduceActionView::Done]) == 1,
        polls(seq![ProduceActionView::Send, ProduceActionView::Done]) == 0,
{
    let send = ProduceActionView::Send;
    let poll = ProduceActionView::Poll { timeout_ms: POLL_TIMEOUT_MS };
    let wait = ProduceActionView::Wait { delay_ms: RETRY_DELAY_MS };
    let done = ProduceActionView::Done;
    let none = Seq::<ProduceActionView>::empty();
    assert(seq![send].drop_last() =~= none);
    assert(seq![send, poll].drop_last() =~= seq![send]);
    assert(seq![send, poll, wait].drop_last() =~= seq![send, poll]);
    assert(seq![send, done].drop_last() =~= seq![send]);
    assert(submissions(none) == 0 && polls(none) == 0);
    assert(submissions(seq![send]) == 1 && polls(seq![send]) == 0);
    assert(submissions(seq![send, poll]) == 1 && polls(seq![send, poll]) == 1);
}

/// Against a producer whose queue is full for the first `full` submissions
/// and takes the next one, the record is submitted exactly `full + 1` times,
/// the producer is polled after each of the `full` failures and before the
/// submission that follows, and the call ends in success.
pub proof fn lemma_retries_until_accepted(full: nat, error: BrokerErrorView)
    requires
        queue_full(error),
    ensures
        seq![ProduceActionView::Send] + produce_run(
            Phase::Sending,
            events_until_accepted(full, error),
        ) == actions_until_accepted(full),
        submissions(actions_until_accepted(full)) == full + 1,
        polls(actions_until_accepted(full)) == full,
        actions_until_accepted(full).last() == ProduceActionView::Done,
    decreases full,
{
    let events = events_until_accepted(full, error);
    lemma_counts_of_one_round();
    if full == 0 {
        assert(events.drop_first() =~= Seq::empty());
        assert(produce_run(Phase::Over, events.drop_first()) =~= Seq::empty());
        assert(produce_run(Phase::Sending, events) =~= seq![ProduceActionView::Done]);
        assert(seq![ProduceActionView::Send] + produce_run(Phase::Sending, events)
            =~= actions_until_accepted(full));
    } else {
        let rest = events_until_accepted((full - 1) as nat, error);
        lemma_retries_until_accepted((full - 1) as nat, error);
        let first = events.drop_first();
        let second = first.drop_first();
        assert(events[0] == ProduceEventView::Rejected(error));
        assert(first[0] == ProduceEventView::Polled);
        assert(second[0] == ProduceEventView::Waited);
        assert(second.drop_first() =~= rest);
        assert(produce_run(Phase::Waiting, second) == seq![ProduceActionView::Send] + produce_run(
            Phase::Sending,
            rest,
        ));
        assert(produce_run(Phase::Polling, first) == seq![
            ProduceActionView::Wait { delay_ms: RETRY_DELAY_MS },
        ] + produce_run(Phase::Waiting, second));
        assert(produce_run(Phase::Sending, events) == seq![
            ProduceActionView::Poll { timeout_ms: POLL_TIMEOUT_MS },
        ] + produce_run(Phase::Polling, first));
        assert(seq![ProduceActionView::Send] + produce_run(Phase::Sending, events)
            =~= actions_until_accepted(full));
        lemma_counts_add(
            seq![
                ProduceActionView::Send,
                ProduceActionView::Poll { timeout_ms: POLL_TIMEOUT_MS },
                ProduceActionView::Wait { delay_ms: RETRY_DELAY_MS },
            ],
            actions_until_accepted((full - 1) as nat),
        );
    }
}

/// A submission that fails for any other reason than a full queue is not
/// repeated: the call fails with that error at once.
pub proof fn lemma_other_failures_are_final(error: BrokerErrorView)
    requires
        !queue_full(error),
    ensures
        produce_step(Phase::Sending, ProduceEventView::Rejected(error)) == (
            Phase::Over,
            ProduceActionView::Fail(error),
        ),
{
}

} // verus!
