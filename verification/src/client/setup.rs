//! Setting a consumer up before the first message: subscribing in group
//! mode, or, in tail mode, asking for the metadata of each topic in turn
//! and then assigning every partition from the end.

use crate::client::consume::{
    assignments_view, consume_mode, metadata_view, tail_assignments, tail_plan, Assignment,
    AssignmentView, ConsumeMode, TopicPartitions, TopicPartitionsView, METADATA_TIMEOUT_MS,
};
use crate::client::produce::{BrokerError, BrokerErrorView};
use vstd::prelude::*;

verus! {

/// What the setup is waiting for.
#[derive(Clone, Copy, Debug, PartialEq, Eq, Structural)]
pub enum SetupStage {
    /// The outcome of the subscription.
    Subscribing,
    /// The metadata of a topic.
    Fetching,
    /// The outcome of the assignment.
    Assigning,
    /// Nothing: messages can be read.
    Ready,
    /// Nothing: the setup failed.
    Failed,
}

/// Why a consumer could not be set up.
#[derive(Debug, PartialEq, Eq)]
pub enum SetupError {
    /// The broker client failed.
    Broker(BrokerError),
    /// An event that answers no action that is outstanding.
    Protocol,
}

pub enum SetupErrorView {
    Broker(BrokerErrorView),
    Protocol,
}

impl View for SetupError {
    type V = SetupErrorView;

    open spec fn view(&self) -> SetupErrorView {
        match self {
            SetupError::Broker(error) => SetupErrorView::Broker(error@),
            SetupError::Protocol => SetupErrorView::Protocol,
        }
    }
}

/// What came of the last action.
#[derive(Debug, PartialEq, Eq)]
pub enum SetupEvent {
    /// The metadata that was asked for: the partitions of each topic that
    /// the broker reported.
    Metadata(Vec<Vec<i32>>),
    /// The subscription or the assignment is made.
    Done,
    /// The broker client failed.
    Failed(BrokerError),
}

pub enum SetupEventView {
    Metadata(Seq<Seq<i32>>),
    Done,
    Failed(BrokerErrorView),
}

pub open spec fn partitions_view(reported: Seq<Vec<i32>>) -> Seq<Seq<i32>> {
    reported.map_values(|partitions: Vec<i32>| partitions@)
}

impl View for SetupEvent {
    type V = SetupEventView;

    open spec fn view(&self) -> SetupEventView {
        match self {
            SetupEvent::Metadata(reported) => SetupEventView::Metadata(partitions_view(reported@)),
            SetupEvent::Done => SetupEventView::Done,
            SetupEvent::Failed(error) => SetupEventView::Failed(error@),
        }
    }
}

pub open spec fn topics_view(topics: Seq<String>) -> Seq<Seq<char>> {
    topics.map_values(|topic: String| topic@)
}

/// What to do next.
#[derive(Debug, PartialEq, Eq)]
pub enum SetupAction {
    /// Subscribe to these topics.
    Subscribe { topics: Vec<String> },
    /// Ask the broker for the metadata of this topic, and wait no longer
    /// than this.
    FetchMetadata { topic: String, timeout_ms: u64 },
    /// Assign these partitions.
    Assign { assignments: Vec<Assignment> },
    /// The consumer is set up.
    Ready,
    /// The consumer is not set up, because of this error.
    Abort(SetupError),
}

pub enum SetupActionView {
    Subscribe { topics: Seq<Seq<char>> },
    FetchMetadata { topic: Seq<char>, timeout_ms: u64 },
    Assign { assignments: Seq<AssignmentView> },
    Ready,
    Abort(SetupErrorView),
}

impl View for SetupAction {
    type V = SetupActionView;

    open spec fn view(&self) -> SetupActionView {
        match self {
            SetupAction::Subscribe { topics } => SetupActionView::Subscribe {
                topics: topics_view(topics@),
            },
            SetupAction::FetchMetadata { topic, timeout_ms } => SetupActionView::FetchMetadata {
                topic: topic@,
                timeout_ms: *timeout_ms,
            },
            SetupAction::Assign { assignments } => SetupActionView::Assign {
                assignments: assignments_view(assignments@),
            },
            SetupAction::Ready => SetupActionView::Ready,
            SetupAction::Abort(error) => SetupActionView::Abort(error@),
        }
    }
}

/// The metadata of one requested topic: the partitions of each reported
/// topic, under the name that was requested.
pub open spec fn reported_under(topic: Seq<char>, reported: Seq<Seq<i32>>) -> Seq<
    TopicPartitionsView,
> {
    reported.map_values(|partitions: Seq<i32>| TopicPartitionsView { topic, partitions })
}

/// The state of a setup.
pub struct SetupView {
    /// The topics to consume.
    pub topics: Seq<Seq<char>>,
    /// The number of topics whose metadata has arrived.
    pub fetched: nat,
    /// The metadata that has arrived.
    pub metadata: Seq<TopicPartitionsView>,
    pub stage: SetupStage,
}

impl SetupView {
    pub open spec fn fail(self, error: SetupErrorView) -> (SetupView, SetupActionView) {
        (SetupView { stage: SetupStage::Failed, ..self }, SetupActionView::Abort(error))
    }

    /// Asks for the metadata of the next topic, or, with the metadata of
    /// all topics in hand, assigns the tail plan.
    pub open spec fn fetch_or_assign(self) -> (SetupView, SetupActionView) {
        if self.fetched < self.topics.len() {
            (
                SetupView { stage: SetupStage::Fetching, ..self },
                SetupActionView::FetchMetadata {
                    topic: self.topics[self.fetched as int],
                    timeout_ms: METADATA_TIMEOUT_MS,
                },
            )
        } else {
            (
                SetupView { stage: SetupStage::Assigning, ..self },
                SetupActionView::Assign { assignments: tail_plan(self.metadata) },
            )
        }
    }

    /// The first action of a consumer of `topics` in `mode`.
    pub open spec fn start(topics: Seq<Seq<char>>, mode: ConsumeMode) -> (
        SetupView,
        SetupActionView,
    ) {
        let blank = SetupView {
            topics,
            fetched: 0,
            metadata: Seq::empty(),
            stage: SetupStage::Subscribing,
        };
        match mode {
            ConsumeMode::Group => (blank, SetupActionView::Subscribe { topics }),
            ConsumeMode::Tail => blank.fetch_or_assign(),
        }
    }

    /// The state after `event`, and the action that answers it. Every
    /// failure of the broker client ends the setup.
    pub open spec fn step(self, event: SetupEventView) -> (SetupView, SetupActionView) {
        match (self.stage, event) {
            (SetupStage::Fetching, SetupEventView::Metadata(reported)) => if self.fetched
                < self.topics.len() {
                SetupView {
                    fetched: self.fetched + 1,
                    metadata: self.metadata + reported_under(
                        self.topics[self.fetched as int],
                        reported,
                    ),
                    ..self
                }.fetch_or_assign()
            } else {
                self.fail(SetupErrorView::Protocol)
            },
            (SetupStage::Subscribing, SetupEventView::Done) => (
                SetupView { stage: SetupStage::Ready, ..self },
                SetupActionView::Ready,
            ),
            (SetupStage::Assigning, SetupEventView::Done) => (
                SetupView { stage: SetupStage::Ready, ..self },
                SetupActionView::Ready,
            ),
            (SetupStage::Subscribing, SetupEventView::Failed(error)) => self.fail(
                SetupErrorView::Broker(error),
            ),
            (SetupStage::Fetching, SetupEventView::Failed(error)) => self.fail(
                SetupErrorView::Broker(error),
            ),
            (SetupStage::Assigning, SetupEventView::Failed(error)) => self.fail(
                SetupErrorView::Broker(error),
            ),
            _ => self.fail(SetupErrorView::Protocol),
        }
    }
}

/// The setup of one consumer.
pub struct ConsumerSetup {
    topics: Vec<String>,
    fetched: usize,
    metadata: Vec<TopicPartitions>,
    stage: SetupStage,
}

impl View for ConsumerSetup {
    type V = SetupView;

    closed spec fn view(&self) -> SetupView {
        SetupView {
            topics: topics_view(self.topics@),
            fetched: self.fetched as nat,
            metadata: metadata_view(self.metadata@),
            stage: self.stage,
        }
    }
}

fn copy_topics(topics: &Vec<String>) -> (out: Vec<String>)
    ensures
        topics_view(out@) == topics_view(topics@),
{
    let mut out: Vec<String> = Vec::new();
    let mut i: usize = 0;
    while i < topics.len()
        invariant
            0 <= i <= topics.len(),
            out@.len() == i,
            forall|k: int| 0 <= k < i ==> (#[trigger] out@[k])@ == topics@[k]@,
        decreases topics.len() - i,
    {
        out.push(topics[i].clone());
        i = i + 1;
    }
    assert(topics_view(out@) =~= topics_view(topics@));
    out
}

impl ConsumerSetup {
    pub fn stage(&self) -> (out: SetupStage)
        ensures
            out == self@.stage,
    {
        self.stage
    }

    fn fail(&mut self, error: SetupError) -> (action: SetupAction)
        ensures
            (final(self)@, action@) == old(self)@.fail(error@),
    {
        self.stage = SetupStage::Failed;
        SetupAction::Abort(error)
    }

    fn fetch_or_assign(&mut self) -> (action: SetupAction)
        ensures
            (final(self)@, action@) == old(self)@.fetch_or_assign(),
    {
        if self.fetched < self.topics.len() {
            self.stage = SetupStage::Fetching;
            SetupAction::FetchMetadata {
                topic: self.topics[self.fetched].clone(),
                timeout_ms: METADATA_TIMEOUT_MS,
            }
        } else {
            self.stage = SetupStage::Assigning;
            SetupAction::Assign { assignments: tail_assignments(&self.metadata) }
        }
    }

    /// Takes the outcome of the last action and answers with the next one.
    pub fn step(&mut self, event: SetupEvent) -> (action: SetupAction)
        ensures
            (final(self)@, action@) == old(self)@.step(event@),
    {
        match (self.stage, event) {
            (SetupStage::Fetching, SetupEvent::Metadata(reported)) => {
                if self.fetched < self.topics.len() {
                    let ghost before = metadata_view(self.metadata@);
                    let ghost topic = self.topics@[self.fetched as int]@;
                    let ghost wanted = before + reported_under(topic, partitions_view(reported@));
                    let mut reported = reported;
                    let ghost all = partitions_view(reported@);
                    let n = reported.len();
                    let mut i: usize = 0;
                    assert(before + reported_under(topic, all).take(0) =~= before);
                    while i < n
                        invariant
                            0 <= i <= n,
                            n == reported.len(),
                            self.fetched < self.topics.len(),
                            topic == self.topics@[self.fetched as int]@,
                            self.topics == old(self).topics,
                            self.fetched == old(self).fetched,
                            self.stage == old(self).stage,
                            all.len() == n,
                            forall|k: int| i <= k < n ==> (#[trigger] reported@[k])@ == all[k],
                            metadata_view(self.metadata@) == before + reported_under(
                                topic,
                                all,
                            ).take(i as int),
                        decreases n - i,
                    {
                        let mut partitions: Vec<i32> = Vec::new();
                        let ghost rest = reported@;
                        core::mem::swap(&mut reported[i], &mut partitions);
                        assert(partitions@ == all[i as int]);
                        assert forall|k: int| i < k < n implies (#[trigger] reported@[k])@
                            == all[k] by {
                            assert(reported@[k] == rest[k]);
                        }
                        let ghost seen = metadata_view(self.metadata@);
                        self.metadata.push(
                            TopicPartitions { topic: self.topics[self.fetched].clone(), partitions },
                        );
                        assert(metadata_view(self.metadata@) =~= seen.push(
                            TopicPartitionsView { topic, partitions: all[i as int] },
                        ));
                        assert(reported_under(topic, all).take(i + 1) =~= reported_under(
                            topic,
                            all,
                        ).take(i as int).push(
                            TopicPartitionsView { topic, partitions: all[i as int] },
                        ));
                        assert(before + reported_under(topic, all).take(i + 1) =~= (before
                            + reported_under(topic, all).take(i as int)).push(
                            TopicPartitionsView { topic, partitions: all[i as int] },
                        ));
                        i = i + 1;
                    }
                    assert(reported_under(topic, all).take(n as int) =~= reported_under(
                        topic,
                        all,
                    ));
                    self.fetched = self.fetched + 1;
                    self.fetch_or_assign()
                } else {
                    self.fail(SetupError::Protocol)
                }
            },
            (SetupStage::Subscribing, SetupEvent::Done) => {
                self.stage = SetupStage::Ready;
                SetupAction::Ready
            },
            (SetupStage::Assigning, SetupEvent::Done) => {
                self.stage = SetupStage::Ready;
                SetupAction::Ready
            },
            (SetupStage::Subscribing, SetupEvent::Failed(error)) => self.fail(
                SetupError::Broker(error),
            ),
            (SetupStage::Fetching, SetupEvent::Failed(error)) => self.fail(
                SetupError::Broker(error),
            ),
            (SetupStage::Assigning, SetupEvent::Failed(error)) => self.fail(
                SetupError::Broker(error),
            ),
            _ => self.fail(SetupError::Protocol),
        }
    }
}

/// Begins the setup of a consumer of `topics`: in the mode of its group
/// where it names one, in tail mode where it names none.
pub fn consume(topics: Vec<String>, group_id: &Option<String>) -> (out: (
    ConsumerSetup,
    SetupAction,
))
    ensures
        (out.0@, out.1@) == SetupView::start(
            topics_view(topics@),
            if group_id is Some {
                ConsumeMode::Group
            } else {
                ConsumeMode::Tail
            },
        ),
{
    let mut setup = ConsumerSetup {
        topics,
        fetched: 0,
        metadata: Vec::new(),
        stage: SetupStage::Subscribing,
    };
    assert(metadata_view(setup.metadata@) =~= Seq::empty());
    match consume_mode(group_id) {
        ConsumeMode::Group => {
            let action = SetupAction::Subscribe { topics: copy_topics(&setup.topics) };
            (setup, action)
        },
        ConsumeMode::Tail => {
            let action = setup.fetch_or_assign();
            (setup, action)
        },
    }
}

/// The metadata of the first topics, as many as there are reports, each
/// report under the name of its topic.
pub open spec fn gathered(topics: Seq<Seq<char>>, reports: Seq<Seq<Seq<i32>>>) -> Seq<
    TopicPartitionsView,
>
    decreases reports.len(),
{
    if reports.len() == 0 {
        Seq::empty()
    } else {
        gathered(topics, reports.drop_last()) + reported_under(
            topics[reports.len() - 1],
            reports.last(),
        )
    }
}

/// A setup in tail mode after the broker has reported on the first topics.
pub open spec fn after_reports(topics: Seq<Seq<char>>, reports: Seq<Seq<Seq<i32>>>) -> (
    SetupView,
    SetupActionView,
)
    decreases reports.len(),
{
    if reports.len() == 0 {
        SetupView::start(topics, ConsumeMode::Tail)
    } else {
        after_reports(topics, reports.drop_last()).0.step(SetupEventView::Metadata(reports.last()))
    }
}

/// In tail mode the metadata of every topic is asked for, topic after
/// topic and each with the same bound on the wait, and once the last has
/// arrived the tail plan of all the metadata is assigned: every partition
/// that the broker reported, once, from its end.
pub proof fn lemma_tail_mode_fetches_then_assigns(
    topics: Seq<Seq<char>>,
    reports: Seq<Seq<Seq<i32>>>,
)
    requires
        reports.len() <= topics.len(),
    ensures
        after_reports(topics, reports).0.topics == topics,
        after_reports(topics, reports).0.fetched == reports.len(),
        after_reports(topics, reports).0.metadata == gathered(topics, reports),
        reports.len() < topics.len() ==> after_reports(topics, reports) == (
            SetupView {
                topics,
                fetched: reports.len(),
                metadata: gathered(topics, reports),
                stage: SetupStage::Fetching,
            },
            SetupActionView::FetchMetadata {
                topic: topics[reports.len() as int],
                timeout_ms: METADATA_TIMEOUT_MS,
            },
        ),
        reports.len() == topics.len() ==> after_reports(topics, reports) == (
            SetupView {
                topics,
                fetched: reports.len(),
                metadata: gathered(topics, reports),
                stage: SetupStage::Assigning,
            },
            SetupActionView::Assign { assignments: tail_plan(gathered(topics, reports)) },
        ),
    decreases reports.len(),
{
    if reports.len() > 0 {
        lemma_tail_mode_fetches_then_assigns(topics, reports.drop_last());
    }
}

/// In group mode the topics are subscribed to, and nothing else is asked
/// of the broker. In either mode the consumer is ready once the
/// subscription or the assignment is made, and a failure of the broker
/// client at any point ends the setup with that failure.
pub proof fn lemma_setup_ends(state: SetupView, error: BrokerErrorView)
    ensures
        SetupView::start(state.topics, ConsumeMode::Group).1 == (SetupActionView::Subscribe {
            topics: state.topics,
        }),
        SetupView::start(state.topics, ConsumeMode::Group).0.step(SetupEventView::Done).1
            == SetupActionView::Ready,
        state.stage == SetupStage::Assigning ==> state.step(SetupEventView::Done).1
            == SetupActionView::Ready,
        (state.stage == SetupStage::Subscribing || state.stage == SetupStage::Fetching
            || state.stage == SetupStage::Assigning) ==> state.step(
            SetupEventView::Failed(error),
        ) == (
            SetupView { stage: SetupStage::Failed, ..state },
            SetupActionView::Abort(SetupErrorView::Broker(error)),
        ),
        (state.stage == SetupStage::Ready || state.stage == SetupStage::Failed) ==> state.step(
            SetupEventView::Done,
        ).1 == SetupActionView::Abort(SetupErrorView::Protocol),
{
}

} // verus!
