//! How a consumer comes by its partitions: through its consumer group, or,
//! without a group, by taking every partition of every topic from the end.

use rdkafka::topic_partition_list::Offset;
use rdkafka::TopicPartitionList;
use vstd::prelude::*;
use vstd::string::*;
use vstd::utf8::encode_utf8;

verus! {

/// How long the broker is given to answer a request for a topic's metadata.
pub const METADATA_TIMEOUT_MS: u64 = 60_000;

/// The two ways to consume.
#[derive(Clone, Copy, Debug, PartialEq, Eq, Structural)]
pub enum ConsumeMode {
    /// Subscribe to the topics; the group's coordination assigns partitions
    /// and keeps offsets.
    Group,
    /// Assign every partition of every topic at its end. Nothing is
    /// remembered between runs.
    Tail,
}

/// The mode of a consumer: that of its group where it names one.
pub fn consume_mode(group_id: &Option<String>) -> (out: ConsumeMode)
    ensures
        out == (if group_id is Some {
            ConsumeMode::Group
        } else {
            ConsumeMode::Tail
        }),
{
    match group_id {
        Some(_) => ConsumeMode::Group,
        None => ConsumeMode::Tail,
    }
}

/// Where in a partition consumption starts.
#[derive(Clone, Copy, Debug, PartialEq, Eq, Structural)]
pub enum StartOffset {
    Beginning,
    End,
    Stored,
    Invalid,
}

/// The partitions that the broker reports for a topic.
#[derive(Debug, PartialEq, Eq)]
pub struct TopicPartitions {
    pub topic: String,
    pub partitions: Vec<i32>,
}

pub struct TopicPartitionsView {
    pub topic: Seq<char>,
    pub partitions: Seq<i32>,
}

impl View for TopicPartitions {
    type V = TopicPartitionsView;

    open spec fn view(&self) -> TopicPartitionsView {
        TopicPartitionsView { topic: self.topic@, partitions: self.partitions@ }
    }
}

pub open spec fn metadata_view(metadata: Seq<TopicPartitions>) -> Seq<TopicPartitionsView> {
    metadata.map_values(|topic: TopicPartitions| topic@)
}

/// One partition to consume, and from where.
#[derive(Debug, PartialEq, Eq)]
pub struct Assignment {
    pub topic: String,
    pub partition: i32,
    pub offset: StartOffset,
}

pub struct AssignmentView {
    pub topic: Seq<char>,
    pub partition: i32,
    pub offset: StartOffset,
}

impl View for Assignment {
    type V = AssignmentView;

    open spec fn view(&self) -> AssignmentView {
        AssignmentView { topic: self.topic@, partition: self.partition, offset: self.offset }
    }
}

pub open spec fn assignments_view(assignments: Seq<Assignment>) -> Seq<AssignmentView> {
    assignments.map_values(|assignment: Assignment| assignment@)
}

/// The partitions of one topic, each at the end.
pub open spec fn tail_of_topic(topic: TopicPartitionsView) -> Seq<AssignmentView> {
    topic.partitions.map_values(
        |partition: i32|
            AssignmentView { topic: topic.topic, partition, offset: StartOffset::End },
    )
}

/// The partitions of all topics, each at the end, topic after topic.
pub open spec fn tail_of_topics(metadata: Seq<TopicPartitionsView>) -> Seq<AssignmentView>
    decreases metadata.len(),
{
    if metadata.len() == 0 {
        Seq::empty()
    } else {
        tail_of_topics(metadata.drop_last()) + tail_of_topic(metadata.last())
    }
}

/// The same assignments with every repetition of an earlier one left out.
pub open spec fn without_repeats(assignments: Seq<AssignmentView>) -> Seq<AssignmentView>
    decreases assignments.len(),
{
    if assignments.len() == 0 {
        Seq::empty()
    } else if without_repeats(assignments.drop_last()).contains(assignments.last()) {
        without_repeats(assignments.drop_last())
    } else {
        without_repeats(assignments.drop_last()).push(assignments.last())
    }
}

/// The assignments of tail mode: one for each pair of topic and partition
/// that the metadata names, at the end of the partition, in the order in
/// which the metadata names them.
pub open spec fn tail_plan(metadata: Seq<TopicPartitionsView>) -> Seq<AssignmentView> {
    without_repeats(tail_of_topics(metadata))
}

fn holds(assignments: &Vec<Assignment>, topic: &String, partition: i32) -> (out: bool)
    requires
        forall|k: int|
            0 <= k < assignments.len() ==> (#[trigger] assignments@[k]).offset == StartOffset::End,
    ensures
        out == assignments_view(assignments@).contains(
            AssignmentView { topic: topic@, partition, offset: StartOffset::End },
        ),
{
    let ghost wanted = AssignmentView { topic: topic@, partition, offset: StartOffset::End };
    let mut i: usize = 0;
    while i < assignments.len()
        invariant
            0 <= i <= assignments.len(),
            wanted == (AssignmentView { topic: topic@, partition, offset: StartOffset::End }),
            forall|k: int|
                0 <= k < assignments.len() ==> (#[trigger] assignments@[k]).offset
                    == StartOffset::End,
            forall|k: int| 0 <= k < i ==> (#[trigger] assignments_view(assignments@)[k]) != wanted,
        decreases assignments.len() - i,
    {
        let entry = &assignments[i];
        if entry.partition == partition && entry.topic == *topic {
            assert(assignments_view(assignments@)[i as int] == wanted);
            return true;
        }
        assert(assignments_view(assignments@)[i as int] != wanted);
        i = i + 1;
    }
    false
}

/// Plans tail mode from the metadata of the requested topics.
pub fn tail_assignments(metadata: &Vec<TopicPartitions>) -> (out: Vec<Assignment>)
    ensures
        assignments_view(out@) == tail_plan(metadata_view(metadata@)),
{
    let ghost topics = metadata_view(metadata@);
    let mut out: Vec<Assignment> = Vec::new();
    let mut i: usize = 0;
    assert(topics.take(0) =~= Seq::empty());
    assert(assignments_view(out@) =~= Seq::empty());
    while i < metadata.len()
        invariant
            0 <= i <= metadata.len(),
            topics == metadata_view(metadata@),
            forall|k: int| 0 <= k < out.len() ==> (#[trigger] out@[k]).offset == StartOffset::End,
            assignments_view(out@) == without_repeats(tail_of_topics(topics.take(i as int))),
        decreases metadata.len() - i,
    {
        let topic = &metadata[i];
        let ghost before = tail_of_topics(topics.take(i as int));
        let ghost here = tail_of_topic(topics[i as int]);
        let mut j: usize = 0;
        assert(before + here.take(0) =~= before);
        while j < topic.partitions.len()
            invariant
                0 <= j <= topic.partitions.len(),
                0 <= i < metadata.len(),
                topics == metadata_view(metadata@),
                topic == &metadata@[i as int],
                here == tail_of_topic(topics[i as int]),
                forall|k: int|
                    0 <= k < out.len() ==> (#[trigger] out@[k]).offset == StartOffset::End,
                assignments_view(out@) == without_repeats(before + here.take(j as int)),
            decreases topic.partitions.len() - j,
        {
            let partition = topic.partitions[j];
            let ghost next = AssignmentView {
                topic: topic.topic@,
                partition,
                offset: StartOffset::End,
            };
            proof {
                assert(here[j as int] == next);
                assert(before + here.take(j + 1) =~= (before + here.take(j as int)).push(next));
                assert((before + here.take(j as int)).push(next).drop_last() =~= before
                    + here.take(j as int));
            }
            if !holds(&out, &topic.topic, partition) {
                let ghost old_view = assignments_view(out@);
                out.push(Assignment { topic: topic.topic.clone(), partition, offset: StartOffset::End });
                assert(assignments_view(out@) =~= old_view.push(next));
            }
            j = j + 1;
        }
        proof {
            assert(here.take(j as int) =~= here);
            assert(topics.take(i + 1).drop_last() =~= topics.take(i as int));
            assert(topics.take(i + 1).last() == topics[i as int]);
        }
        i = i + 1;
    }
    assert(topics.take(i as int) =~= topics);
    out
}

/// The metadata names partition `j` of topic `i` as this assignment at the
/// end of the partition.
pub open spec fn names_at(
    metadata: Seq<TopicPartitionsView>,
    i: int,
    j: int,
    assignment: AssignmentView,
) -> bool {
    &&& 0 <= i < metadata.len()
    &&& 0 <= j < metadata[i].partitions.len()
    &&& assignment == (AssignmentView {
        topic: metadata[i].topic,
        partition: metadata[i].partitions[j],
        offset: StartOffset::End,
    })
}

/// The metadata names this pair of topic and partition.
pub open spec fn names(metadata: Seq<TopicPartitionsView>, assignment: AssignmentView) -> bool {
    exists|i: int, j: int| names_at(metadata, i, j, assignment)
}

proof fn lemma_without_repeats(assignments: Seq<AssignmentView>)
    ensures
        without_repeats(assignments).no_duplicates(),
        forall|a: AssignmentView|
            #[trigger] without_repeats(assignments).contains(a) <==> assignments.contains(a),
        assignments.no_duplicates() ==> without_repeats(assignments) == assignments,
        without_repeats(assignments).len() <= assignments.len(),
    decreases assignments.len(),
{
    if assignments.len() > 0 {
        let front = assignments.drop_last();
        let last = assignments.last();
        lemma_without_repeats(front);
        let kept = without_repeats(front);
        assert forall|a: AssignmentView| #[trigger]
            without_repeats(assignments).contains(a) <==> assignments.contains(a) by {
            if assignments.contains(a) {
                let k = choose|k: int| 0 <= k < assignments.len() && assignments[k] == a;
                if k < front.len() {
                    assert(front[k] == a);
                    assert(kept.contains(a));
                    if !kept.contains(last) {
                        let m = choose|m: int| 0 <= m < kept.len() && kept[m] == a;
                        assert(kept.push(last)[m] == a);
                    }
                } else {
                    assert(a == last);
                    if !kept.contains(last) {
                        assert(kept.push(last)[kept.len() as int] == last);
                    }
                }
            }
            if without_repeats(assignments).contains(a) {
                let k = choose|k: int|
                    0 <= k < without_repeats(assignments).len() && without_repeats(assignments)[k]
                        == a;
                if kept.contains(last) || k < kept.len() {
                    assert(kept[k] == a);
                    assert(kept.contains(a));
                    let m = choose|m: int| 0 <= m < front.len() && front[m] == a;
                    assert(assignments[m] == a);
                } else {
                    assert(a == last);
                    assert(assignments[assignments.len() - 1] == a);
                }
            }
        }
        if assignments.no_duplicates() {
            assert(front.no_duplicates());
            if kept.contains(last) {
                let m = choose|m: int| 0 <= m < front.len() && front[m] == last;
                assert(assignments[m] == assignments[assignments.len() - 1]);
            }
            assert(kept.push(last) =~= assignments);
        }
    }
}

proof fn lemma_tail_of_topics(metadata: Seq<TopicPartitionsView>)
    ensures
        forall|a: AssignmentView| #[trigger]
            tail_of_topics(metadata).contains(a) <==> names(metadata, a),
    decreases metadata.len(),
{
    let all = tail_of_topics(metadata);
    if metadata.len() == 0 {
        assert forall|a: AssignmentView| #[trigger] all.contains(a) <==> names(metadata, a) by {
            if names(metadata, a) {
                let (i, j) = choose|i: int, j: int| names_at(metadata, i, j, a);
            }
        }
    } else {
        let front = metadata.drop_last();
        let last = metadata.last();
        let n = metadata.len() - 1;
        lemma_tail_of_topics(front);
        let before = tail_of_topics(front);
        let here = tail_of_topic(last);
        assert forall|a: AssignmentView| #[trigger] all.contains(a) <==> names(metadata, a) by {
            if all.contains(a) {
                let k = choose|k: int| 0 <= k < all.len() && all[k] == a;
                if k < before.len() {
                    assert(before[k] == a);
                    assert(before.contains(a));
                    assert(names(front, a));
                    let (i, j) = choose|i: int, j: int| names_at(front, i, j, a);
                    assert(names_at(metadata, i, j, a));
                } else {
                    assert(here[k - before.len()] == a);
                    assert(names_at(metadata, n, k - before.len(), a));
                }
            }
            if names(metadata, a) {
                let (i, j) = choose|i: int, j: int| names_at(metadata, i, j, a);
                if i < n {
                    assert(names_at(front, i, j, a));
                    assert(names(front, a));
                    assert(before.contains(a));
                    let k = choose|k: int| 0 <= k < before.len() && before[k] == a;
                    assert(all[k] == a);
                } else {
                    assert(here[j] == a);
                    assert(all[before.len() + j] == a);
                }
            }
        }
    }
}

/// Tail mode assigns one partition for each pair of topic and partition
/// that the metadata names, never one twice, and each at the end. Where the
/// metadata names no pair twice, the assignments are the pairs in the order
/// of the metadata.
pub proof fn lemma_tail_plan_is_one_per_pair(metadata: Seq<TopicPartitionsView>)
    ensures
        tail_plan(metadata).no_duplicates(),
        forall|a: AssignmentView| #[trigger]
            tail_plan(metadata).contains(a) <==> names(metadata, a),
        forall|k: int|
            0 <= k < tail_plan(metadata).len() ==> (#[trigger] tail_plan(metadata)[k]).offset
                == StartOffset::End,
        tail_of_topics(metadata).no_duplicates() ==> tail_plan(metadata) == tail_of_topics(
            metadata,
        ),
{
    lemma_without_repeats(tail_of_topics(metadata));
    lemma_tail_of_topics(metadata);
    assert forall|k: int| 0 <= k < tail_plan(metadata).len() implies (#[trigger] tail_plan(
        metadata,
    )[k]).offset == StartOffset::End by {
        let a = tail_plan(metadata)[k];
        assert(tail_plan(metadata).contains(a));
        assert(names(metadata, a));
        let (i, j) = choose|i: int, j: int| names_at(metadata, i, j, a);
    }
}

/// Declares `rdkafka::TopicPartitionList`, the broker client's list of
/// partitions with offsets, as a type whose inside is not looked at.
#[verifier::external_type_specification]
#[verifier::external_body]
pub struct ExTopicPartitionList(TopicPartitionList);

/// The entries of a broker-client partition list, in order.
pub uninterp spec fn listed(list: TopicPartitionList) -> Seq<AssignmentView>;

/// No assignments at all.
pub open spec fn no_assignments() -> Seq<AssignmentView> {
    Seq::empty()
}

/// The name of a topic holds a zero byte. The broker client takes no such
/// name.
pub open spec fn has_nul(topic: Seq<char>) -> bool {
    encode_utf8(topic).contains(0u8)
}

/// The list has an entry for this topic and partition.
pub open spec fn lists_pair(entries: Seq<AssignmentView>, topic: Seq<char>, partition: i32) -> bool {
    exists|k: int|
        0 <= k < entries.len() && (#[trigger] entries[k]).topic == topic && entries[k].partition
            == partition
}

/// Calls `rdkafka::TopicPartitionList::new`, which makes an empty list.
#[verifier::external_body]
fn empty_list() -> (out: TopicPartitionList)
    ensures
        listed(out) == no_assignments(),
{
    TopicPartitionList::new()
}

/// Calls `rdkafka::TopicPartitionList::add_partition_offset`, which appends
/// an entry for the topic and partition and then sets the offset of the
/// first entry for that topic and partition. Where the list had no such
/// entry that is the new one, and each of the four offsets has a raw value,
/// so the call cannot fail: its result is not looked at, and the list is
/// longer by this entry. The call panics on a topic name with a zero byte.
#[verifier::external_body]
fn add_to_list(list: &mut TopicPartitionList, topic: &str, partition: i32, offset: StartOffset)
    requires
        !has_nul(topic@),
        !lists_pair(listed(*old(list)), topic@, partition),
    ensures
        listed(*final(list)) == listed(*old(list)).push(
            AssignmentView { topic: topic@, partition, offset },
        ),
{
    let at = match offset {
        StartOffset::Beginning => Offset::Beginning,
        StartOffset::End => Offset::End,
        StartOffset::Stored => Offset::Stored,
        StartOffset::Invalid => Offset::Invalid,
    };
    let _ = list.add_partition_offset(topic, partition, at);
}

/// What keeps an assignment out of a partition list.
#[derive(Clone, Copy, Debug, PartialEq, Eq, Structural)]
pub enum Flaw {
    /// The name of the topic holds a zero byte.
    NulInTopic,
    /// An earlier assignment names the same topic and partition.
    Repeated,
}

/// The assignment that could not be listed, and why.
#[derive(Clone, Copy, Debug, PartialEq, Eq, Structural)]
pub struct PartitionListError {
    pub index: usize,
    pub flaw: Flaw,
}

/// What is wrong with assignment `i` in itself, if anything.
pub open spec fn flaw_at(assignments: Seq<AssignmentView>, i: int) -> Option<Flaw> {
    if has_nul(assignments[i].topic) {
        Some(Flaw::NulInTopic)
    } else if lists_pair(assignments.take(i), assignments[i].topic, assignments[i].partition) {
        Some(Flaw::Repeated)
    } else {
        None
    }
}

fn topic_has_nul(topic: &String) -> (out: bool)
    ensures
        out == has_nul(topic@),
{
    let bytes = topic.as_str().as_bytes();
    let mut i: usize = 0;
    while i < bytes.len()
        invariant
            0 <= i <= bytes.len(),
            bytes@ == encode_utf8(topic@),
            forall|k: int| 0 <= k < i ==> bytes@[k] != 0u8,
        decreases bytes.len() - i,
    {
        if bytes[i] == 0 {
            assert(bytes@[i as int] == 0u8);
            return true;
        }
        i = i + 1;
    }
    false
}

fn names_pair(assignments: &Vec<Assignment>, n: usize, topic: &String, partition: i32) -> (out: bool)
    requires
        n <= assignments.len(),
    ensures
        out == lists_pair(assignments_view(assignments@).take(n as int), topic@, partition),
{
    let ghost entries = assignments_view(assignments@).take(n as int);
    let mut i: usize = 0;
    while i < n
        invariant
            0 <= i <= n <= assignments.len(),
            entries == assignments_view(assignments@).take(n as int),
            forall|k: int|
                0 <= k < i ==> !((#[trigger] entries[k]).topic == topic@ && entries[k].partition
                    == partition),
        decreases n - i,
    {
        let entry = &assignments[i];
        if entry.partition == partition && entry.topic == *topic {
            assert(entries[i as int].topic == topic@ && entries[i as int].partition == partition);
            return true;
        }
        i = i + 1;
    }
    false
}

/// The first assignment that has a flaw, if any has one.
pub open spec fn first_flaw(assignments: Seq<AssignmentView>) -> Option<PartitionListError> {
    if exists|i: int| is_first_flaw(assignments, i) {
        let i = choose|i: int| is_first_flaw(assignments, i);
        Some(PartitionListError { index: i as usize, flaw: flaw_at(assignments, i).unwrap() })
    } else {
        None
    }
}

/// Assignment `i` has a flaw, and none before it has one.
pub open spec fn is_first_flaw(assignments: Seq<AssignmentView>, i: int) -> bool {
    &&& 0 <= i < assignments.len()
    &&& flaw_at(assignments, i) is Some
    &&& forall|k: int| 0 <= k < i ==> flaw_at(assignments, k) is None
}

/// Builds the broker client's partition list from assignments. Assignments
/// without a flaw always give a list, which holds them in their order. The
/// first assignment with a flaw ends the attempt.
pub fn partition_list(assignments: &Vec<Assignment>) -> (out: Result<
    TopicPartitionList,
    PartitionListError,
>)
    ensures
        out is Ok <==> (forall|i: int|
            0 <= i < assignments.len() ==> flaw_at(assignments_view(assignments@), i) is None),
        match out {
            Ok(list) => listed(list) == assignments_view(assignments@),
            Err(error) => {
                &&& is_first_flaw(assignments_view(assignments@), error.index as int)
                &&& flaw_at(assignments_view(assignments@), error.index as int) == Some(error.flaw)
                &&& first_flaw(assignments_view(assignments@)) == Some(error)
            },
        },
{
    let ghost view = assignments_view(assignments@);
    let mut list = empty_list();
    let mut i: usize = 0;
    assert(view.take(0) =~= no_assignments());
    while i < assignments.len()
        invariant
            0 <= i <= assignments.len(),
            view == assignments_view(assignments@),
            listed(list) == view.take(i as int),
            forall|k: int| 0 <= k < i ==> flaw_at(view, k) is None,
        decreases assignments.len() - i,
    {
        let entry = &assignments[i];
        assert(view[i as int] == entry@);
        if topic_has_nul(&entry.topic) {
            proof {
                lemma_first_flaw_is_unique(view, i as int);
            }
            return Err(PartitionListError { index: i, flaw: Flaw::NulInTopic });
        }
        if names_pair(assignments, i, &entry.topic, entry.partition) {
            proof {
                lemma_first_flaw_is_unique(view, i as int);
            }
            return Err(PartitionListError { index: i, flaw: Flaw::Repeated });
        }
        add_to_list(&mut list, entry.topic.as_str(), entry.partition, entry.offset);
        assert(view.take(i + 1) =~= view.take(i as int).push(view[i as int]));
        i = i + 1;
    }
    assert(view.take(i as int) =~= view);
    Ok(list)
}

/// At most one assignment is the first with a flaw.
pub proof fn lemma_first_flaw_is_unique(assignments: Seq<AssignmentView>, i: int)
    requires
        is_first_flaw(assignments, i),
    ensures
        first_flaw(assignments) == Some(
            PartitionListError { index: i as usize, flaw: flaw_at(assignments, i).unwrap() },
        ),
{
    let chosen = choose|k: int| is_first_flaw(assignments, k);
    if chosen < i {
        assert(flaw_at(assignments, chosen) is None);
    } else if i < chosen {
        assert(flaw_at(assignments, i) is None);
    }
}

/// An assignment of the tail plan has no flaw but, possibly, a zero byte in
/// the name of its topic.
pub proof fn lemma_tail_plan_has_no_repeats(metadata: Seq<TopicPartitionsView>, i: int)
    requires
        0 <= i < tail_plan(metadata).len(),
    ensures
        flaw_at(tail_plan(metadata), i) != Some(Flaw::Repeated),
{
    let plan = tail_plan(metadata);
    lemma_tail_plan_is_one_per_pair(metadata);
    if !has_nul(plan[i].topic) && lists_pair(plan.take(i), plan[i].topic, plan[i].partition) {
        let k = choose|k: int|
            0 <= k < plan.take(i).len() && (#[trigger] plan.take(i)[k]).topic == plan[i].topic
                && plan.take(i)[k].partition == plan[i].partition;
        assert(plan[k].offset == StartOffset::End);
        assert(plan[i].offset == StartOffset::End);
        assert(plan[k] == plan[i]);
    }
}

/// The tail plan always gives a partition list, unless the name of a topic
/// holds a zero byte.
pub proof fn lemma_tail_plan_is_listable(metadata: Seq<TopicPartitionsView>)
    requires
        forall|i: int| 0 <= i < metadata.len() ==> !has_nul((#[trigger] metadata[i]).topic),
    ensures
        forall|i: int|
            0 <= i < tail_plan(metadata).len() ==> flaw_at(tail_plan(metadata), i) is None,
        first_flaw(tail_plan(metadata)) is None,
{
    let plan = tail_plan(metadata);
    lemma_tail_plan_is_one_per_pair(metadata);
    assert forall|i: int| 0 <= i < plan.len() implies flaw_at(plan, i) is None by {
        lemma_tail_plan_has_no_repeats(metadata, i);
        assert(plan.contains(plan[i]));
        assert(names(metadata, plan[i]));
        let (t, p) = choose|t: int, p: int| names_at(metadata, t, p, plan[i]);
        assert(!has_nul(metadata[t].topic));
    }
}

} // verus!
