//! What accompanies a message on its way from the log to the handler.

use vstd::prelude::*;

verus! {

/// One header of a message: its name and its value.
pub type Header = (String, Vec<u8>);

pub open spec fn header_view(header: Header) -> (Seq<char>, Seq<u8>) {
    (header.0@, header.1@)
}

pub open spec fn headers_view(headers: Seq<Header>) -> Seq<(Seq<char>, Seq<u8>)> {
    headers.map_values(|header: Header| header_view(header))
}

/// Where a message came from, and what was sent along with it.
#[derive(Debug, PartialEq, Eq)]
pub struct Metadata {
    /// The headers in the order in which the message carries them.
    pub headers: Vec<Header>,
    /// Milliseconds since the epoch, where the message has a timestamp.
    pub timestamp: Option<i64>,
    pub topic: String,
    pub partition: i32,
    pub offset: i64,
}

pub struct MetadataView {
    pub headers: Seq<(Seq<char>, Seq<u8>)>,
    pub timestamp: Option<i64>,
    pub topic: Seq<char>,
    pub partition: i32,
    pub offset: i64,
}

impl View for Metadata {
    type V = MetadataView;

    open spec fn view(&self) -> MetadataView {
        MetadataView {
            headers: headers_view(self.headers@),
            timestamp: self.timestamp,
            topic: self.topic@,
            partition: self.partition,
            offset: self.offset,
        }
    }
}

impl Metadata {
    pub fn new(
        headers: Vec<Header>,
        timestamp: Option<i64>,
        topic: String,
        partition: i32,
        offset: i64,
    ) -> (out: Self)
        ensures
            out@ == (MetadataView {
                headers: headers_view(headers@),
                timestamp,
                topic: topic@,
                partition,
                offset,
            }),
    {
        Metadata { headers, timestamp, topic, partition, offset }
    }

    /// The headers, in order.
    pub fn headers(&self) -> (out: &Vec<Header>)
        ensures
            headers_view(out@) == self@.headers,
    {
        &self.headers
    }
}

} // verus!
