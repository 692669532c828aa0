use vstd::prelude::*;
use vstd::std_specs::cmp::PartialEqSpec;

use crate::time::{opt_timestamp_view, rmw_time_point, Timestamp};

verus! {

/// Number of bytes in a publisher identifier.
pub const RMW_GID_STORAGE_SIZE: usize = 24;

/// The sequence number that a middleware reports when it does not support
/// sequence numbers.
pub const SEQUENCE_NUMBER_UNSUPPORTED: u64 = 0xffff_ffff_ffff_ffff;

/// The characters of an optional borrowed string, if any.
pub open spec fn opt_str_view(s: Option<&str>) -> Option<Seq<char>> {
    match s {
        Some(s) => Some(s@),
        None => None,
    }
}

/// A publisher identifier as the middleware hands it over.
#[derive(Clone, Copy, Debug)]
pub struct RmwGid<'a> {
    /// Opaque bytes identifying the publisher.
    pub data: [u8; RMW_GID_STORAGE_SIZE],
    /// Name of the middleware implementation that produced `data`, if it
    /// gave one.
    pub implementation_identifier: Option<&'a str>,
}

/// The flat record that the middleware hands over with each received
/// message. Timestamps are signed nanoseconds from the Unix epoch, with zero
/// meaning "not set".
#[derive(Clone, Copy, Debug)]
pub struct RmwMessageInfo<'a> {
    /// When the publisher stamped the message.
    pub source_timestamp: i64,
    /// When the subscription took delivery of the message.
    pub received_timestamp: i64,
    /// Counter set by the publisher.
    pub publication_sequence_number: u64,
    /// Counter set by the subscription.
    pub reception_sequence_number: u64,
    /// Identifier of the publisher that sent the message.
    pub publisher_gid: RmwGid<'a>,
    /// Whether the message came from a publisher in the same process.
    pub from_intra_process: bool,
}

/// An identifier for a publisher in the local context.
///
/// The bytes identify the publisher within one middleware implementation
/// and one process only: identifiers from other processes, or from other
/// implementations, may collide with them. Two identifiers are equal exactly
/// when their bytes are; the implementation name is kept for diagnostics and
/// takes no part in equality. No ordering is defined.
///
/// The implementation name is borrowed from the middleware, which keeps it
/// alive for as long as it is initialized; nothing here owns or frees it.
/// The value is immutable, so it may be read from several threads at once.
#[derive(Clone, Copy, Debug)]
pub struct PublisherGid<'a> {
    data: [u8; RMW_GID_STORAGE_SIZE],
    implementation_identifier: Option<&'a str>,
}

/// The abstract content of a [`PublisherGid`].
pub ghost struct PublisherGidView {
    pub data: Seq<u8>,
    pub implementation_identifier: Option<Seq<char>>,
}

impl<'a> View for PublisherGid<'a> {
    type V = PublisherGidView;

    closed spec fn view(&self) -> PublisherGidView {
        PublisherGidView {
            data: self.data@,
            implementation_identifier: opt_str_view(self.implementation_identifier),
        }
    }
}

impl<'a> PublisherGid<'a> {
    /// The bytes that identify the publisher.
    pub fn data(&self) -> (r: [u8; RMW_GID_STORAGE_SIZE])
        ensures
            r@ == self@.data,
    {
        self.data
    }

    /// The name of the middleware implementation that produced the bytes.
    pub fn implementation_identifier(&self) -> (r: Option<&'a str>)
        ensures
            opt_str_view(r) == self@.implementation_identifier,
    {
        self.implementation_identifier
    }

    /// Whether two identifiers hold the same bytes.
    fn same_data(&self, other: &PublisherGid<'a>) -> (r: bool)
        ensures
            r == (self@.data == other@.data),
    {
        let mut i: usize = 0;
        while i < RMW_GID_STORAGE_SIZE
            invariant
                i <= RMW_GID_STORAGE_SIZE,
                forall|j: int| 0 <= j < i ==> self.data@[j] == other.data@[j],
            decreases RMW_GID_STORAGE_SIZE - i,
        {
            if self.data[i] != other.data[i] {
                assert(self@.data[i as int] != other@.data[i as int]);
                return false;
            }
            i = i + 1;
        }
        assert(self@.data =~= other@.data);
        true
    }
}

impl<'a> PartialEq for PublisherGid<'a> {
    fn eq(&self, other: &PublisherGid<'a>) -> (r: bool) {
        self.same_data(other)
    }
}

impl<'a> vstd::std_specs::cmp::PartialEqSpecImpl for PublisherGid<'a> {
    open spec fn obeys_eq_spec() -> bool {
        true
    }

    open spec fn eq_spec(&self, other: &PublisherGid<'a>) -> bool {
        self@.data == other@.data
    }
}

impl<'a> Eq for PublisherGid<'a> {
}

/// Two publisher identifiers compare equal exactly when their bytes are
/// equal, whatever implementation names they carry.
pub proof fn lemma_gid_equality_is_on_bytes(a: PublisherGid, b: PublisherGid)
    ensures
        <PublisherGid as PartialEqSpec>::obeys_eq_spec(),
        a@.data == b@.data ==> a.eq_spec(&b),
        a@.data != b@.data ==> !a.eq_spec(&b),
{
}

/// Additional information about a received message.
///
/// Built once per message from the middleware's raw record and then only
/// read; it may be read from several threads at once.
#[derive(Clone, Copy, Debug)]
pub struct MessageInfo<'a> {
    source_timestamp: Option<Timestamp>,
    received_timestamp: Option<Timestamp>,
    publication_sequence_number: u64,
    reception_sequence_number: u64,
    publisher_gid: PublisherGid<'a>,
}

/// The abstract content of a [`MessageInfo`]: timestamps as signed
/// nanoseconds from the Unix epoch.
pub ghost struct MessageInfoView {
    pub source_timestamp: Option<int>,
    pub received_timestamp: Option<int>,
    pub publication_sequence_number: u64,
    pub reception_sequence_number: u64,
    pub publisher_gid: PublisherGidView,
}

impl<'a> View for MessageInfo<'a> {
    type V = MessageInfoView;

    closed spec fn view(&self) -> MessageInfoView {
        MessageInfoView {
            source_timestamp: opt_timestamp_view(self.source_timestamp),
            received_timestamp: opt_timestamp_view(self.received_timestamp),
            publication_sequence_number: self.publication_sequence_number,
            reception_sequence_number: self.reception_sequence_number,
            publisher_gid: self.publisher_gid@,
        }
    }
}

/// A sequence number, or nothing for the "unsupported" sentinel.
pub open spec fn supported_sequence_number(n: u64) -> Option<u64> {
    if n == SEQUENCE_NUMBER_UNSUPPORTED {
        None
    } else {
        Some(n)
    }
}

fn sequence_number_if_supported(n: u64) -> (r: Option<u64>)
    ensures
        r == supported_sequence_number(n),
{
    if n == SEQUENCE_NUMBER_UNSUPPORTED {
        None
    } else {
        Some(n)
    }
}

fn same_timestamp(a: Option<Timestamp>, b: Option<Timestamp>) -> (r: bool)
    ensures
        r == (opt_timestamp_view(a) == opt_timestamp_view(b)),
{
    match (a, b) {
        (None, None) => true,
        (Some(x), Some(y)) => x.nanos_since_epoch() == y.nanos_since_epoch(),
        _ => false,
    }
}

impl<'a> MessageInfo<'a> {
    /// Builds the metadata of a message from the middleware's raw record.
    ///
    /// Each timestamp becomes absent where the raw value is the sentinel
    /// zero, and otherwise the Unix epoch moved by the raw number of
    /// nanoseconds, before the epoch for a negative value. Sequence numbers
    /// and the publisher identifier are copied unchanged. Never fails.
    pub fn from_rmw_message_info(rmw_message_info: &RmwMessageInfo<'a>) -> (r: MessageInfo<'a>)
        ensures
            r@.source_timestamp == rmw_time_point(rmw_message_info.source_timestamp),
            r@.received_timestamp == rmw_time_point(rmw_message_info.received_timestamp),
            r@.publication_sequence_number == rmw_message_info.publication_sequence_number,
            r@.reception_sequence_number == rmw_message_info.reception_sequence_number,
            r@.publisher_gid.data == rmw_message_info.publisher_gid.data@,
            r@.publisher_gid.implementation_identifier == opt_str_view(
                rmw_message_info.publisher_gid.implementation_identifier,
            ),
    {
        let source_timestamp = Timestamp::from_rmw_time_point(rmw_message_info.source_timestamp);
        let received_timestamp = Timestamp::from_rmw_time_point(
            rmw_message_info.received_timestamp,
        );
        let publisher_gid = PublisherGid {
            data: rmw_message_info.publisher_gid.data,
            implementation_identifier: rmw_message_info.publisher_gid.implementation_identifier,
        };
        MessageInfo {
            source_timestamp,
            received_timestamp,
            publication_sequence_number: rmw_message_info.publication_sequence_number,
            reception_sequence_number: rmw_message_info.reception_sequence_number,
            publisher_gid,
        }
    }

    /// Time when the message was published, if the middleware reported it.
    pub fn source_timestamp(&self) -> (r: Option<Timestamp>)
        ensures
            opt_timestamp_view(r) == self@.source_timestamp,
    {
        self.source_timestamp
    }

    /// Time when the subscription received the message, if the middleware
    /// reported it.
    pub fn received_timestamp(&self) -> (r: Option<Timestamp>)
        ensures
            opt_timestamp_view(r) == self@.received_timestamp,
    {
        self.received_timestamp
    }

    /// Sequence number set by the publisher. For two messages of one
    /// publisher it grows from the earlier to the later (but for wrap-around),
    /// and the difference less one counts the messages sent in between.
    /// [`SEQUENCE_NUMBER_UNSUPPORTED`] means the middleware has none.
    pub fn publication_sequence_number(&self) -> (r: u64)
        ensures
            r == self@.publication_sequence_number,
    {
        self.publication_sequence_number
    }

    /// Sequence number set by the subscription, whichever publisher sent the
    /// message. It grows from one received message to the next (but for
    /// wrap-around), by one exactly when they were received back to back.
    /// [`SEQUENCE_NUMBER_UNSUPPORTED`] means the middleware has none.
    pub fn reception_sequence_number(&self) -> (r: u64)
        ensures
            r == self@.reception_sequence_number,
    {
        self.reception_sequence_number
    }

    /// The publication sequence number, or `None` where the middleware does
    /// not support sequence numbers.
    pub fn publication_sequence_number_if_supported(&self) -> (r: Option<u64>)
        ensures
            r == supported_sequence_number(self@.publication_sequence_number),
    {
        sequence_number_if_supported(self.publication_sequence_number)
    }

    /// The reception sequence number, or `None` where the middleware does
    /// not support sequence numbers.
    pub fn reception_sequence_number_if_supported(&self) -> (r: Option<u64>)
        ensures
            r == supported_sequence_number(self@.reception_sequence_number),
    {
        sequence_number_if_supported(self.reception_sequence_number)
    }

    /// The identifier of the publisher that sent the message.
    pub fn publisher_gid(&self) -> (r: &PublisherGid<'a>)
        ensures
            r@ == self@.publisher_gid,
    {
        &self.publisher_gid
    }
}

impl<'a> PartialEq for MessageInfo<'a> {
    fn eq(&self, other: &MessageInfo<'a>) -> (r: bool) {
        same_timestamp(self.source_timestamp, other.source_timestamp)
            && same_timestamp(self.received_timestamp, other.received_timestamp)
            && self.publication_sequence_number == other.publication_sequence_number
            && self.reception_sequence_number == other.reception_sequence_number
            && self.publisher_gid.same_data(&other.publisher_gid)
    }
}

impl<'a> vstd::std_specs::cmp::PartialEqSpecImpl for MessageInfo<'a> {
    open spec fn obeys_eq_spec() -> bool {
        true
    }

    /// Equal timestamps and sequence numbers, and publisher identifiers
    /// that compare equal.
    open spec fn eq_spec(&self, other: &MessageInfo<'a>) -> bool {
        &&& self@.source_timestamp == other@.source_timestamp
        &&& self@.received_timestamp == other@.received_timestamp
        &&& self@.publication_sequence_number == other@.publication_sequence_number
        &&& self@.reception_sequence_number == other@.reception_sequence_number
        &&& self@.publisher_gid.data == other@.publisher_gid.data
    }
}

impl<'a> Eq for MessageInfo<'a> {
}

} // verus!
