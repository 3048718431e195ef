//! The queue processor of a device that forwards its requests to a backing
//! resource, and the submitter of the backing operations.
//!
//! Ready tags of the kernel and completions of backing operations arrive on
//! one channel. What tells them apart is the correlation id that every
//! backing operation is submitted with: it holds the tag, the operation code
//! and a mark that says "this is a backing operation".
//!
//! A backing operation that ends with "try again" is submitted again, as
//! often as it takes; the request is derived anew from its descriptor each
//! time. Any other result ends the request: the kernel is told, once, and
//! the record of the request is dropped.

use vstd::prelude::*;
use crate::descriptor::{decode_tag, decoded_at, IoOp, IoRequest, RawDescriptor};
use crate::errno::{eagain, einval, try_again};
use crate::error::IoError;
use crate::sync_queue::{complete, Completion};

verus! {

/// The mark of a backing operation in a correlation id: bit 63.
pub const TARGET_IO_FLAG: u64 = 0x8000_0000_0000_0000;

/// The correlation id of `tag` and `op`: the tag in bits 0 to 15, the
/// operation code in bits 16 to 23, the mark of a backing operation in bit 63.
pub open spec fn user_data_of(tag: u16, op: u8, backing: bool) -> u64 {
    (tag + op * 0x1_0000 + if backing {
        TARGET_IO_FLAG as int
    } else {
        0
    }) as u64
}

/// The tag in a correlation id.
pub open spec fn tag_of(user_data: u64) -> u16 {
    (user_data % 0x1_0000) as u16
}

/// The operation code in a correlation id.
pub open spec fn op_of(user_data: u64) -> u8 {
    ((user_data / 0x1_0000) % 0x100) as u8
}

/// Whether a correlation id bears the mark of a backing operation.
pub open spec fn is_backing(user_data: u64) -> bool {
    user_data >= TARGET_IO_FLAG
}

/// Builds a correlation id.
pub fn build_user_data(tag: u16, op: u8, backing: bool) -> (user_data: u64)
    ensures
        user_data == user_data_of(tag, op, backing),
{
    let t: u64 = tag as u64;
    let o: u64 = op as u64;
    let flag: u64 = if backing {
        TARGET_IO_FLAG
    } else {
        0
    };
    assert(t | (o << 16) | flag == t + o * 0x1_0000 + flag) by (bit_vector)
        requires
            t < 0x1_0000,
            o < 0x100,
            flag == 0 || flag == 0x8000_0000_0000_0000u64,
    ;
    t | (o << 16) | flag
}

/// Reads the tag out of a correlation id.
pub fn user_data_to_tag(user_data: u64) -> (tag: u16)
    ensures
        tag == tag_of(user_data),
{
    assert(user_data & 0xffff == user_data % 0x1_0000) by (bit_vector);
    (user_data & 0xffff) as u16
}

/// Reads the operation code out of a correlation id.
pub fn user_data_to_op(user_data: u64) -> (op: u8)
    ensures
        op == op_of(user_data),
{
    assert((user_data >> 16) & 0xff == (user_data / 0x1_0000) % 0x100) by (bit_vector);
    ((user_data >> 16) & 0xff) as u8
}

/// Tells the completion of a backing operation from a ready tag.
pub fn is_target_io(user_data: u64) -> (backing: bool)
    ensures
        backing == is_backing(user_data),
{
    assert((user_data & 0x8000_0000_0000_0000 != 0) == (user_data >= 0x8000_0000_0000_0000))
        by (bit_vector);
    (user_data & TARGET_IO_FLAG) != 0
}

/// What goes into a correlation id comes out of it again.
pub proof fn lemma_user_data_round_trip(tag: u16, op: u8, backing: bool)
    ensures
        tag_of(user_data_of(tag, op, backing)) == tag,
        op_of(user_data_of(tag, op, backing)) == op,
        is_backing(user_data_of(tag, op, backing)) == backing,
{
}

/// One operation on the backing resource.
#[derive(Clone, Copy, Debug, PartialEq, Eq, Structural)]
pub struct BackingOp {
    /// `Read`, `Write` or `Flush`.
    pub opcode: IoOp,
    /// Offset on the backing resource, in bytes.
    pub offset: u64,
    /// Length in bytes.
    pub length: u32,
    /// The correlation id under which the completion comes back.
    pub user_data: u64,
}

/// The backing operation for a request: reads, writes and flushes are
/// forwarded, with the request's range in bytes; every other operation is
/// refused. A range that cannot be written in the fields of a backing
/// operation is refused too.
pub open spec fn backing_op_of(req: IoRequest) -> Result<BackingOp, IoError> {
    if !(req.op == IoOp::Read || req.op == IoOp::Write || req.op == IoOp::Flush) {
        Err(IoError::Unsupported)
    } else if req.byte_offset() > u64::MAX {
        Err(IoError::OutOfRange)
    } else if req.byte_len() > u32::MAX {
        Err(IoError::TooLarge)
    } else {
        Ok(
            BackingOp {
                opcode: req.op,
                offset: req.byte_offset() as u64,
                length: req.byte_len() as u32,
                user_data: user_data_of(req.tag, req.op.wire_code(), true),
            },
        )
    }
}

/// Builds the backing operation for a request.
pub fn build_backing_op(req: &IoRequest) -> (r: Result<BackingOp, IoError>)
    ensures
        r == backing_op_of(*req),
{
    match req.op {
        IoOp::Read | IoOp::Write | IoOp::Flush => {},
        _ => {
            return Err(IoError::Unsupported);
        },
    }
    let offset: u64 = match req.offset_bytes() {
        Some(offset) => offset,
        None => {
            return Err(IoError::OutOfRange);
        },
    };
    let len: u64 = req.len_bytes();
    if len > u32::MAX as u64 {
        return Err(IoError::TooLarge);
    }
    Ok(
        BackingOp {
            opcode: req.op,
            offset,
            length: len as u32,
            user_data: build_user_data(req.tag, req.op.code(), true),
        },
    )
}

/// The record of a request whose backing operation is under way.
#[derive(Clone, Copy, Debug, PartialEq, Eq, Structural)]
pub struct InFlightRequest {
    pub tag: u16,
    pub opcode: IoOp,
    /// How often the operation was submitted again.
    pub retries: u64,
}

/// One event on the queue's channel.
#[derive(Clone, Copy, Debug, PartialEq, Eq, Structural)]
pub struct QueueEvent {
    /// The correlation id: a bare tag for a request of the kernel, the id
    /// of a backing operation for its completion.
    pub user_data: u64,
    /// The result of a backing operation; without meaning for a ready tag.
    pub result: i32,
}

/// What the queue does about an event.
#[derive(Clone, Copy, Debug, PartialEq, Eq, Structural)]
pub enum QueueAction {
    /// Submit this operation to the backing resource.
    Submit(BackingOp),
    /// Tell the kernel that the request has ended.
    Complete(Completion),
    /// The event belongs to no request; nothing is done.
    Ignore,
}

/// The records of a queue, one place for each tag.
pub type Slots = Seq<Option<InFlightRequest>>;

/// The record of `tag`, where one is kept.
pub open spec fn record_of(slots: Slots, tag: u16) -> Option<InFlightRequest> {
    if (tag as int) < slots.len() {
        slots[tag as int]
    } else {
        None
    }
}

/// The error in the result of a backing operation, where the result calls
/// for another try: "try again" is transient, every other result is final.
pub open spec fn transient_error(result: i32) -> Option<IoError> {
    if result == -eagain() {
        Some(IoError::Transient)
    } else {
        None
    }
}

/// Tells a transient result of a backing operation from a final one.
pub fn check_transient(result: i32) -> (e: Option<IoError>)
    ensures
        e == transient_error(result),
{
    if result == -try_again() {
        Some(IoError::Transient)
    } else {
        None
    }
}

/// The number of retries after one more.
pub open spec fn one_more(retries: u64) -> u64 {
    if retries < u64::MAX {
        (retries + 1) as u64
    } else {
        retries
    }
}

/// Takes up the request of `tag`, anew or again: the descriptor is decoded
/// and the backing operation built and recorded, with the given number of
/// retries. Where that fails the request ends with the error, and no record
/// is kept.
pub open spec fn submit_step(
    slots: Slots,
    descriptors: Seq<RawDescriptor>,
    tag: u16,
    retries: u64,
) -> (Slots, QueueAction) {
    if (tag as int) >= slots.len() {
        (slots, QueueAction::Complete(Completion { tag, code: (-IoError::BadTag.errno()) as i32 }))
    } else {
        let built = match decoded_at(descriptors, tag) {
            Some(req) => backing_op_of(req),
            None => Err(IoError::BadTag),
        };
        match built {
            Ok(op) => (
                slots.update(
                    tag as int,
                    Some(InFlightRequest { tag, opcode: op.opcode, retries }),
                ),
                QueueAction::Submit(op),
            ),
            Err(e) => (
                slots.update(tag as int, None),
                QueueAction::Complete(Completion { tag, code: (-e.errno()) as i32 }),
            ),
        }
    }
}

/// What an event does to the records, and the action that answers it.
///
/// The completion of a backing operation counts only where a record with
/// its tag and operation code is kept. A transient result has the operation
/// submitted once more; any other result ends the request with that result.
/// A ready tag starts a request, unless one with that tag is under way: a
/// tag has one backing operation at a time.
pub open spec fn queue_step(slots: Slots, descriptors: Seq<RawDescriptor>, event: QueueEvent) -> (
    Slots,
    QueueAction,
) {
    let tag = tag_of(event.user_data);
    if is_backing(event.user_data) {
        match record_of(slots, tag) {
            Some(record) => if record.opcode.wire_code() != op_of(event.user_data) {
                (slots, QueueAction::Ignore)
            } else if transient_error(event.result) is Some {
                submit_step(slots, descriptors, tag, one_more(record.retries))
            } else {
                (
                    slots.update(tag as int, None),
                    QueueAction::Complete(Completion { tag, code: event.result }),
                )
            },
            None => (slots, QueueAction::Ignore),
        }
    } else {
        match record_of(slots, tag) {
            Some(_) => (slots, QueueAction::Ignore),
            None => submit_step(slots, descriptors, tag, 0),
        }
    }
}

/// Every record is kept in the place of its own tag.
pub open spec fn slots_wf(slots: Slots) -> bool {
    &&& slots.len() <= 0x1_0000
    &&& forall|i: int|
        0 <= i < slots.len() ==> ((#[trigger] slots[i]) matches Some(record) ==> record.tag == i)
}

/// An event leaves the records in order.
pub proof fn lemma_step_keeps_order(slots: Slots, descriptors: Seq<RawDescriptor>, event: QueueEvent)
    requires
        slots_wf(slots),
    ensures
        slots_wf(queue_step(slots, descriptors, event).0),
        queue_step(slots, descriptors, event).0.len() == slots.len(),
{
}

/// What one event does and does not do. The kernel is told of the end of a
/// request only for the tag of the event, and the record of that tag is
/// gone afterwards; the completion of a backing operation ends a request
/// only where a record of it was kept. An operation is submitted under the
/// mark of a backing operation and the tag of the event, and is on record
/// afterwards; it is the first of a request that was not under way, or the
/// next try of the one whose completion the event is, so that a tag never
/// has two operations under way. The records of all other tags stay as they
/// were.
pub proof fn lemma_step_acts_on_one_tag(
    slots: Slots,
    descriptors: Seq<RawDescriptor>,
    event: QueueEvent,
    other: u16,
)
    ensures
        queue_step(slots, descriptors, event).1 matches QueueAction::Complete(done) ==> {
            &&& done.tag == tag_of(event.user_data)
            &&& record_of(queue_step(slots, descriptors, event).0, done.tag) is None
            &&& is_backing(event.user_data) ==> record_of(slots, done.tag) is Some
        },
        queue_step(slots, descriptors, event).1 matches QueueAction::Submit(op) ==> {
            &&& tag_of(op.user_data) == tag_of(event.user_data)
            &&& is_backing(op.user_data)
            &&& record_of(queue_step(slots, descriptors, event).0, tag_of(event.user_data))
                matches Some(record)
            &&& record.tag == tag_of(event.user_data)
            &&& record.opcode == op.opcode
            &&& record.opcode.wire_code() == op_of(op.user_data)
            &&& is_backing(event.user_data) <==> record_of(slots, tag_of(event.user_data)) is Some
        },
        other != tag_of(event.user_data) ==> record_of(
            queue_step(slots, descriptors, event).0,
            other,
        ) == record_of(slots, other),
{
    let tag = tag_of(event.user_data);
    match decoded_at(descriptors, tag) {
        Some(req) => {
            lemma_user_data_round_trip(req.tag, req.op.wire_code(), true);
        },
        None => {},
    }
}

/// A ready tag whose operation is not forwarded fails at once: the kernel
/// is told "invalid argument" for that tag, nothing is submitted, and the
/// records are as they were.
pub proof fn lemma_unsupported_fails_at_once(
    slots: Slots,
    descriptors: Seq<RawDescriptor>,
    event: QueueEvent,
)
    requires
        !is_backing(event.user_data),
        record_of(slots, tag_of(event.user_data)) is None,
        (tag_of(event.user_data) as int) < slots.len(),
        decoded_at(descriptors, tag_of(event.user_data)) matches Some(req) && !(req.op
            == IoOp::Read || req.op == IoOp::Write || req.op == IoOp::Flush),
    ensures
        queue_step(slots, descriptors, event).1 == QueueAction::Complete(
            Completion { tag: tag_of(event.user_data), code: (-einval()) as i32 },
        ),
        queue_step(slots, descriptors, event).0 == slots,
{
    let tag = tag_of(event.user_data);
    assert(slots.update(tag as int, None) =~= slots);
}

/// What a queue sees at one turn of its loop: descriptor memory as it is
/// then, and the event.
pub struct Arrival {
    pub descriptors: Seq<RawDescriptor>,
    pub event: QueueEvent,
}

/// The records after a run of arrivals.
pub open spec fn slots_after(slots: Slots, arrivals: Seq<Arrival>) -> Slots
    decreases arrivals.len(),
{
    if arrivals.len() == 0 {
        slots
    } else {
        queue_step(
            slots_after(slots, arrivals.drop_last()),
            arrivals.last().descriptors,
            arrivals.last().event,
        ).0
    }
}

/// 1 where a record of `tag` is kept, else 0.
pub open spec fn in_flight_count(slots: Slots, tag: u16) -> nat {
    if record_of(slots, tag) is Some {
        1
    } else {
        0
    }
}

/// How often, in a run of arrivals, the kernel is told that a request of
/// `tag` has ended.
pub open spec fn completed_count(slots: Slots, arrivals: Seq<Arrival>, tag: u16) -> nat
    decreases arrivals.len(),
{
    if arrivals.len() == 0 {
        0
    } else {
        let before = slots_after(slots, arrivals.drop_last());
        let action = queue_step(before, arrivals.last().descriptors, arrivals.last().event).1;
        completed_count(slots, arrivals.drop_last(), tag) + if action matches QueueAction::Complete(
            done,
        ) && done.tag == tag {
            1nat
        } else {
            0nat
        }
    }
}

/// How often, in a run of arrivals, a request of `tag` is started: the tag
/// arrives as ready while no request with it is under way.
pub open spec fn started_count(slots: Slots, arrivals: Seq<Arrival>, tag: u16) -> nat
    decreases arrivals.len(),
{
    if arrivals.len() == 0 {
        0
    } else {
        let before = slots_after(slots, arrivals.drop_last());
        let event = arrivals.last().event;
        started_count(slots, arrivals.drop_last(), tag) + if !is_backing(event.user_data) && tag_of(
            event.user_data,
        ) == tag && record_of(before, tag) is None {
            1nat
        } else {
            0nat
        }
    }
}

/// Every request is completed exactly once. Over any run of arrivals, and
/// for every tag, the requests that were started, and the one that was
/// under way at the beginning, are those that the kernel was told the end
/// of, and the one that is still under way. However often a backing
/// operation is tried again, its request is completed no second time.
pub proof fn lemma_completed_exactly_once(slots: Slots, arrivals: Seq<Arrival>, tag: u16)
    ensures
        completed_count(slots, arrivals, tag) + in_flight_count(slots_after(slots, arrivals), tag)
            == started_count(slots, arrivals, tag) + in_flight_count(slots, tag),
    decreases arrivals.len(),
{
    if arrivals.len() > 0 {
        lemma_completed_exactly_once(slots, arrivals.drop_last(), tag);
        let before = slots_after(slots, arrivals.drop_last());
        let last = arrivals.last();
        lemma_step_acts_on_one_tag(before, last.descriptors, last.event, tag);
    }
}

/// The submitter of one queue: it keeps the records of the requests whose
/// backing operation is under way.
pub struct Submitter {
    slots: Vec<Option<InFlightRequest>>,
}

impl View for Submitter {
    type V = Slots;

    closed spec fn view(&self) -> Slots {
        self.slots@
    }
}

impl Submitter {
    /// A submitter for a queue of the given depth, with nothing in flight.
    pub fn new(depth: u16) -> (submitter: Submitter)
        ensures
            submitter@.len() == depth,
            forall|i: int| 0 <= i < depth ==> submitter@[i] is None,
            slots_wf(submitter@),
    {
        let mut slots: Vec<Option<InFlightRequest>> = Vec::new();
        let mut i: u16 = 0;
        while i < depth
            invariant
                i <= depth,
                slots@.len() == i,
                forall|j: int| 0 <= j < i ==> slots@[j] is None,
            decreases depth - i,
        {
            slots.push(None);
            i += 1;
        }
        Submitter { slots }
    }

    /// The number of tags of the queue.
    pub fn depth(&self) -> (depth: usize)
        ensures
            depth == self@.len(),
    {
        self.slots.len()
    }

    /// The record of `tag`, where its backing operation is under way.
    pub fn in_flight(&self, tag: u16) -> (record: Option<InFlightRequest>)
        ensures
            record == record_of(self@, tag),
    {
        let index: usize = tag as usize;
        if index < self.slots.len() {
            self.slots[index]
        } else {
            None
        }
    }

    fn submit(&mut self, descriptors: &[RawDescriptor], tag: u16, retries: u64) -> (action:
        QueueAction)
        ensures
            (final(self)@, action) == submit_step(old(self)@, descriptors@, tag, retries),
    {
        let index: usize = tag as usize;
        if index >= self.slots.len() {
            return QueueAction::Complete(complete(tag, Err(IoError::BadTag)));
        }
        let built = match decode_tag(descriptors, tag) {
            Some(req) => build_backing_op(&req),
            None => Err(IoError::BadTag),
        };
        match built {
            Ok(op) => {
                self.slots.set(index, Some(InFlightRequest { tag, opcode: op.opcode, retries }));
                QueueAction::Submit(op)
            },
            Err(e) => {
                self.slots.set(index, None);
                QueueAction::Complete(complete(tag, Err(e)))
            },
        }
    }

    /// Takes one event from the queue's channel and says what to do about
    /// it.
    pub fn on_event(&mut self, descriptors: &[RawDescriptor], event: QueueEvent) -> (action:
        QueueAction)
        ensures
            (final(self)@, action) == queue_step(old(self)@, descriptors@, event),
            slots_wf(old(self)@) ==> slots_wf(final(self)@),
    {
        proof {
            if slots_wf(self@) {
                lemma_step_keeps_order(self@, descriptors@, event);
            }
        }
        let tag = user_data_to_tag(event.user_data);
        let record = self.in_flight(tag);
        if is_target_io(event.user_data) {
            match record {
                Some(record) => {
                    if record.opcode.code() != user_data_to_op(event.user_data) {
                        QueueAction::Ignore
                    } else if check_transient(event.result).is_some() {
                        let retries: u64 = if record.retries < u64::MAX {
                            record.retries + 1
                        } else {
                            record.retries
                        };
                        self.submit(descriptors, tag, retries)
                    } else {
                        self.slots.set(tag as usize, None);
                        QueueAction::Complete(Completion { tag, code: event.result })
                    }
                },
                None => QueueAction::Ignore,
            }
        } else {
            match record {
                Some(_) => QueueAction::Ignore,
                None => self.submit(descriptors, tag, 0),
            }
        }
    }
}

} // verus!
