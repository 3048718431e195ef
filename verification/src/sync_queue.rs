//! The queue processor of the memory-backed device.
//!
//! Each ready tag is served in one step: its descriptor is decoded, a read
//! copies from the content into the request's buffer, a write copies from the
//! buffer into the content, and the request is completed with the number of
//! bytes moved or with a negative error code. Every other operation is
//! refused for that tag alone.
//!
//! The content is shared by the queues behind one lock. `handle_io` works
//! on content that the caller holds exclusively; `serve_locked` takes the
//! lock itself, for the length of one copy.

use vstd::prelude::*;
use std::sync::{Mutex, MutexGuard};
use crate::content::{read_range, write_range, ContentBuffer};
use crate::descriptor::{decode_tag, decoded_at, IoOp, IoRequest, RawDescriptor};
use crate::error::IoError;

verus! {

/// How a request on the memory-backed device ends: with the number of bytes
/// moved, or with the error that refuses it. `limit` is the number of bytes
/// the device serves and `buf_len` the length of the request's buffer.
///
/// The operation is looked at first, then the range on the device, then the
/// room in the buffer.
pub open spec fn io_result(req: IoRequest, limit: int, buf_len: int) -> Result<i32, IoError> {
    if !req.op.transfers_data() {
        Err(IoError::Unsupported)
    } else if req.byte_end() > limit {
        Err(IoError::OutOfRange)
    } else if req.byte_len() > buf_len || req.byte_len() > i32::MAX {
        Err(IoError::TooLarge)
    } else {
        Ok(req.byte_len() as i32)
    }
}

/// The content after the request: a write that succeeds lays the front of
/// the buffer over the request's range; anything else leaves the content as
/// it was.
pub open spec fn content_after(req: IoRequest, content: Seq<u8>, limit: int, buf: Seq<u8>) -> Seq<
    u8,
> {
    if io_result(req, limit, buf.len() as int) is Ok && req.op == IoOp::Write {
        write_range(content, req.byte_offset(), read_range(buf, 0, req.byte_len()))
    } else {
        content
    }
}

/// The request's buffer after the request: a read that succeeds lays the
/// request's range of the content over the front of the buffer; anything
/// else leaves the buffer as it was.
pub open spec fn buffer_after(req: IoRequest, content: Seq<u8>, limit: int, buf: Seq<u8>) -> Seq<
    u8,
> {
    if io_result(req, limit, buf.len() as int) is Ok && req.op == IoOp::Read {
        write_range(buf, 0, read_range(content, req.byte_offset(), req.byte_len()))
    } else {
        buf
    }
}

/// Serves one decoded request against the content.
pub fn handle_io(io_buf: &mut [u8], req: &IoRequest, content: &mut ContentBuffer) -> (r: Result<
    i32,
    IoError,
>)
    ensures
        r == io_result(*req, old(content).limit(), old(io_buf)@.len() as int),
        final(content)@ == content_after(*req, old(content)@, old(content).limit(), old(io_buf)@),
        final(io_buf)@ == buffer_after(*req, old(content)@, old(content).limit(), old(io_buf)@),
        final(content).declared_size() == old(content).declared_size(),
{
    match req.op {
        IoOp::Read | IoOp::Write => {},
        _ => {
            return Err(IoError::Unsupported);
        },
    }
    let len: u64 = req.len_bytes();
    let limit: u64 = content.served_len();
    let offset: u64 = match req.offset_bytes() {
        Some(offset) => offset,
        None => {
            return Err(IoError::OutOfRange);
        },
    };
    if offset > limit || len > limit - offset {
        return Err(IoError::OutOfRange);
    }
    let buf_len: usize = io_buf.len();
    if len > buf_len as u64 || len > i32::MAX as u64 {
        return Err(IoError::TooLarge);
    }
    match req.op {
        IoOp::Read => {
            content.copy_out(offset as usize, io_buf, len as usize);
        },
        _ => {
            content.copy_in(offset as usize, io_buf, len as usize);
        },
    }
    Ok(len as i32)
}

/// `std::sync::Mutex`, opaque to the verifier.
#[verifier::external_type_specification]
#[verifier::external_body]
#[verifier::reject_recursive_types(T)]
pub struct ExMutex<T: ?Sized>(Mutex<T>);

/// `std::sync::MutexGuard`, opaque to the verifier.
#[verifier::external_type_specification]
#[verifier::external_body]
#[verifier::reject_recursive_types(T)]
pub struct ExMutexGuard<'a, T: ?Sized + 'a>(MutexGuard<'a, T>);

/// Calls `Mutex::lock`. Trusted: nothing is said of the outcome; `None`
/// stands for a lock that is poisoned.
#[verifier::external_body]
fn lock_content<'a>(content: &'a Mutex<ContentBuffer>) -> (guard: Option<
    MutexGuard<'a, ContentBuffer>,
>) {
    match content.lock() {
        Ok(guard) => Some(guard),
        Err(_) => None,
    }
}

/// Calls `DerefMut::deref_mut` on a guard. Trusted: nothing is said of the
/// content behind the lock, which is whatever the last holder left.
#[verifier::external_body]
fn locked_content<'a, 'b>(guard: &'a mut MutexGuard<'b, ContentBuffer>) -> (content:
    &'a mut ContentBuffer) {
    &mut **guard
}

/// Serves one decoded request against content that is shared behind a
/// lock. The lock is taken for a read or a write only, and held for the
/// length of the one copy. What the request finds is the content as the
/// last holder of the lock left it.
pub fn serve_locked(io_buf: &mut [u8], req: &IoRequest, content: &Mutex<ContentBuffer>) -> (r:
    Result<i32, IoError>)
    ensures
        !req.op.transfers_data() ==> r == Err::<i32, IoError>(IoError::Unsupported)
            && final(io_buf)@ == old(io_buf)@,
        req.op.transfers_data() ==> (r == Err::<i32, IoError>(IoError::LockAcquisition)
            && final(io_buf)@ == old(io_buf)@) || (exists|found: ContentBuffer|
            r == io_result(*req, found.limit(), old(io_buf)@.len() as int) && final(io_buf)@
                == #[trigger] buffer_after(*req, found@, found.limit(), old(io_buf)@)),
{
    match req.op {
        IoOp::Read | IoOp::Write => {},
        _ => {
            return Err(IoError::Unsupported);
        },
    }
    let mut guard = match lock_content(content) {
        Some(guard) => guard,
        None => {
            return Err(IoError::LockAcquisition);
        },
    };
    let held = locked_content(&mut guard);
    let ghost found = *held;
    let r = handle_io(io_buf, req, held);
    assert(io_buf@ == buffer_after(*req, found@, found.limit(), old(io_buf)@));
    r
}

/// What the kernel is told about one request.
#[derive(Clone, Copy, Debug, PartialEq, Eq, Structural)]
pub struct Completion {
    pub tag: u16,
    /// Bytes processed, or a negated error number.
    pub code: i32,
}

/// The code with which a request is completed.
pub open spec fn completion_code(r: Result<i32, IoError>) -> int {
    match r {
        Ok(bytes) => bytes as int,
        Err(e) => -e.errno(),
    }
}

/// Turns the outcome of a request into its completion.
pub fn complete(tag: u16, r: Result<i32, IoError>) -> (done: Completion)
    ensures
        done.tag == tag,
        done.code == completion_code(r),
{
    match r {
        Ok(bytes) => Completion { tag, code: bytes },
        Err(e) => Completion { tag, code: e.completion_code() },
    }
}

/// How the request of `tag` ends, given descriptor memory.
pub open spec fn serve_result(
    descriptors: Seq<RawDescriptor>,
    tag: u16,
    limit: int,
    buf_len: int,
) -> Result<i32, IoError> {
    match decoded_at(descriptors, tag) {
        Some(req) => io_result(req, limit, buf_len),
        None => Err(IoError::BadTag),
    }
}

/// Serves the ready tag `tag`: decodes its descriptor, moves the data and
/// says how the request is to be completed. A request that fails is completed
/// with its error; the content and the buffer are then as they were.
pub fn serve_tag(
    descriptors: &[RawDescriptor],
    tag: u16,
    io_buf: &mut [u8],
    content: &mut ContentBuffer,
) -> (done: Completion)
    ensures
        done.tag == tag,
        done.code == completion_code(
            serve_result(descriptors@, tag, old(content).limit(), old(io_buf)@.len() as int),
        ),
        final(content).declared_size() == old(content).declared_size(),
        match decoded_at(descriptors@, tag) {
            Some(req) => final(content)@ == content_after(
                req,
                old(content)@,
                old(content).limit(),
                old(io_buf)@,
            ) && final(io_buf)@ == buffer_after(
                req,
                old(content)@,
                old(content).limit(),
                old(io_buf)@,
            ),
            None => final(content)@ == old(content)@ && final(io_buf)@ == old(io_buf)@,
        },
{
    match decode_tag(descriptors, tag) {
        Some(req) => {
            let r = handle_io(io_buf, &req, content);
            complete(tag, r)
        },
        None => complete(tag, Err(IoError::BadTag)),
    }
}

/// Bytes read back from a range are the bytes last written to it.
pub proof fn lemma_write_then_read(content: Seq<u8>, offset: int, data: Seq<u8>)
    requires
        0 <= offset,
        offset + data.len() <= content.len(),
    ensures
        read_range(write_range(content, offset, data), offset, data.len() as int) == data,
        write_range(content, offset, data).len() == content.len(),
{
    assert(read_range(write_range(content, offset, data), offset, data.len() as int) =~= data);
}

/// A write leaves every range that it does not touch as it was.
pub proof fn lemma_write_keeps_disjoint_range(
    content: Seq<u8>,
    offset: int,
    data: Seq<u8>,
    other: int,
    len: int,
)
    requires
        0 <= offset,
        offset + data.len() <= content.len(),
        0 <= other,
        0 <= len,
        other + len <= content.len(),
        other + len <= offset || offset + data.len() <= other,
    ensures
        read_range(write_range(content, offset, data), other, len) == read_range(
            content,
            other,
            len,
        ),
{
    assert(read_range(write_range(content, offset, data), other, len) =~= read_range(
        content,
        other,
        len,
    ));
}

/// Writes to ranges that do not overlap give the same content in either
/// order.
pub proof fn lemma_disjoint_writes_commute(
    content: Seq<u8>,
    first: int,
    first_data: Seq<u8>,
    second: int,
    second_data: Seq<u8>,
)
    requires
        0 <= first,
        first + first_data.len() <= content.len(),
        0 <= second,
        second + second_data.len() <= content.len(),
        first + first_data.len() <= second || second + second_data.len() <= first,
    ensures
        write_range(write_range(content, first, first_data), second, second_data) == write_range(
            write_range(content, second, second_data),
            first,
            first_data,
        ),
{
    assert(write_range(write_range(content, first, first_data), second, second_data)
        =~= write_range(write_range(content, second, second_data), first, first_data));
}

/// True where the two requests have no byte of the device in common.
pub open spec fn disjoint(a: IoRequest, b: IoRequest) -> bool {
    a.byte_end() <= b.byte_offset() || b.byte_end() <= a.byte_offset()
}

/// Requests on ranges that do not overlap do not disturb each other,
/// whichever of them gets the lock first: two writes leave the same content
/// behind in either order, and a read is filled with the same bytes before
/// and after a write.
pub proof fn lemma_disjoint_requests_are_independent(
    a: IoRequest,
    b: IoRequest,
    content: Seq<u8>,
    limit: int,
    buf_a: Seq<u8>,
    buf_b: Seq<u8>,
)
    requires
        disjoint(a, b),
        limit <= content.len(),
    ensures
        content_after(b, content_after(a, content, limit, buf_a), limit, buf_b) == content_after(
            a,
            content_after(b, content, limit, buf_b),
            limit,
            buf_a,
        ),
        buffer_after(b, content_after(a, content, limit, buf_a), limit, buf_b) == buffer_after(
            b,
            content,
            limit,
            buf_b,
        ),
{
    let data_a = read_range(buf_a, 0, a.byte_len());
    let data_b = read_range(buf_b, 0, b.byte_len());
    let a_acts = io_result(a, limit, buf_a.len() as int) is Ok && a.op == IoOp::Write;
    let b_ok = io_result(b, limit, buf_b.len() as int) is Ok;
    if a_acts && b_ok {
        if b.op == IoOp::Write {
            lemma_disjoint_writes_commute(
                content,
                a.byte_offset(),
                data_a,
                b.byte_offset(),
                data_b,
            );
        } else {
            lemma_write_keeps_disjoint_range(
                content,
                a.byte_offset(),
                data_a,
                b.byte_offset(),
                b.byte_len(),
            );
        }
    }
}

/// A write request that succeeds, followed by a read request for the same
/// sectors, succeeds too and fills the read buffer with the bytes that were
/// written. The read buffer only has to be long enough.
pub proof fn lemma_write_request_then_read_request(
    write: IoRequest,
    read: IoRequest,
    content: Seq<u8>,
    limit: int,
    data: Seq<u8>,
    read_buf: Seq<u8>,
)
    requires
        write.op == IoOp::Write,
        read.op == IoOp::Read,
        read.start_sector == write.start_sector,
        read.sector_count == write.sector_count,
        limit <= content.len(),
        io_result(write, limit, data.len() as int) is Ok,
        write.byte_len() <= read_buf.len(),
    ensures
        io_result(read, limit, read_buf.len() as int) == io_result(write, limit, data.len() as int),
        content_after(write, content, limit, data).len() == content.len(),
        read_range(
            buffer_after(read, content_after(write, content, limit, data), limit, read_buf),
            0,
            read.byte_len(),
        ) == read_range(data, 0, write.byte_len()),
{
    let written = read_range(data, 0, write.byte_len());
    let after = content_after(write, content, limit, data);
    lemma_write_then_read(content, write.byte_offset(), written);
    let got = read_range(after, read.byte_offset(), read.byte_len());
    assert(got == written);
    assert(read_range(write_range(read_buf, 0, got), 0, read.byte_len()) =~= got);
}

/// A read or a write succeeds exactly where it ends within the device and
/// fits the buffer and the completion code, and then reports its length.
pub proof fn lemma_range_decides(req: IoRequest, limit: int, buf_len: int)
    requires
        req.op.transfers_data(),
    ensures
        io_result(req, limit, buf_len) is Ok <==> req.byte_end() <= limit && req.byte_len()
            <= buf_len && req.byte_len() <= i32::MAX,
        io_result(req, limit, buf_len) matches Ok(bytes) ==> bytes == req.byte_len(),
        req.byte_end() > limit <==> io_result(req, limit, buf_len) == Err::<i32, IoError>(
            IoError::OutOfRange,
        ),
{
}

/// A request that fills its buffer and ends with the last byte of the
/// device succeeds; the same request one sector further on is out of range.
pub proof fn lemma_last_request_and_one_beyond(
    req: IoRequest,
    beyond: IoRequest,
    limit: int,
    buf_len: int,
)
    requires
        req.op.transfers_data(),
        req.byte_end() == limit,
        req.byte_len() == buf_len,
        buf_len <= i32::MAX,
        beyond.op == req.op,
        beyond.sector_count == req.sector_count,
        beyond.start_sector == req.start_sector + 1,
    ensures
        io_result(req, limit, buf_len) == Ok::<i32, IoError>(buf_len as i32),
        io_result(beyond, limit, buf_len) == Err::<i32, IoError>(IoError::OutOfRange),
{
}

/// A request that fails changes nothing: the content and the buffer are as
/// they were, whatever the error.
pub proof fn lemma_failed_request_changes_nothing(
    req: IoRequest,
    content: Seq<u8>,
    limit: int,
    buf: Seq<u8>,
)
    requires
        io_result(req, limit, buf.len() as int) is Err,
    ensures
        content_after(req, content, limit, buf) == content,
        buffer_after(req, content, limit, buf) == buf,
{
}

/// An operation that moves no data is refused as unsupported, whatever its
/// range, and changes neither the content nor the buffer.
pub proof fn lemma_unsupported_changes_nothing(
    req: IoRequest,
    content: Seq<u8>,
    limit: int,
    buf: Seq<u8>,
)
    requires
        !req.op.transfers_data(),
    ensures
        io_result(req, limit, buf.len() as int) == Err::<i32, IoError>(IoError::Unsupported),
        content_after(req, content, limit, buf) == content,
        buffer_after(req, content, limit, buf) == buf,
{
}

} // verus!
