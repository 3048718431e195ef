//! The content store: the bytes of the device, held in one contiguous buffer.
//!
//! The buffer is filled once, chunk by chunk, from the object that backs the
//! device, and keeps the size that the object store declared for it. Nothing
//! compares that declared size with the number of bytes that arrived; where
//! the two differ, the device serves the range that both cover.

use vstd::prelude::*;
use bytes::BufMut;
use bytes::BytesMut;
use crate::error::FetchError;

verus! {

/// `bytes::BytesMut`, opaque to the verifier.
#[verifier::external_type_specification]
#[verifier::external_body]
pub struct ExBytesMut(bytes::BytesMut);

/// The bytes that a `BytesMut` holds, in order.
pub uninterp spec fn bytes_contents(buf: BytesMut) -> Seq<u8>;

/// Calls `BytesMut::with_capacity`. Trusted: the new buffer holds no bytes.
/// The capacity is kept within `isize::MAX`, beyond which the allocation
/// panics.
#[verifier::external_body]
fn bytes_with_capacity(capacity: usize) -> (buf: BytesMut)
    requires
        capacity <= isize::MAX,
    ensures
        bytes_contents(buf) == Seq::<u8>::empty(),
{
    BytesMut::with_capacity(capacity)
}

/// Calls `BufMut::put` on a `BytesMut` with a byte slice as the source.
/// Trusted: the bytes of the source are appended, the buffer growing as
/// needed. The new length is kept within `isize::MAX`, beyond which growing
/// panics.
#[verifier::external_body]
fn bytes_put(buf: &mut BytesMut, src: &[u8])
    requires
        bytes_contents(*old(buf)).len() + src@.len() <= isize::MAX,
    ensures
        bytes_contents(*final(buf)) == bytes_contents(*old(buf)) + src@,
{
    buf.put(src)
}

/// Calls `BytesMut::len`. Trusted: the number of bytes held.
#[verifier::external_body]
fn bytes_len(buf: &BytesMut) -> (len: usize)
    ensures
        len == bytes_contents(*buf).len(),
{
    buf.len()
}

/// Calls `AsRef::<[u8]>::as_ref` on a `BytesMut`. Trusted: the slice is the
/// bytes held.
#[verifier::external_body]
fn bytes_as_slice(buf: &BytesMut) -> (slice: &[u8])
    ensures
        slice@ == bytes_contents(*buf),
{
    buf.as_ref()
}

/// Calls `AsMut::<[u8]>::as_mut` on a `BytesMut`. Trusted: the slice is the
/// bytes held, and what is written through it is what the buffer holds
/// afterwards.
#[verifier::external_body]
fn bytes_as_mut_slice(buf: &mut BytesMut) -> (slice: &mut [u8])
    ensures
        slice@ == bytes_contents(*old(buf)),
        bytes_contents(*final(buf)) == final(slice)@,
{
    buf.as_mut()
}

/// The `len` bytes of `content` from `offset` on.
pub open spec fn read_range(content: Seq<u8>, offset: int, len: int) -> Seq<u8> {
    content.subrange(offset, offset + len)
}

/// `content` with `data` laid over it from `offset` on. Bytes outside the
/// range keep their value, and the length stays.
pub open spec fn write_range(content: Seq<u8>, offset: int, data: Seq<u8>) -> Seq<u8> {
    Seq::new(
        content.len(),
        |i: int|
            if offset <= i < offset + data.len() {
                data[i - offset]
            } else {
                content[i]
            },
    )
}

/// Copies `len` bytes from `src`, starting at `src_at`, over `dst`, starting
/// at `dst_at`.
pub(crate) fn copy_bytes(dst: &mut [u8], dst_at: usize, src: &[u8], src_at: usize, len: usize)
    requires
        dst_at + len <= old(dst)@.len(),
        src_at + len <= src@.len(),
    ensures
        final(dst)@ == write_range(
            old(dst)@,
            dst_at as int,
            read_range(src@, src_at as int, len as int),
        ),
{
    let dst_len: usize = dst.len();
    let src_len: usize = src.len();
    let mut i: usize = 0;
    while i < len
        invariant
            i <= len,
            dst_at + len <= dst_len == dst@.len(),
            src_at + len <= src_len == src@.len(),
            dst@.len() == old(dst)@.len(),
            forall|j: int| dst_at <= j < dst_at + i ==> dst@[j] == src@[j - dst_at + src_at],
            forall|j: int|
                0 <= j < dst@.len() && !(dst_at <= j < dst_at + i) ==> dst@[j] == old(dst)@[j],
        decreases len - i,
    {
        dst[dst_at + i] = src[src_at + i];
        i += 1;
    }
    assert(dst@ =~= write_range(
        old(dst)@,
        dst_at as int,
        read_range(src@, src_at as int, len as int),
    ));
}

/// The content of a device.
pub struct ContentBuffer {
    size: u64,
    bytes: BytesMut,
}

impl View for ContentBuffer {
    type V = Seq<u8>;

    /// The bytes held.
    closed spec fn view(&self) -> Seq<u8> {
        bytes_contents(self.bytes)
    }
}

impl ContentBuffer {
    /// The size that the object store declared; it becomes the size of the
    /// device.
    pub closed spec fn declared_size(&self) -> u64 {
        self.size
    }

    /// The number of bytes that can be served: a request must end within
    /// the declared size and within the bytes held.
    pub open spec fn limit(&self) -> int {
        if self.declared_size() <= self@.len() {
            self.declared_size() as int
        } else {
            self@.len() as int
        }
    }

    /// True where as many bytes arrived as were declared.
    pub open spec fn is_consistent(&self) -> bool {
        self.declared_size() == self@.len()
    }

    /// The declared size in bytes.
    pub fn size(&self) -> (size: u64)
        ensures
            size == self.declared_size(),
    {
        self.size
    }

    /// The number of bytes held.
    pub fn len(&self) -> (len: usize)
        ensures
            len == self@.len(),
    {
        bytes_len(&self.bytes)
    }

    /// The bytes held.
    pub fn as_slice(&self) -> (bytes: &[u8])
        ensures
            bytes@ == self@,
    {
        bytes_as_slice(&self.bytes)
    }

    /// The number of bytes that can be served.
    pub fn served_len(&self) -> (len: u64)
        ensures
            len == self.limit(),
            len <= usize::MAX,
    {
        let held: usize = bytes_len(&self.bytes);
        if self.size <= held as u64 {
            self.size
        } else {
            held as u64
        }
    }

    /// Whether as many bytes arrived as were declared.
    pub fn consistent(&self) -> (b: bool)
        ensures
            b == self.is_consistent(),
    {
        let held: usize = bytes_len(&self.bytes);
        self.size == held as u64
    }

    /// Copies `len` bytes from `offset` on into the front of `dst`.
    pub(crate) fn copy_out(&self, offset: usize, dst: &mut [u8], len: usize)
        requires
            offset + len <= self@.len(),
            len <= old(dst)@.len(),
        ensures
            final(dst)@ == write_range(old(dst)@, 0, read_range(self@, offset as int, len as int)),
    {
        let src = bytes_as_slice(&self.bytes);
        copy_bytes(dst, 0, src, offset, len);
    }

    /// Copies the first `len` bytes of `src` over the content from `offset`
    /// on.
    pub(crate) fn copy_in(&mut self, offset: usize, src: &[u8], len: usize)
        requires
            offset + len <= old(self)@.len(),
            len <= src@.len(),
        ensures
            final(self)@ == write_range(old(self)@, offset as int, read_range(src@, 0, len as int)),
            final(self).declared_size() == old(self).declared_size(),
    {
        let dst = bytes_as_mut_slice(&mut self.bytes);
        copy_bytes(dst, offset, src, 0, len);
    }
}

/// All chunks laid end to end.
pub open spec fn concat_chunks(chunks: Seq<Vec<u8>>) -> Seq<u8>
    decreases chunks.len(),
{
    if chunks.len() == 0 {
        Seq::<u8>::empty()
    } else {
        concat_chunks(chunks.drop_last()) + chunks.last()@
    }
}

/// Content that is still being received.
pub struct ContentLoader {
    declared: u64,
    bytes: BytesMut,
}

impl View for ContentLoader {
    type V = Seq<u8>;

    /// The bytes received so far.
    closed spec fn view(&self) -> Seq<u8> {
        bytes_contents(self.bytes)
    }
}

impl ContentLoader {
    /// The size that the object store declared.
    pub closed spec fn declared_size(&self) -> u64 {
        self.declared
    }

    /// What `begin` answers to an object size.
    pub open spec fn begin_error(object_size: i64) -> Option<FetchError> {
        if object_size < 0 {
            Some(FetchError::InvalidSize)
        } else if object_size > isize::MAX {
            Some(FetchError::TooLarge)
        } else {
            None
        }
    }

    /// Starts to receive an object of the declared size. A buffer of that
    /// capacity is set up; it holds no bytes yet.
    pub fn begin(object_size: i64) -> (r: Result<ContentLoader, FetchError>)
        ensures
            match r {
                Ok(loader) => Self::begin_error(object_size) is None && loader@.len() == 0
                    && loader.declared_size() == object_size,
                Err(e) => Self::begin_error(object_size) == Some(e),
            },
    {
        if object_size < 0 {
            return Err(FetchError::InvalidSize);
        }
        if object_size as u64 > isize::MAX as u64 {
            return Err(FetchError::TooLarge);
        }
        let bytes = bytes_with_capacity(object_size as usize);
        Ok(ContentLoader { declared: object_size as u64, bytes })
    }

    /// Appends one chunk of the byte stream. The chunk is refused, and
    /// nothing changes, where the buffer would grow beyond what one
    /// allocation can hold.
    pub fn push_chunk(&mut self, chunk: &[u8]) -> (r: Result<(), FetchError>)
        ensures
            final(self).declared_size() == old(self).declared_size(),
            old(self)@.len() + chunk@.len() <= isize::MAX ==> r is Ok && final(self)@ == old(
                self,
            )@ + chunk@,
            old(self)@.len() + chunk@.len() > isize::MAX ==> r == Err::<(), FetchError>(
                FetchError::TooLarge,
            ) && final(self)@ == old(self)@,
    {
        let held: usize = bytes_len(&self.bytes);
        if chunk.len() > isize::MAX as usize || held > isize::MAX as usize - chunk.len() {
            return Err(FetchError::TooLarge);
        }
        bytes_put(&mut self.bytes, chunk);
        Ok(())
    }

    /// Ends the stream. The content keeps the declared size, whatever the
    /// number of bytes that arrived.
    pub fn finish(self) -> (content: ContentBuffer)
        ensures
            content@ == self@,
            content.declared_size() == self.declared_size(),
    {
        ContentBuffer { size: self.declared, bytes: self.bytes }
    }
}

/// The chunks of a prefix are never longer than the chunks of the whole.
pub proof fn lemma_concat_prefix_len(chunks: Seq<Vec<u8>>, n: int)
    requires
        0 <= n <= chunks.len(),
    ensures
        concat_chunks(chunks.take(n)).len() <= concat_chunks(chunks).len(),
    decreases chunks.len() - n,
{
    if n == chunks.len() {
        assert(chunks.take(n) =~= chunks);
    } else {
        lemma_concat_prefix_len(chunks, n + 1);
        assert(chunks.take(n + 1).drop_last() =~= chunks.take(n));
    }
}

/// What `load` answers where it fails.
pub open spec fn load_error(object_size: i64, chunks: Seq<Vec<u8>>) -> Option<FetchError> {
    if ContentLoader::begin_error(object_size) is Some {
        ContentLoader::begin_error(object_size)
    } else if concat_chunks(chunks).len() > isize::MAX {
        Some(FetchError::TooLarge)
    } else {
        None
    }
}

/// Loads the content of a device: takes the declared size of the object and
/// the chunks of its byte stream, in the order in which they arrived, and
/// lays the chunks end to end in one buffer.
pub fn load(object_size: i64, chunks: &Vec<Vec<u8>>) -> (r: Result<ContentBuffer, FetchError>)
    ensures
        match r {
            Ok(content) => load_error(object_size, chunks@) is None && content@ == concat_chunks(
                chunks@,
            ) && content.declared_size() == object_size,
            Err(e) => load_error(object_size, chunks@) == Some(e),
        },
{
    let mut loader = match ContentLoader::begin(object_size) {
        Ok(loader) => loader,
        Err(e) => {
            return Err(e);
        },
    };
    let mut i: usize = 0;
    while i < chunks.len()
        invariant
            i <= chunks.len(),
            ContentLoader::begin_error(object_size) is None,
            loader.declared_size() == object_size,
            loader@ == concat_chunks(chunks@.take(i as int)),
            loader@.len() <= isize::MAX,
        decreases chunks.len() - i,
    {
        proof {
            lemma_concat_prefix_len(chunks@, i + 1);
            assert(chunks@.take(i + 1).drop_last() =~= chunks@.take(i as int));
        }
        match loader.push_chunk(chunks[i].as_slice()) {
            Ok(()) => {},
            Err(e) => {
                return Err(e);
            },
        }
        i += 1;
    }
    assert(chunks@.take(i as int) =~= chunks@);
    Ok(loader.finish())
}

} // verus!
