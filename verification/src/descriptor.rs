//! Decoding of request descriptors.
//!
//! The kernel describes each request in a fixed record that is indexed by the
//! request's tag. Decoding is pure: the same record gives the same request,
//! which is why a request can be derived again by tag when it is retried.
//!
//! Offsets and lengths on the wire are counted in sectors of 512 bytes. That
//! unit belongs to the wire format and does not follow the block sizes the
//! device was configured with.

use vstd::prelude::*;

verus! {

/// A sector number is shifted by this many bits to give a byte offset.
pub const SECTOR_SHIFT: u32 = 9;

/// Bytes in one sector.
pub const SECTOR_SIZE: u64 = 512;

/// Operation code of a read.
pub const OP_READ: u8 = 0;

/// Operation code of a write.
pub const OP_WRITE: u8 = 1;

/// Operation code of a flush.
pub const OP_FLUSH: u8 = 2;

/// Operation code of a discard.
pub const OP_DISCARD: u8 = 3;

/// Operation code of a write of zeroes.
pub const OP_WRITE_ZEROES: u8 = 5;

/// What a request asks for.
#[derive(Clone, Copy, Debug, PartialEq, Eq, Structural)]
pub enum IoOp {
    Read,
    Write,
    Flush,
    Discard,
    WriteZeroes,
    /// Any other operation code; the code is kept so that it can be reported.
    Other(u8),
}

impl IoOp {
    /// The operation that an operation code stands for.
    pub open spec fn of_code(code: u8) -> IoOp {
        if code == OP_READ {
            IoOp::Read
        } else if code == OP_WRITE {
            IoOp::Write
        } else if code == OP_FLUSH {
            IoOp::Flush
        } else if code == OP_DISCARD {
            IoOp::Discard
        } else if code == OP_WRITE_ZEROES {
            IoOp::WriteZeroes
        } else {
            IoOp::Other(code)
        }
    }

    /// The operation code on the wire. `Other` holds a code only where no
    /// named operation has it; for such a value this is the inverse of
    /// `of_code`.
    pub open spec fn wire_code(self) -> u8 {
        match self {
            IoOp::Read => OP_READ,
            IoOp::Write => OP_WRITE,
            IoOp::Flush => OP_FLUSH,
            IoOp::Discard => OP_DISCARD,
            IoOp::WriteZeroes => OP_WRITE_ZEROES,
            IoOp::Other(code) => code,
        }
    }

    /// True where the operation moves data between the device and the
    /// request's buffer.
    pub open spec fn transfers_data(self) -> bool {
        self == IoOp::Read || self == IoOp::Write
    }

    /// Decodes an operation code.
    pub fn from_code(code: u8) -> (op: IoOp)
        ensures
            op == IoOp::of_code(code),
    {
        if code == OP_READ {
            IoOp::Read
        } else if code == OP_WRITE {
            IoOp::Write
        } else if code == OP_FLUSH {
            IoOp::Flush
        } else if code == OP_DISCARD {
            IoOp::Discard
        } else if code == OP_WRITE_ZEROES {
            IoOp::WriteZeroes
        } else {
            IoOp::Other(code)
        }
    }

    /// Encodes the operation for the wire.
    pub fn code(self) -> (code: u8)
        ensures
            code == self.wire_code(),
    {
        match self {
            IoOp::Read => OP_READ,
            IoOp::Write => OP_WRITE,
            IoOp::Flush => OP_FLUSH,
            IoOp::Discard => OP_DISCARD,
            IoOp::WriteZeroes => OP_WRITE_ZEROES,
            IoOp::Other(code) => code,
        }
    }
}

/// Every operation code decodes to an operation that encodes to the same
/// code again.
pub proof fn lemma_code_round_trip(code: u8)
    ensures
        IoOp::of_code(code).wire_code() == code,
{
}

/// The record in which the kernel describes one request.
#[derive(Clone, Copy, Debug, PartialEq, Eq, Structural)]
pub struct RawDescriptor {
    /// Bits 0 to 7 hold the operation code, bits 8 to 31 hold flags.
    pub op_flags: u32,
    /// Length of the request in sectors.
    pub nr_sectors: u32,
    /// First sector of the request.
    pub start_sector: u64,
    /// Address of the request's buffer in the server's address space.
    pub addr: u64,
}

/// A decoded request.
#[derive(Clone, Copy, Debug, PartialEq, Eq, Structural)]
pub struct IoRequest {
    pub tag: u16,
    pub op: IoOp,
    pub start_sector: u64,
    pub sector_count: u32,
}

impl RawDescriptor {
    /// The operation code: the low eight bits of `op_flags`.
    pub open spec fn op_code(self) -> u8 {
        (self.op_flags % 256) as u8
    }

    /// The request that this record describes, for the given tag.
    pub open spec fn decoded(self, tag: u16) -> IoRequest {
        IoRequest {
            tag,
            op: IoOp::of_code(self.op_code()),
            start_sector: self.start_sector,
            sector_count: self.nr_sectors,
        }
    }

    /// Decodes the record for the given tag.
    pub fn decode(&self, tag: u16) -> (req: IoRequest)
        ensures
            req == self.decoded(tag),
    {
        let flags: u32 = self.op_flags;
        assert(flags & 0xff == flags % 256) by (bit_vector);
        let code: u8 = (flags & 0xff) as u8;
        IoRequest {
            tag,
            op: IoOp::from_code(code),
            start_sector: self.start_sector,
            sector_count: self.nr_sectors,
        }
    }
}

/// The request with the given tag in descriptor memory, where the memory
/// holds a record for that tag.
pub open spec fn decoded_at(descriptors: Seq<RawDescriptor>, tag: u16) -> Option<IoRequest> {
    if (tag as int) < descriptors.len() {
        Some(descriptors[tag as int].decoded(tag))
    } else {
        None
    }
}

/// Looks up the record of `tag` in descriptor memory and decodes it. There is
/// no request for a tag beyond the records that the memory holds.
pub fn decode_tag(descriptors: &[RawDescriptor], tag: u16) -> (req: Option<IoRequest>)
    ensures
        req == decoded_at(descriptors@, tag),
{
    let index: usize = tag as usize;
    if index < descriptors.len() {
        Some(descriptors[index].decode(tag))
    } else {
        None
    }
}

impl IoRequest {
    /// Offset of the request's first byte on the device.
    pub open spec fn byte_offset(self) -> int {
        self.start_sector * 512
    }

    /// Length of the request in bytes.
    pub open spec fn byte_len(self) -> int {
        self.sector_count * 512
    }

    /// Offset of the first byte behind the request.
    pub open spec fn byte_end(self) -> int {
        self.byte_offset() + self.byte_len()
    }

    /// Length of the request in bytes: the sector count shifted by
    /// `SECTOR_SHIFT`.
    pub fn len_bytes(&self) -> (len: u64)
        ensures
            len == self.byte_len(),
    {
        let count: u64 = self.sector_count as u64;
        assert(count << 9 == count * 512) by (bit_vector)
            requires
                count <= 0xffff_ffff,
        ;
        count << SECTOR_SHIFT
    }

    /// Offset of the request's first byte: the start sector shifted by
    /// `SECTOR_SHIFT`. `None` where that offset is not a 64-bit number.
    pub fn offset_bytes(&self) -> (offset: Option<u64>)
        ensures
            offset == if self.byte_offset() <= u64::MAX {
                Some(self.byte_offset() as u64)
            } else {
                None
            },
    {
        let sector: u64 = self.start_sector;
        if sector <= (u64::MAX >> SECTOR_SHIFT) {
            assert(sector << 9 == sector * 512) by (bit_vector)
                requires
                    sector <= (u64::MAX >> 9),
            ;
            Some(sector << SECTOR_SHIFT)
        } else {
            assert(sector * 512 > u64::MAX) by (bit_vector)
                requires
                    sector > (u64::MAX >> 9),
            ;
            None
        }
    }
}

} // verus!
