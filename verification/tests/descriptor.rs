use ublks3::descriptor::{
    decode_tag, IoOp, IoRequest, RawDescriptor, OP_DISCARD, OP_FLUSH, OP_READ, OP_WRITE,
    OP_WRITE_ZEROES, SECTOR_SHIFT, SECTOR_SIZE,
};

fn raw(op_flags: u32, nr_sectors: u32, start_sector: u64) -> RawDescriptor {
    RawDescriptor { op_flags, nr_sectors, start_sector, addr: 0 }
}

#[test]
fn sector_is_512_bytes() {
    assert_eq!(SECTOR_SHIFT, 9);
    assert_eq!(SECTOR_SIZE, 512);
    assert_eq!(1u64 << SECTOR_SHIFT, SECTOR_SIZE);
}

#[test]
fn operation_codes_decode() {
    assert_eq!(IoOp::from_code(OP_READ), IoOp::Read);
    assert_eq!(IoOp::from_code(OP_WRITE), IoOp::Write);
    assert_eq!(IoOp::from_code(OP_FLUSH), IoOp::Flush);
    assert_eq!(IoOp::from_code(OP_DISCARD), IoOp::Discard);
    assert_eq!(IoOp::from_code(OP_WRITE_ZEROES), IoOp::WriteZeroes);
    assert_eq!(IoOp::from_code(4), IoOp::Other(4));
    assert_eq!(IoOp::from_code(255), IoOp::Other(255));
}

#[test]
fn operation_codes_round_trip() {
    for code in 0..=255u8 {
        assert_eq!(IoOp::from_code(code).code(), code);
    }
}

#[test]
fn decode_takes_the_low_byte_as_operation() {
    let req = raw(0xabcd_ef01, 8, 100).decode(7);
    assert_eq!(
        req,
        IoRequest { tag: 7, op: IoOp::Write, start_sector: 100, sector_count: 8 }
    );
    let req = raw(0x0000_0300, 1, 0).decode(0);
    assert_eq!(req.op, IoOp::Read);
}

#[test]
fn decode_is_repeatable() {
    let r = raw(2, 0, 0);
    assert_eq!(r.decode(3), r.decode(3));
}

#[test]
fn decode_tag_indexes_descriptor_memory() {
    let memory = [raw(0, 1, 10), raw(1, 2, 20), raw(3, 4, 30)];
    assert_eq!(
        decode_tag(&memory, 1),
        Some(IoRequest { tag: 1, op: IoOp::Write, start_sector: 20, sector_count: 2 })
    );
    assert_eq!(
        decode_tag(&memory, 2),
        Some(IoRequest { tag: 2, op: IoOp::Discard, start_sector: 30, sector_count: 4 })
    );
    assert_eq!(decode_tag(&memory, 3), None);
    assert_eq!(decode_tag(&[], 0), None);
}

#[test]
fn byte_offset_is_sector_shifted_by_nine() {
    let req = raw(0, 8, 100).decode(0);
    assert_eq!(req.offset_bytes(), Some(51200));
    assert_eq!(req.len_bytes(), 4096);
}

#[test]
fn byte_offset_at_the_edge_of_64_bits() {
    let last = u64::MAX >> 9;
    assert_eq!(raw(0, 1, last).decode(0).offset_bytes(), Some(last << 9));
    assert_eq!(raw(0, 1, last + 1).decode(0).offset_bytes(), None);
    assert_eq!(raw(0, 1, u64::MAX).decode(0).offset_bytes(), None);
}

#[test]
fn byte_len_of_the_largest_count() {
    assert_eq!(raw(0, u32::MAX, 0).decode(0).len_bytes(), (u32::MAX as u64) * 512);
    assert_eq!(raw(0, 0, 0).decode(0).len_bytes(), 0);
}
