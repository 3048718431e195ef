use ublks3::async_queue::{
    build_backing_op, build_user_data, is_target_io, user_data_to_op, user_data_to_tag, BackingOp,
    InFlightRequest, QueueAction, QueueEvent, Submitter, TARGET_IO_FLAG,
};
use ublks3::descriptor::{IoOp, IoRequest, RawDescriptor};
use ublks3::error::IoError;
use ublks3::sync_queue::Completion;

fn raw(op: u32, nr_sectors: u32, start_sector: u64) -> RawDescriptor {
    RawDescriptor { op_flags: op, nr_sectors, start_sector, addr: 0 }
}

fn ready(tag: u16) -> QueueEvent {
    QueueEvent { user_data: tag as u64, result: 0 }
}

fn done(tag: u16, op: u8, result: i32) -> QueueEvent {
    QueueEvent { user_data: build_user_data(tag, op, true), result }
}

#[test]
fn correlation_id_layout() {
    assert_eq!(TARGET_IO_FLAG, 1u64 << 63);
    assert_eq!(build_user_data(5, 0, true), 0x8000_0000_0000_0005);
    assert_eq!(build_user_data(0x1234, 1, true), 0x8000_0000_0001_1234);
    assert_eq!(build_user_data(0xffff, 0xff, false), 0x00ff_ffff);
    assert_eq!(build_user_data(0, 2, false), 0x0002_0000);
    assert_eq!(build_user_data(0, 0, false), 0);
}

#[test]
fn correlation_id_round_trip() {
    for tag in [0u16, 1, 127, 128, 0x1234, 0xffff] {
        for op in [0u8, 1, 2, 3, 5, 0x80, 0xff] {
            for backing in [false, true] {
                let id = build_user_data(tag, op, backing);
                assert_eq!(user_data_to_tag(id), tag);
                assert_eq!(user_data_to_op(id), op);
                assert_eq!(is_target_io(id), backing);
            }
        }
    }
}

#[test]
fn correlation_id_fields_are_read_from_their_bits() {
    assert_eq!(user_data_to_tag(0xdead_beef_1234_5678), 0x5678);
    assert_eq!(user_data_to_op(0xdead_beef_1234_5678), 0x34);
    assert!(is_target_io(0xdead_beef_1234_5678));
    assert!(!is_target_io(0x7fff_ffff_ffff_ffff));
}

#[test]
fn backing_operation_of_a_request() {
    let req = IoRequest { tag: 9, op: IoOp::Read, start_sector: 100, sector_count: 8 };
    assert_eq!(
        build_backing_op(&req),
        Ok(BackingOp {
            opcode: IoOp::Read,
            offset: 51200,
            length: 4096,
            user_data: 0x8000_0000_0000_0009
        })
    );
    let req = IoRequest { tag: 1, op: IoOp::Flush, start_sector: 0, sector_count: 0 };
    assert_eq!(
        build_backing_op(&req),
        Ok(BackingOp {
            opcode: IoOp::Flush,
            offset: 0,
            length: 0,
            user_data: 0x8000_0000_0002_0001
        })
    );
}

#[test]
fn backing_operation_is_refused_for_what_is_not_forwarded() {
    for op in [IoOp::Discard, IoOp::WriteZeroes, IoOp::Other(4), IoOp::Other(99)] {
        let req = IoRequest { tag: 0, op, start_sector: 0, sector_count: 1 };
        assert_eq!(build_backing_op(&req), Err(IoError::Unsupported));
    }
}

#[test]
fn backing_operation_is_refused_for_a_range_it_cannot_hold() {
    let req = IoRequest { tag: 0, op: IoOp::Write, start_sector: 1 << 55, sector_count: 1 };
    assert_eq!(build_backing_op(&req), Err(IoError::OutOfRange));
    let req = IoRequest { tag: 0, op: IoOp::Write, start_sector: 0, sector_count: 1 << 23 };
    assert_eq!(build_backing_op(&req), Err(IoError::TooLarge));
    let req = IoRequest { tag: 0, op: IoOp::Write, start_sector: 0, sector_count: (1 << 23) - 1 };
    assert_eq!(build_backing_op(&req).unwrap().length, u32::MAX - 511);
    let req = IoRequest { tag: 0, op: IoOp::Discard, start_sector: 1 << 55, sector_count: 1 << 23 };
    assert_eq!(build_backing_op(&req), Err(IoError::Unsupported));
}

#[test]
fn new_submitter_has_nothing_in_flight() {
    let s = Submitter::new(128);
    assert_eq!(s.depth(), 128);
    for tag in [0u16, 1, 127, 128, 0xffff] {
        assert_eq!(s.in_flight(tag), None);
    }
    assert_eq!(Submitter::new(0).depth(), 0);
}

#[test]
fn transient_result_then_success_completes_once() {
    let mut memory = vec![raw(0, 0, 0); 128];
    memory[3] = raw(0, 8, 100);
    let mut s = Submitter::new(128);

    let op = BackingOp {
        opcode: IoOp::Read,
        offset: 51200,
        length: 4096,
        user_data: build_user_data(3, 0, true),
    };
    assert_eq!(s.on_event(&memory, ready(3)), QueueAction::Submit(op));
    assert_eq!(
        s.in_flight(3),
        Some(InFlightRequest { tag: 3, opcode: IoOp::Read, retries: 0 })
    );

    assert_eq!(s.on_event(&memory, done(3, 0, -11)), QueueAction::Submit(op));
    assert_eq!(
        s.in_flight(3),
        Some(InFlightRequest { tag: 3, opcode: IoOp::Read, retries: 1 })
    );

    assert_eq!(
        s.on_event(&memory, done(3, 0, 4096)),
        QueueAction::Complete(Completion { tag: 3, code: 4096 })
    );
    assert_eq!(s.in_flight(3), None);

    assert_eq!(s.on_event(&memory, done(3, 0, 4096)), QueueAction::Ignore);
    assert_eq!(s.on_event(&memory, done(3, 0, -11)), QueueAction::Ignore);
    assert_eq!(s.in_flight(3), None);
}

#[test]
fn transient_result_is_retried_as_often_as_it_takes() {
    let memory = vec![raw(1, 1, 0); 4];
    let mut s = Submitter::new(4);
    let first = s.on_event(&memory, ready(2));
    let mut completions = 0;
    for round in 1..=1000u64 {
        let again = s.on_event(&memory, done(2, 1, -11));
        assert_eq!(again, first);
        assert_eq!(s.in_flight(2).unwrap().retries, round);
        if let QueueAction::Complete(_) = again {
            completions += 1;
        }
    }
    assert_eq!(
        s.on_event(&memory, done(2, 1, 512)),
        QueueAction::Complete(Completion { tag: 2, code: 512 })
    );
    completions += 1;
    assert_eq!(completions, 1);
}

#[test]
fn failed_backing_operation_ends_the_request_with_its_code() {
    let memory = vec![raw(1, 1, 0); 4];
    let mut s = Submitter::new(4);
    s.on_event(&memory, ready(1));
    assert_eq!(
        s.on_event(&memory, done(1, 1, -5)),
        QueueAction::Complete(Completion { tag: 1, code: -5 })
    );
    assert_eq!(s.in_flight(1), None);
}

#[test]
fn flush_is_forwarded() {
    let memory = vec![raw(2, 16, 64)];
    let mut s = Submitter::new(1);
    assert_eq!(
        s.on_event(&memory, ready(0)),
        QueueAction::Submit(BackingOp {
            opcode: IoOp::Flush,
            offset: 32768,
            length: 8192,
            user_data: 0x8000_0000_0002_0000
        })
    );
    assert_eq!(s.in_flight(0).unwrap().opcode, IoOp::Flush);
}

#[test]
fn discard_and_write_zeroes_fail_at_once_and_the_queue_goes_on() {
    let memory = vec![raw(3, 1, 0), raw(5, 1, 0), raw(0, 1, 0)];
    let mut s = Submitter::new(3);
    assert_eq!(
        s.on_event(&memory, ready(0)),
        QueueAction::Complete(Completion { tag: 0, code: -22 })
    );
    assert_eq!(
        s.on_event(&memory, ready(1)),
        QueueAction::Complete(Completion { tag: 1, code: -22 })
    );
    assert_eq!(s.in_flight(0), None);
    assert_eq!(s.in_flight(1), None);
    match s.on_event(&memory, ready(2)) {
        QueueAction::Submit(op) => assert_eq!(op.opcode, IoOp::Read),
        other => panic!("{:?}", other),
    }
}

#[test]
fn tags_do_not_disturb_each_other() {
    let memory = vec![raw(0, 1, 0), raw(1, 1, 8), raw(0, 1, 16)];
    let mut s = Submitter::new(3);
    s.on_event(&memory, ready(0));
    s.on_event(&memory, ready(1));
    s.on_event(&memory, ready(2));
    assert_eq!(
        s.on_event(&memory, done(1, 1, 512)),
        QueueAction::Complete(Completion { tag: 1, code: 512 })
    );
    assert_eq!(s.in_flight(0), Some(InFlightRequest { tag: 0, opcode: IoOp::Read, retries: 0 }));
    assert_eq!(s.in_flight(1), None);
    assert_eq!(s.in_flight(2), Some(InFlightRequest { tag: 2, opcode: IoOp::Read, retries: 0 }));
    s.on_event(&memory, done(2, 0, -11));
    assert_eq!(s.in_flight(0).unwrap().retries, 0);
    assert_eq!(s.in_flight(2).unwrap().retries, 1);
}

#[test]
fn ready_tag_is_ignored_while_its_request_is_under_way() {
    let memory = vec![raw(0, 1, 0)];
    let mut s = Submitter::new(1);
    s.on_event(&memory, ready(0));
    assert_eq!(s.on_event(&memory, ready(0)), QueueAction::Ignore);
    assert_eq!(s.in_flight(0), Some(InFlightRequest { tag: 0, opcode: IoOp::Read, retries: 0 }));
}

#[test]
fn completion_with_another_operation_code_is_ignored() {
    let memory = vec![raw(0, 1, 0)];
    let mut s = Submitter::new(1);
    s.on_event(&memory, ready(0));
    assert_eq!(s.on_event(&memory, done(0, 1, 512)), QueueAction::Ignore);
    assert_eq!(s.in_flight(0), Some(InFlightRequest { tag: 0, opcode: IoOp::Read, retries: 0 }));
}

#[test]
fn tag_beyond_the_queue_is_a_bad_tag() {
    let memory = vec![raw(0, 1, 0); 8];
    let mut s = Submitter::new(4);
    assert_eq!(
        s.on_event(&memory, ready(4)),
        QueueAction::Complete(Completion { tag: 4, code: -22 })
    );
    assert_eq!(s.on_event(&memory, done(4, 0, 0)), QueueAction::Ignore);
}

#[test]
fn tag_without_a_descriptor_is_a_bad_tag() {
    let memory = vec![raw(0, 1, 0); 2];
    let mut s = Submitter::new(4);
    assert_eq!(
        s.on_event(&memory, ready(3)),
        QueueAction::Complete(Completion { tag: 3, code: -22 })
    );
    assert_eq!(s.in_flight(3), None);
}

#[test]
fn retry_derives_the_request_from_its_descriptor_again() {
    let mut memory = vec![raw(0, 8, 100)];
    let mut s = Submitter::new(1);
    s.on_event(&memory, ready(0));
    memory[0] = raw(3, 8, 100);
    assert_eq!(
        s.on_event(&memory, done(0, 0, -11)),
        QueueAction::Complete(Completion { tag: 0, code: -22 })
    );
    assert_eq!(s.in_flight(0), None);
}

#[test]
fn only_try_again_is_transient() {
    assert_eq!(ublks3::async_queue::check_transient(-11), Some(IoError::Transient));
    for result in [0, 11, -22, -5, 4096, i32::MIN, i32::MAX] {
        assert_eq!(ublks3::async_queue::check_transient(result), None);
    }
}
