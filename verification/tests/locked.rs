use std::sync::Mutex;

use ublks3::content::load;
use ublks3::descriptor::{IoOp, IoRequest};
use ublks3::error::IoError;
use ublks3::sync_queue::serve_locked;

fn request(op: IoOp, start_sector: u64, sector_count: u32) -> IoRequest {
    IoRequest { tag: 0, op, start_sector, sector_count }
}

#[test]
fn serve_locked_reads_what_was_written() {
    let content = Mutex::new(load(4096, &vec![vec![0u8; 4096]]).unwrap());
    let mut w = vec![0x5au8; 1024];
    assert_eq!(serve_locked(&mut w, &request(IoOp::Write, 2, 2), &content), Ok(1024));
    let mut r = vec![0u8; 2048];
    assert_eq!(serve_locked(&mut r, &request(IoOp::Read, 1, 4), &content), Ok(2048));
    assert!(r[..512].iter().all(|b| *b == 0));
    assert!(r[512..1536].iter().all(|b| *b == 0x5a));
    assert!(r[1536..].iter().all(|b| *b == 0));
}

#[test]
fn serve_locked_releases_the_lock() {
    let content = Mutex::new(load(1024, &vec![vec![1u8; 1024]]).unwrap());
    let mut buf = vec![0u8; 512];
    for _ in 0..100 {
        assert_eq!(serve_locked(&mut buf, &request(IoOp::Read, 0, 1), &content), Ok(512));
        assert_eq!(
            serve_locked(&mut buf, &request(IoOp::Read, 2, 1), &content),
            Err(IoError::OutOfRange)
        );
    }
    assert!(content.try_lock().is_ok());
}

#[test]
fn serve_locked_refuses_other_operations_without_the_lock() {
    let content = Mutex::new(load(1024, &vec![vec![1u8; 1024]]).unwrap());
    let held = content.lock().unwrap();
    let mut buf = vec![9u8; 512];
    for op in [IoOp::Flush, IoOp::Discard, IoOp::WriteZeroes, IoOp::Other(7)] {
        assert_eq!(
            serve_locked(&mut buf, &request(op, 0, 1), &content),
            Err(IoError::Unsupported)
        );
    }
    assert!(buf.iter().all(|b| *b == 9));
    drop(held);
}
