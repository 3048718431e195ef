use ublks3::content::{load, ContentLoader};
use ublks3::error::FetchError;

#[test]
fn load_lays_chunks_end_to_end() {
    let chunks = vec![vec![1u8, 2, 3], vec![], vec![4u8, 5]];
    let content = load(5, &chunks).unwrap();
    assert_eq!(content.as_slice(), &[1u8, 2, 3, 4, 5][..]);
    assert_eq!(content.size(), 5);
    assert_eq!(content.len(), 5);
    assert_eq!(content.served_len(), 5);
    assert!(content.consistent());
}

#[test]
fn load_of_no_chunks_is_empty() {
    let chunks: Vec<Vec<u8>> = Vec::new();
    let content = load(0, &chunks).unwrap();
    assert!(content.as_slice().is_empty());
    assert_eq!(content.size(), 0);
    assert_eq!(content.len(), 0);
    assert!(content.consistent());
}

#[test]
fn load_refuses_a_negative_size() {
    let chunks = vec![vec![1u8]];
    assert_eq!(load(-1, &chunks).err(), Some(FetchError::InvalidSize));
    assert_eq!(load(i64::MIN, &chunks).err(), Some(FetchError::InvalidSize));
}

#[test]
fn loader_refuses_a_negative_size() {
    assert_eq!(ContentLoader::begin(-7).err(), Some(FetchError::InvalidSize));
}

#[test]
fn loader_appends_chunk_by_chunk() {
    let mut loader = ContentLoader::begin(8).unwrap();
    assert_eq!(loader.push_chunk(&[9, 8, 7]), Ok(()));
    assert_eq!(loader.push_chunk(&[]), Ok(()));
    assert_eq!(loader.push_chunk(&[6, 5, 4, 3, 2]), Ok(()));
    let content = loader.finish();
    assert_eq!(content.as_slice(), &[9u8, 8, 7, 6, 5, 4, 3, 2][..]);
    assert_eq!(content.len(), 8);
    assert_eq!(content.size(), 8);
}

#[test]
fn declared_size_is_kept_when_fewer_bytes_arrive() {
    let chunks = vec![vec![0u8; 100]];
    let content = load(4096, &chunks).unwrap();
    assert_eq!(content.size(), 4096);
    assert_eq!(content.len(), 100);
    assert_eq!(content.served_len(), 100);
    assert!(!content.consistent());
}

#[test]
fn declared_size_is_kept_when_more_bytes_arrive() {
    let chunks = vec![vec![0u8; 600], vec![0u8; 600]];
    let content = load(1024, &chunks).unwrap();
    assert_eq!(content.size(), 1024);
    assert_eq!(content.len(), 1200);
    assert_eq!(content.served_len(), 1024);
    assert!(!content.consistent());
}
