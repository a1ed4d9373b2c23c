use matrix_sdk_ffi::chunk_iterator::ChunkIterator;

#[test]
fn test_len() {
    assert_eq!(ChunkIterator::<u8>::new(vec![1, 2, 3]).len(), 3);
    assert_eq!(ChunkIterator::<u8>::new(vec![]).len(), 0);
}

#[test]
fn test_next() {
    let mut iterator = ChunkIterator::new(vec![1, 2, 3, 4, 5, 6, 7, 8, 9, 10, 11]);

    assert_eq!(iterator.next(3), Some(vec![1, 2, 3]));
    assert_eq!(iterator.next(5), Some(vec![4, 5, 6, 7, 8]));
    assert_eq!(iterator.next(0), Some(vec![]));
    assert_eq!(iterator.next(1), Some(vec![9]));
    assert_eq!(iterator.next(3), Some(vec![10, 11]));
    assert_eq!(iterator.next(2), None);
    assert_eq!(iterator.next(2), None);
}

#[test]
fn chunks_make_up_the_items() {
    let items: Vec<u32> = (0..23).collect();
    for size in 1..30 {
        let mut iterator = ChunkIterator::new(items.clone());
        let mut out = vec![];
        let mut left = iterator.len();
        while let Some(chunk) = iterator.next(size) {
            assert_eq!(chunk.len() as u32, size.min(left));
            left -= chunk.len() as u32;
            assert_eq!(iterator.len(), left);
            out.extend(chunk);
        }
        assert_eq!(out, items);
    }
}

#[test]
fn nothing_comes_of_nothing() {
    let mut iterator = ChunkIterator::<u8>::new(vec![]);
    assert_eq!(iterator.next(0), None);
    assert_eq!(iterator.next(u32::MAX), None);
}

#[test]
fn a_large_chunk_takes_all() {
    let mut iterator = ChunkIterator::new(vec!["a", "b"]);
    assert_eq!(iterator.next(u32::MAX), Some(vec!["a", "b"]));
    assert_eq!(iterator.len(), 0);
}
