use face_recognition::chunks::{ChunkStore, FACE_DETECTION, FACE_RECOGNITION};

#[test]
fn new_store_reads_empty() {
    let store = ChunkStore::new();
    assert_eq!(store.read(FACE_DETECTION), Vec::<u8>::new());
    assert_eq!(store.read(FACE_RECOGNITION), Vec::<u8>::new());
    assert_eq!(store.read("never-written"), Vec::<u8>::new());
    assert_eq!(store.len(FACE_DETECTION), 0);
}

#[test]
fn appended_chunks_are_concatenated_in_order() {
    let mut store = ChunkStore::new();
    store.append(FACE_DETECTION, &vec![1, 2, 3]);
    store.append(FACE_DETECTION, &vec![]);
    store.append(FACE_DETECTION, &vec![4]);
    store.append(FACE_DETECTION, &vec![5, 6]);
    assert_eq!(store.read(FACE_DETECTION), vec![1, 2, 3, 4, 5, 6]);
    assert_eq!(store.len(FACE_DETECTION), 6);
}

#[test]
fn every_split_of_the_same_bytes_reassembles_alike() {
    let bytes: Vec<u8> = (0..=255u8).collect();
    for cut in 0..=bytes.len() {
        for second in cut..=bytes.len() {
            let mut store = ChunkStore::new();
            store.append("model", &bytes[..cut].to_vec());
            store.append("model", &bytes[cut..second].to_vec());
            store.append("model", &bytes[second..].to_vec());
            assert_eq!(store.read("model"), bytes);
        }
    }
}

#[test]
fn byte_by_byte_upload_is_lossless() {
    let bytes: Vec<u8> = vec![9, 0, 255, 17, 17, 3];
    let mut store = ChunkStore::new();
    for b in &bytes {
        store.append(FACE_RECOGNITION, &vec![*b]);
    }
    assert_eq!(store.read(FACE_RECOGNITION), bytes);
}

#[test]
fn clear_then_read_is_empty() {
    let mut store = ChunkStore::new();
    store.append(FACE_DETECTION, &vec![7, 8, 9]);
    store.clear(FACE_DETECTION);
    assert_eq!(store.read(FACE_DETECTION), Vec::<u8>::new());
    assert_eq!(store.len(FACE_DETECTION), 0);
}

#[test]
fn clear_of_an_unwritten_buffer_is_harmless() {
    let mut store = ChunkStore::new();
    store.clear("nothing-here");
    assert_eq!(store.read("nothing-here"), Vec::<u8>::new());
}

#[test]
fn upload_restarts_after_clear() {
    let mut store = ChunkStore::new();
    store.append(FACE_DETECTION, &vec![1, 1, 1]);
    store.clear(FACE_DETECTION);
    store.append(FACE_DETECTION, &vec![2]);
    store.append(FACE_DETECTION, &vec![3]);
    assert_eq!(store.read(FACE_DETECTION), vec![2, 3]);
}

#[test]
fn buffers_do_not_touch_each_other() {
    let mut store = ChunkStore::new();
    store.append(FACE_DETECTION, &vec![1, 2]);
    store.append(FACE_RECOGNITION, &vec![10]);
    store.append(FACE_DETECTION, &vec![3]);
    store.append(FACE_RECOGNITION, &vec![20, 30]);
    assert_eq!(store.read(FACE_DETECTION), vec![1, 2, 3]);
    assert_eq!(store.read(FACE_RECOGNITION), vec![10, 20, 30]);
    store.clear(FACE_DETECTION);
    assert_eq!(store.read(FACE_DETECTION), Vec::<u8>::new());
    assert_eq!(store.read(FACE_RECOGNITION), vec![10, 20, 30]);
}

#[test]
fn names_are_the_documented_ones() {
    assert_eq!(FACE_DETECTION, "face-detection");
    assert_eq!(FACE_RECOGNITION, "face-recognition");
}

#[test]
fn read_does_not_consume() {
    let mut store = ChunkStore::new();
    store.append("a", &vec![5]);
    assert_eq!(store.read("a"), vec![5]);
    assert_eq!(store.read("a"), vec![5]);
}
