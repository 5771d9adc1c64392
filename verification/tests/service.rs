use face_recognition::chunks::{ChunkStore, FACE_DETECTION, FACE_RECOGNITION};
use face_recognition::detection::BoundingBox;
use face_recognition::embedding::Embedding;
use face_recognition::models::{ActiveModels, LoadError, ModelKind};
use face_recognition::pipeline::{PipelineError, Scan};
use face_recognition::registry::PersonRegistry;
use face_recognition::service::FaceService;
use std::cell::Cell;

/// A toy runtime. A model is its bytes. An image is a list of faces of four
/// bytes each: x, confidence in percent, and two embedding components; an
/// image whose length is no multiple of four cannot be decoded.
fn parse(bytes: &Vec<u8>) -> Result<Vec<u8>, String> {
    if bytes[0] == 0 {
        Err("unsupported format".to_string())
    } else {
        Ok(bytes.clone())
    }
}

fn detector(_model: &Vec<u8>, image: &Vec<u8>) -> Scan {
    if image.len() % 4 != 0 {
        return Scan::Undecodable;
    }
    Scan::Faces(
        image
            .chunks(4)
            .map(|f| BoundingBox {
                x: f[0] as i32,
                y: 0,
                width: 10,
                height: 10,
                confidence: f[1] as u32 * 10_000,
            })
            .collect(),
    )
}

fn embedder(_model: &Vec<u8>, image: &Vec<u8>, face: BoundingBox) -> Embedding {
    let f = image.chunks(4).find(|f| f[0] as i32 == face.x).unwrap();
    Embedding::new(vec![f[2] as i32, f[3] as i32])
}

fn loaded() -> FaceService<Vec<u8>> {
    let mut s = FaceService::new();
    s.append_face_detection_model_bytes(&vec![1, 2]);
    s.append_face_recognition_model_bytes(&vec![3]);
    s.setup_models(parse).unwrap();
    s
}

#[test]
fn a_new_service_is_empty_and_unloaded() {
    let s: FaceService<Vec<u8>> = FaceService::new();
    assert!(!s.models.is_loaded());
    assert!(s.registry.is_empty());
    assert_eq!(s.chunks.read(FACE_DETECTION), Vec::<u8>::new());
    assert_eq!(s.chunks.read(FACE_RECOGNITION), Vec::<u8>::new());
}

#[test]
fn chunks_are_uploaded_per_model() {
    let mut s: FaceService<Vec<u8>> = FaceService::new();
    s.append_face_detection_model_bytes(&vec![1, 2]);
    s.append_face_recognition_model_bytes(&vec![9]);
    s.append_face_detection_model_bytes(&vec![3]);
    assert_eq!(s.chunks.read(FACE_DETECTION), vec![1, 2, 3]);
    assert_eq!(s.chunks.read(FACE_RECOGNITION), vec![9]);
    s.clear_face_detection_model_bytes();
    assert_eq!(s.chunks.read(FACE_DETECTION), Vec::<u8>::new());
    assert_eq!(s.chunks.read(FACE_RECOGNITION), vec![9]);
    s.clear_face_recognition_model_bytes();
    assert_eq!(s.chunks.read(FACE_RECOGNITION), Vec::<u8>::new());
}

#[test]
fn setup_models_reads_the_uploaded_bytes() {
    let mut s: FaceService<Vec<u8>> = FaceService::new();
    s.append_face_detection_model_bytes(&vec![1]);
    s.append_face_detection_model_bytes(&vec![2]);
    s.append_face_recognition_model_bytes(&vec![3, 4]);
    assert_eq!(s.setup_models(parse), Ok(()));
    assert_eq!(
        s.models.models(),
        Some(&ActiveModels { detector: vec![1, 2], embedder: vec![3, 4] })
    );
    assert_eq!(s.chunks.read(FACE_DETECTION), vec![1, 2]);
}

#[test]
fn setup_models_without_upload_fails() {
    let mut s: FaceService<Vec<u8>> = FaceService::new();
    assert_eq!(s.setup_models(parse), Err(LoadError::Empty(ModelKind::Detector)));
    s.append_face_detection_model_bytes(&vec![1]);
    assert_eq!(s.setup_models(parse), Err(LoadError::Empty(ModelKind::Embedder)));
    assert!(!s.models.is_loaded());
}

#[test]
fn failed_setup_keeps_the_active_models() {
    let mut s = loaded();
    s.clear_face_recognition_model_bytes();
    assert_eq!(s.setup_models(parse), Err(LoadError::Empty(ModelKind::Embedder)));
    assert_eq!(s.models.models(), Some(&ActiveModels { detector: vec![1, 2], embedder: vec![3] }));
    s.append_face_recognition_model_bytes(&vec![0, 7]);
    assert_eq!(
        s.setup_models(parse),
        Err(LoadError::Rejected(ModelKind::Embedder, "unsupported format".to_string()))
    );
    assert_eq!(s.models.models(), Some(&ActiveModels { detector: vec![1, 2], embedder: vec![3] }));
}

#[test]
fn calls_before_setup_fail_fast() {
    let ran = Cell::new(false);
    let spy = |m: &Vec<u8>, i: &Vec<u8>| {
        ran.set(true);
        detector(m, i)
    };
    let mut s: FaceService<Vec<u8>> = FaceService::new();
    let image = vec![1, 90, 5, 5];
    assert_eq!(s.detect(&image, &spy), Err(PipelineError::NoModelsLoaded));
    assert_eq!(s.recognize(&image, &spy, embedder), Err(PipelineError::NoModelsLoaded));
    assert_eq!(s.add("alice".to_string(), &image, &spy, embedder), Err(PipelineError::NoModelsLoaded));
    assert!(!ran.get());
    assert!(s.registry.is_empty());
}

#[test]
fn detect_reports_decode_error_and_no_face() {
    let s = loaded();
    assert_eq!(s.detect(&vec![1, 2, 3], detector), Err(PipelineError::DecodeError));
    assert_eq!(s.detect(&vec![], detector), Err(PipelineError::NoFaceFound));
}

#[test]
fn detect_returns_the_more_confident_of_two_faces() {
    let s = loaded();
    let image = vec![1, 40, 0, 0, 2, 95, 9, 9];
    assert_eq!(
        s.detect(&image, detector),
        Ok(BoundingBox { x: 2, y: 0, width: 10, height: 10, confidence: 950_000 })
    );
}

#[test]
fn recognize_on_an_empty_registry_fails() {
    let s = loaded();
    assert_eq!(s.recognize(&vec![1, 90, 5, 5], detector, embedder), Err(PipelineError::EmptyRegistry));
}

#[test]
fn errors_come_in_the_documented_order() {
    let s = loaded();
    assert_eq!(s.recognize(&vec![1, 2, 3], detector, embedder), Err(PipelineError::DecodeError));
    assert_eq!(s.recognize(&vec![], detector, embedder), Err(PipelineError::NoFaceFound));
    let unloaded: FaceService<Vec<u8>> = FaceService::new();
    assert_eq!(unloaded.recognize(&vec![1, 2, 3], detector, embedder), Err(PipelineError::NoModelsLoaded));
}

#[test]
fn an_added_face_is_recognized_at_distance_zero() {
    let mut s = loaded();
    let image = vec![1, 90, 30, 40];
    let before = s.registry.len();
    assert_eq!(s.add("alice".to_string(), &image, detector, embedder), Ok(Embedding::new(vec![30, 40])));
    assert_eq!(s.registry.len(), before + 1);
    let m = s.recognize(&image, detector, embedder).unwrap();
    assert_eq!(m.person.label, "alice");
    assert_eq!(m.distance, 0);
    let near = vec![1, 88, 31, 40];
    let m = s.recognize(&near, detector, embedder).unwrap();
    assert_eq!(m.person.label, "alice");
    assert_eq!(m.distance, 1);
}

#[test]
fn the_second_of_two_dissimilar_faces_is_recognized() {
    let mut s = loaded();
    s.add("alice".to_string(), &vec![1, 90, 10, 10], detector, embedder).unwrap();
    s.add("bob".to_string(), &vec![1, 90, 200, 200], detector, embedder).unwrap();
    let m = s.recognize(&vec![1, 90, 198, 201], detector, embedder).unwrap();
    assert_eq!(m.person.label, "bob");
    assert_eq!(m.distance, 5);
}

#[test]
fn the_primary_face_is_the_one_embedded() {
    let mut s = loaded();
    let image = vec![1, 40, 1, 1, 2, 95, 77, 88];
    assert_eq!(s.add("front".to_string(), &image, detector, embedder), Ok(Embedding::new(vec![77, 88])));
}

#[test]
fn a_failed_add_changes_nothing() {
    let mut s = loaded();
    s.add("alice".to_string(), &vec![1, 90, 10, 10], detector, embedder).unwrap();
    assert_eq!(s.add("x".to_string(), &vec![1, 2, 3], detector, embedder), Err(PipelineError::DecodeError));
    assert_eq!(s.add("x".to_string(), &vec![], detector, embedder), Err(PipelineError::NoFaceFound));
    assert_eq!(s.registry.len(), 1);
    assert_eq!(s.registry.get(0).unwrap().label, "alice");
}

#[test]
fn add_does_not_deduplicate_labels() {
    let mut s = loaded();
    s.add("alice".to_string(), &vec![1, 90, 10, 10], detector, embedder).unwrap();
    s.add("alice".to_string(), &vec![1, 90, 10, 10], detector, embedder).unwrap();
    s.add("alice".to_string(), &vec![1, 90, 50, 50], detector, embedder).unwrap();
    assert_eq!(s.registry.len(), 3);
}

#[test]
fn a_restart_keeps_bytes_and_persons_but_not_the_models() {
    let mut s = loaded();
    s.add("alice".to_string(), &vec![1, 90, 10, 10], detector, embedder).unwrap();
    s.restart();
    assert!(!s.models.is_loaded());
    assert_eq!(s.registry.len(), 1);
    assert_eq!(s.chunks.read(FACE_DETECTION), vec![1, 2]);
    assert_eq!(s.recognize(&vec![1, 90, 10, 10], detector, embedder), Err(PipelineError::NoModelsLoaded));
    s.setup_models(parse).unwrap();
    assert_eq!(s.recognize(&vec![1, 90, 10, 10], detector, embedder).unwrap().person.label, "alice");
}

#[test]
fn resume_starts_unloaded_with_what_was_kept() {
    let mut chunks = ChunkStore::new();
    chunks.append(FACE_DETECTION, &vec![4]);
    chunks.append(FACE_RECOGNITION, &vec![5]);
    let mut registry = PersonRegistry::new();
    registry.enroll("bob".to_string(), Embedding::new(vec![1, 1]));
    let mut s: FaceService<Vec<u8>> = FaceService::resume(chunks, registry);
    assert!(!s.models.is_loaded());
    assert_eq!(s.registry.len(), 1);
    assert_eq!(s.setup_models(parse), Ok(()));
    assert_eq!(s.models.models(), Some(&ActiveModels { detector: vec![4], embedder: vec![5] }));
}

#[test]
fn reset_models_unloads_until_the_next_setup() {
    let mut s = loaded();
    s.add("alice".to_string(), &vec![1, 90, 10, 10], detector, embedder).unwrap();
    s.reset_models();
    assert!(!s.models.is_loaded());
    assert_eq!(s.detect(&vec![1, 90, 10, 10], detector), Err(PipelineError::NoModelsLoaded));
    assert_eq!(s.registry.len(), 1);
    assert_eq!(s.chunks.read(FACE_RECOGNITION), vec![3]);
    assert_eq!(s.setup_models(parse), Ok(()));
    assert!(s.models.is_loaded());
}
