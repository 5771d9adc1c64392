//! The face service: one owner of the uploaded model bytes, of the active
//! models and of the enrolled persons, with every operation taken on it.
//!
//! The inference runtime is the caller's. A call that needs it takes the
//! runtime's functions as arguments: the parser of model bytes, the detector
//! and the embedder. What such a call answers is stated over whatever these
//! functions gave.

use vstd::prelude::*;
use crate::chunks::{ChunkStore, FACE_DETECTION, FACE_RECOGNITION};
use crate::detection::BoundingBox;
use crate::embedding::Embedding;
use crate::models::{empty_buffer, parse_outcome, parsed_as, ActiveModels, LoadError, LoadErrorView, ModelSlot};
use crate::pipeline::{
    add_outcome,
    detect_outcome,
    embedding_result_view,
    entries_after_add,
    face_of,
    identify,
    match_result_view,
    primary_face,
    recognize_outcome,
    PipelineError,
    Scan,
};
use crate::registry::{Match, PersonRegistry};

verus! {

/// The state of the service.
pub struct FaceService<M> {
    /// The uploaded model bytes. They outlive a restart.
    pub chunks: ChunkStore,
    /// The active models. They do not outlive a restart.
    pub models: ModelSlot<M>,
    /// The enrolled persons. They outlive a restart.
    pub registry: PersonRegistry,
}

/// Whether `scan` is what `detector` gave for `image`, and `embedding` what
/// `embedder` gave for the primary face of `scan`, if it has one.
pub open spec fn observed<
    M,
    D: Fn(&M, &Vec<u8>) -> Scan,
    E: Fn(&M, &Vec<u8>, BoundingBox) -> Embedding,
>(
    detector: D,
    embedder: E,
    models: ActiveModels<M>,
    image: &Vec<u8>,
    scan: Scan,
    embedding: Embedding,
) -> bool {
    &&& detector.ensures((&models.detector, image), scan)
    &&& face_of(scan@) matches Ok(face) ==> embedder.ensures(
        (&models.embedder, image, face),
        embedding,
    )
}

impl<M> FaceService<M> {
    /// Whether models are active.
    pub open spec fn loaded(&self) -> bool {
        self.models.loaded()
    }

    /// The active models. They are meaningful where models are active.
    pub open spec fn active(&self) -> ActiveModels<M> {
        self.models.active()->0
    }

    /// A service with no bytes uploaded, no models active and nobody
    /// enrolled.
    pub fn new() -> (res: Self)
        ensures
            !res.loaded(),
            res.registry@.len() == 0,
            forall|n: Seq<char>| #[trigger] res.chunks.blob(n) == Seq::<u8>::empty(),
    {
        FaceService { chunks: ChunkStore::new(), models: ModelSlot::new(), registry: PersonRegistry::new() }
    }

    /// The service as it comes back after a restart with these uploaded
    /// bytes and these persons: no models are active until the next setup.
    pub fn resume(chunks: ChunkStore, registry: PersonRegistry) -> (res: Self)
        ensures
            !res.loaded(),
            res.chunks == chunks,
            res.registry == registry,
    {
        FaceService { chunks, models: ModelSlot::new(), registry }
    }

    /// Drops the active models: the service is unloaded until the next
    /// setup. Nothing else changes.
    pub fn reset_models(&mut self)
        ensures
            !final(self).loaded(),
            final(self).chunks == old(self).chunks,
            final(self).registry == old(self).registry,
    {
        self.models.reset();
    }

    /// A restart in place: the active models are gone, the uploaded bytes and
    /// the enrolled persons are what they were.
    pub fn restart(&mut self)
        ensures
            !final(self).loaded(),
            final(self).chunks == old(self).chunks,
            final(self).registry == old(self).registry,
    {
        self.models.reset();
    }

    /// Empties the uploaded bytes of the face detector.
    pub fn clear_face_detection_model_bytes(&mut self)
        ensures
            final(self).chunks.is_clear_of(&old(self).chunks, FACE_DETECTION@),
            final(self).models == old(self).models,
            final(self).registry == old(self).registry,
    {
        self.chunks.clear(FACE_DETECTION);
    }

    /// Empties the uploaded bytes of the embedder.
    pub fn clear_face_recognition_model_bytes(&mut self)
        ensures
            final(self).chunks.is_clear_of(&old(self).chunks, FACE_RECOGNITION@),
            final(self).models == old(self).models,
            final(self).registry == old(self).registry,
    {
        self.chunks.clear(FACE_RECOGNITION);
    }

    /// Appends a piece to the uploaded bytes of the face detector.
    pub fn append_face_detection_model_bytes(&mut self, bytes: &Vec<u8>)
        ensures
            final(self).chunks.is_append_of(&old(self).chunks, FACE_DETECTION@, bytes@),
            final(self).models == old(self).models,
            final(self).registry == old(self).registry,
    {
        self.chunks.append(FACE_DETECTION, bytes);
    }

    /// Appends a piece to the uploaded bytes of the embedder.
    pub fn append_face_recognition_model_bytes(&mut self, bytes: &Vec<u8>)
        ensures
            final(self).chunks.is_append_of(&old(self).chunks, FACE_RECOGNITION@, bytes@),
            final(self).models == old(self).models,
            final(self).registry == old(self).registry,
    {
        self.chunks.append(FACE_RECOGNITION, bytes);
    }

    /// Activates the models from the bytes uploaded so far. On failure the
    /// active models are what they were.
    pub fn setup_models<F: Fn(&Vec<u8>) -> Result<M, String>>(&mut self, parse: F) -> (res: Result<
        (),
        LoadError,
    >)
        requires
            forall|bytes: &Vec<u8>| parse.requires((bytes,)),
        ensures
            final(self).chunks == old(self).chunks,
            final(self).registry == old(self).registry,
            res is Err ==> final(self).models.active() == old(self).models.active(),
            res is Ok ==> final(self).loaded(),
            old(self).chunks.blob(FACE_DETECTION@).len() == 0 || old(self).chunks.blob(
                FACE_RECOGNITION@,
            ).len() == 0 ==> res is Err && final(self).models.active()
                == old(self).models.active(),
            match empty_buffer(
                old(self).chunks.blob(FACE_DETECTION@),
                old(self).chunks.blob(FACE_RECOGNITION@),
            ) {
                Some(kind) => res matches Err(err) && err@ == LoadErrorView::Empty(kind),
                None => exists|
                    detector_bytes: &Vec<u8>,
                    embedder_bytes: &Vec<u8>,
                    d: Result<M, String>,
                    e: Result<M, String>,
                |
                    {
                        &&& detector_bytes@ == old(self).chunks.blob(FACE_DETECTION@)
                        &&& embedder_bytes@ == old(self).chunks.blob(FACE_RECOGNITION@)
                        &&& #[trigger] parsed_as(parse, detector_bytes, embedder_bytes, d, e)
                        &&& match parse_outcome(d, e) {
                            Ok(pair) => res is Ok && final(self).models.active() == Some(pair),
                            Err(error) => res matches Err(err) && err@ == error,
                        }
                    },
            },
    {
        let detector_bytes = self.chunks.read(FACE_DETECTION);
        let embedder_bytes = self.chunks.read(FACE_RECOGNITION);
        self.models.setup(&detector_bytes, &embedder_bytes, parse)
    }

    /// The primary face of `image`: the box of highest confidence among those
    /// that `detector` reports.
    pub fn detect<D: Fn(&M, &Vec<u8>) -> Scan>(&self, image: &Vec<u8>, detector: D) -> (res: Result<
        BoundingBox,
        PipelineError,
    >)
        requires
            forall|model: &M, bytes: &Vec<u8>| detector.requires((model, bytes)),
        ensures
            !self.loaded() ==> res == Err::<BoundingBox, PipelineError>(
                PipelineError::NoModelsLoaded,
            ),
            self.loaded() ==> exists|scan: Scan|
                {
                    &&& #[trigger] detector.ensures((&self.active().detector, image), scan)
                    &&& res == detect_outcome(true, scan@)
                },
    {
        match self.models.models() {
            None => Err(PipelineError::NoModelsLoaded),
            Some(models) => {
                let scan = detector(&models.detector, image);
                primary_face(&scan)
            },
        }
    }

    /// The enrolled person nearest to the primary face of `image`, with the
    /// distance.
    pub fn recognize<D: Fn(&M, &Vec<u8>) -> Scan, E: Fn(&M, &Vec<u8>, BoundingBox) -> Embedding>(
        &self,
        image: &Vec<u8>,
        detector: D,
        embedder: E,
    ) -> (res: Result<Match, PipelineError>)
        requires
            forall|model: &M, bytes: &Vec<u8>| detector.requires((model, bytes)),
            forall|model: &M, bytes: &Vec<u8>, face: BoundingBox|
                embedder.requires((model, bytes, face)),
        ensures
            self.registry@.len() == 0 ==> res is Err,
            !self.loaded() ==> res == Err::<Match, PipelineError>(PipelineError::NoModelsLoaded),
            self.loaded() ==> exists|scan: Scan, embedding: Embedding|
                {
                    &&& #[trigger] observed(
                        detector,
                        embedder,
                        self.active(),
                        image,
                        scan,
                        embedding,
                    )
                    &&& match_result_view(res) == recognize_outcome(
                        true,
                        self.registry@,
                        scan@,
                        embedding@,
                    )
                },
    {
        match self.models.models() {
            None => Err(PipelineError::NoModelsLoaded),
            Some(models) => {
                let scan = detector(&models.detector, image);
                match primary_face(&scan) {
                    Err(e) => {
                        proof {
                            let unused: Embedding = arbitrary();
                            assert(observed(detector, embedder, self.active(), image, scan, unused));
                        }
                        Err(e)
                    },
                    Ok(face) => {
                        let embedding = embedder(&models.embedder, image, face);
                        assert(observed(detector, embedder, self.active(), image, scan, embedding));
                        identify(&self.registry, &embedding)
                    },
                }
            },
        }
    }

    /// Enrols the primary face of `image` under `label` and gives back its
    /// embedding. Labels that are enrolled already are no hindrance. On
    /// failure nothing changes.
    pub fn add<D: Fn(&M, &Vec<u8>) -> Scan, E: Fn(&M, &Vec<u8>, BoundingBox) -> Embedding>(
        &mut self,
        label: String,
        image: &Vec<u8>,
        detector: D,
        embedder: E,
    ) -> (res: Result<Embedding, PipelineError>)
        requires
            forall|model: &M, bytes: &Vec<u8>| detector.requires((model, bytes)),
            forall|model: &M, bytes: &Vec<u8>, face: BoundingBox|
                embedder.requires((model, bytes, face)),
        ensures
            final(self).chunks == old(self).chunks,
            final(self).models == old(self).models,
            res is Err ==> final(self).registry@ == old(self).registry@,
            res is Ok ==> final(self).registry@.len() == old(self).registry@.len() + 1,
            !old(self).loaded() ==> res == Err::<Embedding, PipelineError>(
                PipelineError::NoModelsLoaded,
            ),
            old(self).loaded() ==> exists|scan: Scan, embedding: Embedding|
                {
                    &&& #[trigger] observed(
                        detector,
                        embedder,
                        old(self).active(),
                        image,
                        scan,
                        embedding,
                    )
                    &&& embedding_result_view(res) == add_outcome(true, scan@, embedding@)
                    &&& final(self).registry@ == entries_after_add(
                        true,
                        old(self).registry@,
                        label@,
                        scan@,
                        embedding@,
                    )
                },
    {
        match self.models.models() {
            None => Err(PipelineError::NoModelsLoaded),
            Some(models) => {
                let scan = detector(&models.detector, image);
                match primary_face(&scan) {
                    Err(e) => {
                        proof {
                            let unused: Embedding = arbitrary();
                            assert(observed(
                                detector,
                                embedder,
                                old(self).active(),
                                image,
                                scan,
                                unused,
                            ));
                        }
                        Err(e)
                    },
                    Ok(face) => {
                        let embedding = embedder(&models.embedder, image, face);
                        assert(observed(
                            detector,
                            embedder,
                            old(self).active(),
                            image,
                            scan,
                            embedding,
                        ));
                        let copy = embedding.clone();
                        self.registry.enroll(label, embedding);
                        Ok(copy)
                    },
                }
            },
        }
    }
}

} // verus!
