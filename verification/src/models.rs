//! Activation of the two models: from two complete byte buffers to a pair of
//! in-memory handles that replaces the active pair as a whole.

use vstd::prelude::*;

verus! {

/// Which of the two models.
#[derive(Clone, Copy, Debug, PartialEq, Eq, Structural)]
pub enum ModelKind {
    /// The face detector.
    Detector,
    /// The face-embedding extractor.
    Embedder,
}

/// Why activation failed.
#[derive(Debug, PartialEq, Eq)]
pub enum LoadError {
    /// The byte buffer of this model is empty.
    Empty(ModelKind),
    /// The runtime could not parse the bytes of this model; its own words.
    Rejected(ModelKind, String),
}

/// What a [`LoadError`] is, as plain values.
pub ghost enum LoadErrorView {
    Empty(ModelKind),
    Rejected(ModelKind, Seq<char>),
}

impl View for LoadError {
    type V = LoadErrorView;

    open spec fn view(&self) -> LoadErrorView {
        match self {
            LoadError::Empty(kind) => LoadErrorView::Empty(*kind),
            LoadError::Rejected(kind, cause) => LoadErrorView::Rejected(*kind, cause@),
        }
    }
}

/// The activated pair of handles. `M` is the runtime's type of a loaded model.
#[derive(Debug, PartialEq, Eq)]
pub struct ActiveModels<M> {
    pub detector: M,
    pub embedder: M,
}

/// What parsing the two buffers comes to: the pair on success, else the first
/// failure, the detector's before the embedder's.
pub open spec fn parse_outcome<M>(
    detector: Result<M, String>,
    embedder: Result<M, String>,
) -> Result<ActiveModels<M>, LoadErrorView> {
    match (detector, embedder) {
        (Err(cause), _) => Err(LoadErrorView::Rejected(ModelKind::Detector, cause@)),
        (Ok(_), Err(cause)) => Err(LoadErrorView::Rejected(ModelKind::Embedder, cause@)),
        (Ok(d), Ok(e)) => Ok(ActiveModels { detector: d, embedder: e }),
    }
}

/// The emptiness check that precedes parsing, the detector's buffer first.
pub open spec fn empty_buffer(detector_bytes: Seq<u8>, embedder_bytes: Seq<u8>) -> Option<
    ModelKind,
> {
    if detector_bytes.len() == 0 {
        Some(ModelKind::Detector)
    } else if embedder_bytes.len() == 0 {
        Some(ModelKind::Embedder)
    } else {
        None
    }
}

/// The place of the active models: empty until the first successful setup.
pub struct ModelSlot<M> {
    active: Option<ActiveModels<M>>,
}

impl<M> ModelSlot<M> {
    /// The active pair, if any.
    pub closed spec fn active(&self) -> Option<ActiveModels<M>> {
        self.active
    }

    /// Whether a pair is active.
    pub open spec fn loaded(&self) -> bool {
        self.active() is Some
    }

    /// A slot with nothing active.
    pub fn new() -> (res: Self)
        ensures
            res.active() == None::<ActiveModels<M>>,
    {
        ModelSlot { active: None }
    }

    /// Whether a pair is active.
    pub fn is_loaded(&self) -> (res: bool)
        ensures
            res == self.loaded(),
    {
        self.active.is_some()
    }

    /// The active pair.
    pub fn models(&self) -> (res: Option<&ActiveModels<M>>)
        ensures
            res is Some == self.loaded(),
            res matches Some(m) ==> self.active() == Some(*m),
    {
        self.active.as_ref()
    }

    /// Drops the active pair.
    pub fn reset(&mut self)
        ensures
            final(self).active() == None::<ActiveModels<M>>,
    {
        self.active = None;
    }

    /// Takes what parsing the two buffers gave. Both handles are installed
    /// together, or neither.
    pub fn activate(&mut self, detector: Result<M, String>, embedder: Result<M, String>) -> (res:
        Result<(), LoadError>)
        ensures
            match parse_outcome(detector, embedder) {
                Ok(pair) => res is Ok && final(self).active() == Some(pair),
                Err(e) => res matches Err(err) && err@ == e && final(self).active() == old(
                    self,
                ).active(),
            },
    {
        match detector {
            Err(cause) => Err(LoadError::Rejected(ModelKind::Detector, cause)),
            Ok(d) => match embedder {
                Err(cause) => Err(LoadError::Rejected(ModelKind::Embedder, cause)),
                Ok(e) => {
                    self.active = Some(ActiveModels { detector: d, embedder: e });
                    Ok(())
                },
            },
        }
    }

    /// Parses both buffers with `parse` and activates the result. An empty
    /// buffer fails before anything is parsed; the embedder's buffer is parsed
    /// only once the detector's has been accepted.
    pub fn setup<F: Fn(&Vec<u8>) -> Result<M, String>>(
        &mut self,
        detector_bytes: &Vec<u8>,
        embedder_bytes: &Vec<u8>,
        parse: F,
    ) -> (res: Result<(), LoadError>)
        requires
            forall|bytes: &Vec<u8>| parse.requires((bytes,)),
        ensures
            res is Err ==> final(self).active() == old(self).active(),
            res is Ok ==> final(self).loaded(),
            detector_bytes@.len() == 0 || embedder_bytes@.len() == 0 ==> res is Err
                && final(self).active() == old(self).active(),
            match empty_buffer(detector_bytes@, embedder_bytes@) {
                Some(kind) => res matches Err(err) && err@ == LoadErrorView::Empty(kind),
                None => exists|d: Result<M, String>, e: Result<M, String>|
                    {
                        &&& #[trigger] parsed_as(parse, detector_bytes, embedder_bytes, d, e)
                        &&& match parse_outcome(d, e) {
                            Ok(pair) => res is Ok && final(self).active() == Some(pair),
                            Err(error) => res matches Err(err) && err@ == error,
                        }
                    },
            },
    {
        if detector_bytes.len() == 0 {
            return Err(LoadError::Empty(ModelKind::Detector));
        }
        if embedder_bytes.len() == 0 {
            return Err(LoadError::Empty(ModelKind::Embedder));
        }
        let detector = parse(detector_bytes);
        let ghost d = detector;
        match detector {
            Err(cause) => {
                assert(parsed_as(parse, detector_bytes, embedder_bytes, d, d));
                Err(LoadError::Rejected(ModelKind::Detector, cause))
            },
            Ok(handle) => {
                let embedder = parse(embedder_bytes);
                assert(parsed_as(parse, detector_bytes, embedder_bytes, d, embedder));
                self.activate(Ok(handle), embedder)
            },
        }
    }
}

/// Whether `d` and `e` are what `parse` gave for the two buffers, the second
/// being parsed only after the first was accepted.
pub open spec fn parsed_as<M, F: Fn(&Vec<u8>) -> Result<M, String>>(
    parse: F,
    detector_bytes: &Vec<u8>,
    embedder_bytes: &Vec<u8>,
    d: Result<M, String>,
    e: Result<M, String>,
) -> bool {
    &&& parse.ensures((detector_bytes,), d)
    &&& d is Ok ==> parse.ensures((embedder_bytes,), e)
}

} // verus!
