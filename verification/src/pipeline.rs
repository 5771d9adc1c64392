//! The decisions of the face pipeline, over what the inference runtime
//! reported: which face of an image counts, and who it is.
//!
//! A call fails on the first of these that holds: no models are active; the
//! image could not be decoded; the detector found no face; nobody is
//! enrolled (for recognition only).

use vstd::prelude::*;
use crate::detection::{
    lemma_most_confident_is_primary,
    primary_index,
    select_primary,
    BoundingBox,
};
use crate::embedding::{lemma_distance_to_self, Embedding};
use crate::registry::{
    best_match,
    distance_at,
    is_nearest,
    lemma_nearest_exists,
    lemma_nearest_is_index,
    nearest_index,
    Match,
    MatchView,
    PersonRegistry,
    PersonView,
};

verus! {

/// Why a pipeline call failed.
#[derive(Clone, Copy, Debug, PartialEq, Eq, Structural)]
pub enum PipelineError {
    /// No models are active: setup has not succeeded yet.
    NoModelsLoaded,
    /// The image bytes are in no supported format.
    DecodeError,
    /// The detector reported no candidate box.
    NoFaceFound,
    /// Nobody is enrolled.
    EmptyRegistry,
}

/// What the detector reported for one image.
#[derive(Debug, PartialEq, Eq)]
pub enum Scan {
    /// The image bytes could not be decoded.
    Undecodable,
    /// The candidate boxes, in the detector's order.
    Faces(Vec<BoundingBox>),
}

/// What a [`Scan`] is, as plain values.
pub ghost enum ScanView {
    Undecodable,
    Faces(Seq<BoundingBox>),
}

impl View for Scan {
    type V = ScanView;

    open spec fn view(&self) -> ScanView {
        match self {
            Scan::Undecodable => ScanView::Undecodable,
            Scan::Faces(candidates) => ScanView::Faces(candidates@),
        }
    }
}

/// The primary face of a scanned image.
pub open spec fn face_of(scan: ScanView) -> Result<BoundingBox, PipelineError> {
    match scan {
        ScanView::Undecodable => Err(PipelineError::DecodeError),
        ScanView::Faces(candidates) => if candidates.len() == 0 {
            Err(PipelineError::NoFaceFound)
        } else {
            Ok(candidates[primary_index(candidates)])
        },
    }
}

/// The person that `query` is recognised as.
pub open spec fn recognition(entries: Seq<PersonView>, query: Seq<i32>) -> Result<
    MatchView,
    PipelineError,
> {
    match best_match(entries, query) {
        Some(m) => Ok(m),
        None => Err(PipelineError::EmptyRegistry),
    }
}

/// What `detect` answers where models are active or not and the detector
/// reported `scan`.
pub open spec fn detect_outcome(loaded: bool, scan: ScanView) -> Result<
    BoundingBox,
    PipelineError,
> {
    if loaded {
        face_of(scan)
    } else {
        Err(PipelineError::NoModelsLoaded)
    }
}

/// What `recognize` answers where the detector reported `scan` and the
/// embedder gave `embedding` for the primary face.
pub open spec fn recognize_outcome(
    loaded: bool,
    entries: Seq<PersonView>,
    scan: ScanView,
    embedding: Seq<i32>,
) -> Result<MatchView, PipelineError> {
    match detect_outcome(loaded, scan) {
        Err(e) => Err(e),
        Ok(_) => recognition(entries, embedding),
    }
}

/// What `add` answers: the embedding that it enrolled.
pub open spec fn add_outcome(loaded: bool, scan: ScanView, embedding: Seq<i32>) -> Result<
    Seq<i32>,
    PipelineError,
> {
    match detect_outcome(loaded, scan) {
        Err(e) => Err(e),
        Ok(_) => Ok(embedding),
    }
}

/// The registry after `add`: one entry more where it succeeded, else
/// unchanged.
pub open spec fn entries_after_add(
    loaded: bool,
    entries: Seq<PersonView>,
    label: Seq<char>,
    scan: ScanView,
    embedding: Seq<i32>,
) -> Seq<PersonView> {
    match detect_outcome(loaded, scan) {
        Err(_) => entries,
        Ok(_) => entries.push(PersonView { label, embedding }),
    }
}

/// A recognition result, as plain values.
pub open spec fn match_result_view(res: Result<Match, PipelineError>) -> Result<
    MatchView,
    PipelineError,
> {
    match res {
        Ok(m) => Ok(m@),
        Err(e) => Err(e),
    }
}

/// An enrolment result, as plain values.
pub open spec fn embedding_result_view(res: Result<Embedding, PipelineError>) -> Result<
    Seq<i32>,
    PipelineError,
> {
    match res {
        Ok(e) => Ok(e@),
        Err(e) => Err(e),
    }
}

/// The primary face of a scanned image: the candidate of highest confidence.
pub fn primary_face(scan: &Scan) -> (res: Result<BoundingBox, PipelineError>)
    ensures
        res == face_of(scan@),
{
    match scan {
        Scan::Undecodable => Err(PipelineError::DecodeError),
        Scan::Faces(candidates) => match select_primary(candidates) {
            None => Err(PipelineError::NoFaceFound),
            Some(i) => Ok(candidates[i]),
        },
    }
}

/// The enrolled person nearest to `query`.
pub fn identify(registry: &PersonRegistry, query: &Embedding) -> (res: Result<Match, PipelineError>)
    ensures
        match_result_view(res) == recognition(registry@, query@),
{
    match registry.best_match(query) {
        Some(m) => Ok(m),
        None => Err(PipelineError::EmptyRegistry),
    }
}

/// Where models are active, an image without a face is answered with
/// `NoFaceFound`, and an image in which one face has a higher confidence than
/// every other is answered with that face, wherever the detector listed it.
pub proof fn lemma_most_confident_face_is_detected(candidates: Seq<BoundingBox>, i: int)
    requires
        0 <= i < candidates.len(),
        forall|j: int|
            0 <= j < candidates.len() && j != i ==> (#[trigger] candidates[j]).confidence
                < candidates[i].confidence,
    ensures
        detect_outcome(true, ScanView::Faces(Seq::empty())) == Err::<BoundingBox, PipelineError>(
            PipelineError::NoFaceFound,
        ),
        detect_outcome(true, ScanView::Faces(candidates)) == Ok::<BoundingBox, PipelineError>(
            candidates[i],
        ),
{
    lemma_most_confident_is_primary(candidates, i);
}

/// With nobody enrolled, recognition fails: no match is made up. It fails
/// with `EmptyRegistry` where models are active and the image shows a face.
pub proof fn lemma_empty_registry_never_matches(
    loaded: bool,
    scan: ScanView,
    embedding: Seq<i32>,
)
    ensures
        recognize_outcome(loaded, Seq::empty(), scan, embedding) is Err,
        detect_outcome(loaded, scan) is Ok ==> recognize_outcome(
            loaded,
            Seq::empty(),
            scan,
            embedding,
        ) == Err::<MatchView, PipelineError>(PipelineError::EmptyRegistry),
{
}

/// An entry that is nearer to the query than every other entry is the match,
/// wherever it stands in the registry.
pub proof fn lemma_strictly_nearest_is_recognized(
    entries: Seq<PersonView>,
    query: Seq<i32>,
    k: int,
)
    requires
        0 <= k < entries.len(),
        forall|j: int|
            0 <= j < entries.len() && j != k ==> distance_at(entries, query, k)
                < #[trigger] distance_at(entries, query, j),
    ensures
        recognition(entries, query) == Ok::<MatchView, PipelineError>(
            MatchView { person: entries[k], distance: distance_at(entries, query, k) },
        ),
{
    assert(is_nearest(entries, query, k));
    lemma_nearest_is_index(entries, query, k);
}

/// After `add` has succeeded on an image, `recognize` on an image of which
/// the runtime reports the same succeeds at distance zero, and the registry
/// has one entry more. The label is the one just enrolled, unless an entry
/// enrolled before lies at distance zero from the embedding too: then the
/// earlier entry is the match.
pub proof fn lemma_add_then_recognize(
    entries: Seq<PersonView>,
    label: Seq<char>,
    scan: ScanView,
    embedding: Seq<i32>,
)
    requires
        add_outcome(true, scan, embedding) is Ok,
    ensures
        entries_after_add(true, entries, label, scan, embedding).len() == entries.len() + 1,
        recognize_outcome(
            true,
            entries_after_add(true, entries, label, scan, embedding),
            scan,
            embedding,
        ) matches Ok(m) && m.distance == 0,
        (forall|j: int| 0 <= j < entries.len() ==> #[trigger] distance_at(entries, embedding, j) != 0)
            ==> recognize_outcome(
            true,
            entries_after_add(true, entries, label, scan, embedding),
            scan,
            embedding,
        ) == Ok::<MatchView, PipelineError>(
            MatchView { person: PersonView { label, embedding }, distance: 0 },
        ),
{
    lemma_enrolled_face_is_recognized(entries, label, embedding);
}

/// After a face was enrolled, the same embedding is recognised at distance
/// zero, and as the new entry unless an entry enrolled before it lies at
/// distance zero too.
pub proof fn lemma_enrolled_face_is_recognized(
    entries: Seq<PersonView>,
    label: Seq<char>,
    embedding: Seq<i32>,
)
    ensures
        recognition(entries.push(PersonView { label, embedding }), embedding) matches Ok(m)
            && m.distance == 0,
        (forall|j: int| 0 <= j < entries.len() ==> #[trigger] distance_at(entries, embedding, j) != 0)
            ==> recognition(entries.push(PersonView { label, embedding }), embedding) == Ok::<
            MatchView,
            PipelineError,
        >(MatchView { person: PersonView { label, embedding }, distance: 0 }),
{
    let after = entries.push(PersonView { label, embedding });
    let last = entries.len() as int;
    lemma_distance_to_self(embedding);
    assert(distance_at(after, embedding, last) == 0);
    let i = nearest_index(after, embedding);
    lemma_nearest_exists(after, embedding);
    assert(distance_at(after, embedding, i) <= distance_at(after, embedding, last));
    if forall|j: int| 0 <= j < entries.len() ==> #[trigger] distance_at(entries, embedding, j) != 0 {
        assert forall|j: int| 0 <= j < last implies distance_at(after, embedding, last)
            < #[trigger] distance_at(after, embedding, j) by {
            assert(after[j] == entries[j]);
            assert(distance_at(entries, embedding, j) != 0);
        }
        assert(is_nearest(after, embedding, last));
        lemma_nearest_is_index(after, embedding, last);
    }
}

} // verus!
