//! The failures of the service as one enumeration, and their wording.
//!
//! The service works with the structured errors throughout. Text is made
//! from them only here, for the caller at the boundary.

use vstd::prelude::*;
use crate::models::{LoadError, LoadErrorView, ModelKind};
use crate::pipeline::PipelineError;
use crate::users::UserError;

verus! {

/// Every kind of failure of the face service.
#[derive(Debug, PartialEq, Eq)]
pub enum ServiceError {
    /// A pipeline call came before a successful setup.
    NoModelsLoaded,
    /// The model bytes are empty, malformed or in an unsupported format.
    LoadError { cause: String },
    /// The image is corrupt or in an unsupported format.
    DecodeError,
    /// The detector reported no candidate box.
    NoFaceFound,
    /// Recognition was asked for with nobody enrolled.
    EmptyRegistry,
    /// The caller uploaded the pieces of a model out of sequence. The service
    /// does not detect this; the kind is for callers that do.
    UploadSequenceError,
}

/// What a [`ServiceError`] is, as plain values.
pub ghost enum ServiceErrorView {
    NoModelsLoaded,
    LoadError { cause: Seq<char> },
    DecodeError,
    NoFaceFound,
    EmptyRegistry,
    UploadSequenceError,
}

impl View for ServiceError {
    type V = ServiceErrorView;

    open spec fn view(&self) -> ServiceErrorView {
        match self {
            ServiceError::NoModelsLoaded => ServiceErrorView::NoModelsLoaded,
            ServiceError::LoadError { cause } => ServiceErrorView::LoadError { cause: cause@ },
            ServiceError::DecodeError => ServiceErrorView::DecodeError,
            ServiceError::NoFaceFound => ServiceErrorView::NoFaceFound,
            ServiceError::EmptyRegistry => ServiceErrorView::EmptyRegistry,
            ServiceError::UploadSequenceError => ServiceErrorView::UploadSequenceError,
        }
    }
}

/// How a model is called in a message.
pub open spec fn model_title(kind: ModelKind) -> Seq<char> {
    match kind {
        ModelKind::Detector => "face detection"@,
        ModelKind::Embedder => "face recognition"@,
    }
}

/// The cause that a load error names.
pub open spec fn load_cause(e: LoadErrorView) -> Seq<char> {
    match e {
        LoadErrorView::Empty(kind) => model_title(kind) + " model is empty"@,
        LoadErrorView::Rejected(kind, cause) => model_title(kind) + " model was rejected: "@ + cause,
    }
}

/// The pipeline error as a kind of service error.
pub open spec fn pipeline_kind(e: PipelineError) -> ServiceErrorView {
    match e {
        PipelineError::NoModelsLoaded => ServiceErrorView::NoModelsLoaded,
        PipelineError::DecodeError => ServiceErrorView::DecodeError,
        PipelineError::NoFaceFound => ServiceErrorView::NoFaceFound,
        PipelineError::EmptyRegistry => ServiceErrorView::EmptyRegistry,
    }
}

/// The wording of a service error.
pub open spec fn message_text(e: ServiceErrorView) -> Seq<char> {
    match e {
        ServiceErrorView::NoModelsLoaded => "models are not loaded"@,
        ServiceErrorView::LoadError { cause } => "Failed to setup model: "@ + cause,
        ServiceErrorView::DecodeError => "image could not be decoded"@,
        ServiceErrorView::NoFaceFound => "no face found"@,
        ServiceErrorView::EmptyRegistry => "no person is enrolled"@,
        ServiceErrorView::UploadSequenceError => "model chunks were uploaded out of sequence"@,
    }
}

/// The wording of a user registry error.
pub open spec fn user_message_text(e: UserError) -> Seq<char> {
    match e {
        UserError::AlreadyExists => "User with this ID already exists."@,
        UserError::NotFound => "User not found"@,
    }
}

/// How `kind` is called in a message.
fn title(kind: ModelKind) -> (res: String)
    ensures
        res@ == model_title(kind),
{
    match kind {
        ModelKind::Detector => String::from_str("face detection"),
        ModelKind::Embedder => String::from_str("face recognition"),
    }
}

impl LoadError {
    /// Which model could not be loaded.
    pub fn model(&self) -> (res: ModelKind)
        ensures
            res == match self@ {
                LoadErrorView::Empty(kind) => kind,
                LoadErrorView::Rejected(kind, _) => kind,
            },
    {
        match self {
            LoadError::Empty(kind) => *kind,
            LoadError::Rejected(kind, _) => *kind,
        }
    }

    /// The cause, in words.
    pub fn cause(&self) -> (res: String)
        ensures
            res@ == load_cause(self@),
    {
        match self {
            LoadError::Empty(kind) => title(*kind).concat(" model is empty"),
            LoadError::Rejected(kind, cause) => title(*kind).concat(" model was rejected: ").concat(
                cause.as_str(),
            ),
        }
    }
}

impl ServiceError {
    /// The pipeline error as a service error.
    pub fn from_pipeline(e: PipelineError) -> (res: Self)
        ensures
            res@ == pipeline_kind(e),
    {
        match e {
            PipelineError::NoModelsLoaded => ServiceError::NoModelsLoaded,
            PipelineError::DecodeError => ServiceError::DecodeError,
            PipelineError::NoFaceFound => ServiceError::NoFaceFound,
            PipelineError::EmptyRegistry => ServiceError::EmptyRegistry,
        }
    }

    /// The load error as a service error: its cause, in words.
    pub fn from_load(e: &LoadError) -> (res: Self)
        ensures
            res@ == (ServiceErrorView::LoadError { cause: load_cause(e@) }),
    {
        ServiceError::LoadError { cause: e.cause() }
    }

    /// The error, in words.
    pub fn message(&self) -> (res: String)
        ensures
            res@ == message_text(self@),
    {
        match self {
            ServiceError::NoModelsLoaded => String::from_str("models are not loaded"),
            ServiceError::LoadError { cause } => String::from_str("Failed to setup model: ").concat(
                cause.as_str(),
            ),
            ServiceError::DecodeError => String::from_str("image could not be decoded"),
            ServiceError::NoFaceFound => String::from_str("no face found"),
            ServiceError::EmptyRegistry => String::from_str("no person is enrolled"),
            ServiceError::UploadSequenceError => String::from_str(
                "model chunks were uploaded out of sequence",
            ),
        }
    }
}

impl PipelineError {
    /// The error, in words.
    pub fn message(&self) -> (res: String)
        ensures
            res@ == message_text(pipeline_kind(*self)),
    {
        ServiceError::from_pipeline(*self).message()
    }
}

impl UserError {
    /// The error, in words.
    pub fn message(&self) -> (res: String)
        ensures
            res@ == user_message_text(*self),
    {
        match self {
            UserError::AlreadyExists => String::from_str("User with this ID already exists."),
            UserError::NotFound => String::from_str("User not found"),
        }
    }
}

} // verus!
