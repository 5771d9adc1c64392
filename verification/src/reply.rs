//! What the service answers at its boundary: the value on success, or the
//! error put into words.

use vstd::prelude::*;
use crate::detection::BoundingBox;
use crate::embedding::Embedding;
use crate::errors::{load_cause, message_text, pipeline_kind, user_message_text, ServiceErrorView};
use crate::models::LoadError;
use crate::pipeline::PipelineError;
use crate::registry::{Match, MatchView};
use crate::users::UserError;

verus! {

/// An error as the caller sees it.
#[derive(Debug, PartialEq, Eq)]
pub struct Error {
    pub message: String,
}

/// The answer to a face detection.
#[derive(Debug, PartialEq, Eq)]
pub enum Detection {
    Found(BoundingBox),
    Failed(Error),
}

/// The answer to an enrolment.
#[derive(Debug, PartialEq, Eq)]
pub enum Addition {
    Added(Embedding),
    Failed(Error),
}

/// The answer to a recognition.
#[derive(Debug, PartialEq, Eq)]
pub enum Recognition {
    Recognized(Match),
    Failed(Error),
}

/// What an answer is, as plain values: the value, or the message.
pub ghost enum ReplyView<T> {
    Value(T),
    Failed(Seq<char>),
}

impl View for Detection {
    type V = ReplyView<BoundingBox>;

    open spec fn view(&self) -> ReplyView<BoundingBox> {
        match self {
            Detection::Found(face) => ReplyView::Value(*face),
            Detection::Failed(e) => ReplyView::Failed(e.message@),
        }
    }
}

impl View for Addition {
    type V = ReplyView<Seq<i32>>;

    open spec fn view(&self) -> ReplyView<Seq<i32>> {
        match self {
            Addition::Added(embedding) => ReplyView::Value(embedding@),
            Addition::Failed(e) => ReplyView::Failed(e.message@),
        }
    }
}

impl View for Recognition {
    type V = ReplyView<MatchView>;

    open spec fn view(&self) -> ReplyView<MatchView> {
        match self {
            Recognition::Recognized(m) => ReplyView::Value(m@),
            Recognition::Failed(e) => ReplyView::Failed(e.message@),
        }
    }
}

/// The wording of a pipeline error.
pub open spec fn pipeline_message(e: PipelineError) -> Seq<char> {
    message_text(pipeline_kind(e))
}

/// The answer to a face detection that ended in `result`.
pub fn detection_reply(result: Result<BoundingBox, PipelineError>) -> (res: Detection)
    ensures
        res@ == match result {
            Ok(face) => ReplyView::Value(face),
            Err(e) => ReplyView::Failed(pipeline_message(e)),
        },
{
    match result {
        Ok(face) => Detection::Found(face),
        Err(e) => Detection::Failed(Error { message: e.message() }),
    }
}

/// The answer to a recognition that ended in `result`.
pub fn recognition_reply(result: Result<Match, PipelineError>) -> (res: Recognition)
    ensures
        res@ == match result {
            Ok(m) => ReplyView::Value(m@),
            Err(e) => ReplyView::Failed(pipeline_message(e)),
        },
{
    match result {
        Ok(m) => Recognition::Recognized(m),
        Err(e) => Recognition::Failed(Error { message: e.message() }),
    }
}

/// The answer to an enrolment that ended in `result`.
pub fn addition_reply(result: Result<Embedding, PipelineError>) -> (res: Addition)
    ensures
        res@ == match result {
            Ok(embedding) => ReplyView::Value(embedding@),
            Err(e) => ReplyView::Failed(pipeline_message(e)),
        },
{
    match result {
        Ok(embedding) => Addition::Added(embedding),
        Err(e) => Addition::Failed(Error { message: e.message() }),
    }
}

/// The answer to a setup that ended in `result`.
pub fn setup_reply(result: Result<(), LoadError>) -> (res: Result<(), String>)
    ensures
        result is Ok <==> res is Ok,
        result matches Err(e) ==> res matches Err(message) && message@ == message_text(
            ServiceErrorView::LoadError { cause: load_cause(e@) },
        ),
{
    match result {
        Ok(()) => Ok(()),
        Err(e) => Err(crate::errors::ServiceError::from_load(&e).message()),
    }
}

/// The answer to a user registry call that ended in `result`.
pub fn user_reply(result: Result<(), UserError>) -> (res: Result<(), String>)
    ensures
        result is Ok <==> res is Ok,
        result matches Err(e) ==> res matches Err(message) && message@ == user_message_text(e),
{
    match result {
        Ok(()) => Ok(()),
        Err(e) => Err(e.message()),
    }
}

} // verus!
