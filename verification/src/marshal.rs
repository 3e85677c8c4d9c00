//! The boundary between the scheduler's values and the values a script sees.
//!
//! A script value is kept here only by its shape: what the scheduler may
//! trust of it once it has crossed the boundary.

use vstd::prelude::*;
use crate::effect::{Effect, EffectView, Handle, JobId, ResumeData, ResumeView};
use crate::error::TaskError;

verus! {

/// What an opaque script object carries.
#[derive(Debug, PartialEq, Eq)]
pub enum Payload {
    /// A request to the scheduler.
    Effect(Effect),
    /// The job of a forked task.
    Job(JobId),
    /// Anything the scheduler does not know.
    Foreign,
}

/// A value of the scripting engine, as far as the scheduler reads it.
#[derive(Debug, PartialEq, Eq)]
pub enum ScriptValue {
    /// The engine's empty value.
    Nil,
    /// A string.
    Text(String),
    /// The value that a handle keeps alive in interpreter storage.
    Stored(Handle),
    /// An opaque object and what it carries.
    Object(Payload),
    /// Any other value: a number, a table, a function.
    Other,
}

/// A payload as contracts see it.
pub enum PayloadView {
    Effect(EffectView),
    Job(JobId),
    Foreign,
}

/// A script value as contracts see it.
pub enum ScriptView {
    Nil,
    Text(Seq<char>),
    Stored(Handle),
    Object(PayloadView),
    Other,
}

impl View for Payload {
    type V = PayloadView;

    open spec fn view(&self) -> PayloadView {
        match self {
            Payload::Effect(e) => PayloadView::Effect(e@),
            Payload::Job(j) => PayloadView::Job(*j),
            Payload::Foreign => PayloadView::Foreign,
        }
    }
}

impl View for ScriptValue {
    type V = ScriptView;

    open spec fn view(&self) -> ScriptView {
        match self {
            ScriptValue::Nil => ScriptView::Nil,
            ScriptValue::Text(s) => ScriptView::Text(s@),
            ScriptValue::Stored(h) => ScriptView::Stored(*h),
            ScriptValue::Object(p) => ScriptView::Object(p@),
            ScriptValue::Other => ScriptView::Other,
        }
    }
}

/// The script value that stands for each resume value.
pub open spec fn spec_to_script(data: ResumeView) -> ScriptView {
    match data {
        ResumeView::Nil => ScriptView::Nil,
        ResumeView::Text(s) => ScriptView::Text(s),
        ResumeView::Handle(h) => ScriptView::Stored(h),
        ResumeView::Job(j) => ScriptView::Object(PayloadView::Job(j)),
    }
}

/// The resume value that a script value stands for, if it stands for one.
pub open spec fn spec_from_script(value: ScriptView) -> Option<ResumeView> {
    match value {
        ScriptView::Nil => Some(ResumeView::Nil),
        ScriptView::Text(s) => Some(ResumeView::Text(s)),
        ScriptView::Stored(h) => Some(ResumeView::Handle(h)),
        ScriptView::Object(PayloadView::Job(j)) => Some(ResumeView::Job(j)),
        _ => None,
    }
}

/// The request that a suspended context's value carries, if it carries one:
/// only an opaque object that holds an effect does.
pub open spec fn spec_classify(value: ScriptView) -> Option<EffectView> {
    match value {
        ScriptView::Object(PayloadView::Effect(e)) => Some(e),
        _ => None,
    }
}

/// Turns a resume value into the script value handed to the context.
pub fn to_script(data: ResumeData) -> (value: ScriptValue)
    ensures
        value@ == spec_to_script(data@),
{
    match data {
        ResumeData::Nil => ScriptValue::Nil,
        ResumeData::Text(s) => ScriptValue::Text(s),
        ResumeData::Handle(h) => ScriptValue::Stored(h),
        ResumeData::Job(j) => ScriptValue::Object(Payload::Job(j)),
    }
}

/// Reads a script value back as a resume value. A value of any other shape
/// gives `None`.
pub fn from_script(value: ScriptValue) -> (data: Option<ResumeData>)
    ensures
        match spec_from_script(value@) {
            Some(v) => data is Some && data->0@ == v,
            None => data is None,
        },
{
    match value {
        ScriptValue::Nil => Some(ResumeData::Nil),
        ScriptValue::Text(s) => Some(ResumeData::Text(s)),
        ScriptValue::Stored(h) => Some(ResumeData::Handle(h)),
        ScriptValue::Object(Payload::Job(j)) => Some(ResumeData::Job(j)),
        _ => None,
    }
}

/// Wraps an effect as the opaque object a script receives from a
/// constructor.
pub fn wrap_effect(effect: Effect) -> (value: ScriptValue)
    ensures
        value@ == ScriptView::Object(PayloadView::Effect(effect@)),
{
    ScriptValue::Object(Payload::Effect(effect))
}

/// Validates the value a context suspended with. It is an effect exactly
/// when it is an opaque object that carries one; every other value is a
/// protocol violation, and none is read as data.
pub fn classify(value: ScriptValue) -> (r: Result<Effect, TaskError>)
    ensures
        match spec_classify(value@) {
            Some(e) => r is Ok && r->Ok_0@ == e,
            None => r == Err::<Effect, TaskError>(TaskError::ProtocolViolation),
        },
{
    match value {
        ScriptValue::Object(Payload::Effect(e)) => Ok(e),
        _ => Err(TaskError::ProtocolViolation),
    }
}

/// Every resume value survives the trip to the script and back.
pub proof fn lemma_resume_round_trip(data: ResumeView)
    ensures
        spec_from_script(spec_to_script(data)) == Some(data),
{
}

/// A wrapped effect is classified as that effect, and no resume value is
/// ever taken for an effect.
pub proof fn lemma_classify_closed(effect: EffectView, data: ResumeView)
    ensures
        spec_classify(ScriptView::Object(PayloadView::Effect(effect))) == Some(effect),
        spec_classify(spec_to_script(data)) is None,
{
}

} // verus!
