//! The executor's side: the input file handed to the WASM guest, the
//! pipeline the guest runs, and how its answer becomes a result.

use vstd::prelude::*;
use crate::text::{decimal_digits, push_decimal};

verus! {

/// An input file for a pipeline.
#[derive(Debug)]
pub enum ExecuteParamsFile {
    Bytes(Vec<u8>),
    Text(String),
}

/// The input file as the guest interface carries it.
#[derive(Debug)]
pub enum GuestFile {
    Bytes(Vec<u8>),
    Text(String),
}

impl From<ExecuteParamsFile> for GuestFile {
    fn from(value: ExecuteParamsFile) -> (res: GuestFile) {
        match value {
            ExecuteParamsFile::Bytes(bytes) => GuestFile::Bytes(bytes),
            ExecuteParamsFile::Text(text) => GuestFile::Text(text),
        }
    }
}

impl vstd::std_specs::convert::FromSpecImpl<ExecuteParamsFile> for GuestFile {
    open spec fn obeys_from_spec() -> bool {
        true
    }

    open spec fn from_spec(value: ExecuteParamsFile) -> GuestFile {
        match value {
            ExecuteParamsFile::Bytes(bytes) => GuestFile::Bytes(bytes),
            ExecuteParamsFile::Text(text) => GuestFile::Text(text),
        }
    }
}

/// What the guest's `execute` returned.
#[derive(Debug)]
pub enum GuestOutcome<E> {
    /// The pipeline's output.
    Value(String),
    /// A parse, compile or evaluation error, formatted.
    Error(String),
    /// Merging the parsed definitions into the engine state failed.
    MergeDelta,
    /// The pipeline's result could not be collected into a value.
    IntoValue,
    /// The pipeline's value could not be turned into a string.
    IntoString,
    /// The call into the guest itself failed.
    Trap(E),
}

/// Why an execution gave no text.
#[derive(Debug)]
pub enum ExecuteFailure<E> {
    MergeDelta,
    IntoValue,
    IntoString,
    Trap(E),
}

/// The message of a failure inside the guest.
pub open spec fn failure_text<E>(f: ExecuteFailure<E>) -> Option<Seq<char>> {
    match f {
        ExecuteFailure::MergeDelta => Some("error while merging delta"@),
        ExecuteFailure::IntoValue => Some("error while turning res into value"@),
        ExecuteFailure::IntoString => Some("error while turning res into string"@),
        ExecuteFailure::Trap(_) => None,
    }
}

impl<E> ExecuteFailure<E> {
    /// The message of a failure inside the guest; `None` for a failed call,
    /// which carries its own error.
    pub fn message(&self) -> (res: Option<String>)
        ensures
            match res {
                Some(m) => failure_text(*self) == Some(m@),
                None => failure_text(*self) is None,
            },
    {
        match self {
            ExecuteFailure::MergeDelta => Some("error while merging delta".to_owned()),
            ExecuteFailure::IntoValue => Some("error while turning res into value".to_owned()),
            ExecuteFailure::IntoString => Some("error while turning res into string".to_owned()),
            ExecuteFailure::Trap(_) => None,
        }
    }
}

/// The result of an execution: the text of the output or of a pipeline
/// error, or the failure.
pub fn execute_result<E>(outcome: GuestOutcome<E>) -> (res: Result<String, ExecuteFailure<E>>)
    ensures
        match outcome {
            GuestOutcome::Value(v) => res matches Ok(t) && t == v,
            GuestOutcome::Error(v) => res matches Ok(t) && t == v,
            GuestOutcome::MergeDelta => res matches Err(ExecuteFailure::MergeDelta),
            GuestOutcome::IntoValue => res matches Err(ExecuteFailure::IntoValue),
            GuestOutcome::IntoString => res matches Err(ExecuteFailure::IntoString),
            GuestOutcome::Trap(e) => res matches Err(ExecuteFailure::Trap(f)) && f == e,
        },
{
    match outcome {
        GuestOutcome::Value(ok) | GuestOutcome::Error(ok) => Ok(ok),
        GuestOutcome::MergeDelta => Err(ExecuteFailure::MergeDelta),
        GuestOutcome::IntoValue => Err(ExecuteFailure::IntoValue),
        GuestOutcome::IntoString => Err(ExecuteFailure::IntoString),
        GuestOutcome::Trap(e) => Err(ExecuteFailure::Trap(e)),
    }
}

/// The pipeline the guest runs for `source`: its output as an expanded
/// table `cols` characters wide, turned into a string.
pub open spec fn pipeline_text(source: Seq<char>, cols: u16) -> Seq<char> {
    source + " | table --expand --width "@ + decimal_digits(cols as nat) + " | into string"@
}

/// Builds the pipeline the guest runs for `source` at width `cols`.
pub fn pipeline_source(source: &str, cols: u16) -> (res: String)
    ensures
        res@ == pipeline_text(source@, cols),
{
    let mut s = source.to_owned();
    s.append(" | table --expand --width ");
    push_decimal(&mut s, cols as u64);
    s.append(" | into string");
    s
}

/// The value a pipeline gets as its input.
#[derive(Debug)]
pub enum PipelineInput {
    /// A string value.
    String(String),
    /// A binary value.
    Binary(Vec<u8>),
    /// No value.
    Nothing,
}

/// The pipeline input for an optional file: text becomes a string, bytes
/// become a binary value, and no file gives nothing.
pub fn pipeline_input(file: Option<GuestFile>) -> (res: PipelineInput)
    ensures
        match file {
            Some(GuestFile::Text(t)) => res matches PipelineInput::String(s) && s == t,
            Some(GuestFile::Bytes(b)) => res matches PipelineInput::Binary(v) && v == b,
            None => res matches PipelineInput::Nothing,
        },
{
    match file {
        Some(GuestFile::Text(text)) => PipelineInput::String(text),
        Some(GuestFile::Bytes(bytes)) => PipelineInput::Binary(bytes),
        None => PipelineInput::Nothing,
    }
}

} // verus!
