//! The flush: the steps by which the collection reaches its backing file,
//! and the error that ends a flush when a step fails.
//!
//! The library decides which step comes next and how a flush ends; the
//! caller performs each step and reports how it went.

use vstd::prelude::*;
use vstd::string::StringExecFns;

verus! {

/// One step of a flush, in the order in which the steps are taken.
#[derive(Clone, Copy, Debug, PartialEq, Eq)]
pub enum FlushStep {
    /// Encode the collection as text.
    Serialize,
    /// Create the directory that holds the backing file, with its parents.
    CreateDirectory,
    /// Write the text to the backing file, replacing what it held.
    WriteFile,
}

/// Why a flush failed: the step that failed, with the detail that the
/// caller gave for it.
#[derive(Debug, PartialEq, Eq)]
pub enum PersistError {
    Serialization(String),
    DirectoryCreation(String),
    Write(String),
}

/// Where a flush stands after a step.
#[derive(Debug, PartialEq, Eq)]
pub enum FlushProgress {
    /// The step to take next.
    Pending(FlushStep),
    /// The flush is over, and this is how it ended.
    Finished(Result<(), PersistError>),
}

impl PersistError {
    /// The detail that was given for the failed step.
    pub open spec fn detail(self) -> Seq<char> {
        match self {
            PersistError::Serialization(detail) => detail@,
            PersistError::DirectoryCreation(detail) => detail@,
            PersistError::Write(detail) => detail@,
        }
    }

    /// The words that name the failed step at the head of the message.
    pub open spec fn heading(self) -> Seq<char> {
        match self {
            PersistError::Serialization(_) => "序列化失败: "@,
            PersistError::DirectoryCreation(_) => "创建目录失败: "@,
            PersistError::Write(_) => "保存文件失败: "@,
        }
    }

    /// The message shown for this error: the heading of the failed step,
    /// then the detail.
    pub fn message(&self) -> (text: String)
        ensures
            text@ == self.heading() + self.detail(),
    {
        match self {
            PersistError::Serialization(detail) => {
                String::from_str("序列化失败: ").concat(detail.as_str())
            },
            PersistError::DirectoryCreation(detail) => {
                String::from_str("创建目录失败: ").concat(detail.as_str())
            },
            PersistError::Write(detail) => {
                String::from_str("保存文件失败: ").concat(detail.as_str())
            },
        }
    }
}

/// The error of a failure at `step` that came with `detail`.
pub open spec fn failure_at(step: FlushStep, detail: String) -> PersistError {
    match step {
        FlushStep::Serialize => PersistError::Serialization(detail),
        FlushStep::CreateDirectory => PersistError::DirectoryCreation(detail),
        FlushStep::WriteFile => PersistError::Write(detail),
    }
}

/// Where a flush stands once `step` ended with `outcome`. A failure ends
/// the flush with the error of that step. After encoding comes the
/// directory where the backing path has a parent, else the write; after
/// the directory comes the write; after the write the flush has succeeded.
pub open spec fn progress_after(
    step: FlushStep,
    has_parent: bool,
    outcome: Result<(), String>,
) -> FlushProgress {
    match outcome {
        Err(detail) => FlushProgress::Finished(Err(failure_at(step, detail))),
        Ok(_) => match step {
            FlushStep::Serialize => if has_parent {
                FlushProgress::Pending(FlushStep::CreateDirectory)
            } else {
                FlushProgress::Pending(FlushStep::WriteFile)
            },
            FlushStep::CreateDirectory => FlushProgress::Pending(FlushStep::WriteFile),
            FlushStep::WriteFile => FlushProgress::Finished(Ok(())),
        },
    }
}

/// The step with which every flush begins.
pub fn begin_flush() -> (step: FlushStep)
    ensures
        step == FlushStep::Serialize,
{
    FlushStep::Serialize
}

/// Decides what follows `step`, given how it went. `has_parent` says
/// whether the backing path names a directory to create.
pub fn advance_flush(step: FlushStep, has_parent: bool, outcome: Result<(), String>) -> (progress:
    FlushProgress)
    ensures
        progress == progress_after(step, has_parent, outcome),
{
    match outcome {
        Err(detail) => {
            let error = match step {
                FlushStep::Serialize => PersistError::Serialization(detail),
                FlushStep::CreateDirectory => PersistError::DirectoryCreation(detail),
                FlushStep::WriteFile => PersistError::Write(detail),
            };
            FlushProgress::Finished(Err(error))
        },
        Ok(_) => match step {
            FlushStep::Serialize => {
                if has_parent {
                    FlushProgress::Pending(FlushStep::CreateDirectory)
                } else {
                    FlushProgress::Pending(FlushStep::WriteFile)
                }
            },
            FlushStep::CreateDirectory => FlushProgress::Pending(FlushStep::WriteFile),
            FlushStep::WriteFile => FlushProgress::Finished(Ok(())),
        },
    }
}

/// How an operation that changed the collection ends once its flush is
/// over: with `value` where the flush succeeded, with the message of the
/// flush's error where it failed. The change to the collection stands
/// either way.
pub fn conclude<T>(value: T, flushed: Result<(), PersistError>) -> (reply: Result<T, String>)
    ensures
        match flushed {
            Ok(_) => reply == Ok::<T, String>(value),
            Err(error) => reply is Err && reply->Err_0@ == error.heading() + error.detail(),
        },
{
    match flushed {
        Ok(_) => Ok(value),
        Err(error) => Err(error.message()),
    }
}

} // verus!
