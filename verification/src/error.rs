//! Failure kinds of the background-removal pipeline.

use vstd::prelude::*;
use vstd::string::StringExecFns;

verus! {

/// Why a background-removal request failed.
#[derive(Debug)]
pub enum RemoveBgError {
    /// Nothing exists at the input path.
    FileNotFound(String),
    /// The input path exists but is not a regular file.
    NotAFile(String),
    /// Reading or writing a file failed.
    IoError(String),
    /// The image could not be decoded or encoded.
    ImageError(String),
    /// The model rejected its input or failed while running.
    ModelError(String),
    /// The model could not be located, fetched or loaded.
    ModelInitError(String),
    /// Any other failure while handling the request.
    ProcessingError(String),
}

/// The process exit status that reports `e`.
pub open spec fn exit_code_of(e: RemoveBgError) -> int {
    match e {
        RemoveBgError::FileNotFound(_) => 1,
        RemoveBgError::NotAFile(_) => 2,
        RemoveBgError::ImageError(_) => 2,
        _ => 3,
    }
}

/// The words that introduce the detail of `e` in its message.
pub open spec fn prefix_of(e: RemoveBgError) -> Seq<char> {
    match e {
        RemoveBgError::FileNotFound(_) => "Input file not found: "@,
        RemoveBgError::NotAFile(_) => "Input path is not a file: "@,
        RemoveBgError::IoError(_) => "Failed to read input file: "@,
        RemoveBgError::ImageError(_) => "Failed to process image: "@,
        RemoveBgError::ModelError(_) => "Model inference failed: "@,
        RemoveBgError::ModelInitError(_) => "Model initialization failed: "@,
        RemoveBgError::ProcessingError(_) => "Failed to process image: "@,
    }
}

/// Whether `e` is a failure a user can cause by naming a wrong input, as
/// opposed to one that is not expected in normal use.
pub open spec fn is_input_fault(e: RemoveBgError) -> bool {
    e is FileNotFound || e is NotAFile || e is ImageError
}

/// The words that open the report of `e`.
pub open spec fn heading_of(e: RemoveBgError) -> Seq<char> {
    if is_input_fault(e) {
        "Error: "@
    } else {
        "Unexpected error: "@
    }
}

/// The detail that `e` carries: a path or a description.
pub open spec fn detail_of(e: RemoveBgError) -> Seq<char> {
    match e {
        RemoveBgError::FileNotFound(d) => d@,
        RemoveBgError::NotAFile(d) => d@,
        RemoveBgError::IoError(d) => d@,
        RemoveBgError::ImageError(d) => d@,
        RemoveBgError::ModelError(d) => d@,
        RemoveBgError::ModelInitError(d) => d@,
        RemoveBgError::ProcessingError(d) => d@,
    }
}

impl RemoveBgError {
    /// The message for the user: the words for the kind, then the detail.
    pub fn message(&self) -> (text: String)
        ensures
            text@ == prefix_of(*self) + detail_of(*self),
    {
        match self {
            RemoveBgError::FileNotFound(d) => "Input file not found: ".to_owned().concat(
                d.as_str(),
            ),
            RemoveBgError::NotAFile(d) => "Input path is not a file: ".to_owned().concat(
                d.as_str(),
            ),
            RemoveBgError::IoError(d) => "Failed to read input file: ".to_owned().concat(
                d.as_str(),
            ),
            RemoveBgError::ImageError(d) => "Failed to process image: ".to_owned().concat(
                d.as_str(),
            ),
            RemoveBgError::ModelError(d) => "Model inference failed: ".to_owned().concat(
                d.as_str(),
            ),
            RemoveBgError::ModelInitError(d) => "Model initialization failed: ".to_owned().concat(
                d.as_str(),
            ),
            RemoveBgError::ProcessingError(d) => "Failed to process image: ".to_owned().concat(
                d.as_str(),
            ),
        }
    }

    /// The line that reports this error to the user: a heading that tells
    /// input faults from unexpected failures, then the message.
    pub fn report(&self) -> (text: String)
        ensures
            text@ == heading_of(*self) + (prefix_of(*self) + detail_of(*self)),
    {
        let message = self.message();
        match self {
            RemoveBgError::FileNotFound(_) => "Error: ".to_owned().concat(message.as_str()),
            RemoveBgError::NotAFile(_) => "Error: ".to_owned().concat(message.as_str()),
            RemoveBgError::ImageError(_) => "Error: ".to_owned().concat(message.as_str()),
            _ => "Unexpected error: ".to_owned().concat(message.as_str()),
        }
    }

    /// Exit status for this error: 1 for a missing input, 2 for an input that
    /// is not a usable image file, 3 for everything else.
    pub fn exit_code(&self) -> (code: i32)
        ensures
            code == exit_code_of(*self),
    {
        match self {
            RemoveBgError::FileNotFound(_) => 1,
            RemoveBgError::NotAFile(_) => 2,
            RemoveBgError::ImageError(_) => 2,
            _ => 3,
        }
    }
}

} // verus!
