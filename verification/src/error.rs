//! The ways in which resolving the vCPU threads of a process fails.

use crate::number::ParseError;
use std::collections::HashMap;
use vstd::prelude::*;
use vstd::string::StringExecFns;

verus! {

/// Why no mapping could be returned. Every failure ends the operation: no
/// part of a mapping is handed out beside it.
#[derive(Debug, PartialEq, Eq)]
pub enum ResolveError {
    /// The process path is empty or holds white space alone.
    InvalidInput,
    /// The process path could not be canonicalized. `path` is the path as it
    /// was given, `detail` what the lookup reported.
    PathNotFound { path: String, detail: String },
    /// The task directory could not be listed, or listing it broke off.
    DirectoryReadError { detail: String },
    /// An entry of the task directory is not named by a thread ID.
    InvalidThreadId { name: String, cause: ParseError },
    /// A thread's directory holds no command-name file.
    CommFileMissing,
    /// A thread's command-name file could not be read.
    CommFileReadError { detail: String },
    /// A command name starts with `vcpu`, but no index follows.
    InvalidVcpuIndex { text: String, cause: ParseError },
    /// The task directory was scanned to its end and named no vCPU thread.
    NoVcpuThreadsFound,
}

/// A [`ResolveError`] with its texts as sequences of characters.
pub enum Failure {
    InvalidInput,
    PathNotFound { path: Seq<char>, detail: Seq<char> },
    DirectoryReadError { detail: Seq<char> },
    InvalidThreadId { name: Seq<char>, cause: ParseError },
    CommFileMissing,
    CommFileReadError { detail: Seq<char> },
    InvalidVcpuIndex { text: Seq<char>, cause: ParseError },
    NoVcpuThreadsFound,
}

impl View for ResolveError {
    type V = Failure;

    open spec fn view(&self) -> Failure {
        match *self {
            ResolveError::InvalidInput => Failure::InvalidInput,
            ResolveError::PathNotFound { path, detail } => Failure::PathNotFound {
                path: path@,
                detail: detail@,
            },
            ResolveError::DirectoryReadError { detail } => Failure::DirectoryReadError {
                detail: detail@,
            },
            ResolveError::InvalidThreadId { name, cause } => Failure::InvalidThreadId {
                name: name@,
                cause,
            },
            ResolveError::CommFileMissing => Failure::CommFileMissing,
            ResolveError::CommFileReadError { detail } => Failure::CommFileReadError {
                detail: detail@,
            },
            ResolveError::InvalidVcpuIndex { text, cause } => Failure::InvalidVcpuIndex {
                text: text@,
                cause,
            },
            ResolveError::NoVcpuThreadsFound => Failure::NoVcpuThreadsFound,
        }
    }
}

impl Clone for ResolveError {
    fn clone(&self) -> (copy: Self)
        ensures
            copy@ == self@,
    {
        match self {
            ResolveError::InvalidInput => ResolveError::InvalidInput,
            ResolveError::PathNotFound { path, detail } => ResolveError::PathNotFound {
                path: path.clone(),
                detail: detail.clone(),
            },
            ResolveError::DirectoryReadError { detail } => ResolveError::DirectoryReadError {
                detail: detail.clone(),
            },
            ResolveError::InvalidThreadId { name, cause } => ResolveError::InvalidThreadId {
                name: name.clone(),
                cause: *cause,
            },
            ResolveError::CommFileMissing => ResolveError::CommFileMissing,
            ResolveError::CommFileReadError { detail } => ResolveError::CommFileReadError {
                detail: detail.clone(),
            },
            ResolveError::InvalidVcpuIndex { text, cause } => ResolveError::InvalidVcpuIndex {
                text: text.clone(),
                cause: *cause,
            },
            ResolveError::NoVcpuThreadsFound => ResolveError::NoVcpuThreadsFound,
        }
    }
}

/// A result with its error, if it holds one, as a [`Failure`].
pub open spec fn seen<T>(r: Result<T, ResolveError>) -> Result<T, Failure> {
    match r {
        Ok(v) => Ok(v),
        Err(e) => Err(e@),
    }
}

/// A returned mapping as a `Map`, or the [`Failure`] returned in its place.
pub open spec fn seen_mapping(r: Result<HashMap<u32, u32>, ResolveError>) -> Result<
    Map<u32, u32>,
    Failure,
> {
    match r {
        Ok(tids) => Ok(tids@),
        Err(e) => Err(e@),
    }
}

impl Failure {
    /// The line that describes the failure to a reader.
    pub open spec fn message(self) -> Seq<char> {
        match self {
            Failure::InvalidInput => "proc path must be non-empty strings."@,
            Failure::PathNotFound { path, detail } => "Invalid proc path: "@ + path + ": "@
                + detail,
            Failure::DirectoryReadError { detail } => detail,
            Failure::InvalidThreadId { .. } => "invalid tid."@,
            Failure::CommFileMissing => "comm path was not found."@,
            Failure::CommFileReadError { detail } => detail,
            Failure::InvalidVcpuIndex { .. } => "Invalid vcpu id."@,
            Failure::NoVcpuThreadsFound => "The contents of proc path are not available."@,
        }
    }
}

impl ResolveError {
    /// The line that describes the failure to a reader.
    pub fn message(&self) -> (s: String)
        ensures
            s@ == self@.message(),
    {
        match self {
            ResolveError::InvalidInput => String::from_str("proc path must be non-empty strings."),
            ResolveError::PathNotFound { path, detail } => {
                let mut s = String::from_str("Invalid proc path: ");
                s.append(path.as_str());
                s.append(": ");
                s.append(detail.as_str());
                s
            },
            ResolveError::DirectoryReadError { detail } => detail.clone(),
            ResolveError::InvalidThreadId { .. } => String::from_str("invalid tid."),
            ResolveError::CommFileMissing => String::from_str("comm path was not found."),
            ResolveError::CommFileReadError { detail } => detail.clone(),
            ResolveError::InvalidVcpuIndex { .. } => String::from_str("Invalid vcpu id."),
            ResolveError::NoVcpuThreadsFound => String::from_str(
                "The contents of proc path are not available.",
            ),
        }
    }
}

} // verus!
