//! The scan of a task directory, one step at a time.
//!
//! The library reads no file. It says what it needs next, as a [`Step`]; the
//! caller looks that up and hands the answer to the state inside the step,
//! which gives the next step. The last step is [`Step::Finish`], with the
//! mapping or the failure. Nothing is asked for after a failure.

use crate::error::{Failure, ResolveError};
use crate::text::{blank, is_blank};
use crate::thread::{thread_id, thread_id_of, vcpu_index, vcpu_index_of};
use std::collections::HashMap;
use vstd::prelude::*;
use vstd::string::StringExecFns;

verus! {

broadcast use vstd::std_specs::hash::group_hash_axioms;

/// Waits to hear whether the process path could be canonicalized.
#[derive(Debug)]
pub struct Lookup {
    path: String,
}

/// Waits to hear whether the task directory could be opened for listing.
#[derive(Debug)]
pub struct Listing {}

/// Waits for the next entry of the task directory.
#[derive(Debug)]
pub struct Scan {
    tids: HashMap<u32, u32>,
}

/// Waits to hear whether the thread `tid` has a command-name file.
#[derive(Debug)]
pub struct Probe {
    tids: HashMap<u32, u32>,
    tid: u32,
}

/// Waits for the contents of the command-name file of the thread `tid`.
#[derive(Debug)]
pub struct Read {
    tids: HashMap<u32, u32>,
    tid: u32,
}

/// What the caller is to do next.
#[derive(Debug)]
pub enum Step {
    /// Canonicalize the process path, then call [`Lookup::resolved`].
    Canonicalize(Lookup),
    /// Open the directory `task` under the canonical path, then call
    /// [`Listing::opened`].
    ListTasks(Listing),
    /// Take the next entry of the task directory, then call [`Scan::entry`].
    NextEntry(Scan),
    /// See whether the file `comm` exists under the entry last taken, then
    /// call [`Probe::probed`].
    ProbeComm(Probe),
    /// Read the file `comm` under the entry last taken as text, then call
    /// [`Read::read`].
    ReadComm(Read),
    /// Stop: this is the result.
    Finish(Result<HashMap<u32, u32>, ResolveError>),
}

/// One entry of the task directory as the caller found it, or the end of the
/// directory.
#[derive(Debug)]
pub enum Entry {
    /// The directory has no further entry.
    End,
    /// Listing broke off with an error.
    Failed(String),
    /// An entry whose name is not valid text.
    Opaque,
    /// An entry with this name.
    Named(String),
}

/// A [`Step`] as a mathematical value: what is asked for, and the mapping
/// gathered so far.
pub enum Pending {
    Canonicalize { path: Seq<char> },
    ListTasks,
    NextEntry { tids: Map<u32, u32> },
    ProbeComm { tids: Map<u32, u32>, tid: u32 },
    ReadComm { tids: Map<u32, u32>, tid: u32 },
    Finish(Result<Map<u32, u32>, Failure>),
}

impl Lookup {
    /// The process path as it was given.
    pub closed spec fn path(&self) -> Seq<char> {
        self.path@
    }
}

impl Scan {
    /// The mapping gathered so far.
    pub closed spec fn tids(&self) -> Map<u32, u32> {
        self.tids@
    }
}

impl Probe {
    /// The mapping gathered so far.
    pub closed spec fn tids(&self) -> Map<u32, u32> {
        self.tids@
    }

    /// The thread whose command-name file is looked for.
    pub closed spec fn tid(&self) -> u32 {
        self.tid
    }
}

impl Read {
    /// The mapping gathered so far.
    pub closed spec fn tids(&self) -> Map<u32, u32> {
        self.tids@
    }

    /// The thread whose command name is read.
    pub closed spec fn tid(&self) -> u32 {
        self.tid
    }
}

impl View for Step {
    type V = Pending;

    open spec fn view(&self) -> Pending {
        match *self {
            Step::Canonicalize(lookup) => Pending::Canonicalize { path: lookup.path() },
            Step::ListTasks(_) => Pending::ListTasks,
            Step::NextEntry(scan) => Pending::NextEntry { tids: scan.tids() },
            Step::ProbeComm(probe) => Pending::ProbeComm { tids: probe.tids(), tid: probe.tid() },
            Step::ReadComm(read) => Pending::ReadComm { tids: read.tids(), tid: read.tid() },
            Step::Finish(Ok(tids)) => Pending::Finish(Ok(tids@)),
            Step::Finish(Err(e)) => Pending::Finish(Err(e@)),
        }
    }
}

/// The first step for a process path: a blank path is refused at once.
pub open spec fn started(path: Seq<char>) -> Pending {
    if blank(path) {
        Pending::Finish(Err(Failure::InvalidInput))
    } else {
        Pending::Canonicalize { path }
    }
}

/// The step after the lookup of `path`: a failed lookup ends the scan.
pub open spec fn after_lookup(path: Seq<char>, outcome: Result<(), String>) -> Pending {
    match outcome {
        Ok(_) => Pending::ListTasks,
        Err(detail) => Pending::Finish(Err(Failure::PathNotFound { path, detail: detail@ })),
    }
}

/// The step after the task directory was opened, or could not be: the scan
/// starts with an empty mapping, or ends.
pub open spec fn after_opening(outcome: Result<(), String>) -> Pending {
    match outcome {
        Ok(_) => Pending::NextEntry { tids: Map::empty() },
        Err(detail) => Pending::Finish(Err(Failure::DirectoryReadError { detail: detail@ })),
    }
}

/// The result of a scan that reached the end of the directory with `tids`:
/// an empty mapping is a failure.
pub open spec fn finished(tids: Map<u32, u32>) -> Result<Map<u32, u32>, Failure> {
    if tids.is_empty() {
        Err(Failure::NoVcpuThreadsFound)
    } else {
        Ok(tids)
    }
}

/// The step after an entry was taken. An entry without a textual name is
/// passed over; any other name has to be a thread ID.
pub open spec fn after_entry(tids: Map<u32, u32>, entry: Entry) -> Pending {
    match entry {
        Entry::End => Pending::Finish(finished(tids)),
        Entry::Failed(detail) => Pending::Finish(
            Err(Failure::DirectoryReadError { detail: detail@ }),
        ),
        Entry::Opaque => Pending::NextEntry { tids },
        Entry::Named(name) => match thread_id_of(name@) {
            Ok(tid) => Pending::ProbeComm { tids, tid },
            Err(failure) => Pending::Finish(Err(failure)),
        },
    }
}

/// The step after the command-name file was looked for: a thread without one
/// ends the scan.
pub open spec fn after_probe(tids: Map<u32, u32>, tid: u32, exists: bool) -> Pending {
    if exists {
        Pending::ReadComm { tids, tid }
    } else {
        Pending::Finish(Err(Failure::CommFileMissing))
    }
}

/// The step after the command name was read, or could not be. A vCPU thread
/// enters the mapping under its ID, another thread is passed over.
pub open spec fn after_read(
    tids: Map<u32, u32>,
    tid: u32,
    contents: Result<String, String>,
) -> Pending {
    match contents {
        Err(detail) => Pending::Finish(Err(Failure::CommFileReadError { detail: detail@ })),
        Ok(text) => match vcpu_index_of(text@) {
            Ok(None) => Pending::NextEntry { tids },
            Ok(Some(index)) => Pending::NextEntry { tids: tids.insert(tid, index) },
            Err(failure) => Pending::Finish(Err(failure)),
        },
    }
}

/// Starts resolving the vCPU threads of the process at `proc_path`.
pub fn begin(proc_path: &str) -> (step: Step)
    ensures
        step@ == started(proc_path@),
{
    if is_blank(proc_path) {
        Step::Finish(Err(ResolveError::InvalidInput))
    } else {
        Step::Canonicalize(Lookup { path: String::from_str(proc_path) })
    }
}

impl Lookup {
    /// Takes the outcome of canonicalizing the process path: `Err` with what
    /// the lookup reported, if it failed.
    pub fn resolved(self, outcome: Result<(), String>) -> (step: Step)
        ensures
            step@ == after_lookup(self.path(), outcome),
    {
        match outcome {
            Ok(_) => Step::ListTasks(Listing {}),
            Err(detail) => Step::Finish(
                Err(ResolveError::PathNotFound { path: self.path, detail }),
            ),
        }
    }
}

impl Listing {
    /// Takes the outcome of opening the task directory: `Err` with what was
    /// reported, if it failed.
    pub fn opened(self, outcome: Result<(), String>) -> (step: Step)
        ensures
            step@ == after_opening(outcome),
    {
        match outcome {
            Ok(_) => Step::NextEntry(Scan { tids: HashMap::new() }),
            Err(detail) => Step::Finish(Err(ResolveError::DirectoryReadError { detail })),
        }
    }
}

impl Scan {
    /// Takes the next entry of the task directory, or its end.
    pub fn entry(self, entry: Entry) -> (step: Step)
        ensures
            step@ == after_entry(self.tids(), entry),
    {
        match entry {
            Entry::End => {
                if self.tids.is_empty() {
                    Step::Finish(Err(ResolveError::NoVcpuThreadsFound))
                } else {
                    Step::Finish(Ok(self.tids))
                }
            },
            Entry::Failed(detail) => Step::Finish(Err(ResolveError::DirectoryReadError { detail })),
            Entry::Opaque => Step::NextEntry(self),
            Entry::Named(name) => match thread_id(name.as_str()) {
                Ok(tid) => Step::ProbeComm(Probe { tids: self.tids, tid }),
                Err(e) => Step::Finish(Err(e)),
            },
        }
    }
}

impl Probe {
    /// Takes the answer to whether the thread has a command-name file.
    pub fn probed(self, exists: bool) -> (step: Step)
        ensures
            step@ == after_probe(self.tids(), self.tid(), exists),
    {
        if exists {
            Step::ReadComm(Read { tids: self.tids, tid: self.tid })
        } else {
            Step::Finish(Err(ResolveError::CommFileMissing))
        }
    }
}

impl Read {
    /// Takes the contents of the thread's command-name file: `Err` with what
    /// was reported, if it could not be read as text.
    pub fn read(self, contents: Result<String, String>) -> (step: Step)
        ensures
            step@ == after_read(self.tids(), self.tid(), contents),
    {
        match contents {
            Err(detail) => Step::Finish(Err(ResolveError::CommFileReadError { detail })),
            Ok(text) => match vcpu_index(text.as_str()) {
                Ok(None) => Step::NextEntry(Scan { tids: self.tids }),
                Ok(Some(index)) => {
                    let mut tids = self.tids;
                    tids.insert(self.tid, index);
                    Step::NextEntry(Scan { tids })
                },
                Err(e) => Step::Finish(Err(e)),
            },
        }
    }
}

} // verus!
