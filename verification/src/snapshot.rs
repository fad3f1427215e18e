//! A process directory as it was found, and the mapping that it gives.
//!
//! [`ProcDir`] records what a scan can meet on its way through the task
//! directory of one process. [`resolved`] says what the scan returns for it.

use crate::error::Failure;
use crate::scan::finished;
use crate::text::blank;
use crate::thread::{thread_id_of, vcpu_index_of};
use vstd::prelude::*;

verus! {

/// The command-name file of one thread.
#[derive(Debug, PartialEq, Eq)]
pub enum CommFile {
    /// The thread's directory holds no such file.
    Missing,
    /// The file is there, but reading it failed with this report.
    Unreadable(String),
    /// The file holds this text.
    Text(String),
}

/// One entry of the task directory.
#[derive(Debug, PartialEq, Eq)]
pub enum TaskEntry {
    /// Listing broke off here with this report.
    Failed(String),
    /// An entry whose name is not valid text.
    Opaque,
    /// An entry with a name and, under it, a command-name file.
    Thread { name: String, comm: CommFile },
}

/// The directory of one process.
#[derive(Debug, PartialEq, Eq)]
pub enum ProcDir {
    /// The path could not be canonicalized; the lookup gave this report.
    NotFound(String),
    /// The path leads somewhere, but its task directory could not be opened,
    /// with this report.
    Unlistable(String),
    /// The entries of the task directory, in the order of the listing.
    Tasks(Vec<TaskEntry>),
}

/// A [`CommFile`] with its texts as sequences of characters.
pub enum CommView {
    Missing,
    Unreadable(Seq<char>),
    Text(Seq<char>),
}

/// A [`TaskEntry`] with its texts as sequences of characters.
pub enum EntryView {
    Failed(Seq<char>),
    Opaque,
    Thread { name: Seq<char>, comm: CommView },
}

/// A [`ProcDir`] with its texts as sequences of characters.
pub enum DirView {
    NotFound(Seq<char>),
    Unlistable(Seq<char>),
    Tasks(Seq<EntryView>),
}

impl View for CommFile {
    type V = CommView;

    open spec fn view(&self) -> CommView {
        match *self {
            CommFile::Missing => CommView::Missing,
            CommFile::Unreadable(detail) => CommView::Unreadable(detail@),
            CommFile::Text(text) => CommView::Text(text@),
        }
    }
}

impl View for TaskEntry {
    type V = EntryView;

    open spec fn view(&self) -> EntryView {
        match *self {
            TaskEntry::Failed(detail) => EntryView::Failed(detail@),
            TaskEntry::Opaque => EntryView::Opaque,
            TaskEntry::Thread { name, comm } => EntryView::Thread { name: name@, comm: comm@ },
        }
    }
}

impl View for ProcDir {
    type V = DirView;

    open spec fn view(&self) -> DirView {
        match *self {
            ProcDir::NotFound(detail) => DirView::NotFound(detail@),
            ProcDir::Unlistable(detail) => DirView::Unlistable(detail@),
            ProcDir::Tasks(entries) => DirView::Tasks(entries@.map_values(|e: TaskEntry| e@)),
        }
    }
}

impl Clone for CommFile {
    fn clone(&self) -> (copy: Self)
        ensures
            copy@ == self@,
    {
        match self {
            CommFile::Missing => CommFile::Missing,
            CommFile::Unreadable(detail) => CommFile::Unreadable(detail.clone()),
            CommFile::Text(text) => CommFile::Text(text.clone()),
        }
    }
}

impl Clone for TaskEntry {
    fn clone(&self) -> (copy: Self)
        ensures
            copy@ == self@,
    {
        match self {
            TaskEntry::Failed(detail) => TaskEntry::Failed(detail.clone()),
            TaskEntry::Opaque => TaskEntry::Opaque,
            TaskEntry::Thread { name, comm } => TaskEntry::Thread {
                name: name.clone(),
                comm: comm.clone(),
            },
        }
    }
}

impl Clone for ProcDir {
    fn clone(&self) -> (copy: Self)
        ensures
            copy@ == self@,
    {
        match self {
            ProcDir::NotFound(detail) => ProcDir::NotFound(detail.clone()),
            ProcDir::Unlistable(detail) => ProcDir::Unlistable(detail.clone()),
            ProcDir::Tasks(entries) => {
                let mut copies: Vec<TaskEntry> = Vec::new();
                let mut i: usize = 0;
                while i < entries.len()
                    invariant
                        i <= entries.len(),
                        copies@.len() == i,
                        forall|k: int| 0 <= k < i ==> (#[trigger] copies@[k])@ == entries@[k]@,
                    decreases entries.len() - i,
                {
                    copies.push(entries[i].clone());
                    i += 1;
                }
                assert(copies@.map_values(|e: TaskEntry| e@) =~= entries@.map_values(
                    |e: TaskEntry| e@,
                ));
                ProcDir::Tasks(copies)
            },
        }
    }
}

/// What one entry of the task directory does to a scan.
pub enum Visit {
    /// Nothing: the scan goes on to the next entry.
    Skip,
    /// The thread `tid` runs the vCPU `index`.
    Vcpu { tid: u32, index: u32 },
    /// The scan ends here.
    Fail(Failure),
}

/// What `entry` does to a scan. Its name is read before its command name,
/// and the command name is looked for before it is read.
pub open spec fn visit(entry: EntryView) -> Visit {
    match entry {
        EntryView::Failed(detail) => Visit::Fail(Failure::DirectoryReadError { detail }),
        EntryView::Opaque => Visit::Skip,
        EntryView::Thread { name, comm } => match thread_id_of(name) {
            Err(failure) => Visit::Fail(failure),
            Ok(tid) => match comm {
                CommView::Missing => Visit::Fail(Failure::CommFileMissing),
                CommView::Unreadable(detail) => Visit::Fail(
                    Failure::CommFileReadError { detail },
                ),
                CommView::Text(text) => match vcpu_index_of(text) {
                    Err(failure) => Visit::Fail(failure),
                    Ok(None) => Visit::Skip,
                    Ok(Some(index)) => Visit::Vcpu { tid, index },
                },
            },
        },
    }
}

/// The mapping gathered from `entries`, taken in order, or the failure of
/// the first entry that has one.
pub open spec fn gathered(entries: Seq<EntryView>) -> Result<Map<u32, u32>, Failure>
    decreases entries.len(),
{
    if entries.len() == 0 {
        Ok(Map::empty())
    } else {
        match gathered(entries.drop_last()) {
            Err(failure) => Err(failure),
            Ok(tids) => match visit(entries.last()) {
                Visit::Skip => Ok(tids),
                Visit::Vcpu { tid, index } => Ok(tids.insert(tid, index)),
                Visit::Fail(failure) => Err(failure),
            },
        }
    }
}

/// What resolving the vCPU threads of the process at `path` returns, where
/// `dir` is what is found there.
pub open spec fn resolved(path: Seq<char>, dir: DirView) -> Result<Map<u32, u32>, Failure> {
    if blank(path) {
        Err(Failure::InvalidInput)
    } else {
        match dir {
            DirView::NotFound(detail) => Err(Failure::PathNotFound { path, detail }),
            DirView::Unlistable(detail) => Err(Failure::DirectoryReadError { detail }),
            DirView::Tasks(entries) => match gathered(entries) {
                Err(failure) => Err(failure),
                Ok(tids) => finished(tids),
            },
        }
    }
}

/// Taking one more entry into account: a scan that has failed stays failed,
/// any other does what the entry says.
pub proof fn lemma_gathered_next(entries: Seq<EntryView>, k: int)
    requires
        0 <= k < entries.len(),
    ensures
        gathered(entries.take(k + 1)) == match gathered(entries.take(k)) {
            Err(failure) => Err(failure),
            Ok(tids) => match visit(entries[k]) {
                Visit::Skip => Ok(tids),
                Visit::Vcpu { tid, index } => Ok(tids.insert(tid, index)),
                Visit::Fail(failure) => Err(failure),
            },
        },
{
    assert(entries.take(k + 1).drop_last() =~= entries.take(k));
    assert(entries.take(k + 1).last() == entries[k]);
}

/// A failure is final: whatever follows the entry that failed changes
/// nothing.
pub proof fn lemma_failure_is_final(entries: Seq<EntryView>, k: int)
    requires
        0 <= k <= entries.len(),
        gathered(entries.take(k)) is Err,
    ensures
        gathered(entries) == gathered(entries.take(k)),
    decreases entries.len() - k,
{
    if k < entries.len() {
        lemma_gathered_next(entries, k);
        lemma_failure_is_final(entries, k + 1);
    } else {
        assert(entries.take(k) =~= entries);
    }
}

} // verus!
