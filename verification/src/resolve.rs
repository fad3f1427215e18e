//! Resolving the vCPU threads of a process from a record of its directory.

use crate::error::{seen_mapping, Failure, ResolveError};
use crate::number::{decimal, decimal_digits};
use crate::scan::{begin, Entry, Pending, Step};
use crate::snapshot::{
    gathered, lemma_failure_is_final, lemma_gathered_next, resolved, CommFile, CommView, DirView,
    EntryView, ProcDir, TaskEntry,
};
use crate::text::blank;
use crate::thread::thread_id_of;
use std::collections::HashMap;
use vstd::prelude::*;
use vstd::string::StringExecFns;

verus! {

/// The entries of the task directory of `dir`: none, where it could not be
/// listed.
spec fn entries_of(dir: DirView) -> Seq<EntryView> {
    match dir {
        DirView::Tasks(entries) => entries,
        _ => Seq::empty(),
    }
}

/// The name and the command-name file of the entry of `dir` at position `i`,
/// if it is a thread's.
spec fn thread_at(dir: DirView, i: int) -> Option<(Seq<char>, CommView)> {
    if 0 <= i < entries_of(dir).len() {
        match entries_of(dir)[i] {
            EntryView::Thread { name, comm } => Some((name, comm)),
            _ => None,
        }
    } else {
        None
    }
}

/// Whether a scan of `dir` that has dealt with the first `done` entries has
/// gathered `tids` from them.
spec fn gathered_so_far(dir: DirView, done: int, tids: Map<u32, u32>) -> bool {
    let so_far: Result<Map<u32, u32>, Failure> = Ok(tids);
    &&& dir is Tasks
    &&& 0 <= done <= entries_of(dir).len()
    &&& gathered(entries_of(dir).take(done)) == so_far
}

/// Whether the entry of `dir` at position `i` is that of the thread `tid`.
spec fn thread_is_at(dir: DirView, i: int, tid: u32) -> bool {
    let id: Result<u32, Failure> = Ok(tid);
    &&& thread_at(dir, i) is Some
    &&& thread_id_of(thread_at(dir, i).unwrap().0) == id
}

/// Whether `step` is where a scan of `dir` for `path` stands once it has
/// dealt with the first `done` entries.
spec fn on_track(step: Pending, path: Seq<char>, dir: DirView, done: int) -> bool {
    match step {
        Pending::Finish(result) => result == resolved(path, dir),
        Pending::Canonicalize { path: asked } => asked == path && !blank(path) && done == 0,
        Pending::ListTasks => !blank(path) && !(dir is NotFound) && done == 0,
        Pending::NextEntry { tids } => !blank(path) && gathered_so_far(dir, done, tids),
        Pending::ProbeComm { tids, tid } => {
            &&& !blank(path)
            &&& gathered_so_far(dir, done, tids)
            &&& thread_is_at(dir, done, tid)
        },
        Pending::ReadComm { tids, tid } => {
            &&& !blank(path)
            &&& gathered_so_far(dir, done, tids)
            &&& thread_is_at(dir, done, tid)
            &&& !(thread_at(dir, done).unwrap().1 is Missing)
        },
    }
}

/// How many steps a scan that stands at `step` may still take, at most.
spec fn steps_left(step: Pending, dir: DirView, done: int) -> int {
    let entries = entries_of(dir).len() as int;
    match step {
        Pending::Finish(_) => 0,
        Pending::Canonicalize { .. } => 3 * entries + 5,
        Pending::ListTasks => 3 * entries + 4,
        Pending::NextEntry { .. } => 3 * (entries - done) + 3,
        Pending::ProbeComm { .. } => 3 * (entries - done) + 2,
        Pending::ReadComm { .. } => 3 * (entries - done) + 1,
    }
}

/// What canonicalizing the path of `dir` gives.
fn lookup_of(dir: &ProcDir) -> (outcome: Result<(), String>)
    ensures
        match outcome {
            Ok(_) => !(dir@ is NotFound),
            Err(detail) => dir@ == DirView::NotFound(detail@),
        },
{
    match dir {
        ProcDir::NotFound(detail) => Err(detail.clone()),
        _ => Ok(()),
    }
}

/// What opening the task directory of `dir` gives: nothing can be opened
/// under a path that leads nowhere.
fn opening_of(dir: &ProcDir) -> (outcome: Result<(), String>)
    ensures
        match outcome {
            Ok(_) => dir@ is Tasks,
            Err(detail) => dir@ == DirView::Unlistable(detail@) || dir@ == DirView::NotFound(
                detail@,
            ),
        },
{
    match dir {
        ProcDir::NotFound(detail) => Err(detail.clone()),
        ProcDir::Unlistable(detail) => Err(detail.clone()),
        ProcDir::Tasks(_) => Ok(()),
    }
}

/// The entries of the task directory of `dir`, if it could be listed.
fn listed(dir: &ProcDir) -> (entries: Option<&Vec<TaskEntry>>)
    ensures
        match entries {
            Some(entries) => dir@ == DirView::Tasks(entries@.map_values(|e: TaskEntry| e@)),
            None => !(dir@ is Tasks),
        },
{
    match dir {
        ProcDir::Tasks(entries) => Some(entries),
        _ => None,
    }
}

/// The entry of `dir` at position `i`, or the end of the directory.
fn entry_of(dir: &ProcDir, i: usize) -> (entry: Entry)
    ensures
        match entry {
            Entry::End => i >= entries_of(dir@).len(),
            Entry::Failed(detail) => i < entries_of(dir@).len() && entries_of(dir@)[i as int]
                == EntryView::Failed(detail@),
            Entry::Opaque => i < entries_of(dir@).len() && entries_of(dir@)[i as int]
                == EntryView::Opaque,
            Entry::Named(name) => thread_at(dir@, i as int) is Some && thread_at(
                dir@,
                i as int,
            ).unwrap().0 == name@,
        },
{
    match listed(dir) {
        Some(entries) if i < entries.len() => match &entries[i] {
            TaskEntry::Failed(detail) => Entry::Failed(detail.clone()),
            TaskEntry::Opaque => Entry::Opaque,
            TaskEntry::Thread { name, .. } => Entry::Named(name.clone()),
        },
        _ => Entry::End,
    }
}

/// The command-name file of the entry of `dir` at position `i`, if that
/// entry is a thread's.
fn comm_of(dir: &ProcDir, i: usize) -> (comm: Option<&CommFile>)
    ensures
        match comm {
            Some(comm) => thread_at(dir@, i as int) is Some && thread_at(
                dir@,
                i as int,
            ).unwrap().1 == comm@,
            None => thread_at(dir@, i as int) is None,
        },
{
    match listed(dir) {
        Some(entries) if i < entries.len() => match &entries[i] {
            TaskEntry::Thread { comm, .. } => Some(comm),
            _ => None,
        },
        _ => None,
    }
}

/// Whether `step` asks for the next entry of the task directory.
fn asks_for_entry(step: &Step) -> (r: bool)
    ensures
        r == (step@ is NextEntry),
{
    match step {
        Step::NextEntry(_) => true,
        _ => false,
    }
}

/// Resolves the vCPU threads of the process at `proc_path`, where `dir`
/// records what is found at that path: the scan is run step by step, and each
/// step is answered from the record.
pub fn get_ch_vcpu_tids_by_path(proc_path: &str, dir: &ProcDir) -> (r: Result<
    HashMap<u32, u32>,
    ResolveError,
>)
    ensures
        seen_mapping(r) == resolved(proc_path@, dir@),
{
    let count: usize = match listed(dir) {
        Some(entries) => entries.len(),
        None => 0,
    };
    let mut step = begin(proc_path);
    let mut done: usize = 0;
    loop
        invariant
            count == entries_of(dir@).len(),
            on_track(step@, proc_path@, dir@, done as int),
        decreases steps_left(step@, dir@, done as int),
    {
        let ghost entries = entries_of(dir@);
        proof {
            if done < entries.len() {
                lemma_gathered_next(entries, done as int);
                if gathered(entries.take(done + 1)) is Err {
                    lemma_failure_is_final(entries, done + 1);
                }
            }
        }
        let next = match step {
            Step::Finish(r) => {
                return r;
            },
            Step::Canonicalize(lookup) => lookup.resolved(lookup_of(dir)),
            Step::ListTasks(listing) => {
                assert(entries.take(0) =~= Seq::empty());
                listing.opened(opening_of(dir))
            },
            Step::NextEntry(scan) => {
                assert(done == entries.len() ==> entries.take(done as int) =~= entries);
                let next = scan.entry(entry_of(dir, done));
                if asks_for_entry(&next) {
                    done += 1;
                }
                next
            },
            Step::ProbeComm(probe) => match comm_of(dir, done) {
                Some(CommFile::Missing) | None => probe.probed(false),
                Some(_) => probe.probed(true),
            },
            Step::ReadComm(read) => {
                let next = match comm_of(dir, done) {
                    Some(CommFile::Text(text)) => read.read(Ok(text.clone())),
                    Some(CommFile::Unreadable(detail)) => read.read(Err(detail.clone())),
                    Some(CommFile::Missing) | None => Step::Finish(
                        Err(ResolveError::CommFileMissing),
                    ),
                };
                done += 1;
                next
            },
        };
        step = next;
    }
}

/// The path under which the system shows the process `pid`.
pub open spec fn proc_path_of(pid: u32) -> Seq<char> {
    seq!['/', 'p', 'r', 'o', 'c', '/'] + decimal_digits(pid as nat)
}

/// The path of a process is never blank, so resolving by process ID never
/// fails for want of a path.
pub proof fn lemma_proc_path_is_not_blank(pid: u32)
    ensures
        !blank(proc_path_of(pid)),
{
    assert(proc_path_of(pid)[0] == '/');
}

/// Writes out the path under which the system shows the process `pid`.
pub fn proc_path(pid: u32) -> (path: String)
    ensures
        path@ == proc_path_of(pid),
{
    proof {
        reveal_strlit("/proc/");
        assert("/proc/"@ =~= seq!['/', 'p', 'r', 'o', 'c', '/']);
    }
    let mut path = String::from_str("/proc/");
    let digits = decimal(pid);
    path.append(digits.as_str());
    path
}

/// Resolves the vCPU threads of the process `pid`, where `dir` records what
/// is found at the path of that process.
pub fn get_ch_vcpu_tids(pid: u32, dir: &ProcDir) -> (r: Result<HashMap<u32, u32>, ResolveError>)
    ensures
        seen_mapping(r) == resolved(proc_path_of(pid), dir@),
{
    let path = proc_path(pid);
    let map = get_ch_vcpu_tids_by_path(path.as_str(), dir);
    map
}

} // verus!
