//! What holds of every scan, proved from the definition of [`resolved`].
//!
//! A directory listing may name one thread ID twice, under two spellings
//! (`7` and `07`). The later entry then decides, as it does in a map that
//! is filled in order; the statements below say so where it matters.

use crate::error::{seen_mapping, Failure, ResolveError};
use crate::number::{decimal_value, is_digit};
use crate::snapshot::{
    gathered, lemma_failure_is_final, lemma_gathered_next, resolved, visit, CommView, DirView,
    EntryView, ProcDir, Visit,
};
use crate::text::blank;
use crate::thread::{lemma_vcpu_name_gives_index, thread_id_of, vcpu_prefix};
use std::collections::HashMap;
use vstd::prelude::*;

verus! {

/// Whether `entry` is a vCPU thread with the ID `tid`.
pub open spec fn runs_vcpu(entry: EntryView, tid: u32) -> bool {
    visit(entry) is Vcpu && visit(entry)->tid == tid
}

/// Whether `entry` is a vCPU thread with the ID `tid` and another index
/// than `index`.
pub open spec fn runs_other_vcpu(entry: EntryView, tid: u32, index: u32) -> bool {
    runs_vcpu(entry, tid) && visit(entry)->index != index
}

/// Whether `entry` is a thread with the ID `tid` whose command name is
/// `text`.
pub open spec fn is_thread(entry: EntryView, tid: u32, text: Seq<char>) -> bool {
    let id: Result<u32, Failure> = Ok(tid);
    &&& entry is Thread
    &&& thread_id_of(entry->name) == id
    &&& entry->comm == CommView::Text(text)
}

/// A scan gathers a mapping exactly where no entry fails.
pub proof fn lemma_gathered_unless_failed(entries: Seq<EntryView>)
    ensures
        gathered(entries) is Ok <==> forall|j: int|
            0 <= j < entries.len() ==> !(visit(#[trigger] entries[j]) is Fail),
    decreases entries.len(),
{
    if entries.len() > 0 {
        let front = entries.drop_last();
        lemma_gathered_unless_failed(front);
        if gathered(entries) is Ok {
            assert forall|j: int| 0 <= j < entries.len() implies !(visit(
                #[trigger] entries[j],
            ) is Fail) by {
                if j < front.len() {
                    assert(entries[j] == front[j]);
                }
            }
        } else if gathered(front) is Ok {
            assert(visit(entries[entries.len() - 1]) is Fail);
        } else {
            let j = choose|j: int| 0 <= j < front.len() && visit(#[trigger] front[j]) is Fail;
            assert(entries[j] == front[j]);
        }
    }
}

/// The first entry that fails decides the result, whatever stands before
/// and after it.
pub proof fn lemma_first_failure_decides(
    path: Seq<char>,
    entries: Seq<EntryView>,
    k: int,
    failure: Failure,
)
    requires
        !blank(path),
        0 <= k < entries.len(),
        visit(entries[k]) == Visit::Fail(failure),
        forall|j: int| 0 <= j < k ==> !(visit(#[trigger] entries[j]) is Fail),
    ensures
        resolved(path, DirView::Tasks(entries)) == Err::<Map<u32, u32>, Failure>(failure),
{
    let before = entries.take(k);
    assert forall|j: int| 0 <= j < before.len() implies !(visit(#[trigger] before[j]) is Fail) by {
        assert(before[j] == entries[j]);
    }
    lemma_gathered_unless_failed(before);
    lemma_gathered_next(entries, k);
    lemma_failure_is_final(entries, k + 1);
}

/// In a mapping that was gathered, the ID of a vCPU thread stands for that
/// thread's index, unless a later vCPU thread with the same ID has another.
pub proof fn lemma_last_vcpu_thread_is_mapped(
    entries: Seq<EntryView>,
    i: int,
    tid: u32,
    index: u32,
)
    requires
        gathered(entries) is Ok,
        0 <= i < entries.len(),
        visit(entries[i]) == (Visit::Vcpu { tid, index }),
        forall|j: int|
            i < j < entries.len() ==> !runs_other_vcpu(#[trigger] entries[j], tid, index),
    ensures
        gathered(entries)->Ok_0.contains_key(tid),
        gathered(entries)->Ok_0[tid] == index,
    decreases entries.len(),
{
    let front = entries.drop_last();
    if i < entries.len() - 1 {
        assert(front[i] == entries[i]);
        assert forall|j: int| i < j < front.len() implies !runs_other_vcpu(
            #[trigger] front[j],
            tid,
            index,
        ) by {
            assert(front[j] == entries[j]);
        }
        lemma_last_vcpu_thread_is_mapped(front, i, tid, index);
        assert(!runs_other_vcpu(entries[entries.len() - 1], tid, index));
    }
}

/// Every key of a mapping that was gathered is the ID of a vCPU thread in
/// the listing, and stands for that thread's index.
pub proof fn lemma_key_is_vcpu_thread(entries: Seq<EntryView>, tid: u32) -> (i: int)
    requires
        gathered(entries) is Ok,
        gathered(entries)->Ok_0.contains_key(tid),
    ensures
        0 <= i < entries.len(),
        visit(entries[i]) == (Visit::Vcpu { tid, index: gathered(entries)->Ok_0[tid] }),
    decreases entries.len(),
{
    let front = entries.drop_last();
    let last = entries.len() - 1;
    if runs_vcpu(entries[last], tid) {
        last
    } else {
        let i = lemma_key_is_vcpu_thread(front, tid);
        assert(front[i] == entries[i]);
        i
    }
}

/// A thread whose command name is `vcpu`, a number and then white space is
/// mapped to that number, in every listing in which no entry fails and no
/// later vCPU thread with the same ID has another number.
pub proof fn lemma_vcpu_thread_is_mapped(
    path: Seq<char>,
    entries: Seq<EntryView>,
    i: int,
    tid: u32,
    digits: Seq<char>,
    space: Seq<char>,
)
    requires
        !blank(path),
        forall|j: int| 0 <= j < entries.len() ==> !(visit(#[trigger] entries[j]) is Fail),
        0 <= i < entries.len(),
        is_thread(entries[i], tid, vcpu_prefix() + digits + space),
        digits.len() > 0,
        forall|k: int| 0 <= k < digits.len() ==> is_digit(#[trigger] digits[k]),
        blank(space),
        forall|j: int|
            i < j < entries.len() ==> !runs_other_vcpu(
                #[trigger] entries[j],
                tid,
                decimal_value(digits) as u32,
            ),
    ensures
        resolved(path, DirView::Tasks(entries)) is Ok,
        resolved(path, DirView::Tasks(entries))->Ok_0.contains_key(tid),
        resolved(path, DirView::Tasks(entries))->Ok_0[tid] == decimal_value(digits),
{
    lemma_vcpu_name_gives_index(digits, space);
    assert(!(visit(entries[i]) is Fail));
    lemma_gathered_unless_failed(entries);
    lemma_last_vcpu_thread_is_mapped(entries, i, tid, decimal_value(digits) as u32);
}

/// The ID of a thread whose command name does not start with `vcpu` is no
/// key of the mapping, unless another entry is a vCPU thread with the same
/// ID.
pub proof fn lemma_other_thread_is_absent(
    path: Seq<char>,
    entries: Seq<EntryView>,
    i: int,
    tid: u32,
    text: Seq<char>,
)
    requires
        0 <= i < entries.len(),
        is_thread(entries[i], tid, text),
        !vcpu_prefix().is_prefix_of(text),
        forall|j: int| 0 <= j < entries.len() && j != i ==> !runs_vcpu(#[trigger] entries[j], tid),
    ensures
        resolved(path, DirView::Tasks(entries)) is Ok ==> !resolved(
            path,
            DirView::Tasks(entries),
        )->Ok_0.contains_key(tid),
{
    if resolved(path, DirView::Tasks(entries)) is Ok {
        if gathered(entries)->Ok_0.contains_key(tid) {
            let j = lemma_key_is_vcpu_thread(entries, tid);
            assert(runs_vcpu(entries[j], tid));
        }
    }
}

/// Every key of a mapping that is returned is the ID of a vCPU thread in
/// the listing, and stands for that thread's index.
pub proof fn lemma_every_key_is_a_vcpu_thread(
    path: Seq<char>,
    entries: Seq<EntryView>,
    tid: u32,
) -> (i: int)
    requires
        resolved(path, DirView::Tasks(entries)) is Ok,
        resolved(path, DirView::Tasks(entries))->Ok_0.contains_key(tid),
    ensures
        0 <= i < entries.len(),
        visit(entries[i]) == (Visit::Vcpu {
            tid,
            index: resolved(path, DirView::Tasks(entries))->Ok_0[tid],
        }),
{
    lemma_key_is_vcpu_thread(entries, tid)
}

/// A mapping that is returned is never empty, and only a listing gives one.
pub proof fn lemma_mapping_is_never_empty(path: Seq<char>, dir: DirView)
    requires
        resolved(path, dir) is Ok,
    ensures
        !resolved(path, dir)->Ok_0.is_empty(),
        !blank(path),
        dir is Tasks,
{
}

/// A listing in which no entry fails and none is a vCPU thread gives no
/// mapping.
pub proof fn lemma_no_vcpu_thread_is_a_failure(path: Seq<char>, entries: Seq<EntryView>)
    requires
        !blank(path),
        forall|j: int| 0 <= j < entries.len() ==> visit(#[trigger] entries[j]) is Skip,
    ensures
        resolved(path, DirView::Tasks(entries)) == Err::<Map<u32, u32>, Failure>(
            Failure::NoVcpuThreadsFound,
        ),
{
    lemma_gathered_unless_failed(entries);
    let tids = gathered(entries)->Ok_0;
    assert forall|tid: u32| !tids.contains_key(tid) by {
        if tids.contains_key(tid) {
            let j = lemma_key_is_vcpu_thread(entries, tid);
        }
    }
    assert(tids.dom() =~= Set::empty());
}

/// Resolving twice, with the same path and with the same things found at
/// it, gives the same mapping or the same failure.
pub proof fn lemma_resolving_again_changes_nothing(
    path: Seq<char>,
    first_dir: ProcDir,
    second_dir: ProcDir,
    first: Result<HashMap<u32, u32>, ResolveError>,
    second: Result<HashMap<u32, u32>, ResolveError>,
)
    requires
        first_dir@ == second_dir@,
        seen_mapping(first) == resolved(path, first_dir@),
        seen_mapping(second) == resolved(path, second_dir@),
    ensures
        seen_mapping(first) == seen_mapping(second),
{
}

} // verus!
