//! What one thread's directory name and command name say.
//!
//! A thread's directory is named by its ID in decimal. A thread that runs a
//! virtual CPU has a command name made of `vcpu` and the CPU's index, with a
//! line break after it.

use crate::error::{seen, Failure, ResolveError};
use crate::number::{decimal_value, is_digit, lemma_parsed_digits, parse, parsed, ParseError};
use crate::text::{blank, lemma_trimmed_core, strip_prefix, trim, trimmed};
use vstd::prelude::*;
use vstd::string::StringExecFns;

verus! {

/// The text that the command name of every vCPU thread starts with.
pub open spec fn vcpu_prefix() -> Seq<char> {
    seq!['v', 'c', 'p', 'u']
}

/// The thread ID that a directory name stands for.
pub open spec fn thread_id_of(name: Seq<char>) -> Result<u32, Failure> {
    match parsed(name) {
        Ok(tid) => Ok(tid),
        Err(cause) => Err(Failure::InvalidThreadId { name, cause }),
    }
}

/// The vCPU index that a command name gives: `None` for a name that does not
/// start with `vcpu`; for one that does, the number left when the prefix is
/// taken off once and the rest is trimmed.
pub open spec fn vcpu_index_of(comm: Seq<char>) -> Result<Option<u32>, Failure> {
    if !vcpu_prefix().is_prefix_of(comm) {
        Ok(None)
    } else {
        match parsed(trimmed(comm.skip(vcpu_prefix().len() as int))) {
            Ok(index) => Ok(Some(index)),
            Err(cause) => Err(Failure::InvalidVcpuIndex { text: comm, cause }),
        }
    }
}

/// The command name `vcpu`, digits, then white space gives the number that
/// the digits stand for, as long as that number fits.
pub proof fn lemma_vcpu_name_gives_index(digits: Seq<char>, space: Seq<char>)
    requires
        digits.len() > 0,
        forall|k: int| 0 <= k < digits.len() ==> is_digit(#[trigger] digits[k]),
        blank(space),
    ensures
        vcpu_index_of(vcpu_prefix() + digits + space) == if decimal_value(digits) > u32::MAX {
            Err::<Option<u32>, Failure>(
                Failure::InvalidVcpuIndex {
                    text: vcpu_prefix() + digits + space,
                    cause: ParseError::Overflow,
                },
            )
        } else {
            Ok(Some(decimal_value(digits) as u32))
        },
{
    let comm = vcpu_prefix() + digits + space;
    assert(comm.subrange(0, vcpu_prefix().len() as int) =~= vcpu_prefix());
    assert(comm.skip(vcpu_prefix().len() as int) =~= Seq::<char>::empty() + digits + space);
    assert(is_digit(digits.first()) && is_digit(digits.last()));
    lemma_trimmed_core(Seq::empty(), digits, space);
    lemma_parsed_digits(digits);
}

/// Reads a thread ID from the name of a thread's directory.
pub fn thread_id(name: &str) -> (r: Result<u32, ResolveError>)
    ensures
        seen(r) == thread_id_of(name@),
{
    match parse(name) {
        Ok(tid) => Ok(tid),
        Err(cause) => Err(ResolveError::InvalidThreadId { name: String::from_str(name), cause }),
    }
}

/// Reads the vCPU index from a thread's command name, if it has one.
pub fn vcpu_index(comm: &str) -> (r: Result<Option<u32>, ResolveError>)
    ensures
        seen(r) == vcpu_index_of(comm@),
{
    proof {
        reveal_strlit("vcpu");
        assert("vcpu"@ =~= vcpu_prefix());
    }
    match strip_prefix(comm, "vcpu") {
        None => Ok(None),
        Some(rest) => match parse(trim(rest)) {
            Ok(index) => Ok(Some(index)),
            Err(cause) => Err(
                ResolveError::InvalidVcpuIndex { text: String::from_str(comm), cause },
            ),
        },
    }
}

} // verus!
