//! Maps the kernel threads of a hypervisor process to the virtual CPUs they run.
//!
//! Each thread of a process has a directory under `task` in the directory
//! of the process, named by the thread's ID, with a file `comm` that holds
//! the thread's command name. A thread that runs a virtual CPU is named
//! `vcpu` and the CPU's index. The mapping from the IDs of those threads to
//! the indices is what this library works out.
//!
//! The library reads no file itself. [`scan`] takes a caller through the
//! directory step by step; [`resolve`] does the same from a record of
//! the directory, a [`snapshot::ProcDir`]. [`laws`] holds what is proved of
//! every result.

pub mod error;
pub mod laws;
pub mod number;
pub mod resolve;
pub mod scan;
pub mod snapshot;
pub mod text;
pub mod thread;

pub use error::ResolveError;
pub use number::ParseError;
pub use resolve::{get_ch_vcpu_tids, get_ch_vcpu_tids_by_path, proc_path};
pub use scan::{begin, Entry, Step};
pub use snapshot::{CommFile, ProcDir, TaskEntry};
