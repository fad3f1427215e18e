use std::collections::HashMap;
use vcpu_tids::{
    get_ch_vcpu_tids, get_ch_vcpu_tids_by_path, proc_path, CommFile, ParseError, ProcDir,
    ResolveError, TaskEntry,
};

fn thread(name: &str, comm: &str) -> TaskEntry {
    TaskEntry::Thread { name: name.to_string(), comm: CommFile::Text(comm.to_string()) }
}

fn tasks(threads: &[(&str, &str)]) -> ProcDir {
    let mut entries: Vec<TaskEntry> = Vec::new();
    for (name, comm) in threads {
        entries.push(thread(name, comm));
    }
    ProcDir::Tasks(entries)
}

#[test]
fn test_tid_path() {
    struct TestData<'a> {
        proc_path: &'a str,
        dir: ProcDir,
        result: &'a str,
    }

    let tests = [
        TestData {
            proc_path: "",
            dir: tasks(&[("1", "vcpu0\n")]),
            result: "proc path must be non-empty strings.",
        },
        TestData {
            proc_path: "/tmp/12345.6",
            dir: ProcDir::NotFound("No such file or directory (os error 2)".to_string()),
            result: "Invalid proc path: /tmp/12345.6: No such file or directory (os error 2)",
        },
        TestData {
            proc_path: "/usr/lib/os-release",
            dir: ProcDir::Unlistable("Not a directory (os error 20)".to_string()),
            result: "Not a directory (os error 20)",
        },
        TestData {
            proc_path: "/proc/1",
            dir: tasks(&[("1", "systemd\n")]),
            result: "The contents of proc path are not available.",
        },
    ];

    for (i, d) in tests.iter().enumerate() {
        let msg = format!("test: [{}]: {:?} {:?}", i, d.proc_path, d.dir);
        let result = get_ch_vcpu_tids_by_path(d.proc_path, &d.dir);
        let msg = format!("{}, result: {:?}", msg, result);
        let expected_error = d.result.to_string();
        let actual_error = result.unwrap_err().message();
        assert!(actual_error == expected_error, "{}", msg);
    }
}

#[test]
fn vcpu_threads_are_mapped_and_others_left_out() {
    let dir = tasks(&[("100", "vcpu0\n"), ("101", "vcpu1\n"), ("102", "io-thread\n")]);
    let map = get_ch_vcpu_tids_by_path("/proc/4242", &dir).unwrap();
    assert_eq!(map, HashMap::from([(100, 0), (101, 1)]));
    assert_eq!(map.get(&100), Some(&0));
    assert_eq!(map.get(&101), Some(&1));
    assert!(!map.contains_key(&102));
    assert_eq!(map.len(), 2);
}

#[test]
fn order_of_the_listing_does_not_matter_for_distinct_ids() {
    let one = tasks(&[("100", "vcpu0\n"), ("101", "vcpu1\n"), ("102", "io-thread\n")]);
    let other = tasks(&[("102", "io-thread\n"), ("101", "vcpu1\n"), ("100", "vcpu0\n")]);
    assert_eq!(
        get_ch_vcpu_tids_by_path("/proc/4242", &one),
        get_ch_vcpu_tids_by_path("/proc/4242", &other)
    );
}

#[test]
fn non_numeric_entry_fails_the_whole_scan() {
    let dir = tasks(&[("100", "vcpu0\n"), ("abc", "vcpu1\n"), ("102", "vcpu2\n")]);
    assert_eq!(
        get_ch_vcpu_tids_by_path("/proc/4242", &dir),
        Err(ResolveError::InvalidThreadId {
            name: "abc".to_string(),
            cause: ParseError::InvalidDigit
        })
    );
    let dir = tasks(&[("100", "vcpu0\n"), ("101", "vcpu1\n"), ("10x", "io-thread\n")]);
    assert_eq!(
        get_ch_vcpu_tids_by_path("/proc/4242", &dir),
        Err(ResolveError::InvalidThreadId {
            name: "10x".to_string(),
            cause: ParseError::InvalidDigit
        })
    );
}

#[test]
fn the_first_failure_is_the_one_returned() {
    let dir = ProcDir::Tasks(vec![
        thread("100", "vcpu0\n"),
        TaskEntry::Thread { name: "101".to_string(), comm: CommFile::Missing },
        thread("abc", "vcpu1\n"),
        TaskEntry::Failed("Input/output error (os error 5)".to_string()),
    ]);
    assert_eq!(get_ch_vcpu_tids_by_path("/proc/4242", &dir), Err(ResolveError::CommFileMissing));
}

#[test]
fn name_is_read_before_the_comm_file_is_looked_for() {
    let dir = ProcDir::Tasks(vec![TaskEntry::Thread {
        name: "abc".to_string(),
        comm: CommFile::Missing,
    }]);
    assert_eq!(
        get_ch_vcpu_tids_by_path("/proc/4242", &dir),
        Err(ResolveError::InvalidThreadId {
            name: "abc".to_string(),
            cause: ParseError::InvalidDigit
        })
    );
}

#[test]
fn empty_path_is_invalid_input() {
    let dir = tasks(&[("100", "vcpu0\n")]);
    assert_eq!(get_ch_vcpu_tids_by_path("", &dir), Err(ResolveError::InvalidInput));
    assert_eq!(get_ch_vcpu_tids_by_path(" \n", &dir), Err(ResolveError::InvalidInput));
    assert_eq!(
        get_ch_vcpu_tids_by_path("", &ProcDir::NotFound("gone".to_string())),
        Err(ResolveError::InvalidInput)
    );
}

#[test]
fn missing_path_is_path_not_found() {
    let dir = ProcDir::NotFound("No such file or directory (os error 2)".to_string());
    assert_eq!(
        get_ch_vcpu_tids_by_path("/proc/4194305", &dir),
        Err(ResolveError::PathNotFound {
            path: "/proc/4194305".to_string(),
            detail: "No such file or directory (os error 2)".to_string(),
        })
    );
}

#[test]
fn path_that_is_no_directory_is_directory_read_error() {
    let dir = ProcDir::Unlistable("Not a directory (os error 20)".to_string());
    let result = get_ch_vcpu_tids_by_path("/usr/lib/os-release", &dir);
    assert_eq!(
        result,
        Err(ResolveError::DirectoryReadError {
            detail: "Not a directory (os error 20)".to_string()
        })
    );
    assert_eq!(result.unwrap_err().message(), "Not a directory (os error 20)");
}

#[test]
fn process_without_vcpu_threads_is_no_vcpu_threads_found() {
    let dir = tasks(&[("1", "systemd\n"), ("2", "kthreadd\n"), ("3", "io-thread\n")]);
    assert_eq!(
        get_ch_vcpu_tids_by_path("/proc/1", &dir),
        Err(ResolveError::NoVcpuThreadsFound)
    );
    assert_eq!(
        get_ch_vcpu_tids_by_path("/proc/1", &ProcDir::Tasks(Vec::new())),
        Err(ResolveError::NoVcpuThreadsFound)
    );
    assert_eq!(
        get_ch_vcpu_tids_by_path("/proc/1", &ProcDir::Tasks(vec![TaskEntry::Opaque])),
        Err(ResolveError::NoVcpuThreadsFound)
    );
}

#[test]
fn missing_comm_file_is_comm_file_missing() {
    let dir = ProcDir::Tasks(vec![TaskEntry::Thread {
        name: "100".to_string(),
        comm: CommFile::Missing,
    }]);
    assert_eq!(get_ch_vcpu_tids_by_path("/proc/9", &dir), Err(ResolveError::CommFileMissing));
}

#[test]
fn unreadable_comm_file_is_comm_file_read_error() {
    let dir = ProcDir::Tasks(vec![
        thread("100", "vcpu0\n"),
        TaskEntry::Thread {
            name: "101".to_string(),
            comm: CommFile::Unreadable("No such process (os error 3)".to_string()),
        },
    ]);
    assert_eq!(
        get_ch_vcpu_tids_by_path("/proc/9", &dir),
        Err(ResolveError::CommFileReadError { detail: "No such process (os error 3)".to_string() })
    );
}

#[test]
fn vcpu_name_without_number_is_invalid_vcpu_index() {
    let dir = tasks(&[("100", "vcpu0\n"), ("101", "vcpus\n")]);
    assert_eq!(
        get_ch_vcpu_tids_by_path("/proc/9", &dir),
        Err(ResolveError::InvalidVcpuIndex {
            text: "vcpus\n".to_string(),
            cause: ParseError::InvalidDigit
        })
    );
}

#[test]
fn broken_listing_is_directory_read_error() {
    let dir = ProcDir::Tasks(vec![
        thread("100", "vcpu0\n"),
        TaskEntry::Failed("Input/output error (os error 5)".to_string()),
    ]);
    assert_eq!(
        get_ch_vcpu_tids_by_path("/proc/9", &dir),
        Err(ResolveError::DirectoryReadError {
            detail: "Input/output error (os error 5)".to_string()
        })
    );
}

#[test]
fn entries_without_textual_names_are_passed_over() {
    let dir = ProcDir::Tasks(vec![
        TaskEntry::Opaque,
        thread("100", "vcpu0\n"),
        TaskEntry::Opaque,
        thread("101", "vcpu1\n"),
    ]);
    assert_eq!(
        get_ch_vcpu_tids_by_path("/proc/9", &dir),
        Ok(HashMap::from([(100, 0), (101, 1)]))
    );
}

#[test]
fn command_name_with_trailing_white_space_gives_the_index() {
    let dir =
        tasks(&[("5", "vcpu12"), ("6", "vcpu13\n"), ("7", "vcpu14 \r\n"), ("8", "vcpu015\n")]);
    assert_eq!(
        get_ch_vcpu_tids_by_path("/proc/9", &dir),
        Ok(HashMap::from([(5, 12), (6, 13), (7, 14), (8, 15)]))
    );
}

#[test]
fn later_entry_with_the_same_id_decides() {
    let dir = tasks(&[("7", "vcpu0\n"), ("07", "vcpu5\n")]);
    assert_eq!(get_ch_vcpu_tids_by_path("/proc/9", &dir), Ok(HashMap::from([(7, 5)])));
    let dir = tasks(&[("7", "worker\n"), ("+7", "vcpu2\n")]);
    assert_eq!(get_ch_vcpu_tids_by_path("/proc/9", &dir), Ok(HashMap::from([(7, 2)])));
}

#[test]
fn resolving_twice_gives_the_same() {
    let dir = tasks(&[("100", "vcpu0\n"), ("101", "vcpu1\n"), ("102", "io-thread\n")]);
    let first = get_ch_vcpu_tids_by_path("/proc/4242", &dir);
    let second = get_ch_vcpu_tids_by_path("/proc/4242", &dir);
    assert_eq!(first, second);
    let copy = dir.clone();
    assert_eq!(get_ch_vcpu_tids_by_path("/proc/4242", &copy), first);

    let dir = tasks(&[("100", "vcpu0\n"), ("oops", "vcpu1\n")]);
    let first = get_ch_vcpu_tids_by_path("/proc/4242", &dir);
    let second = get_ch_vcpu_tids_by_path("/proc/4242", &dir);
    assert!(first.is_err());
    assert_eq!(first, second);
}

#[test]
fn proc_path_exact_values() {
    assert_eq!(proc_path(1), "/proc/1");
    assert_eq!(proc_path(0), "/proc/0");
    assert_eq!(proc_path(31337), "/proc/31337");
    assert_eq!(proc_path(4294967295), "/proc/4294967295");
}

#[test]
fn resolving_by_pid_uses_the_path_of_the_process() {
    let dir = tasks(&[("100", "vcpu0\n"), ("101", "vcpu1\n")]);
    assert_eq!(get_ch_vcpu_tids(4242, &dir), Ok(HashMap::from([(100, 0), (101, 1)])));
    let gone = ProcDir::NotFound("No such file or directory (os error 2)".to_string());
    assert_eq!(
        get_ch_vcpu_tids(4194305, &gone),
        Err(ResolveError::PathNotFound {
            path: "/proc/4194305".to_string(),
            detail: "No such file or directory (os error 2)".to_string(),
        })
    );
    assert_eq!(
        get_ch_vcpu_tids(1, &tasks(&[("1", "systemd\n")])),
        Err(ResolveError::NoVcpuThreadsFound)
    );
}

#[test]
fn messages_of_every_failure() {
    assert_eq!(ResolveError::InvalidInput.message(), "proc path must be non-empty strings.");
    assert_eq!(
        ResolveError::PathNotFound { path: "/p".to_string(), detail: "gone".to_string() }.message(),
        "Invalid proc path: /p: gone"
    );
    assert_eq!(
        ResolveError::DirectoryReadError { detail: "not a directory".to_string() }.message(),
        "not a directory"
    );
    assert_eq!(
        ResolveError::InvalidThreadId { name: "x".to_string(), cause: ParseError::InvalidDigit }
            .message(),
        "invalid tid."
    );
    assert_eq!(ResolveError::CommFileMissing.message(), "comm path was not found.");
    assert_eq!(
        ResolveError::CommFileReadError { detail: "no such process".to_string() }.message(),
        "no such process"
    );
    assert_eq!(
        ResolveError::InvalidVcpuIndex { text: "vcpu".to_string(), cause: ParseError::Empty }
            .message(),
        "Invalid vcpu id."
    );
    assert_eq!(
        ResolveError::NoVcpuThreadsFound.message(),
        "The contents of proc path are not available."
    );
}
