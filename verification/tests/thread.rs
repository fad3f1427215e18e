use vcpu_tids::thread::{thread_id, vcpu_index};
use vcpu_tids::{ParseError, ResolveError};

#[test]
fn thread_id_reads_decimal_names() {
    assert_eq!(thread_id("100"), Ok(100));
    assert_eq!(thread_id("1"), Ok(1));
    assert_eq!(thread_id("4194304"), Ok(4194304));
    assert_eq!(thread_id("0"), Ok(0));
}

#[test]
fn thread_id_refuses_other_names() {
    assert_eq!(
        thread_id("self"),
        Err(ResolveError::InvalidThreadId {
            name: "self".to_string(),
            cause: ParseError::InvalidDigit
        })
    );
    assert_eq!(
        thread_id(""),
        Err(ResolveError::InvalidThreadId { name: String::new(), cause: ParseError::Empty })
    );
    assert_eq!(
        thread_id("99999999999"),
        Err(ResolveError::InvalidThreadId {
            name: "99999999999".to_string(),
            cause: ParseError::Overflow
        })
    );
    assert_eq!(
        thread_id("-5"),
        Err(ResolveError::InvalidThreadId {
            name: "-5".to_string(),
            cause: ParseError::InvalidDigit
        })
    );
}

#[test]
fn vcpu_index_of_vcpu_threads() {
    assert_eq!(vcpu_index("vcpu0\n"), Ok(Some(0)));
    assert_eq!(vcpu_index("vcpu1\n"), Ok(Some(1)));
    assert_eq!(vcpu_index("vcpu15"), Ok(Some(15)));
    assert_eq!(vcpu_index("vcpu255 \t\r\n"), Ok(Some(255)));
    assert_eq!(vcpu_index("vcpu 3 \n"), Ok(Some(3)));
    assert_eq!(vcpu_index("vcpu007\n"), Ok(Some(7)));
    assert_eq!(vcpu_index("vcpu+2\n"), Ok(Some(2)));
    assert_eq!(vcpu_index("vcpu4294967295\n"), Ok(Some(4294967295)));
}

#[test]
fn vcpu_index_of_other_threads() {
    assert_eq!(vcpu_index("io-thread\n"), Ok(None));
    assert_eq!(vcpu_index(""), Ok(None));
    assert_eq!(vcpu_index("vcp"), Ok(None));
    assert_eq!(vcpu_index("VCPU0\n"), Ok(None));
    assert_eq!(vcpu_index(" vcpu0\n"), Ok(None));
    assert_eq!(vcpu_index("cloud-hyperviso\n"), Ok(None));
    assert_eq!(vcpu_index("0vcpu\n"), Ok(None));
}

#[test]
fn vcpu_index_without_a_number() {
    assert_eq!(
        vcpu_index("vcpu\n"),
        Err(ResolveError::InvalidVcpuIndex { text: "vcpu\n".to_string(), cause: ParseError::Empty })
    );
    assert_eq!(
        vcpu_index("vcpu"),
        Err(ResolveError::InvalidVcpuIndex { text: "vcpu".to_string(), cause: ParseError::Empty })
    );
    assert_eq!(
        vcpu_index("vcpu-manager\n"),
        Err(ResolveError::InvalidVcpuIndex {
            text: "vcpu-manager\n".to_string(),
            cause: ParseError::InvalidDigit
        })
    );
    assert_eq!(
        vcpu_index("vcpu1 2\n"),
        Err(ResolveError::InvalidVcpuIndex {
            text: "vcpu1 2\n".to_string(),
            cause: ParseError::InvalidDigit
        })
    );
    assert_eq!(
        vcpu_index("vcpu4294967296\n"),
        Err(ResolveError::InvalidVcpuIndex {
            text: "vcpu4294967296\n".to_string(),
            cause: ParseError::Overflow
        })
    );
}

#[test]
fn vcpu_prefix_is_taken_off_once() {
    assert_eq!(
        vcpu_index("vcpuvcpu3\n"),
        Err(ResolveError::InvalidVcpuIndex {
            text: "vcpuvcpu3\n".to_string(),
            cause: ParseError::InvalidDigit
        })
    );
}
