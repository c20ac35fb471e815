use syscall_dispatch::{SysLog, SyscallError};

#[test]
fn success_without_arguments_gives_one_green_line_and_no_dump() {
    let emission = SysLog::new("X").set_result(Ok(0)).flush();
    assert_eq!(emission.line, "\x1b[1;32mX\x1b[0m() = Ok(0)");
    assert_eq!(emission.line.lines().count(), 1);
    assert!(!emission.stack_trace);
}

#[test]
fn error_without_arguments_gives_one_red_line_and_a_dump() {
    let emission = SysLog::new("X").set_result(Err(SyscallError::ENOSYS)).flush();
    assert_eq!(emission.line, "\x1b[1;31mX\x1b[0m() = Err(ENOSYS)");
    assert_eq!(emission.line.lines().count(), 1);
    assert!(emission.stack_trace);
}

#[test]
fn arguments_are_joined_by_comma_and_space_in_order() {
    let emission = SysLog::new("open")
        .add_argument(3usize)
        .add_argument("/etc/passwd")
        .add_argument_dbg("rw")
        .set_result(Ok(7))
        .flush();
    assert_eq!(emission.line, "\x1b[1;32mopen\x1b[0m(3, /etc/passwd, \"rw\") = Ok(7)");
    assert!(!emission.stack_trace);
}

#[test]
fn single_argument_has_no_separator() {
    let emission = SysLog::new("close").add_argument(4usize).set_result(Ok(0)).flush();
    assert_eq!(emission.line, "\x1b[1;32mclose\x1b[0m(4) = Ok(0)");
}

#[test]
fn argument_is_rendered_when_it_is_added() {
    let mut value = String::from("before");
    let record = SysLog::new("log").add_argument(&value);
    value.push_str(" and after");
    let emission = record.add_rendered(value).set_result(Ok(1)).flush();
    assert_eq!(emission.line, "\x1b[1;32mlog\x1b[0m(before, before and after) = Ok(1)");
}

#[test]
fn debug_rendering_differs_from_display_rendering() {
    let shown = SysLog::new("f").add_argument("a b").set_result(Ok(0)).flush();
    let debugged = SysLog::new("f").add_argument_dbg("a b").set_result(Ok(0)).flush();
    assert_eq!(shown.line, "\x1b[1;32mf\x1b[0m(a b) = Ok(0)");
    assert_eq!(debugged.line, "\x1b[1;32mf\x1b[0m(\"a b\") = Ok(0)");
    let listed = SysLog::new("f").add_argument_dbg(vec![1u8, 2]).set_result(Ok(0)).flush();
    assert_eq!(listed.line, "\x1b[1;32mf\x1b[0m([1, 2]) = Ok(0)");
}

#[test]
fn outcome_matches_the_debug_form_of_the_standard_result() {
    for value in [0usize, 9, 10, 4096, usize::MAX] {
        let emission = SysLog::new("v").set_result(Ok(value)).flush();
        let expected: Result<usize, SyscallError> = Ok(value);
        assert_eq!(emission.line, format!("\x1b[1;32mv\x1b[0m() = {:?}", expected));
    }
    for error in [SyscallError::EFAULT, SyscallError::EINVAL, SyscallError::E2BIG, SyscallError::ENOTBLK] {
        let emission = SysLog::new("v").set_result(Err(error)).flush();
        let expected: Result<usize, SyscallError> = Err(error);
        assert_eq!(emission.line, format!("\x1b[1;31mv\x1b[0m() = {:?}", expected));
        assert!(emission.stack_trace);
    }
}

#[test]
fn later_result_replaces_the_earlier_one() {
    let emission =
        SysLog::new("r").set_result(Err(SyscallError::EAGAIN)).set_result(Ok(2)).flush();
    assert_eq!(emission.line, "\x1b[1;32mr\x1b[0m() = Ok(2)");
    assert!(!emission.stack_trace);
}

#[test]
fn record_knows_whether_a_result_is_attached() {
    let record = SysLog::new("w");
    assert!(!record.has_result());
    let record = record.add_argument(1usize);
    assert!(!record.has_result());
    let record = record.set_result(Ok(0));
    assert!(record.has_result());
}

#[test]
fn error_names_are_the_names_of_the_codes() {
    assert_eq!(SyscallError::ENOSYS.name(), "ENOSYS");
    assert_eq!(SyscallError::EFAULT.name(), "EFAULT");
    assert_eq!(SyscallError::EINVAL.name(), "EINVAL");
    for error in [SyscallError::EDOM, SyscallError::EPERM, SyscallError::ETIMEDOUT, SyscallError::EXDEV] {
        assert_eq!(error.name(), format!("{:?}", error));
    }
}
