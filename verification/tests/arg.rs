use syscall_dispatch::SysArg;

#[test]
fn word_read_as_integer_is_the_word() {
    assert_eq!(<usize as SysArg>::from_usize(0), 0);
    assert_eq!(<usize as SysArg>::from_usize(0x1000), 0x1000);
    assert_eq!(<usize as SysArg>::from_usize(usize::MAX), usize::MAX);
}
