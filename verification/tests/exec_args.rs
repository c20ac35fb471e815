use syscall_dispatch::{exec_args_from_slice, ExecArgs, StackHelper, SyscallError, UserMemory};

fn list(buffers: &[&[u8]]) -> ExecArgs {
    let mut args = ExecArgs::default();
    for buffer in buffers {
        args.push(buffer);
    }
    args
}

fn contents(args: &ExecArgs) -> Vec<Vec<u8>> {
    args.inner.iter().map(|buffer| buffer.to_vec()).collect()
}

/// A memory that holds `buffers` one after another from `data`, each
/// followed by a gap, and at `table` the vector that describes them.
fn memory_with(table: usize, data: usize, buffers: &[&[u8]]) -> UserMemory {
    let mut memory = UserMemory::new();
    let mut entries: Vec<u8> = Vec::new();
    let mut at = data;
    for buffer in buffers {
        entries.extend_from_slice(&(at as u64).to_le_bytes());
        entries.extend_from_slice(&(buffer.len() as u64).to_le_bytes());
        if !buffer.is_empty() {
            memory.map(at, buffer.to_vec());
        }
        at += buffer.len() + 32;
    }
    if !entries.is_empty() {
        memory.map(table, entries);
    }
    memory
}

#[test]
fn default_list_is_empty() {
    assert!(ExecArgs::default().inner.is_empty());
}

#[test]
fn push_copies_the_bytes_and_keeps_the_order() {
    let mut source = vec![1u8, 2, 3];
    let mut args = ExecArgs::default();
    args.push(&source);
    source[0] = 9;
    args.push(&source);
    args.push(&[]);
    assert_eq!(contents(&args), vec![vec![1u8, 2, 3], vec![9, 2, 3], vec![]]);
}

#[test]
fn extend_appends_each_buffer_in_order() {
    let mut args = list(&[b"first"]);
    let more: Vec<Box<[u8]>> = vec![Box::from(&b"second"[..]), Box::from(&b""[..]), Box::from(&b"third"[..])];
    args.extend(&more);
    assert_eq!(
        contents(&args),
        vec![b"first".to_vec(), b"second".to_vec(), vec![], b"third".to_vec()]
    );
    args.extend(&[]);
    assert_eq!(args.inner.len(), 4);
}

#[test]
fn collect_of_no_entries_is_empty_and_reads_nothing() {
    let memory = UserMemory::new();
    let args = exec_args_from_slice(&memory, 0xdead_0000, 0).unwrap();
    assert!(args.inner.is_empty());
}

#[test]
fn collect_of_one_buffer_gives_that_buffer() {
    let memory = memory_with(0x1000, 0x8000, &[b"/bin/sh"]);
    let args = exec_args_from_slice(&memory, 0x1000, 1).unwrap();
    assert_eq!(contents(&args), vec![b"/bin/sh".to_vec()]);
}

#[test]
fn collect_of_many_buffers_keeps_bytes_and_order() {
    let buffers: Vec<Vec<u8>> = vec![
        b"ls".to_vec(),
        vec![],
        b"-l".to_vec(),
        vec![0, 0, 7, 0],
        (0..=255u8).collect(),
        b"--color=auto".to_vec(),
    ];
    let borrowed: Vec<&[u8]> = buffers.iter().map(|buffer| buffer.as_slice()).collect();
    let memory = memory_with(0x40, 0x10_0000, &borrowed);
    let args = exec_args_from_slice(&memory, 0x40, buffers.len()).unwrap();
    assert_eq!(contents(&args), buffers);
}

#[test]
fn collect_takes_only_the_entries_that_were_asked_for() {
    let memory = memory_with(0x40, 0x9000, &[b"a", b"bc", b"def"]);
    let args = exec_args_from_slice(&memory, 0x40, 2).unwrap();
    assert_eq!(contents(&args), vec![b"a".to_vec(), b"bc".to_vec()]);
    let args = exec_args_from_slice(&memory, 0x40 + 16, 2).unwrap();
    assert_eq!(contents(&args), vec![b"bc".to_vec(), b"def".to_vec()]);
}

#[test]
fn collect_reads_a_buffer_that_spans_two_mappings() {
    let mut memory = UserMemory::new();
    let mut entry = Vec::new();
    entry.extend_from_slice(&0x2ffeu64.to_le_bytes());
    entry.extend_from_slice(&4u64.to_le_bytes());
    memory.map(0x100, entry);
    memory.map(0x2ff0, vec![0xaa; 16]);
    memory.map(0x3000, vec![0xbb; 16]);
    let args = exec_args_from_slice(&memory, 0x100, 1).unwrap();
    assert_eq!(contents(&args), vec![vec![0xaa, 0xaa, 0xbb, 0xbb]]);
}

#[test]
fn collect_of_an_empty_buffer_does_not_touch_its_address() {
    let mut memory = UserMemory::new();
    let mut entry = Vec::new();
    entry.extend_from_slice(&0xffff_0000u64.to_le_bytes());
    entry.extend_from_slice(&0u64.to_le_bytes());
    memory.map(0x100, entry);
    let args = exec_args_from_slice(&memory, 0x100, 1).unwrap();
    assert_eq!(contents(&args), vec![Vec::<u8>::new()]);
}

#[test]
fn collect_fails_when_the_vector_is_not_accessible() {
    let memory = memory_with(0x1000, 0x8000, &[b"one", b"two"]);
    assert_eq!(exec_args_from_slice(&memory, 0x5000, 1).err(), Some(SyscallError::EFAULT));
    assert_eq!(exec_args_from_slice(&memory, 0x1000, 3).err(), Some(SyscallError::EFAULT));
    assert_eq!(exec_args_from_slice(&memory, 0x1001, 2).err(), Some(SyscallError::EFAULT));
    assert_eq!(exec_args_from_slice(&memory, usize::MAX - 7, 1).err(), Some(SyscallError::EFAULT));
    assert_eq!(exec_args_from_slice(&memory, 0x1000, usize::MAX).err(), Some(SyscallError::EFAULT));
}

#[test]
fn collect_fails_when_a_buffer_is_not_accessible() {
    let mut memory = UserMemory::new();
    let mut entries = Vec::new();
    entries.extend_from_slice(&0x8000u64.to_le_bytes());
    entries.extend_from_slice(&4u64.to_le_bytes());
    entries.extend_from_slice(&0x8002u64.to_le_bytes());
    entries.extend_from_slice(&3u64.to_le_bytes());
    memory.map(0x100, entries);
    memory.map(0x8000, vec![1, 2, 3, 4]);
    assert_eq!(contents(&exec_args_from_slice(&memory, 0x100, 1).unwrap()), vec![vec![1u8, 2, 3, 4]]);
    assert_eq!(exec_args_from_slice(&memory, 0x100, 2).err(), Some(SyscallError::EFAULT));
}

#[test]
fn collect_fails_on_a_range_that_wraps_the_address_space() {
    let mut memory = UserMemory::new();
    let mut entry = Vec::new();
    entry.extend_from_slice(&u64::MAX.to_le_bytes());
    entry.extend_from_slice(&2u64.to_le_bytes());
    memory.map(0x100, entry);
    memory.map(usize::MAX, vec![5]);
    memory.map(0, vec![6]);
    assert_eq!(exec_args_from_slice(&memory, 0x100, 1).err(), Some(SyscallError::EFAULT));
}

#[test]
fn layout_of_no_buffers_leaves_the_stack_alone() {
    let mut stack = StackHelper::new(0x7000);
    stack.write_bytes(b"abc");
    let tops = ExecArgs::default().push_into_stack(&mut stack);
    assert!(tops.is_empty());
    assert_eq!(stack.top(), 0x7000 - 3);
    assert_eq!(stack.image(), b"abc".to_vec());
}

#[test]
fn layout_writes_zero_then_buffer_and_records_the_top() {
    let args = list(&[b"ab", b"", b"xyz"]);
    let mut stack = StackHelper::new(0x1000);
    assert!(args.fits(&stack));
    let tops = args.push_into_stack(&mut stack);
    assert_eq!(tops, vec![0x1000 - 3, 0x1000 - 4, 0x1000 - 8]);
    assert_eq!(stack.top(), 0x1000 - 8);
    assert_eq!(stack.image(), vec![b'x', b'y', b'z', 0, 0, b'a', b'b', 0]);
}

#[test]
fn each_address_leads_to_its_buffer_and_its_zero_byte() {
    let buffers: Vec<&[u8]> = vec![b"init", b"--verbose", b"", b"a\0b", b"HOME=/root"];
    let args = list(&buffers);
    let base: u64 = 0x7fff_f000;
    let mut stack = StackHelper::new(base);
    stack.write_bytes(&[0xee; 5]);
    let tops = args.push_into_stack(&mut stack);
    assert_eq!(tops.len(), buffers.len());
    let image = stack.image();
    let top = stack.top();
    assert_eq!(top + image.len() as u64, base);
    for (buffer, addr) in buffers.iter().zip(tops.iter()) {
        let at = (addr - top) as usize;
        assert_eq!(&image[at..at + buffer.len()], *buffer);
        assert_eq!(image[at + buffer.len()], 0);
    }
    for pair in tops.windows(2) {
        assert!(pair[1] < pair[0]);
    }
    assert_eq!(&image[image.len() - 5..], &[0xee; 5]);
}

#[test]
fn layout_is_the_same_for_the_same_input() {
    let args = list(&[b"one", b"two", b"three"]);
    let mut first = StackHelper::new(4096);
    let mut second = StackHelper::new(4096);
    assert_eq!(args.push_into_stack(&mut first), args.push_into_stack(&mut second));
    assert_eq!(first.image(), second.image());
    assert_eq!(first.top(), second.top());
}

#[test]
fn fits_counts_every_buffer_and_its_zero_byte() {
    let args = list(&[b"abcd", b"ef"]);
    assert!(args.fits(&StackHelper::new(8)));
    assert!(!args.fits(&StackHelper::new(7)));
    assert!(!args.fits(&StackHelper::new(0)));
    assert!(ExecArgs::default().fits(&StackHelper::new(0)));
    let mut stack = StackHelper::new(8);
    let tops = args.push_into_stack(&mut stack);
    assert_eq!(tops, vec![3, 0]);
    assert_eq!(stack.top(), 0);
}

#[test]
fn collected_buffers_can_be_laid_out() {
    let memory = memory_with(0x200, 0x9000, &[b"sh", b"-c", b"true"]);
    let args = exec_args_from_slice(&memory, 0x200, 3).unwrap();
    let mut stack = StackHelper::new(64);
    let tops = args.push_into_stack(&mut stack);
    assert_eq!(tops, vec![61, 58, 53]);
    assert_eq!(stack.image(), b"true\0-c\0sh\0".to_vec());
}
