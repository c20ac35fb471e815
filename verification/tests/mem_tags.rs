use syscall_dispatch::{tag_memory, SyscallError, ThreadMemoryTagMap};

#[test]
fn tagging_inserts_the_half_open_range_and_returns_zero() {
    let mut tags = ThreadMemoryTagMap::new();
    assert_eq!(tag_memory(&mut tags, 0x1000, 0x10, "heap"), Ok(0));
    assert_eq!(tags.len(), 1);
    let tag = tags.get(0);
    assert_eq!((tag.start, tag.end, tag.label.as_str()), (0x1000, 0x1010, "heap"));
    assert_eq!(tags.lookup(0x0fff), None);
    assert_eq!(tags.lookup(0x1000), Some("heap"));
    assert_eq!(tags.lookup(0x100f), Some("heap"));
    assert_eq!(tags.lookup(0x1010), None);
}

#[test]
fn overlapping_range_adds_a_second_independent_entry() {
    let mut tags = ThreadMemoryTagMap::new();
    assert_eq!(tag_memory(&mut tags, 0x1000, 0x10, "heap"), Ok(0));
    assert_eq!(tag_memory(&mut tags, 0x1008, 0x10, "arena"), Ok(0));
    assert_eq!(tags.len(), 2);
    let first = tags.get(0);
    assert_eq!((first.start, first.end, first.label.as_str()), (0x1000, 0x1010, "heap"));
    let second = tags.get(1);
    assert_eq!((second.start, second.end, second.label.as_str()), (0x1008, 0x1018, "arena"));
    assert_eq!(tags.lookup(0x1004), Some("heap"));
    assert_eq!(tags.lookup(0x1008), Some("arena"));
    assert_eq!(tags.lookup(0x100f), Some("arena"));
    assert_eq!(tags.lookup(0x1017), Some("arena"));
}

#[test]
fn repeating_the_same_call_loses_nothing() {
    let mut tags = ThreadMemoryTagMap::new();
    assert_eq!(tag_memory(&mut tags, 0x1000, 0x10, "heap"), Ok(0));
    assert_eq!(tag_memory(&mut tags, 0x1000, 0x10, "heap"), Ok(0));
    assert_eq!(tags.len(), 2);
    for index in 0..2 {
        let tag = tags.get(index);
        assert_eq!((tag.start, tag.end, tag.label.as_str()), (0x1000, 0x1010, "heap"));
    }
    assert_eq!(tags.lookup(0x1000), Some("heap"));
}

#[test]
fn same_range_with_another_label_is_answered_by_the_later_label() {
    let mut tags = ThreadMemoryTagMap::new();
    assert_eq!(tag_memory(&mut tags, 0x2000, 8, "old"), Ok(0));
    assert_eq!(tag_memory(&mut tags, 0x2000, 8, "new"), Ok(0));
    assert_eq!(tags.len(), 2);
    assert_eq!(tags.get(0).label, "old");
    assert_eq!(tags.lookup(0x2003), Some("new"));
}

#[test]
fn empty_range_is_kept_and_holds_no_address() {
    let mut tags = ThreadMemoryTagMap::new();
    assert_eq!(tag_memory(&mut tags, 0x3000, 0, "nothing"), Ok(0));
    assert_eq!(tags.len(), 1);
    let tag = tags.get(0);
    assert_eq!((tag.start, tag.end), (0x3000, 0x3000));
    assert_eq!(tags.lookup(0x3000), None);
}

#[test]
fn label_is_copied_into_the_map() {
    let mut tags = ThreadMemoryTagMap::new();
    let mut label = String::from("stack");
    assert_eq!(tag_memory(&mut tags, 16, 16, &label), Ok(0));
    label.push_str(" guard");
    assert_eq!(tags.get(0).label, "stack");
}

#[test]
fn range_up_to_the_last_address_is_accepted() {
    let mut tags = ThreadMemoryTagMap::new();
    assert_eq!(tag_memory(&mut tags, usize::MAX - 4, 4, "top"), Ok(0));
    assert_eq!(tags.get(0).end, usize::MAX);
    assert_eq!(tags.lookup(usize::MAX - 1), Some("top"));
}

#[test]
fn range_beyond_the_last_address_is_refused_and_nothing_changes() {
    let mut tags = ThreadMemoryTagMap::new();
    assert_eq!(tag_memory(&mut tags, 0x1000, 0x10, "heap"), Ok(0));
    assert_eq!(tag_memory(&mut tags, usize::MAX, 1, "wrap"), Err(SyscallError::EINVAL));
    assert_eq!(tag_memory(&mut tags, 1, usize::MAX, "wrap"), Err(SyscallError::EINVAL));
    assert_eq!(tags.len(), 1);
    assert_eq!(tags.get(0).label, "heap");
}

#[test]
fn insert_appends_after_the_existing_tags() {
    let mut tags = ThreadMemoryTagMap::new();
    tags.insert(0, 10, String::from("a"));
    tags.insert(20, 30, String::from("b"));
    tags.insert(5, 25, String::from("c"));
    assert_eq!(tags.len(), 3);
    assert_eq!(tags.get(2).label, "c");
    assert_eq!(tags.lookup(2), Some("a"));
    assert_eq!(tags.lookup(7), Some("c"));
    assert_eq!(tags.lookup(27), Some("b"));
    assert_eq!(tags.lookup(40), None);
}
