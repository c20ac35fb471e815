//! The labels that a thread keeps for ranges of its memory, and the debug
//! call that adds one.

use crate::error::SyscallError;
use vstd::prelude::*;

verus! {

/// One label: the half-open range `[start, end)` and its text.
pub struct MemoryTag {
    pub start: usize,
    pub end: usize,
    pub label: String,
}

/// What a [`MemoryTag`] is in contracts.
pub struct MemoryTagView {
    pub start: int,
    pub end: int,
    pub label: Seq<char>,
}

impl MemoryTagView {
    /// Whether `addr` lies in the range of the tag.
    pub open spec fn covers(self, addr: int) -> bool {
        self.start <= addr < self.end
    }
}

impl View for MemoryTag {
    type V = MemoryTagView;

    open spec fn view(&self) -> MemoryTagView {
        MemoryTagView { start: self.start as int, end: self.end as int, label: self.label@ }
    }
}

/// The label that `tags` gives to `addr`: that of the tag inserted last
/// among those whose range holds the address.
pub open spec fn label_of(tags: Seq<MemoryTagView>, addr: int) -> Option<Seq<char>>
    decreases tags.len(),
{
    if tags.len() == 0 {
        None
    } else if tags.last().covers(addr) {
        Some(tags.last().label)
    } else {
        label_of(tags.drop_last(), addr)
    }
}

/// The tags of one thread, in the order in which they were inserted. Ranges
/// may overlap and may repeat: an insertion never merges, replaces or
/// rejects, and which tag speaks for an address is decided when it is looked
/// up.
pub struct ThreadMemoryTagMap {
    tags: Vec<MemoryTag>,
}

impl View for ThreadMemoryTagMap {
    type V = Seq<MemoryTagView>;

    closed spec fn view(&self) -> Seq<MemoryTagView> {
        Seq::new(self.tags@.len(), |i: int| self.tags@[i]@)
    }
}

impl ThreadMemoryTagMap {
    /// A map without tags.
    pub fn new() -> (map: Self)
        ensures
            map@ == Seq::<MemoryTagView>::empty(),
    {
        let map = ThreadMemoryTagMap { tags: Vec::new() };
        assert(map@ =~= Seq::<MemoryTagView>::empty());
        map
    }

    /// How many tags the map holds.
    pub fn len(&self) -> (len: usize)
        ensures
            len == self@.len(),
    {
        self.tags.len()
    }

    /// Adds a tag for `[start, end)` after all the tags that the map holds.
    pub fn insert(&mut self, start: usize, end: usize, label: String)
        ensures
            final(self)@ == old(self)@.push(
                MemoryTagView { start: start as int, end: end as int, label: label@ },
            ),
    {
        self.tags.push(MemoryTag { start, end, label });
        assert(self@ =~= old(self)@.push(
            MemoryTagView { start: start as int, end: end as int, label: label@ },
        ));
    }

    /// The tag at position `index` in the order of insertion.
    pub fn get(&self, index: usize) -> (tag: &MemoryTag)
        requires
            index < self@.len(),
        ensures
            tag@ == self@[index as int],
    {
        &self.tags[index]
    }

    /// The label of `addr`, or `None` where no tag holds the address. Among
    /// several tags that hold it, the one inserted last gives the label.
    pub fn lookup(&self, addr: usize) -> (label: Option<&str>)
        ensures
            match label {
                Some(text) => label_of(self@, addr as int) == Some(text@),
                None => label_of(self@, addr as int) is None,
            },
    {
        let mut i: usize = self.tags.len();
        assert(self@.take(i as int) =~= self@);
        while i > 0
            invariant
                i <= self@.len(),
                self@.len() == self.tags@.len(),
                label_of(self@, addr as int) == label_of(self@.take(i as int), addr as int),
            decreases i,
        {
            let ghost upto = self@.take(i as int);
            i = i - 1;
            let tag = &self.tags[i];
            proof {
                assert(upto.last() == self.tags@[i as int]@);
                assert(upto.drop_last() =~= self@.take(i as int));
            }
            if tag.start <= addr && addr < tag.end {
                return Some(tag.label.as_str());
            }
        }
        None
    }
}

/// Labels the `size` bytes at `ptr` of the calling thread's memory with
/// `tag`, and returns success with the value zero. `tags` is the map of the
/// thread that issued the call.
///
/// The range is taken as given: it may be empty and it may overlap or repeat
/// ranges that are tagged already, and every tag that the map held stays
/// where it was. Only a range that would end beyond the last address of the
/// machine is refused, with [`SyscallError::EINVAL`] and the map unchanged.
pub fn tag_memory(tags: &mut ThreadMemoryTagMap, ptr: usize, size: usize, tag: &str) -> (outcome:
    Result<usize, SyscallError>)
    ensures
        ptr + size <= usize::MAX ==> outcome == Ok::<usize, SyscallError>(0) && final(tags)@ == old(
            tags,
        )@.push(MemoryTagView { start: ptr as int, end: ptr + size, label: tag@ }),
        ptr + size > usize::MAX ==> outcome == Err::<usize, SyscallError>(SyscallError::EINVAL)
            && final(tags)@ == old(tags)@,
{
    match ptr.checked_add(size) {
        Some(end) => {
            tags.insert(ptr, end, tag.to_owned());
            Ok(0)
        },
        None => Err(SyscallError::EINVAL),
    }
}

/// Tagging loses nothing and changes nothing that was there: after a range
/// is tagged the map holds one tag more, each earlier tag is found where it
/// was, and the new tag is the last. This is so whether or not the range
/// overlaps or equals one that is tagged already.
pub proof fn lemma_tagging_keeps_earlier_tags(
    before: Seq<MemoryTagView>,
    added: MemoryTagView,
    i: int,
)
    requires
        0 <= i < before.len(),
    ensures
        before.push(added).len() == before.len() + 1,
        before.push(added)[i] == before[i],
        before.push(added).last() == added,
{
}

/// After a range is tagged, every address in it carries the new label, and
/// every address outside it carries the label it had.
pub proof fn lemma_last_tag_wins(before: Seq<MemoryTagView>, added: MemoryTagView, addr: int)
    ensures
        label_of(before.push(added), addr) == if added.covers(addr) {
            Some(added.label)
        } else {
            label_of(before, addr)
        },
{
    assert(before.push(added).drop_last() =~= before);
}

} // verus!
