//! The argument and environment lists of a new process image: collected
//! from caller memory into buffers that the kernel owns, and later laid out
//! on the stack of the image.

use crate::error::SyscallError;
use crate::stack::{StackHelper, StackView};
use crate::user_memory::{contents, readable, UserMemory};
use vstd::bytes::{spec_u64_from_le_bytes, u64_from_le_bytes};
use vstd::prelude::*;
use vstd::slice::slice_subrange;

verus! {

/// How many bytes one machine word takes in caller memory.
pub const WORD_BYTES: usize = 8;

/// How many bytes one entry of a caller's vector takes: the address of a
/// buffer, then its length.
pub const ENTRY_BYTES: usize = 16;

/// An ordered list of byte buffers that the kernel owns.
pub struct ExecArgs {
    pub inner: Vec<Box<[u8]>>,
}

impl View for ExecArgs {
    type V = Seq<Seq<u8>>;

    open spec fn view(&self) -> Seq<Seq<u8>> {
        Seq::new(self.inner@.len(), |i: int| self.inner@[i]@)
    }
}

/// Copies `arg` into a boxed slice of its own with the standard library's
/// `Box::<[u8]>::from(&[u8])`. Trusted of that conversion: the box holds the
/// same bytes in the same order.
#[verifier::external_body]
fn boxed(arg: &[u8]) -> (owned: Box<[u8]>)
    ensures
        owned@ == arg@,
{
    Box::from(arg)
}

/// The bytes that laying out `args` takes on a stack: each buffer and one
/// zero byte.
pub open spec fn stack_bytes(args: Seq<Seq<u8>>) -> nat
    decreases args.len(),
{
    if args.len() == 0 {
        0
    } else {
        stack_bytes(args.drop_last()) + args.last().len() + 1
    }
}

/// The image of a stack that held `image` after `args` were laid out on it:
/// the buffer written last lies lowest, and above each buffer lies its zero
/// byte.
pub open spec fn laid_out(args: Seq<Seq<u8>>, image: Seq<u8>) -> Seq<u8>
    decreases args.len(),
{
    if args.len() == 0 {
        image
    } else {
        args.last() + seq![0u8] + laid_out(args.drop_last(), image)
    }
}

/// The address recorded for each of `args` when they are laid out on a stack
/// whose top is `top`: where the top stands once that buffer is written.
pub open spec fn entry_tops(args: Seq<Seq<u8>>, top: int) -> Seq<int> {
    Seq::new(args.len(), |i: int| top - stack_bytes(args.take(i + 1)))
}

/// The word that `memory` holds at `addr`, least significant byte first.
pub open spec fn word_at(memory: Map<int, u8>, addr: int) -> int {
    spec_u64_from_le_bytes(contents(memory, addr, WORD_BYTES as int)) as int
}

/// Whether entry `i` of the vector at `table` can be collected: the entry
/// itself is accessible, the length it gives is one that a buffer can have
/// on this machine, and the buffer that it describes is accessible.
pub open spec fn entry_collectable(memory: Map<int, u8>, table: int, i: int) -> bool {
    let entry = table + ENTRY_BYTES * i;
    &&& readable(memory, entry, ENTRY_BYTES as int)
    &&& word_at(memory, entry + WORD_BYTES) <= usize::MAX
    &&& readable(memory, word_at(memory, entry), word_at(memory, entry + WORD_BYTES))
}

/// Whether each of the `count` entries of the vector at `table` can be
/// collected.
pub open spec fn collectable(memory: Map<int, u8>, table: int, count: int) -> bool {
    forall|i: int| 0 <= i < count ==> #[trigger] entry_collectable(memory, table, i)
}

/// The buffers that the `count` entries of the vector at `table` describe,
/// in the order of the entries.
pub open spec fn collected(memory: Map<int, u8>, table: int, count: int) -> Seq<Seq<u8>> {
    Seq::new(
        count as nat,
        |i: int|
            contents(
                memory,
                word_at(memory, table + ENTRY_BYTES * i),
                word_at(memory, table + ENTRY_BYTES * i + WORD_BYTES),
            ),
    )
}

proof fn lemma_stack_bytes_grow(args: Seq<Seq<u8>>, i: int)
    requires
        0 <= i <= args.len(),
    ensures
        stack_bytes(args.take(i)) <= stack_bytes(args),
    decreases args.len(),
{
    if i < args.len() {
        assert(args.drop_last().take(i) =~= args.take(i));
        lemma_stack_bytes_grow(args.drop_last(), i);
    } else {
        assert(args.take(i) =~= args);
    }
}

proof fn lemma_laid_out_len(args: Seq<Seq<u8>>, image: Seq<u8>)
    ensures
        laid_out(args, image).len() == stack_bytes(args) + image.len(),
    decreases args.len(),
{
    if args.len() > 0 {
        lemma_laid_out_len(args.drop_last(), image);
    }
}

impl Default for ExecArgs {
    /// An empty list.
    fn default() -> (args: Self)
        ensures
            args@ == Seq::<Seq<u8>>::empty(),
    {
        let args = ExecArgs { inner: Vec::new() };
        assert(args@ =~= Seq::<Seq<u8>>::empty());
        args
    }
}

impl ExecArgs {
    /// Appends a copy of `arg`.
    pub fn push(&mut self, arg: &[u8])
        ensures
            final(self)@ == old(self)@.push(arg@),
    {
        self.inner.push(boxed(arg));
        assert(self@ =~= old(self)@.push(arg@));
    }

    /// Appends a copy of each of `args`, in their order.
    pub fn extend(&mut self, args: &[Box<[u8]>])
        ensures
            final(self)@ == old(self)@ + Seq::new(args@.len(), |i: int| args@[i]@),
    {
        let ghost added = Seq::new(args@.len(), |i: int| args@[i]@);
        let mut i: usize = 0;
        assert(self@ =~= old(self)@ + added.take(0));
        while i < args.len()
            invariant
                i <= args@.len(),
                added == Seq::new(args@.len(), |i: int| args@[i]@),
                self@ == old(self)@ + added.take(i as int),
            decreases args.len() - i,
        {
            self.push(&args[i]);
            i = i + 1;
            assert(self@ =~= old(self)@ + added.take(i as int));
        }
        assert(added.take(i as int) =~= added);
    }

    /// Whether `stack` has room for [`ExecArgs::push_into_stack`]: the
    /// layout must not reach below address zero.
    pub fn fits(&self, stack: &StackHelper) -> (enough: bool)
        ensures
            enough == (stack_bytes(self@) <= stack@.top),
    {
        let mut room: u64 = stack.top();
        let mut i: usize = 0;
        assert(self@.take(0) =~= Seq::<Seq<u8>>::empty());
        while i < self.inner.len()
            invariant
                i <= self.inner@.len(),
                room == stack@.top - stack_bytes(self@.take(i as int)),
            decreases self.inner.len() - i,
        {
            let len = self.inner[i].len();
            proof {
                assert(self@.take(i + 1).drop_last() =~= self@.take(i as int));
                assert(self@.take(i + 1).last() == self.inner@[i as int]@);
            }
            if len as u64 >= room {
                proof {
                    lemma_stack_bytes_grow(self@, i + 1);
                }
                return false;
            }
            room = room - (len as u64 + 1);
            i = i + 1;
        }
        assert(self@.take(i as int) =~= self@);
        true
    }

    /// Lays the buffers out on `stack`, in their order: for each, one zero
    /// byte is written, then the buffer, and the top of the stack is
    /// recorded. Returns the recorded addresses, one for each buffer, in the
    /// order of the buffers.
    ///
    /// The stack grows downward, so each recorded address is where its
    /// buffer begins, and the zero byte that was written before the buffer
    /// lies directly above the buffer's last byte.
    pub fn push_into_stack(&self, stack: &mut StackHelper) -> (tops: Vec<u64>)
        requires
            stack_bytes(self@) <= old(stack)@.top,
        ensures
            final(stack)@ == (StackView {
                top: old(stack)@.top - stack_bytes(self@),
                image: laid_out(self@, old(stack)@.image),
            }),
            tops@.len() == self@.len(),
            forall|i: int|
                0 <= i < tops@.len() ==> #[trigger] tops@[i] as int == entry_tops(
                    self@,
                    old(stack)@.top,
                )[i],
    {
        let mut tops: Vec<u64> = Vec::with_capacity(self.inner.len());
        let mut i: usize = 0;
        assert(self@.take(0) =~= Seq::<Seq<u8>>::empty());
        while i < self.inner.len()
            invariant
                i <= self.inner@.len(),
                stack_bytes(self@) <= old(stack)@.top,
                stack@ == (StackView {
                    top: old(stack)@.top - stack_bytes(self@.take(i as int)),
                    image: laid_out(self@.take(i as int), old(stack)@.image),
                }),
                tops@.len() == i,
                forall|j: int|
                    0 <= j < i ==> #[trigger] tops@[j] as int == old(stack)@.top - stack_bytes(
                        self@.take(j + 1),
                    ),
            decreases self.inner.len() - i,
        {
            proof {
                assert(self@.take(i + 1).drop_last() =~= self@.take(i as int));
                assert(self@.take(i + 1).last() == self.inner@[i as int]@);
                lemma_stack_bytes_grow(self@, i + 1);
            }
            stack.write(0u8);
            stack.write_bytes(&self.inner[i]);
            tops.push(stack.top());
            i = i + 1;
            assert(stack@.image =~= laid_out(self@.take(i as int), old(stack)@.image));
        }
        assert(self@.take(i as int) =~= self@);
        tops
    }
}

/// Reads the word at offset `at` of an entry, least significant byte first.
fn word_of(raw: &Vec<u8>, at: usize) -> (word: u64)
    requires
        raw@.len() == ENTRY_BYTES,
        at <= WORD_BYTES,
    ensures
        word == spec_u64_from_le_bytes(raw@.subrange(at as int, at + WORD_BYTES)),
{
    u64_from_le_bytes(slice_subrange(raw.as_slice(), at, at + WORD_BYTES))
}

/// Collects the `size` buffers that the vector at address `args` of
/// `memory` describes. Each entry of the vector is two words, the address of
/// a buffer and its length in bytes; the result holds a copy of each buffer,
/// in the order of the entries.
///
/// Nothing is copied from a range that the caller cannot access: if an entry
/// or the buffer it describes is not wholly accessible, the call fails with
/// [`SyscallError::EFAULT`]. A buffer of no bytes is collected wherever its
/// address points.
pub fn exec_args_from_slice(memory: &UserMemory, args: usize, size: usize) -> (result: Result<
    ExecArgs,
    SyscallError,
>)
    ensures
        match result {
            Ok(list) => collectable(memory@, args as int, size as int) && list@ == collected(
                memory@,
                args as int,
                size as int,
            ),
            Err(error) => !collectable(memory@, args as int, size as int) && error
                == SyscallError::EFAULT,
        },
{
    let mut list = ExecArgs::default();
    let mut i: usize = 0;
    while i < size
        invariant
            i <= size,
            collectable(memory@, args as int, i as int),
            list@ == collected(memory@, args as int, i as int),
        decreases size - i,
    {
        let ghost entry = args + ENTRY_BYTES * i;
        let at = match i.checked_mul(ENTRY_BYTES) {
            Some(offset) => args.checked_add(offset),
            None => None,
        };
        let at = match at {
            Some(at) => at,
            None => {
                proof {
                    if memory@.contains_key(entry) {
                        memory.lemma_addressable(entry);
                    }
                    assert(!entry_collectable(memory@, args as int, i as int));
                }
                return Err(SyscallError::EFAULT);
            },
        };
        let raw = match memory.copy_from_user(at, ENTRY_BYTES) {
            Ok(raw) => raw,
            Err(_) => {
                assert(!entry_collectable(memory@, args as int, i as int));
                return Err(SyscallError::EFAULT);
            },
        };
        let addr = word_of(&raw, 0);
        let len = word_of(&raw, WORD_BYTES);
        proof {
            assert(raw@.subrange(0, WORD_BYTES as int) =~= contents(
                memory@,
                entry,
                WORD_BYTES as int,
            ));
            assert(raw@.subrange(WORD_BYTES as int, WORD_BYTES + WORD_BYTES) =~= contents(
                memory@,
                entry + WORD_BYTES,
                WORD_BYTES as int,
            ));
            assert(addr == word_at(memory@, entry));
            assert(len == word_at(memory@, entry + WORD_BYTES));
        }
        if len == 0 {
            let empty: Vec<u8> = Vec::new();
            list.push(empty.as_slice());
            assert(empty@ =~= contents(memory@, addr as int, len as int));
        } else if addr > usize::MAX as u64 || len > usize::MAX as u64 {
            proof {
                if memory@.contains_key(addr as int) {
                    memory.lemma_addressable(addr as int);
                }
                assert(!entry_collectable(memory@, args as int, i as int));
            }
            return Err(SyscallError::EFAULT);
        } else {
            match memory.copy_from_user(addr as usize, len as usize) {
                Ok(buffer) => {
                    list.push(buffer.as_slice());
                },
                Err(_) => {
                    assert(!entry_collectable(memory@, args as int, i as int));
                    return Err(SyscallError::EFAULT);
                },
            }
        }
        assert(entry_collectable(memory@, args as int, i as int));
        i = i + 1;
        assert(list@ =~= collected(memory@, args as int, i as int));
    }
    Ok(list)
}

/// Collecting gives back what the caller laid down: if the vector at `table`
/// has one entry for each of `buffers`, in their order, and each entry gives
/// an address at which `memory` holds that buffer and the buffer's length,
/// then the vector can be collected and what is collected is `buffers`,
/// byte for byte and in the same order. This holds for any number of
/// buffers and any lengths, none and zero included.
pub proof fn lemma_collect_round_trip(
    memory: Map<int, u8>,
    table: int,
    buffers: Seq<Seq<u8>>,
    addrs: Seq<int>,
)
    requires
        addrs.len() == buffers.len(),
        readable(memory, table, ENTRY_BYTES * buffers.len()),
        forall|i: int|
            #![trigger buffers[i]]
            0 <= i < buffers.len() ==> {
                &&& word_at(memory, table + ENTRY_BYTES * i) == addrs[i]
                &&& word_at(memory, table + ENTRY_BYTES * i + WORD_BYTES) == buffers[i].len()
                &&& buffers[i].len() <= usize::MAX
                &&& readable(memory, addrs[i], buffers[i].len() as int)
                &&& contents(memory, addrs[i], buffers[i].len() as int) == buffers[i]
            },
    ensures
        collectable(memory, table, buffers.len() as int),
        collected(memory, table, buffers.len() as int) == buffers,
{
    assert forall|i: int| 0 <= i < buffers.len() implies #[trigger] entry_collectable(
        memory,
        table,
        i,
    ) by {
        let _ = buffers[i];
    }
    assert forall|i: int| 0 <= i < buffers.len() implies collected(
        memory,
        table,
        buffers.len() as int,
    )[i] == buffers[i] by {
        let _ = buffers[i];
    }
    assert(collected(memory, table, buffers.len() as int) =~= buffers);
}

/// Laying out gives one address for each buffer, in the order of the
/// buffers, and at each address the image holds that buffer: read upward
/// from the address come the buffer's exact bytes, and directly above them
/// the zero byte that was written before the buffer. The whole entry lies
/// below where the top stood before the layout.
pub proof fn lemma_layout_reads_back(args: Seq<Seq<u8>>, top: int, image: Seq<u8>, i: int)
    requires
        0 <= i < args.len(),
    ensures
        ({
            let after = StackView { top: top - stack_bytes(args), image: laid_out(args, image) };
            let addr = entry_tops(args, top)[i];
            &&& entry_tops(args, top).len() == args.len()
            &&& after.top <= addr
            &&& addr + args[i].len() + 1 <= top
            &&& after.read(addr, args[i].len() as int) == args[i]
            &&& after.byte_at(addr + args[i].len()) == 0
        }),
    decreases args.len(),
{
    let rest = args.drop_last();
    let last = args.last();
    let after = StackView { top: top - stack_bytes(args), image: laid_out(args, image) };
    let addr = entry_tops(args, top)[i];
    assert(args.take(i + 1).len() == i + 1);
    lemma_laid_out_len(args, image);
    lemma_laid_out_len(rest, image);
    if i == args.len() - 1 {
        assert(args.take(i + 1) =~= args);
        assert(after.read(addr, last.len() as int) =~= last);
    } else {
        lemma_layout_reads_back(rest, top, image, i);
        assert(rest.take(i + 1) =~= args.take(i + 1));
        let before = StackView { top: top - stack_bytes(rest), image: laid_out(rest, image) };
        assert(entry_tops(rest, top)[i] == addr);
        let shift = last.len() + 1;
        assert(after.top + shift == before.top);
        assert forall|k: int| 0 <= k < before.image.len() implies after.image[k + shift]
            == before.image[k] by {}
        assert(after.read(addr, args[i].len() as int) =~= before.read(
            addr,
            rest[i].len() as int,
        ));
    }
}

/// Where a buffer holds zero bytes only, none included, its entry reads the
/// same with the zero byte taken first: at its address the image holds a
/// zero byte, followed directly by the buffer's exact bytes.
pub proof fn lemma_layout_of_zero_buffer(args: Seq<Seq<u8>>, top: int, image: Seq<u8>, i: int)
    requires
        0 <= i < args.len(),
        forall|k: int| 0 <= k < args[i].len() ==> args[i][k] == 0,
    ensures
        ({
            let after = StackView { top: top - stack_bytes(args), image: laid_out(args, image) };
            let addr = entry_tops(args, top)[i];
            &&& after.byte_at(addr) == 0
            &&& after.read(addr + 1, args[i].len() as int) == args[i]
        }),
{
    lemma_layout_reads_back(args, top, image, i);
    lemma_laid_out_len(args, image);
    let after = StackView { top: top - stack_bytes(args), image: laid_out(args, image) };
    let addr = entry_tops(args, top)[i];
    let len = args[i].len() as int;
    let entry = after.read(addr, len);
    assert(after.byte_at(addr + len) == 0);
    assert forall|k: int| 0 <= k < len implies #[trigger] entry[k] == 0 by {}
    if len > 0 {
        assert(after.byte_at(addr) == entry[0]);
    }
    let shifted = after.read(addr + 1, len);
    assert forall|k: int| 0 <= k < len implies #[trigger] shifted[k] == args[i][k] by {
        if k + 1 < len {
            assert(shifted[k] == entry[k + 1]);
        }
    }
    assert(shifted =~= args[i]);
}

/// Laying out records addresses that descend with the order of the buffers:
/// the entry of a later buffer lies wholly below that of an earlier one.
pub proof fn lemma_layout_descends(args: Seq<Seq<u8>>, top: int, i: int, j: int)
    requires
        0 <= i < j < args.len(),
    ensures
        entry_tops(args, top)[j] + args[j].len() + 1 <= entry_tops(args, top)[i],
{
    let upto = args.take(j + 1);
    assert(upto.drop_last() =~= args.take(j));
    assert(upto.last() == args[j]);
    assert(args.take(j).take(i + 1) =~= args.take(i + 1));
    lemma_stack_bytes_grow(args.take(j), i + 1);
}

/// Laying out loses nothing that the stack held: the image from before the
/// layout is read unchanged from where the top stood.
pub proof fn lemma_layout_keeps_image(args: Seq<Seq<u8>>, top: int, image: Seq<u8>)
    ensures
        ({
            let after = StackView { top: top - stack_bytes(args), image: laid_out(args, image) };
            &&& after.base() == top + image.len()
            &&& after.read(top, image.len() as int) == image
        }),
    decreases args.len(),
{
    let after = StackView { top: top - stack_bytes(args), image: laid_out(args, image) };
    lemma_laid_out_len(args, image);
    if args.len() == 0 {
        assert(after.read(top, image.len() as int) =~= image);
    } else {
        let rest = args.drop_last();
        lemma_layout_keeps_image(rest, top, image);
        lemma_laid_out_len(rest, image);
        let before = StackView { top: top - stack_bytes(rest), image: laid_out(rest, image) };
        let shift = args.last().len() + 1;
        assert forall|k: int| 0 <= k < before.image.len() implies after.image[k + shift]
            == before.image[k] by {}
        assert(after.read(top, image.len() as int) =~= before.read(top, image.len() as int));
    }
}

} // verus!
