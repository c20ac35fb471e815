//! A stack region that grows downward from the address it starts at.

use vstd::prelude::*;

verus! {

/// What a [`StackHelper`] is in contracts: the address of the lowest byte
/// written so far, and the bytes from there upward to where the stack began.
pub struct StackView {
    pub top: int,
    pub image: Seq<u8>,
}

impl StackView {
    /// The address at which the stack began: one past its highest byte.
    pub open spec fn base(self) -> int {
        self.top + self.image.len()
    }

    /// The byte that the image holds at `addr`.
    pub open spec fn byte_at(self, addr: int) -> u8
        recommends
            self.top <= addr < self.base(),
    {
        self.image[addr - self.top]
    }

    /// The `len` bytes that the image holds from `addr` upward.
    pub open spec fn read(self, addr: int, len: int) -> Seq<u8>
        recommends
            self.top <= addr,
            0 <= len,
            addr + len <= self.base(),
    {
        self.image.subrange(addr - self.top, addr - self.top + len)
    }
}

/// A downward-growing stack with a movable top. Writing moves the top down
/// by the number of bytes written and places them at the new top, so that
/// what is written later lies below what was written earlier.
pub struct StackHelper {
    top: u64,
    /// The bytes in the order of descending addresses.
    written: Vec<u8>,
}

impl View for StackHelper {
    type V = StackView;

    closed spec fn view(&self) -> StackView {
        StackView {
            top: self.top as int,
            image: Seq::new(
                self.written@.len(),
                |i: int| self.written@[self.written@.len() - 1 - i],
            ),
        }
    }
}

impl StackHelper {
    /// An empty stack that begins at `top`.
    pub fn new(top: u64) -> (stack: Self)
        ensures
            stack@ == (StackView { top: top as int, image: Seq::empty() }),
    {
        let stack = StackHelper { top, written: Vec::new() };
        assert(stack@.image =~= Seq::empty());
        stack
    }

    /// The address of the lowest byte written so far.
    pub fn top(&self) -> (top: u64)
        ensures
            top == self@.top,
    {
        self.top
    }

    /// Writes one byte below the top.
    pub fn write(&mut self, value: u8)
        requires
            old(self)@.top >= 1,
        ensures
            final(self)@ == (StackView {
                top: old(self)@.top - 1,
                image: seq![value] + old(self)@.image,
            }),
    {
        self.top = self.top - 1;
        self.written.push(value);
        assert(self@.image =~= seq![value] + old(self)@.image);
    }

    /// Writes `bytes` below the top, in ascending order of address.
    pub fn write_bytes(&mut self, bytes: &[u8])
        requires
            bytes@.len() <= old(self)@.top,
        ensures
            final(self)@ == (StackView {
                top: old(self)@.top - bytes@.len(),
                image: bytes@ + old(self)@.image,
            }),
    {
        let mut left: usize = bytes.len();
        while left > 0
            invariant
                left <= bytes@.len(),
                bytes@.len() <= old(self)@.top,
                self@.top == old(self)@.top - (bytes@.len() - left),
                self@.image == bytes@.subrange(left as int, bytes@.len() as int) + old(
                    self,
                )@.image,
            decreases left,
        {
            let ghost before = self@;
            left = left - 1;
            self.top = self.top - 1;
            self.written.push(bytes[left]);
            assert(self@.image =~= seq![bytes@[left as int]] + before.image);
            assert(self@.image =~= bytes@.subrange(left as int, bytes@.len() as int) + old(
                self,
            )@.image);
        }
        assert(bytes@.subrange(0, bytes@.len() as int) =~= bytes@);
    }

    /// A copy of the image, from the top upward.
    pub fn image(&self) -> (image: Vec<u8>)
        ensures
            image@ == self@.image,
    {
        let mut image: Vec<u8> = Vec::new();
        let mut left: usize = self.written.len();
        while left > 0
            invariant
                left <= self.written@.len(),
                image@ == self@.image.subrange(0, self.written@.len() - left),
            decreases left,
        {
            left = left - 1;
            image.push(self.written[left]);
            assert(image@ =~= self@.image.subrange(0, self.written@.len() - left));
        }
        assert(self@.image.subrange(0, self.written@.len() as int) =~= self@.image);
        image
    }
}

} // verus!
