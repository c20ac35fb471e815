//! The memory of the calling program, as far as the kernel may read it.
//!
//! Every read of caller memory goes through [`UserMemory::copy_from_user`],
//! which checks the whole range before it hands out a single byte.

use crate::error::SyscallError;
use vstd::prelude::*;

verus! {

/// One range of caller memory: `bytes[k]` lies at address `base + k`.
pub struct Mapping {
    pub base: usize,
    pub bytes: Vec<u8>,
}

/// The memory that `bytes` placed at `base` makes accessible. What would lie
/// beyond the last address of the machine is not part of it.
pub open spec fn region(base: int, bytes: Seq<u8>) -> Map<int, u8> {
    Map::new(
        |addr: int| base <= addr < base + bytes.len() && addr <= usize::MAX,
        |addr: int| bytes[addr - base],
    )
}

/// Whether every address of the `len` bytes from `addr` upward is accessible.
/// A range of no bytes is accessible wherever it lies.
pub open spec fn readable(memory: Map<int, u8>, addr: int, len: int) -> bool {
    forall|a: int| addr <= a < addr + len ==> #[trigger] memory.contains_key(a)
}

/// The `len` bytes that `memory` holds from `addr` upward.
pub open spec fn contents(memory: Map<int, u8>, addr: int, len: int) -> Seq<u8> {
    Seq::new(len as nat, |k: int| memory[addr + k])
}

spec fn byte_of(mappings: Seq<Mapping>, addr: int) -> Option<u8>
    decreases mappings.len(),
{
    if mappings.len() == 0 {
        None
    } else if region(mappings.last().base as int, mappings.last().bytes@).contains_key(addr) {
        Some(mappings.last().bytes@[addr - mappings.last().base])
    } else {
        byte_of(mappings.drop_last(), addr)
    }
}

proof fn lemma_byte_of_is_addressable(mappings: Seq<Mapping>, addr: int)
    requires
        byte_of(mappings, addr) is Some,
    ensures
        0 <= addr <= usize::MAX,
    decreases mappings.len(),
{
    if mappings.len() > 0 && !region(
        mappings.last().base as int,
        mappings.last().bytes@,
    ).contains_key(addr) {
        lemma_byte_of_is_addressable(mappings.drop_last(), addr);
    }
}

/// The accessible memory of one caller, built from the ranges mapped into
/// it. Its view gives the byte at each accessible address.
pub struct UserMemory {
    mappings: Vec<Mapping>,
}

impl View for UserMemory {
    type V = Map<int, u8>;

    closed spec fn view(&self) -> Map<int, u8> {
        Map::new(
            |addr: int| byte_of(self.mappings@, addr) is Some,
            |addr: int| byte_of(self.mappings@, addr).unwrap(),
        )
    }
}

impl UserMemory {
    /// A memory without any accessible address.
    pub fn new() -> (memory: Self)
        ensures
            memory@ == Map::<int, u8>::empty(),
    {
        let memory = UserMemory { mappings: Vec::new() };
        assert(memory@ =~= Map::<int, u8>::empty());
        memory
    }

    /// Makes `bytes` accessible at `base`. Where the range overlaps what was
    /// accessible before, the new bytes are the ones read from now on.
    pub fn map(&mut self, base: usize, bytes: Vec<u8>)
        ensures
            final(self)@ == old(self)@.union_prefer_right(region(base as int, bytes@)),
    {
        let ghost added = region(base as int, bytes@);
        self.mappings.push(Mapping { base, bytes });
        proof {
            assert(self.mappings@.drop_last() =~= old(self).mappings@);
            assert(self@ =~= old(self)@.union_prefer_right(added));
        }
    }

    /// Every accessible address is an address of the machine.
    pub proof fn lemma_addressable(&self, addr: int)
        requires
            self@.contains_key(addr),
        ensures
            0 <= addr <= usize::MAX,
    {
        lemma_byte_of_is_addressable(self.mappings@, addr);
    }

    /// The byte at `addr`, or `None` where the address is not accessible.
    pub fn byte_at(&self, addr: usize) -> (byte: Option<u8>)
        ensures
            byte == if self@.contains_key(addr as int) {
                Some(self@[addr as int])
            } else {
                None::<u8>
            },
    {
        let mut i: usize = self.mappings.len();
        assert(self.mappings@.take(i as int) =~= self.mappings@);
        while i > 0
            invariant
                i <= self.mappings@.len(),
                byte_of(self.mappings@, addr as int) == byte_of(
                    self.mappings@.take(i as int),
                    addr as int,
                ),
            decreases i,
        {
            let ghost upto = self.mappings@.take(i as int);
            i = i - 1;
            let mapping = &self.mappings[i];
            proof {
                assert(upto.last() == self.mappings@[i as int]);
                assert(upto.drop_last() =~= self.mappings@.take(i as int));
            }
            if mapping.base <= addr && addr - mapping.base < mapping.bytes.len() {
                return Some(mapping.bytes[addr - mapping.base]);
            }
        }
        assert(self.mappings@.take(0) =~= Seq::<Mapping>::empty());
        None
    }

    /// Copies the `len` bytes at `addr` out of caller memory. The copy is
    /// made only if the whole range is accessible; otherwise the call fails
    /// with [`SyscallError::EFAULT`] and nothing is read.
    pub fn copy_from_user(&self, addr: usize, len: usize) -> (copy: Result<Vec<u8>, SyscallError>)
        ensures
            match copy {
                Ok(bytes) => readable(self@, addr as int, len as int) && bytes@ == contents(
                    self@,
                    addr as int,
                    len as int,
                ),
                Err(error) => !readable(self@, addr as int, len as int) && error
                    == SyscallError::EFAULT,
            },
    {
        let mut bytes: Vec<u8> = Vec::new();
        let mut k: usize = 0;
        while k < len
            invariant
                k <= len,
                readable(self@, addr as int, k as int),
                bytes@ == contents(self@, addr as int, k as int),
            decreases len - k,
        {
            let at = match addr.checked_add(k) {
                Some(at) => at,
                None => {
                    proof {
                        if self@.contains_key(addr + k) {
                            self.lemma_addressable(addr + k);
                        }
                    }
                    return Err(SyscallError::EFAULT);
                },
            };
            match self.byte_at(at) {
                Some(byte) => {
                    bytes.push(byte);
                },
                None => {
                    return Err(SyscallError::EFAULT);
                },
            }
            k = k + 1;
            assert(bytes@ =~= contents(self@, addr as int, k as int));
        }
        Ok(bytes)
    }
}

} // verus!
