//! The machine's memory: 4096 bytes, of which the first 512 are reserved for
//! the interpreter image and the rest hold the program and its data.

use crate::error::LoadError;
use vstd::prelude::*;

verus! {

/// Bytes of memory.
pub const SIZE: usize = 4096;

/// The address at which programs start; the interpreter image lies below.
pub const PROGRAM_START: u16 = 0x200;

/// Memory with every byte zero.
pub open spec fn zeroed() -> Seq<u8> {
    Seq::new(4096, |a: int| 0u8)
}

/// `mem` with `image` copied over it from address `base` on.
pub open spec fn overlay(mem: Seq<u8>, image: Seq<u8>, base: int) -> Seq<u8> {
    Seq::new(
        mem.len(),
        |a: int|
            if base <= a < base + image.len() {
                image[a - base]
            } else {
                mem[a]
            },
    )
}

/// The memory.
pub struct Memory {
    bytes: [u8; 4096],
}

impl View for Memory {
    type V = Seq<u8>;

    closed spec fn view(&self) -> Seq<u8> {
        self.bytes@
    }
}

impl Memory {
    /// Zeroed memory.
    pub fn new() -> (m: Memory)
        ensures
            m@ == zeroed(),
    {
        let m = Memory { bytes: [0; 4096] };
        assert(m@ =~= zeroed());
        m
    }

    /// The byte at `addr`.
    pub fn read(&self, addr: usize) -> (b: u8)
        requires
            addr < 4096,
        ensures
            b == self@[addr as int],
    {
        self.bytes[addr]
    }

    /// Stores `b` at `addr`.
    pub fn write(&mut self, addr: usize, b: u8)
        requires
            addr < 4096,
        ensures
            final(self)@ == old(self)@.update(addr as int, b),
    {
        self.bytes[addr] = b;
    }

    /// The `len` bytes from `addr` on.
    pub fn slice(&self, addr: usize, len: usize) -> (out: &[u8])
        requires
            addr + len <= 4096,
        ensures
            out@ == self@.subrange(addr as int, addr + len),
    {
        vstd::slice::slice_subrange(&self.bytes, addr, addr + len)
    }

    /// Copies `image` into memory from address `base` on, if it fits below
    /// address `limit`; otherwise nothing is written.
    pub fn load(&mut self, image: &[u8], base: usize, limit: usize) -> (res: Result<(), LoadError>)
        requires
            limit <= 4096,
        ensures
            match res {
                Ok(()) => {
                    &&& base + image@.len() <= limit
                    &&& final(self)@ == overlay(old(self)@, image@, base as int)
                },
                Err(e) => {
                    &&& base + image@.len() > limit
                    &&& e == LoadError::ImageTooLarge
                    &&& final(self)@ == old(self)@
                },
            },
    {
        let len: usize = image.len();
        if base > limit || len > limit - base {
            return Err(LoadError::ImageTooLarge);
        }
        let mut k: usize = 0;
        while k < len
            invariant
                k <= len,
                len == image@.len(),
                base + len <= limit <= 4096,
                self@ == overlay(old(self)@, image@.take(k as int), base as int),
            decreases len - k,
        {
            self.bytes[base + k] = image[k];
            assert(self@ =~= overlay(old(self)@, image@.take(k + 1), base as int));
            k += 1;
        }
        assert(image@.take(len as int) =~= image@);
        Ok(())
    }
}

} // verus!
