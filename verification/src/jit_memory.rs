//! The memory image a compiled module is loaded into.
//!
//! A `JitMemory` value models one executable region: a whole number of
//! OS-sized pages, created filled with the trap opcode `0xCC` so that a jump
//! into unwritten memory halts visibly, then written exactly once by loading
//! an assembled buffer no larger than its capacity. A region is never
//! resized: a larger module takes a new region.

use crate::compiler::{AllocationError, AssemblyBuf};
use vstd::pervasive::VecAdditionalExecFns;
use vstd::prelude::*;

verus! {

/// Relies on `page_size::get`: the operating system's memory page size in
/// bytes, as `sysconf(_SC_PAGESIZE)` reports it. The value depends on the
/// machine, so nothing is promised of it; every caller handles every value.
#[verifier::external_body]
fn os_page_size() -> usize {
    page_size::get()
}

/// What a region looks like: its page geometry and its bytes.
pub ghost struct JitMemoryView {
    /// The page size at time of allocation
    pub page_size: nat,
    /// How many memory pages were allocated
    pub number_of_pages: nat,
    /// Total allocated size (page_size * number_of_pages)
    pub allocated_size: nat,
    /// The region's bytes
    pub bytes: Seq<u8>,
}

/// One executable-memory image: page geometry plus the bytes it holds.
#[derive(Debug)]
pub struct JitMemory {
    /// The page size at time of allocation
    page_size: usize,
    /// How many memory pages were allocated
    number_of_pages: usize,
    /// Total allocated size (page_size * number_of_pages)
    allocated_size: usize,
    /// The region's bytes
    memory: Vec<u8>,
}

impl View for JitMemory {
    type V = JitMemoryView;

    closed spec fn view(&self) -> JitMemoryView {
        JitMemoryView {
            page_size: self.page_size as nat,
            number_of_pages: self.number_of_pages as nat,
            allocated_size: self.allocated_size as nat,
            bytes: self.memory@,
        }
    }
}

/// The trap-filled contents a fresh region starts with.
pub open spec fn spec_trap_fill(n: nat) -> Seq<u8> {
    Seq::new(n, |i: int| 0xCCu8)
}

/// The pages needed to hold `byte_len` bytes: the ceiling of
/// `byte_len / page_size`.
pub open spec fn spec_required_pages(byte_len: nat, page_size: nat) -> nat
    recommends
        page_size > 0,
{
    if byte_len % page_size == 0 {
        byte_len / page_size
    } else {
        byte_len / page_size + 1
    }
}

proof fn lemma_div_mul_le(q: nat, d: nat, x: nat)
    requires
        d > 0,
        q <= x / d,
    ensures
        q * d <= x,
{
    vstd::arithmetic::div_mod::lemma_fundamental_div_mod(x as int, d as int);
    vstd::arithmetic::mul::lemma_mul_inequality(q as int, (x / d) as int, d as int);
}

proof fn lemma_div_mul_gt(q: nat, d: nat, x: nat)
    requires
        d > 0,
        q > x / d,
    ensures
        q * d > x,
{
    vstd::arithmetic::div_mod::lemma_fundamental_div_mod(x as int, d as int);
    vstd::arithmetic::mul::lemma_mul_inequality((x / d + 1) as int, q as int, d as int);
    assert((x / d + 1) * d == (x / d) * d + d) by (nonlinear_arith);
}

proof fn lemma_required_pages_fit(byte_len: nat, page_size: nat)
    requires
        page_size > 0,
    ensures
        spec_required_pages(byte_len, page_size) * page_size >= byte_len,
        spec_required_pages(byte_len, page_size) <= byte_len,
{
    let q = byte_len / page_size;
    let r = byte_len % page_size;
    vstd::arithmetic::div_mod::lemma_fundamental_div_mod(byte_len as int, page_size as int);
    assert(byte_len == page_size * q + r);
    assert(q * page_size == page_size * q) by (nonlinear_arith);
    assert(q <= q * page_size) by (nonlinear_arith)
        requires
            page_size >= 1,
            q >= 0,
    ;
    if r == 0 {
        assert(spec_required_pages(byte_len, page_size) == q);
    } else {
        assert(spec_required_pages(byte_len, page_size) == q + 1);
        assert((q + 1) * page_size == q * page_size + page_size) by (nonlinear_arith);
        assert(q + 1 <= byte_len);
    }
}

impl JitMemory {
    /// A region is well formed when its capacity is exactly its page count
    /// times its page size, and it holds exactly that many bytes.
    pub open spec fn wf(&self) -> bool {
        &&& self@.allocated_size == self@.number_of_pages * self@.page_size
        &&& self@.bytes.len() == self@.allocated_size
    }

    /// The page size the region was allocated with.
    pub fn page_size(&self) -> (r: usize)
        ensures
            r == self@.page_size,
    {
        self.page_size
    }

    /// How many pages the region spans.
    pub fn number_of_pages(&self) -> (r: usize)
        ensures
            r == self@.number_of_pages,
    {
        self.number_of_pages
    }

    /// The region's total byte capacity.
    pub fn allocated_size(&self) -> (r: usize)
        ensures
            r == self@.allocated_size,
    {
        self.allocated_size
    }

    /// Builds a region of `num_pages` pages of `page_size` bytes each, every
    /// byte initialized to the trap opcode `0xCC`. Fails exactly when the
    /// page size is zero or the total byte size does not fit in `usize`.
    pub fn new_with_page_size(num_pages: usize, page_size: usize) -> (r: Option<JitMemory>)
        ensures
            match r {
                Some(m) => m.wf() && page_size > 0 && num_pages * page_size <= usize::MAX
                    && m@.page_size == page_size && m@.number_of_pages == num_pages
                    && m@.allocated_size == num_pages * page_size && m@.bytes == spec_trap_fill(
                    (num_pages * page_size) as nat,
                ),
                None => page_size == 0 || num_pages * page_size > usize::MAX,
            },
    {
        if page_size == 0 {
            return None;
        }
        if num_pages > usize::MAX / page_size {
            proof {
                lemma_div_mul_gt(num_pages as nat, page_size as nat, usize::MAX as nat);
            }
            return None;
        }
        proof {
            lemma_div_mul_le(num_pages as nat, page_size as nat, usize::MAX as nat);
        }
        let allocation_size_in_bytes = num_pages * page_size;

        let mut memory: Vec<u8> = Vec::new();
        while memory.len() < allocation_size_in_bytes
            invariant
                memory@.len() <= allocation_size_in_bytes,
                forall|m: int| 0 <= m < memory@.len() ==> memory@[m] == 0xCCu8,
            decreases allocation_size_in_bytes - memory@.len(),
        {
            memory.push(0xCC);
        }
        proof {
            assert(memory@ =~= spec_trap_fill((num_pages * page_size) as nat));
        }

        Some(
            JitMemory {
                page_size: page_size,
                number_of_pages: num_pages,
                allocated_size: allocation_size_in_bytes,
                memory: memory,
            },
        )
    }

    /// Allocates a region of `num_pages` pages at the operating system's
    /// page size, trap-filled. The page size is the machine's, so success
    /// cannot be promised; whatever comes back is a well-formed region of
    /// `num_pages` trap-filled pages.
    pub fn new(num_pages: usize) -> (r: Option<JitMemory>)
        ensures
            match r {
                Some(m) => m.wf() && m@.page_size > 0 && m@.number_of_pages == num_pages
                    && m@.bytes == spec_trap_fill(m@.allocated_size),
                None => true,
            },
    {
        let page_size = os_page_size();
        JitMemory::new_with_page_size(num_pages, page_size)
    }

    /// The pages needed to hold `byte_len` bytes of `page_size` each: the
    /// ceiling of their quotient.
    pub fn required_pages(byte_len: usize, page_size: usize) -> (r: usize)
        requires
            page_size > 0,
        ensures
            r == spec_required_pages(byte_len as nat, page_size as nat),
    {
        proof {
            lemma_required_pages_fit(byte_len as nat, page_size as nat);
        }
        if byte_len % page_size == 0 {
            byte_len / page_size
        } else {
            byte_len / page_size + 1
        }
    }

    /// Builds a region just large enough for the assembled buffer — the
    /// ceiling of its length in OS pages — and loads the buffer at offset
    /// zero. The rest of the region keeps its trap fill. The OS page size is
    /// the machine's, so success cannot be promised; whatever comes back
    /// holds exactly the buffer followed by trap bytes.
    pub fn from_assembly_buf(assembly: &AssemblyBuf) -> (r: Option<JitMemory>)
        ensures
            match r {
                Some(m) => m.wf() && m@.page_size > 0 && assembly.instructions@.len()
                    <= m@.allocated_size && m@.number_of_pages == spec_required_pages(
                    assembly.instructions@.len(),
                    m@.page_size,
                ) && m@.bytes == assembly.instructions@ + spec_trap_fill(
                    (m@.allocated_size - assembly.instructions@.len()) as nat,
                ),
                None => true,
            },
    {
        let page_size = os_page_size();
        if page_size == 0 {
            return None;
        }
        let buf_len = assembly.instructions.len();
        let necessary_pages = JitMemory::required_pages(buf_len, page_size);
        let mut memory = match JitMemory::new_with_page_size(necessary_pages, page_size) {
            Some(m) => m,
            None => {
                return None;
            },
        };
        proof {
            lemma_required_pages_fit(buf_len as nat, page_size as nat);
        }
        match memory.load_assembly(assembly) {
            Ok(_) => {
                proof {
                    assert(memory@.bytes =~= assembly.instructions@ + spec_trap_fill(
                        (memory@.allocated_size - assembly.instructions@.len()) as nat,
                    ));
                }
                Some(memory)
            },
            Err(_) => None,
        }
    }

    /// Copies the assembled buffer into the region starting at offset zero.
    /// Fails, leaving the region untouched, exactly when the buffer is
    /// longer than the region's capacity.
    pub fn load_assembly(&mut self, data: &AssemblyBuf) -> (r: Result<(), AllocationError>)
        requires
            old(self).wf(),
        ensures
            final(self).wf(),
            final(self)@.page_size == old(self)@.page_size,
            final(self)@.number_of_pages == old(self)@.number_of_pages,
            final(self)@.allocated_size == old(self)@.allocated_size,
            match r {
                Ok(_) => data.instructions@.len() <= old(self)@.allocated_size
                    && final(self)@.bytes == data.instructions@ + old(self)@.bytes.skip(
                    data.instructions@.len() as int,
                ),
                Err(AllocationError::InstructionBufTooLarge) => data.instructions@.len()
                    > old(self)@.allocated_size && *final(self) == *old(self),
            },
    {
        let instructions_len = data.instructions.len();
        if instructions_len > self.allocated_size {
            Err(AllocationError::InstructionBufTooLarge)
        } else {
            let mut idx: usize = 0;
            while idx < instructions_len
                invariant
                    instructions_len == data.instructions@.len(),
                    0 <= idx <= instructions_len,
                    instructions_len <= self.memory@.len(),
                    self.memory@.len() == old(self).memory@.len(),
                    self.page_size == old(self).page_size,
                    self.number_of_pages == old(self).number_of_pages,
                    self.allocated_size == old(self).allocated_size,
                    forall|m: int| 0 <= m < idx ==> self.memory@[m] == data.instructions@[m],
                    forall|m: int|
                        idx <= m < self.memory@.len() ==> self.memory@[m]
                            == old(self).memory@[m],
                decreases instructions_len - idx,
            {
                let b = data.instructions[idx];
                self.memory.set(idx, b);
                idx = idx + 1;
            }
            proof {
                assert(self.memory@ =~= data.instructions@ + old(self).memory@.skip(
                    instructions_len as int,
                ));
            }
            Ok(())
        }
    }

    /// The byte at `index`, bounds-checked against the region's capacity.
    pub fn get(&self, index: usize) -> (r: Option<&u8>)
        requires
            self.wf(),
        ensures
            match r {
                Some(b) => index < self@.allocated_size && *b == self@.bytes[index as int],
                None => index >= self@.allocated_size,
            },
    {
        if index < self.allocated_size {
            Some(&self.memory[index])
        } else {
            None
        }
    }

    /// A mutable handle to the byte at `index`, bounds-checked against the
    /// region's capacity.
    pub fn get_mut(&mut self, index: usize) -> (r: Option<&mut u8>)
        requires
            old(self).wf(),
        ensures
            final(self).wf(),
            final(self)@.page_size == old(self)@.page_size,
            final(self)@.number_of_pages == old(self)@.number_of_pages,
            final(self)@.allocated_size == old(self)@.allocated_size,
            match r {
                Some(b) => index < old(self)@.allocated_size && *b == old(self)@.bytes[index as int]
                    && final(self)@.bytes == old(self)@.bytes.update(index as int, *final(b)),
                None => index >= old(self)@.allocated_size && *final(self) == *old(self),
            },
    {
        if index < self.allocated_size {
            Some(&mut self.memory[index])
        } else {
            None
        }
    }

    /// Writes the byte at `index`, bounds-checked against the region's
    /// capacity: reports whether the write happened.
    pub fn set_byte(&mut self, index: usize, value: u8) -> (r: bool)
        requires
            old(self).wf(),
        ensures
            final(self).wf(),
            final(self)@.page_size == old(self)@.page_size,
            final(self)@.number_of_pages == old(self)@.number_of_pages,
            final(self)@.allocated_size == old(self)@.allocated_size,
            r == (index < old(self)@.allocated_size),
            r ==> final(self)@.bytes == old(self)@.bytes.update(index as int, value),
            !r ==> *final(self) == *old(self),
    {
        if index < self.allocated_size {
            self.memory.set(index, value);
            true
        } else {
            false
        }
    }
}

} // verus!
