//! x86-64 register and syscall tables.
//!
//! x86-64 gives some guarantees that other architectures do not; the tables
//! here are specific to it.

use vstd::prelude::*;

verus! {

/// The general-purpose and SSE registers of x86-64.
#[derive(Debug, Copy, Clone, PartialEq, Eq, Structural)]
pub enum Register {
    /// Accumulator, { Eax, Ax, Ah, Al }
    Rax,
    /// Base, { Ebx, Bx, Bh, Bl }
    Rbx,
    /// Counter, { Ecx, Cx, Ch, Cl }
    Rcx,
    /// Data, { Edx, Dx, Dh, Dl }
    Rdx,
    /// Stack pointer
    Rsp,
    /// Base pointer
    Rbp,
    /// Source index
    Rsi,
    /// Destination index
    Rdi,
    R7,
    R8,
    R9,
    R10,
    R11,
    R12,
    R13,
    R14,
    R15,
    Xmm0,
    Xmm1,
    Xmm2,
    Xmm3,
    Xmm4,
    Xmm5,
    Xmm6,
    Xmm7,
    Xmm8,
    Xmm9,
    Xmm10,
    Xmm11,
    Xmm12,
    Xmm13,
    Xmm14,
    Xmm15,
}

impl Register {
    /// Every register currently reports a width of zero: widths are not
    /// consulted by any code path.
    pub fn get_width(&self) -> (w: u8)
        ensures
            w == 0,
    {
        0
    }
}

/// A system call, by platform.
pub enum Syscall {
    Linux(LinuxSyscall),
}

/// The Linux system calls with a modeled register assignment.
#[derive(Debug, Copy, Clone, PartialEq, Eq, Structural)]
pub enum LinuxSyscall {
    Write(LinuxWriteSyscall),
}

/// The operands of a Linux `write` system call. The source buffer is carried
/// as its numeric address.
#[derive(Debug, Copy, Clone, PartialEq, Eq, Structural)]
pub struct LinuxWriteSyscall {
    pub target_file_descriptor: u32,
    pub source_bytes: usize,
    pub byte_count: u32,
}

/// The 64-bit register assignment of a system call's operands.
pub trait GetSyscallOpCode64 {
    fn get_rax(&self) -> Option<u64>;

    fn get_rbx(&self) -> Option<u64>;

    fn get_rcx(&self) -> Option<u64>;

    fn get_rdx(&self) -> Option<u64>;
}

/// The 32-bit register assignment of a system call's operands.
pub trait GetSyscallOpCode32 {
    fn get_eax(&self) -> Option<u32>;

    fn get_ebx(&self) -> Option<u32>;

    fn get_ecx(&self) -> Option<u32>;

    fn get_edx(&self) -> Option<u32>;
}

impl GetSyscallOpCode64 for LinuxWriteSyscall {
    fn get_rax(&self) -> Option<u64> {
        Some(0x04)
    }

    fn get_rbx(&self) -> Option<u64> {
        Some(self.target_file_descriptor as u64)
    }

    fn get_rcx(&self) -> Option<u64> {
        Some(self.source_bytes as u64)
    }

    fn get_rdx(&self) -> Option<u64> {
        Some(self.byte_count as u64)
    }
}

impl GetSyscallOpCode32 for LinuxWriteSyscall {
    fn get_eax(&self) -> Option<u32> {
        Some(0x04)
    }

    fn get_ebx(&self) -> Option<u32> {
        Some(self.target_file_descriptor)
    }

    fn get_ecx(&self) -> Option<u32> {
        Some(self.source_bytes as u32)
    }

    fn get_edx(&self) -> Option<u32> {
        Some(self.byte_count)
    }
}

} // verus!
