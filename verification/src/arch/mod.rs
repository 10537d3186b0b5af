//! The architecture backends and the choice among them.
//!
//! Each backend owns the table from a request to the instruction of its
//! architecture. [`mem_barrier`] forwards a request to the backend of the
//! architecture it is given.
use vstd::prelude::*;
use crate::{BarrierType, Directions};
use self::aarch64::Aarch64Barrier;
use self::riscv::RiscvFence;
use self::x86::X86Fence;

pub mod aarch64;
pub mod riscv;
pub mod x86;

verus! {

/// The class of observers a processor barrier synchronizes with. Unlike
/// [`crate::BarrierKind`] it has no compiler-only kind: such a request never
/// reaches a backend.
#[derive(Clone, Copy, Debug, PartialEq, Eq, Structural)]
pub enum CpuBarrierKind {
    /// Memory-mapped device I/O.
    Mmio,
    /// Other processors.
    Smp,
    /// Devices that access memory directly.
    Dma,
}

/// A supported architecture family.
#[derive(Clone, Copy, Debug, PartialEq, Eq, Structural)]
pub enum Arch {
    /// 64-bit ARM.
    Aarch64,
    /// 32-bit and 64-bit RISC-V.
    Riscv,
    /// 32-bit and 64-bit x86.
    X86,
}

/// How a selected instruction is brought into the program.
#[derive(Clone, Copy, Debug, PartialEq, Eq, Structural)]
pub enum Emission {
    /// Through a builtin of the toolchain.
    Intrinsic,
    /// Through the literal mnemonic in inline assembly.
    Assembly,
}

/// A barrier instruction of one of the supported architectures.
#[derive(Clone, Copy, Debug, PartialEq, Eq, Structural)]
pub enum Instruction {
    /// An instruction of 64-bit ARM.
    Aarch64(Aarch64Barrier),
    /// An instruction of RISC-V.
    Riscv(RiscvFence),
    /// An instruction of x86.
    X86(X86Fence),
}

impl Instruction {
    /// The architecture the instruction belongs to.
    pub open spec fn spec_arch(self) -> Arch {
        match self {
            Instruction::Aarch64(_) => Arch::Aarch64,
            Instruction::Riscv(_) => Arch::Riscv,
            Instruction::X86(_) => Arch::X86,
        }
    }

    /// The architecture the instruction belongs to.
    #[verifier::when_used_as_spec(spec_arch)]
    pub fn arch(self) -> (arch: Arch)
        ensures
            arch == self.spec_arch(),
    {
        match self {
            Instruction::Aarch64(_) => Arch::Aarch64,
            Instruction::Riscv(_) => Arch::Riscv,
            Instruction::X86(_) => Arch::X86,
        }
    }

    /// The directions of memory access that the instruction orders.
    pub open spec fn spec_directions(self) -> Directions {
        match self {
            Instruction::Aarch64(barrier) => barrier.spec_directions(),
            Instruction::Riscv(fence) => fence.spec_directions(),
            Instruction::X86(fence) => fence.spec_directions(),
        }
    }

    /// The directions of memory access that the instruction orders.
    #[verifier::when_used_as_spec(spec_directions)]
    pub fn directions(self) -> (d: Directions)
        ensures
            d == self.spec_directions(),
    {
        match self {
            Instruction::Aarch64(barrier) => barrier.directions(),
            Instruction::Riscv(fence) => fence.directions(),
            Instruction::X86(fence) => fence.directions(),
        }
    }

    /// Whether `self` guarantees everything that `other` guarantees.
    /// Instructions of different architectures are not comparable.
    pub open spec fn spec_at_least_as_strong(self, other: Instruction) -> bool {
        match (self, other) {
            (Instruction::Aarch64(a), Instruction::Aarch64(b)) => a.spec_at_least_as_strong(b),
            (Instruction::Riscv(a), Instruction::Riscv(b)) => a.spec_at_least_as_strong(b),
            (Instruction::X86(a), Instruction::X86(b)) => a.spec_at_least_as_strong(b),
            _ => false,
        }
    }

    /// Whether `self` guarantees everything that `other` guarantees.
    /// Instructions of different architectures are not comparable.
    #[verifier::when_used_as_spec(spec_at_least_as_strong)]
    pub fn at_least_as_strong(self, other: Instruction) -> (b: bool)
        ensures
            b == self.spec_at_least_as_strong(other),
    {
        match (self, other) {
            (Instruction::Aarch64(a), Instruction::Aarch64(b)) => a.at_least_as_strong(b),
            (Instruction::Riscv(a), Instruction::Riscv(b)) => a.at_least_as_strong(b),
            (Instruction::X86(a), Instruction::X86(b)) => a.at_least_as_strong(b),
            _ => false,
        }
    }

    /// The instruction as written in assembly.
    pub open spec fn spec_mnemonic(self) -> Seq<char> {
        match self {
            Instruction::Aarch64(barrier) => barrier.spec_mnemonic(),
            Instruction::Riscv(fence) => fence.spec_mnemonic(),
            Instruction::X86(fence) => fence.spec_mnemonic(),
        }
    }

    /// The instruction as written in assembly.
    pub fn mnemonic(self) -> (s: &'static str)
        ensures
            s@ == self.spec_mnemonic(),
    {
        match self {
            Instruction::Aarch64(barrier) => barrier.mnemonic(),
            Instruction::Riscv(fence) => fence.mnemonic(),
            Instruction::X86(fence) => fence.mnemonic(),
        }
    }
}

/// The instruction that the backend of `arch` selects for `kind` and `ty`.
pub open spec fn instruction_for(arch: Arch, kind: CpuBarrierKind, ty: BarrierType) -> Instruction {
    match arch {
        Arch::Aarch64 => Instruction::Aarch64(aarch64::selected(kind, ty)),
        Arch::Riscv => Instruction::Riscv(riscv::selected(kind, ty)),
        Arch::X86 => Instruction::X86(x86::selected(kind, ty)),
    }
}

/// Forwards the request to the backend of `arch`. The result is an
/// instruction of `arch` and orders exactly the directions of `ty`.
pub fn mem_barrier(arch: Arch, kind: CpuBarrierKind, ty: BarrierType) -> (instruction: Instruction)
    ensures
        instruction == instruction_for(arch, kind, ty),
        instruction.spec_arch() == arch,
        instruction.spec_directions() == ty.spec_directions(),
{
    match arch {
        Arch::Aarch64 => Instruction::Aarch64(aarch64::mem_barrier(kind, ty)),
        Arch::Riscv => Instruction::Riscv(riscv::mem_barrier(kind, ty)),
        Arch::X86 => Instruction::X86(x86::mem_barrier(kind, ty)),
    }
}

/// How instructions are emitted on `arch` under the given build flags:
/// through intrinsics where the architecture has them and the flags allow
/// them, through inline assembly otherwise.
///
/// On 64-bit ARM the barrier intrinsics are not stabilized, so they need
/// `nightly` in addition to `stdarch`. On x86 `stdarch` alone selects them.
/// RISC-V has no barrier intrinsics.
pub open spec fn emission_for(arch: Arch, stdarch: bool, nightly: bool) -> Emission {
    match arch {
        Arch::Aarch64 => if stdarch && nightly {
            Emission::Intrinsic
        } else {
            Emission::Assembly
        },
        Arch::Riscv => Emission::Assembly,
        Arch::X86 => if stdarch {
            Emission::Intrinsic
        } else {
            Emission::Assembly
        },
    }
}

/// Decides how instructions are emitted on `arch` under the given build
/// flags. Which instruction is selected does not depend on the answer.
pub fn emission(arch: Arch, stdarch: bool, nightly: bool) -> (emission: Emission)
    ensures
        emission == emission_for(arch, stdarch, nightly),
{
    let intrinsics = match arch {
        Arch::Aarch64 => stdarch && nightly,
        Arch::Riscv => false,
        Arch::X86 => stdarch,
    };
    if intrinsics {
        Emission::Intrinsic
    } else {
        Emission::Assembly
    }
}

} // verus!
