//! Barrier selection for 32-bit and 64-bit RISC-V.
//!
//! A `fence` names a set of accesses before it and a set after it; every
//! fence selected here names the same set on both sides. Device I/O and DMA
//! are ordered alike: by a fence over device and memory accesses. Other
//! processors are ordered by a fence over memory accesses alone.
use vstd::prelude::*;
use super::CpuBarrierKind;
use crate::{BarrierType, Directions};

verus! {

/// The accesses that one side of a `fence` names.
#[derive(Clone, Copy, Debug, PartialEq, Eq, Structural)]
pub struct AccessSet {
    /// Device input (`i`).
    pub input: bool,
    /// Device output (`o`).
    pub output: bool,
    /// Memory reads (`r`).
    pub read: bool,
    /// Memory writes (`w`).
    pub write: bool,
}

impl AccessSet {
    /// Whether every access of `other` is also in `self`.
    pub open spec fn spec_contains(self, other: AccessSet) -> bool {
        &&& other.input ==> self.input
        &&& other.output ==> self.output
        &&& other.read ==> self.read
        &&& other.write ==> self.write
    }

    /// Whether every access of `other` is also in `self`.
    #[verifier::when_used_as_spec(spec_contains)]
    pub fn contains(self, other: AccessSet) -> (b: bool)
        ensures
            b == self.spec_contains(other),
    {
        (self.input || !other.input) && (self.output || !other.output) && (self.read
            || !other.read) && (self.write || !other.write)
    }
}

/// A `fence` instruction of RISC-V with the same access set on both sides.
#[derive(Clone, Copy, Debug, PartialEq, Eq, Structural)]
pub enum RiscvFence {
    /// `fence iorw, iorw`
    Iorw,
    /// `fence ir, ir`
    Ir,
    /// `fence ow, ow`
    Ow,
    /// `fence rw, rw`
    Rw,
    /// `fence r, r`
    R,
    /// `fence w, w`
    W,
}

impl RiscvFence {
    /// The access set that the fence names before and after itself.
    pub open spec fn spec_accesses(self) -> AccessSet {
        match self {
            RiscvFence::Iorw => AccessSet { input: true, output: true, read: true, write: true },
            RiscvFence::Ir => AccessSet { input: true, output: false, read: true, write: false },
            RiscvFence::Ow => AccessSet { input: false, output: true, read: false, write: true },
            RiscvFence::Rw => AccessSet { input: false, output: false, read: true, write: true },
            RiscvFence::R => AccessSet { input: false, output: false, read: true, write: false },
            RiscvFence::W => AccessSet { input: false, output: false, read: false, write: true },
        }
    }

    /// The access set that the fence names before and after itself.
    #[verifier::when_used_as_spec(spec_accesses)]
    pub fn accesses(self) -> (set: AccessSet)
        ensures
            set == self.spec_accesses(),
    {
        match self {
            RiscvFence::Iorw => AccessSet { input: true, output: true, read: true, write: true },
            RiscvFence::Ir => AccessSet { input: true, output: false, read: true, write: false },
            RiscvFence::Ow => AccessSet { input: false, output: true, read: false, write: true },
            RiscvFence::Rw => AccessSet { input: false, output: false, read: true, write: true },
            RiscvFence::R => AccessSet { input: false, output: false, read: true, write: false },
            RiscvFence::W => AccessSet { input: false, output: false, read: false, write: true },
        }
    }

    /// The directions of memory access that the fence orders.
    pub open spec fn spec_directions(self) -> Directions {
        Directions { reads: self.spec_accesses().read, writes: self.spec_accesses().write }
    }

    /// The directions of memory access that the fence orders.
    #[verifier::when_used_as_spec(spec_directions)]
    pub fn directions(self) -> (d: Directions)
        ensures
            d == self.spec_directions(),
    {
        let set = self.accesses();
        Directions { reads: set.read, writes: set.write }
    }

    /// Whether `self` orders every access that `other` orders.
    pub open spec fn spec_at_least_as_strong(self, other: RiscvFence) -> bool {
        self.spec_accesses().spec_contains(other.spec_accesses())
    }

    /// Whether `self` orders every access that `other` orders.
    #[verifier::when_used_as_spec(spec_at_least_as_strong)]
    pub fn at_least_as_strong(self, other: RiscvFence) -> (b: bool)
        ensures
            b == self.spec_at_least_as_strong(other),
    {
        self.accesses().contains(other.accesses())
    }

    /// The instruction as written in assembly.
    pub open spec fn spec_mnemonic(self) -> Seq<char> {
        match self {
            RiscvFence::Iorw => "fence iorw, iorw"@,
            RiscvFence::Ir => "fence ir, ir"@,
            RiscvFence::Ow => "fence ow, ow"@,
            RiscvFence::Rw => "fence rw, rw"@,
            RiscvFence::R => "fence r, r"@,
            RiscvFence::W => "fence w, w"@,
        }
    }

    /// The instruction as written in assembly.
    pub fn mnemonic(self) -> (s: &'static str)
        ensures
            s@ == self.spec_mnemonic(),
    {
        match self {
            RiscvFence::Iorw => "fence iorw, iorw",
            RiscvFence::Ir => "fence ir, ir",
            RiscvFence::Ow => "fence ow, ow",
            RiscvFence::Rw => "fence rw, rw",
            RiscvFence::R => "fence r, r",
            RiscvFence::W => "fence w, w",
        }
    }
}

/// The accesses that a fence for `kind` and `ty` has to name: the memory
/// accesses in the directions of `ty` and, unless only other processors
/// observe, the device accesses in the same directions.
pub open spec fn required(kind: CpuBarrierKind, ty: BarrierType) -> AccessSet {
    let directions = ty.spec_directions();
    let devices = !(kind is Smp);
    AccessSet {
        input: devices && directions.reads,
        output: devices && directions.writes,
        read: directions.reads,
        write: directions.writes,
    }
}

/// The fence that orders the accesses of `ty` against the observers of
/// `kind`.
pub open spec fn selected(kind: CpuBarrierKind, ty: BarrierType) -> RiscvFence {
    match (kind, ty) {
        (CpuBarrierKind::Mmio, BarrierType::General) => RiscvFence::Iorw,
        (CpuBarrierKind::Dma, BarrierType::General) => RiscvFence::Iorw,
        (CpuBarrierKind::Mmio, BarrierType::Read) => RiscvFence::Ir,
        (CpuBarrierKind::Dma, BarrierType::Read) => RiscvFence::Ir,
        (CpuBarrierKind::Mmio, BarrierType::Write) => RiscvFence::Ow,
        (CpuBarrierKind::Dma, BarrierType::Write) => RiscvFence::Ow,
        (CpuBarrierKind::Smp, BarrierType::General) => RiscvFence::Rw,
        (CpuBarrierKind::Smp, BarrierType::Read) => RiscvFence::R,
        (CpuBarrierKind::Smp, BarrierType::Write) => RiscvFence::W,
    }
}

/// Selects the fence that orders the accesses of `ty` against the observers
/// of `kind`. The result names exactly the accesses that the request
/// requires and orders exactly the directions of `ty`.
pub fn mem_barrier(kind: CpuBarrierKind, ty: BarrierType) -> (fence: RiscvFence)
    ensures
        fence == selected(kind, ty),
        fence.spec_accesses() == required(kind, ty),
        fence.spec_directions() == ty.spec_directions(),
{
    match kind {
        CpuBarrierKind::Mmio | CpuBarrierKind::Dma => match ty {
            BarrierType::General => RiscvFence::Iorw,
            BarrierType::Read => RiscvFence::Ir,
            BarrierType::Write => RiscvFence::Ow,
        },
        CpuBarrierKind::Smp => match ty {
            BarrierType::General => RiscvFence::Rw,
            BarrierType::Read => RiscvFence::R,
            BarrierType::Write => RiscvFence::W,
        },
    }
}

/// A fence is determined by the accesses it names.
pub proof fn lemma_fence_determined(a: RiscvFence, b: RiscvFence)
    requires
        a.spec_accesses() == b.spec_accesses(),
    ensures
        a == b,
{
}

} // verus!
