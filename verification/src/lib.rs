//! Architecture-independent selection of memory barriers.
//!
//! A barrier request is classified along two axes: its [`BarrierKind`] names
//! the class of observers to synchronize with, and its [`BarrierType`] names
//! the access directions to order. [`mem_barrier`] resolves a request for a
//! given architecture into the one [`Barrier`] that has to be executed.
use vstd::prelude::*;
use crate::arch::{Arch, CpuBarrierKind, Instruction};

pub mod arch;

verus! {

/// The class of observers a barrier synchronizes with.
#[derive(Clone, Copy, Debug, PartialEq, Eq, Structural)]
#[non_exhaustive]
pub enum BarrierKind {
    /// Ordering against memory-mapped device I/O. This is the strongest kind
    /// and the one to use when no weaker kind applies.
    Mmio,
    /// Ordering against the other processors of a shared-memory system,
    /// including a single-core guest that a multi-core host observes.
    Smp,
    /// Ordering against devices that share memory with the processor through
    /// direct memory access.
    Dma,
    /// Ordering against the compiler only; the processor is not involved.
    Compiler,
}

/// The access directions a barrier orders.
#[derive(Clone, Copy, Debug, PartialEq, Eq, Structural)]
#[non_exhaustive]
pub enum BarrierType {
    /// Reads and writes.
    General,
    /// Reads only.
    Read,
    /// Writes only.
    Write,
}

impl Default for BarrierKind {
    /// The strongest kind, [`BarrierKind::Mmio`].
    fn default() -> (kind: Self)
        ensures
            kind == BarrierKind::Mmio,
    {
        BarrierKind::Mmio
    }
}

impl Default for BarrierType {
    /// Both directions, [`BarrierType::General`].
    fn default() -> (ty: Self)
        ensures
            ty == BarrierType::General,
    {
        BarrierType::General
    }
}

/// A set of directions of memory access.
#[derive(Clone, Copy, Debug, PartialEq, Eq, Structural)]
pub struct Directions {
    /// Reads are in the set.
    pub reads: bool,
    /// Writes are in the set.
    pub writes: bool,
}

impl Directions {
    /// Whether every direction of `other` is also in `self`.
    pub open spec fn spec_covers(self, other: Directions) -> bool {
        &&& other.reads ==> self.reads
        &&& other.writes ==> self.writes
    }

    /// Whether every direction of `other` is also in `self`.
    #[verifier::when_used_as_spec(spec_covers)]
    pub fn covers(self, other: Directions) -> (b: bool)
        ensures
            b == self.spec_covers(other),
    {
        (self.reads || !other.reads) && (self.writes || !other.writes)
    }
}

impl BarrierType {
    /// The directions that a barrier of this type orders.
    pub open spec fn spec_directions(self) -> Directions {
        Directions { reads: !(self is Write), writes: !(self is Read) }
    }

    /// The directions that a barrier of this type orders.
    #[verifier::when_used_as_spec(spec_directions)]
    pub fn directions(self) -> (d: Directions)
        ensures
            d == self.spec_directions(),
    {
        match self {
            BarrierType::General => Directions { reads: true, writes: true },
            BarrierType::Read => Directions { reads: true, writes: false },
            BarrierType::Write => Directions { reads: false, writes: true },
        }
    }
}

impl BarrierKind {
    /// The kind as a backend sees it; none for the compiler-only kind, which
    /// no backend sees.
    pub open spec fn spec_cpu_kind(self) -> Option<CpuBarrierKind> {
        match self {
            BarrierKind::Mmio => Some(CpuBarrierKind::Mmio),
            BarrierKind::Smp => Some(CpuBarrierKind::Smp),
            BarrierKind::Dma => Some(CpuBarrierKind::Dma),
            BarrierKind::Compiler => None,
        }
    }

    /// The kind as a backend sees it; none for the compiler-only kind, which
    /// no backend sees.
    #[verifier::when_used_as_spec(spec_cpu_kind)]
    pub fn cpu_kind(self) -> (kind: Option<CpuBarrierKind>)
        ensures
            kind == self.spec_cpu_kind(),
    {
        match self {
            BarrierKind::Mmio => Some(CpuBarrierKind::Mmio),
            BarrierKind::Smp => Some(CpuBarrierKind::Smp),
            BarrierKind::Dma => Some(CpuBarrierKind::Dma),
            BarrierKind::Compiler => None,
        }
    }
}

/// What has to be executed to honour a barrier request.
#[derive(Clone, Copy, Debug, PartialEq, Eq, Structural)]
pub enum Barrier {
    /// No instruction: the compiler alone must keep memory accesses from
    /// moving across this point.
    Compiler,
    /// Exactly this instruction, which the compiler must not move memory
    /// accesses across either.
    Cpu(Instruction),
}

impl Barrier {
    /// Whether `self` guarantees everything that `other` guarantees. Every
    /// barrier is at least as strong as the compiler-only barrier, which is
    /// at least as strong as itself alone.
    pub open spec fn spec_at_least_as_strong(self, other: Barrier) -> bool {
        match (self, other) {
            (_, Barrier::Compiler) => true,
            (Barrier::Compiler, Barrier::Cpu(_)) => false,
            (Barrier::Cpu(a), Barrier::Cpu(b)) => a.spec_at_least_as_strong(b),
        }
    }

    /// Whether `self` guarantees everything that `other` guarantees.
    #[verifier::when_used_as_spec(spec_at_least_as_strong)]
    pub fn at_least_as_strong(self, other: Barrier) -> (b: bool)
        ensures
            b == self.spec_at_least_as_strong(other),
    {
        match (self, other) {
            (_, Barrier::Compiler) => true,
            (Barrier::Compiler, Barrier::Cpu(_)) => false,
            (Barrier::Cpu(a), Barrier::Cpu(b)) => a.at_least_as_strong(b),
        }
    }
}

/// The barrier that a request of `kind` and `ty` resolves to on `arch`: the
/// compiler-only barrier for the compiler-only kind, and otherwise the
/// instruction that the backend of `arch` selects for the kind as a backend
/// sees it.
pub open spec fn barrier_for(kind: BarrierKind, ty: BarrierType, arch: Arch) -> Barrier {
    match kind.spec_cpu_kind() {
        None => Barrier::Compiler,
        Some(cpu_kind) => Barrier::Cpu(arch::instruction_for(arch, cpu_kind, ty)),
    }
}

/// Resolves a barrier request on `arch` into the one barrier to execute.
///
/// Every request is valid. A request of the compiler-only kind resolves to
/// [`Barrier::Compiler`] whatever its type and architecture. Any other
/// request resolves to one instruction of `arch`, which orders exactly the
/// directions of `ty`.
pub fn mem_barrier(kind: BarrierKind, ty: BarrierType, arch: Arch) -> (barrier: Barrier)
    ensures
        barrier == barrier_for(kind, ty, arch),
        barrier is Compiler <==> kind is Compiler,
        barrier matches Barrier::Cpu(instruction) ==> instruction.spec_arch() == arch
            && instruction.spec_directions() == ty.spec_directions(),
{
    match kind.cpu_kind() {
        None => Barrier::Compiler,
        Some(cpu_kind) => Barrier::Cpu(arch::mem_barrier(arch, cpu_kind, ty)),
    }
}

/// Every request takes exactly one path: the compiler-only barrier if and
/// only if its kind is compiler-only, and otherwise one instruction of the
/// requested architecture.
pub proof fn lemma_one_path(kind: BarrierKind, ty: BarrierType, arch: Arch)
    ensures
        barrier_for(kind, ty, arch) is Compiler <==> kind is Compiler,
        barrier_for(kind, ty, arch) is Cpu <==> !(kind is Compiler),
        barrier_for(kind, ty, arch) matches Barrier::Cpu(instruction) ==> instruction.spec_arch()
            == arch,
{
}

/// Equal requests on one architecture resolve to equal barriers.
pub proof fn lemma_same_request_same_barrier(
    kind: BarrierKind,
    ty: BarrierType,
    arch: Arch,
    kind_again: BarrierKind,
    ty_again: BarrierType,
    arch_again: Arch,
)
    requires
        kind == kind_again,
        ty == ty_again,
        arch == arch_again,
    ensures
        barrier_for(kind, ty, arch) == barrier_for(kind_again, ty_again, arch_again),
{
}

/// For every kind and architecture the barrier for both directions is at
/// least as strong as the barrier for reads and as the barrier for writes.
pub proof fn lemma_general_is_strongest(kind: BarrierKind, arch: Arch)
    ensures
        barrier_for(kind, BarrierType::General, arch).spec_at_least_as_strong(
            barrier_for(kind, BarrierType::Read, arch),
        ),
        barrier_for(kind, BarrierType::General, arch).spec_at_least_as_strong(
            barrier_for(kind, BarrierType::Write, arch),
        ),
{
}

/// A request of the compiler-only kind resolves to the compiler-only
/// barrier, whatever its type and whatever the architecture.
pub proof fn lemma_compiler_kind_ignores_type_and_arch(
    ty: BarrierType,
    arch: Arch,
    other_ty: BarrierType,
    other_arch: Arch,
)
    ensures
        barrier_for(BarrierKind::Compiler, ty, arch) == Barrier::Compiler,
        barrier_for(BarrierKind::Compiler, ty, arch) == barrier_for(
            BarrierKind::Compiler,
            other_ty,
            other_arch,
        ),
{
}

/// A processor barrier orders exactly the directions of the requested type:
/// reads and writes for the general type, reads alone for the read type,
/// writes alone for the write type.
pub proof fn lemma_orders_requested_directions(kind: BarrierKind, ty: BarrierType, arch: Arch)
    ensures
        barrier_for(kind, ty, arch) matches Barrier::Cpu(instruction)
            ==> instruction.spec_directions() == ty.spec_directions(),
{
}

/// For every type and architecture the kinds are ordered by strength: device
/// I/O is at least as strong as DMA, DMA as other processors, and other
/// processors as the compiler alone. Kinds may share an instruction; none
/// falls below the next.
pub proof fn lemma_kinds_ordered_by_strength(ty: BarrierType, arch: Arch)
    ensures
        barrier_for(BarrierKind::Mmio, ty, arch).spec_at_least_as_strong(
            barrier_for(BarrierKind::Dma, ty, arch),
        ),
        barrier_for(BarrierKind::Dma, ty, arch).spec_at_least_as_strong(
            barrier_for(BarrierKind::Smp, ty, arch),
        ),
        barrier_for(BarrierKind::Smp, ty, arch).spec_at_least_as_strong(
            barrier_for(BarrierKind::Compiler, ty, arch),
        ),
{
}

/// A barrier that is at least as strong as another orders at least the
/// directions that the other orders.
pub proof fn lemma_stronger_orders_more(a: Instruction, b: Instruction)
    requires
        a.spec_at_least_as_strong(b),
    ensures
        a.spec_arch() == b.spec_arch(),
        a.spec_directions().spec_covers(b.spec_directions()),
{
}

/// Strength is a preorder: every barrier is at least as strong as itself,
/// and the relation passes along a chain.
pub proof fn lemma_strength_is_preorder(a: Barrier, b: Barrier, c: Barrier)
    ensures
        a.spec_at_least_as_strong(a),
        a.spec_at_least_as_strong(b) && b.spec_at_least_as_strong(c) ==> a.spec_at_least_as_strong(
            c,
        ),
{
}

} // verus!
