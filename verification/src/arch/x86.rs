//! Barrier selection for 32-bit and 64-bit x86.
//!
//! The fence instructions of x86 distinguish access directions only, so the
//! kind of a request does not influence the selection.
use vstd::prelude::*;
use super::CpuBarrierKind;
use crate::{BarrierType, Directions};

verus! {

/// A fence instruction of x86.
#[derive(Clone, Copy, Debug, PartialEq, Eq, Structural)]
pub enum X86Fence {
    /// `mfence`
    Mfence,
    /// `lfence`
    Lfence,
    /// `sfence`
    Sfence,
}

impl X86Fence {
    /// The access directions the fence orders: both for `mfence`, loads for
    /// `lfence`, stores for `sfence`.
    pub open spec fn spec_directions(self) -> Directions {
        match self {
            X86Fence::Mfence => Directions { reads: true, writes: true },
            X86Fence::Lfence => Directions { reads: true, writes: false },
            X86Fence::Sfence => Directions { reads: false, writes: true },
        }
    }

    /// The access directions the fence orders: both for `mfence`, loads for
    /// `lfence`, stores for `sfence`.
    #[verifier::when_used_as_spec(spec_directions)]
    pub fn directions(self) -> (d: Directions)
        ensures
            d == self.spec_directions(),
    {
        match self {
            X86Fence::Mfence => Directions { reads: true, writes: true },
            X86Fence::Lfence => Directions { reads: true, writes: false },
            X86Fence::Sfence => Directions { reads: false, writes: true },
        }
    }

    /// Whether `self` orders every direction that `other` orders.
    pub open spec fn spec_at_least_as_strong(self, other: X86Fence) -> bool {
        self.spec_directions().spec_covers(other.spec_directions())
    }

    /// Whether `self` orders every direction that `other` orders.
    #[verifier::when_used_as_spec(spec_at_least_as_strong)]
    pub fn at_least_as_strong(self, other: X86Fence) -> (b: bool)
        ensures
            b == self.spec_at_least_as_strong(other),
    {
        self.directions().covers(other.directions())
    }

    /// The instruction as written in assembly.
    pub open spec fn spec_mnemonic(self) -> Seq<char> {
        match self {
            X86Fence::Mfence => "mfence"@,
            X86Fence::Lfence => "lfence"@,
            X86Fence::Sfence => "sfence"@,
        }
    }

    /// The instruction as written in assembly.
    pub fn mnemonic(self) -> (s: &'static str)
        ensures
            s@ == self.spec_mnemonic(),
    {
        match self {
            X86Fence::Mfence => "mfence",
            X86Fence::Lfence => "lfence",
            X86Fence::Sfence => "sfence",
        }
    }
}

/// The fence that orders the accesses of `ty`, whatever the kind.
pub open spec fn selected(kind: CpuBarrierKind, ty: BarrierType) -> X86Fence {
    match ty {
        BarrierType::General => X86Fence::Mfence,
        BarrierType::Read => X86Fence::Lfence,
        BarrierType::Write => X86Fence::Sfence,
    }
}

/// Selects the fence that orders the accesses of `ty`. The kind is accepted
/// and has no influence: the result orders exactly the directions of `ty`.
pub fn mem_barrier(kind: CpuBarrierKind, ty: BarrierType) -> (fence: X86Fence)
    ensures
        fence == selected(kind, ty),
        fence.spec_directions() == ty.spec_directions(),
{
    match ty {
        BarrierType::General => X86Fence::Mfence,
        BarrierType::Read => X86Fence::Lfence,
        BarrierType::Write => X86Fence::Sfence,
    }
}

/// A fence is determined by the directions it orders.
pub proof fn lemma_fence_determined(a: X86Fence, b: X86Fence)
    requires
        a.spec_directions() == b.spec_directions(),
    ensures
        a == b,
{
}

} // verus!
