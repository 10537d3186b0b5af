//! Barrier selection for 64-bit ARM.
//!
//! Device I/O is ordered by a data synchronization barrier over the full
//! system; other processors and DMA devices are ordered by a data memory
//! barrier over the inner and the outer shareable domain respectively.
use vstd::prelude::*;
use super::CpuBarrierKind;
use crate::{BarrierType, Directions};

verus! {

/// The shareability domain over which a barrier takes effect.
#[derive(Clone, Copy, Debug, PartialEq, Eq, Structural)]
pub enum Domain {
    /// The processors of the inner shareable domain.
    InnerShareable,
    /// The outer shareable domain, which holds the inner one and the devices
    /// that share memory with it.
    OuterShareable,
    /// Every observer in the system.
    FullSystem,
}

impl Domain {
    /// Whether every observer of `other` is also an observer of `self`.
    pub open spec fn spec_includes(self, other: Domain) -> bool {
        match (self, other) {
            (Domain::FullSystem, _) => true,
            (Domain::OuterShareable, Domain::FullSystem) => false,
            (Domain::OuterShareable, _) => true,
            (Domain::InnerShareable, Domain::InnerShareable) => true,
            (Domain::InnerShareable, _) => false,
        }
    }

    /// Whether every observer of `other` is also an observer of `self`.
    #[verifier::when_used_as_spec(spec_includes)]
    pub fn includes(self, other: Domain) -> (b: bool)
        ensures
            b == self.spec_includes(other),
    {
        match self {
            Domain::FullSystem => true,
            Domain::OuterShareable => !matches!(other, Domain::FullSystem),
            Domain::InnerShareable => matches!(other, Domain::InnerShareable),
        }
    }
}

/// A barrier instruction of 64-bit ARM together with its option.
#[derive(Clone, Copy, Debug, PartialEq, Eq, Structural)]
pub enum Aarch64Barrier {
    /// `dsb sy`
    DsbSy,
    /// `dsb ld`
    DsbLd,
    /// `dsb st`
    DsbSt,
    /// `dmb ish`
    DmbIsh,
    /// `dmb ishld`
    DmbIshld,
    /// `dmb ishst`
    DmbIshst,
    /// `dmb osh`
    DmbOsh,
    /// `dmb oshld`
    DmbOshld,
    /// `dmb oshst`
    DmbOshst,
}

impl Aarch64Barrier {
    /// Whether this is a data synchronization barrier, which waits for the
    /// ordered accesses to complete, rather than a data memory barrier.
    pub open spec fn spec_is_dsb(self) -> bool {
        self is DsbSy || self is DsbLd || self is DsbSt
    }

    /// Whether this is a data synchronization barrier, which waits for the
    /// ordered accesses to complete, rather than a data memory barrier.
    #[verifier::when_used_as_spec(spec_is_dsb)]
    pub fn is_dsb(self) -> (b: bool)
        ensures
            b == self.spec_is_dsb(),
    {
        match self {
            Aarch64Barrier::DsbSy | Aarch64Barrier::DsbLd | Aarch64Barrier::DsbSt => true,
            _ => false,
        }
    }

    /// The shareability domain named by the option.
    pub open spec fn spec_domain(self) -> Domain {
        match self {
            Aarch64Barrier::DsbSy | Aarch64Barrier::DsbLd | Aarch64Barrier::DsbSt => {
                Domain::FullSystem
            },
            Aarch64Barrier::DmbIsh | Aarch64Barrier::DmbIshld | Aarch64Barrier::DmbIshst => {
                Domain::InnerShareable
            },
            Aarch64Barrier::DmbOsh | Aarch64Barrier::DmbOshld | Aarch64Barrier::DmbOshst => {
                Domain::OuterShareable
            },
        }
    }

    /// The shareability domain named by the option.
    #[verifier::when_used_as_spec(spec_domain)]
    pub fn domain(self) -> (d: Domain)
        ensures
            d == self.spec_domain(),
    {
        match self {
            Aarch64Barrier::DsbSy | Aarch64Barrier::DsbLd | Aarch64Barrier::DsbSt => {
                Domain::FullSystem
            },
            Aarch64Barrier::DmbIsh | Aarch64Barrier::DmbIshld | Aarch64Barrier::DmbIshst => {
                Domain::InnerShareable
            },
            Aarch64Barrier::DmbOsh | Aarch64Barrier::DmbOshld | Aarch64Barrier::DmbOshst => {
                Domain::OuterShareable
            },
        }
    }

    /// The access directions named by the option: loads for the `ld`
    /// options, stores for the `st` options, both otherwise.
    pub open spec fn spec_directions(self) -> Directions {
        match self {
            Aarch64Barrier::DsbSy | Aarch64Barrier::DmbIsh | Aarch64Barrier::DmbOsh => {
                Directions { reads: true, writes: true }
            },
            Aarch64Barrier::DsbLd | Aarch64Barrier::DmbIshld | Aarch64Barrier::DmbOshld => {
                Directions { reads: true, writes: false }
            },
            Aarch64Barrier::DsbSt | Aarch64Barrier::DmbIshst | Aarch64Barrier::DmbOshst => {
                Directions { reads: false, writes: true }
            },
        }
    }

    /// The access directions named by the option: loads for the `ld`
    /// options, stores for the `st` options, both otherwise.
    #[verifier::when_used_as_spec(spec_directions)]
    pub fn directions(self) -> (d: Directions)
        ensures
            d == self.spec_directions(),
    {
        match self {
            Aarch64Barrier::DsbSy | Aarch64Barrier::DmbIsh | Aarch64Barrier::DmbOsh => {
                Directions { reads: true, writes: true }
            },
            Aarch64Barrier::DsbLd | Aarch64Barrier::DmbIshld | Aarch64Barrier::DmbOshld => {
                Directions { reads: true, writes: false }
            },
            Aarch64Barrier::DsbSt | Aarch64Barrier::DmbIshst | Aarch64Barrier::DmbOshst => {
                Directions { reads: false, writes: true }
            },
        }
    }

    /// Whether `self` guarantees everything that `other` guarantees: it waits
    /// for completion if `other` does, reaches every observer that `other`
    /// reaches, and orders every direction that `other` orders.
    pub open spec fn spec_at_least_as_strong(self, other: Aarch64Barrier) -> bool {
        &&& other.spec_is_dsb() ==> self.spec_is_dsb()
        &&& self.spec_domain().spec_includes(other.spec_domain())
        &&& self.spec_directions().spec_covers(other.spec_directions())
    }

    /// Whether `self` guarantees everything that `other` guarantees.
    #[verifier::when_used_as_spec(spec_at_least_as_strong)]
    pub fn at_least_as_strong(self, other: Aarch64Barrier) -> (b: bool)
        ensures
            b == self.spec_at_least_as_strong(other),
    {
        (self.is_dsb() || !other.is_dsb()) && self.domain().includes(other.domain())
            && self.directions().covers(other.directions())
    }

    /// The instruction as written in assembly.
    pub open spec fn spec_mnemonic(self) -> Seq<char> {
        match self {
            Aarch64Barrier::DsbSy => "dsb sy"@,
            Aarch64Barrier::DsbLd => "dsb ld"@,
            Aarch64Barrier::DsbSt => "dsb st"@,
            Aarch64Barrier::DmbIsh => "dmb ish"@,
            Aarch64Barrier::DmbIshld => "dmb ishld"@,
            Aarch64Barrier::DmbIshst => "dmb ishst"@,
            Aarch64Barrier::DmbOsh => "dmb osh"@,
            Aarch64Barrier::DmbOshld => "dmb oshld"@,
            Aarch64Barrier::DmbOshst => "dmb oshst"@,
        }
    }

    /// The instruction as written in assembly.
    pub fn mnemonic(self) -> (s: &'static str)
        ensures
            s@ == self.spec_mnemonic(),
    {
        match self {
            Aarch64Barrier::DsbSy => "dsb sy",
            Aarch64Barrier::DsbLd => "dsb ld",
            Aarch64Barrier::DsbSt => "dsb st",
            Aarch64Barrier::DmbIsh => "dmb ish",
            Aarch64Barrier::DmbIshld => "dmb ishld",
            Aarch64Barrier::DmbIshst => "dmb ishst",
            Aarch64Barrier::DmbOsh => "dmb osh",
            Aarch64Barrier::DmbOshld => "dmb oshld",
            Aarch64Barrier::DmbOshst => "dmb oshst",
        }
    }
}

/// The shareability domain that holds the observers of `kind`.
pub open spec fn domain_of(kind: CpuBarrierKind) -> Domain {
    match kind {
        CpuBarrierKind::Mmio => Domain::FullSystem,
        CpuBarrierKind::Smp => Domain::InnerShareable,
        CpuBarrierKind::Dma => Domain::OuterShareable,
    }
}

/// The barrier that orders the accesses of `ty` against the observers of
/// `kind`.
pub open spec fn selected(kind: CpuBarrierKind, ty: BarrierType) -> Aarch64Barrier {
    match (kind, ty) {
        (CpuBarrierKind::Mmio, BarrierType::General) => Aarch64Barrier::DsbSy,
        (CpuBarrierKind::Mmio, BarrierType::Read) => Aarch64Barrier::DsbLd,
        (CpuBarrierKind::Mmio, BarrierType::Write) => Aarch64Barrier::DsbSt,
        (CpuBarrierKind::Smp, BarrierType::General) => Aarch64Barrier::DmbIsh,
        (CpuBarrierKind::Smp, BarrierType::Read) => Aarch64Barrier::DmbIshld,
        (CpuBarrierKind::Smp, BarrierType::Write) => Aarch64Barrier::DmbIshst,
        (CpuBarrierKind::Dma, BarrierType::General) => Aarch64Barrier::DmbOsh,
        (CpuBarrierKind::Dma, BarrierType::Read) => Aarch64Barrier::DmbOshld,
        (CpuBarrierKind::Dma, BarrierType::Write) => Aarch64Barrier::DmbOshst,
    }
}

/// Selects the barrier that orders the accesses of `ty` against the
/// observers of `kind`.
///
/// The result is a synchronization barrier exactly for device I/O, takes
/// effect over the domain of `kind`, and orders exactly the directions of
/// `ty`.
pub fn mem_barrier(kind: CpuBarrierKind, ty: BarrierType) -> (barrier: Aarch64Barrier)
    ensures
        barrier == selected(kind, ty),
        barrier.spec_is_dsb() <==> kind is Mmio,
        barrier.spec_domain() == domain_of(kind),
        barrier.spec_directions() == ty.spec_directions(),
{
    match kind {
        CpuBarrierKind::Mmio => match ty {
            BarrierType::General => Aarch64Barrier::DsbSy,
            BarrierType::Read => Aarch64Barrier::DsbLd,
            BarrierType::Write => Aarch64Barrier::DsbSt,
        },
        CpuBarrierKind::Smp => match ty {
            BarrierType::General => Aarch64Barrier::DmbIsh,
            BarrierType::Read => Aarch64Barrier::DmbIshld,
            BarrierType::Write => Aarch64Barrier::DmbIshst,
        },
        CpuBarrierKind::Dma => match ty {
            BarrierType::General => Aarch64Barrier::DmbOsh,
            BarrierType::Read => Aarch64Barrier::DmbOshld,
            BarrierType::Write => Aarch64Barrier::DmbOshst,
        },
    }
}

/// A barrier is determined by what it guarantees: two barriers that agree on
/// waiting for completion, on the domain and on the directions are equal.
pub proof fn lemma_barrier_determined(a: Aarch64Barrier, b: Aarch64Barrier)
    requires
        a.spec_is_dsb() == b.spec_is_dsb(),
        a.spec_domain() == b.spec_domain(),
        a.spec_directions() == b.spec_directions(),
    ensures
        a == b,
{
}

} // verus!
