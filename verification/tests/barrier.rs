use mem_barrier::arch::aarch64::Aarch64Barrier;
use mem_barrier::arch::riscv::RiscvFence;
use mem_barrier::arch::x86::X86Fence;
use mem_barrier::arch::{Arch, CpuBarrierKind, Instruction};
use mem_barrier::{mem_barrier, Barrier, BarrierKind, BarrierType, Directions};

const KINDS: [BarrierKind; 4] = [
    BarrierKind::Mmio,
    BarrierKind::Smp,
    BarrierKind::Dma,
    BarrierKind::Compiler,
];
const TYPES: [BarrierType; 3] = [BarrierType::General, BarrierType::Read, BarrierType::Write];
const ARCHES: [Arch; 3] = [Arch::Aarch64, Arch::Riscv, Arch::X86];

#[test]
fn test_memory_barrier() {
    for arch in ARCHES {
        for kind in [
            BarrierKind::Mmio,
            BarrierKind::Smp,
            BarrierKind::Dma,
            BarrierKind::Compiler,
        ] {
            for ty in [BarrierType::General, BarrierType::Read, BarrierType::Write] {
                mem_barrier(kind, ty, arch);
            }
        }
    }
}

#[test]
fn defaults_are_the_strongest_values() {
    assert_eq!(BarrierKind::default(), BarrierKind::Mmio);
    assert_eq!(BarrierType::default(), BarrierType::General);
}

#[test]
fn kinds_map_to_backend_kinds() {
    assert_eq!(BarrierKind::Mmio.cpu_kind(), Some(CpuBarrierKind::Mmio));
    assert_eq!(BarrierKind::Smp.cpu_kind(), Some(CpuBarrierKind::Smp));
    assert_eq!(BarrierKind::Dma.cpu_kind(), Some(CpuBarrierKind::Dma));
    assert_eq!(BarrierKind::Compiler.cpu_kind(), None);
}

#[test]
fn types_name_their_directions() {
    assert_eq!(BarrierType::General.directions(), Directions { reads: true, writes: true });
    assert_eq!(BarrierType::Read.directions(), Directions { reads: true, writes: false });
    assert_eq!(BarrierType::Write.directions(), Directions { reads: false, writes: true });
}

#[test]
fn directions_cover_their_subsets_only() {
    let both = Directions { reads: true, writes: true };
    let reads = Directions { reads: true, writes: false };
    let writes = Directions { reads: false, writes: true };
    let none = Directions { reads: false, writes: false };
    assert!(both.covers(reads));
    assert!(both.covers(writes));
    assert!(both.covers(both));
    assert!(reads.covers(none));
    assert!(!reads.covers(writes));
    assert!(!writes.covers(reads));
    assert!(!reads.covers(both));
    assert!(!none.covers(reads));
}

fn cpu(kind: BarrierKind, ty: BarrierType, arch: Arch) -> Instruction {
    match mem_barrier(kind, ty, arch) {
        Barrier::Cpu(instruction) => instruction,
        Barrier::Compiler => panic!("a processor kind resolved to the compiler-only barrier"),
    }
}

#[test]
fn aarch64_requests_resolve_to_their_instructions() {
    let arch = Arch::Aarch64;
    let expect = |kind, ty, barrier| {
        assert_eq!(mem_barrier(kind, ty, arch), Barrier::Cpu(Instruction::Aarch64(barrier)));
    };
    expect(BarrierKind::Mmio, BarrierType::General, Aarch64Barrier::DsbSy);
    expect(BarrierKind::Mmio, BarrierType::Read, Aarch64Barrier::DsbLd);
    expect(BarrierKind::Mmio, BarrierType::Write, Aarch64Barrier::DsbSt);
    expect(BarrierKind::Smp, BarrierType::General, Aarch64Barrier::DmbIsh);
    expect(BarrierKind::Smp, BarrierType::Read, Aarch64Barrier::DmbIshld);
    expect(BarrierKind::Smp, BarrierType::Write, Aarch64Barrier::DmbIshst);
    expect(BarrierKind::Dma, BarrierType::General, Aarch64Barrier::DmbOsh);
    expect(BarrierKind::Dma, BarrierType::Read, Aarch64Barrier::DmbOshld);
    expect(BarrierKind::Dma, BarrierType::Write, Aarch64Barrier::DmbOshst);
}

#[test]
fn riscv_requests_resolve_to_their_instructions() {
    let arch = Arch::Riscv;
    let expect = |kind, ty, fence| {
        assert_eq!(mem_barrier(kind, ty, arch), Barrier::Cpu(Instruction::Riscv(fence)));
    };
    expect(BarrierKind::Mmio, BarrierType::General, RiscvFence::Iorw);
    expect(BarrierKind::Mmio, BarrierType::Read, RiscvFence::Ir);
    expect(BarrierKind::Mmio, BarrierType::Write, RiscvFence::Ow);
    expect(BarrierKind::Dma, BarrierType::General, RiscvFence::Iorw);
    expect(BarrierKind::Dma, BarrierType::Read, RiscvFence::Ir);
    expect(BarrierKind::Dma, BarrierType::Write, RiscvFence::Ow);
    expect(BarrierKind::Smp, BarrierType::General, RiscvFence::Rw);
    expect(BarrierKind::Smp, BarrierType::Read, RiscvFence::R);
    expect(BarrierKind::Smp, BarrierType::Write, RiscvFence::W);
}

#[test]
fn x86_requests_resolve_by_type_alone() {
    let arch = Arch::X86;
    for kind in [BarrierKind::Mmio, BarrierKind::Smp, BarrierKind::Dma] {
        assert_eq!(
            mem_barrier(kind, BarrierType::General, arch),
            Barrier::Cpu(Instruction::X86(X86Fence::Mfence))
        );
        assert_eq!(
            mem_barrier(kind, BarrierType::Read, arch),
            Barrier::Cpu(Instruction::X86(X86Fence::Lfence))
        );
        assert_eq!(
            mem_barrier(kind, BarrierType::Write, arch),
            Barrier::Cpu(Instruction::X86(X86Fence::Sfence))
        );
    }
}

#[test]
fn every_request_takes_exactly_one_path() {
    for arch in ARCHES {
        for kind in KINDS {
            for ty in TYPES {
                match mem_barrier(kind, ty, arch) {
                    Barrier::Compiler => assert_eq!(kind, BarrierKind::Compiler),
                    Barrier::Cpu(instruction) => {
                        assert_ne!(kind, BarrierKind::Compiler);
                        assert_eq!(instruction.arch(), arch);
                    }
                }
            }
        }
    }
}

#[test]
fn repeated_requests_resolve_alike() {
    for arch in ARCHES {
        for kind in KINDS {
            for ty in TYPES {
                assert_eq!(mem_barrier(kind, ty, arch), mem_barrier(kind, ty, arch));
            }
        }
    }
}

#[test]
fn general_is_at_least_as_strong_as_read_and_write() {
    for arch in ARCHES {
        for kind in KINDS {
            let general = mem_barrier(kind, BarrierType::General, arch);
            assert!(general.at_least_as_strong(mem_barrier(kind, BarrierType::Read, arch)));
            assert!(general.at_least_as_strong(mem_barrier(kind, BarrierType::Write, arch)));
        }
    }
}

#[test]
fn read_and_write_do_not_reach_general() {
    for arch in ARCHES {
        for kind in [BarrierKind::Mmio, BarrierKind::Smp, BarrierKind::Dma] {
            let general = mem_barrier(kind, BarrierType::General, arch);
            let read = mem_barrier(kind, BarrierType::Read, arch);
            let write = mem_barrier(kind, BarrierType::Write, arch);
            assert!(!read.at_least_as_strong(general));
            assert!(!write.at_least_as_strong(general));
            assert!(!read.at_least_as_strong(write));
            assert!(!write.at_least_as_strong(read));
        }
    }
}

#[test]
fn compiler_kind_ignores_type_and_architecture() {
    for arch in ARCHES {
        for ty in TYPES {
            assert_eq!(mem_barrier(BarrierKind::Compiler, ty, arch), Barrier::Compiler);
        }
    }
}

#[test]
fn processor_barriers_order_the_requested_directions() {
    for arch in ARCHES {
        for kind in [BarrierKind::Mmio, BarrierKind::Smp, BarrierKind::Dma] {
            for ty in TYPES {
                assert_eq!(cpu(kind, ty, arch).directions(), ty.directions());
            }
        }
    }
}

#[test]
fn kinds_are_ordered_by_strength() {
    for arch in ARCHES {
        for ty in TYPES {
            let mmio = mem_barrier(BarrierKind::Mmio, ty, arch);
            let dma = mem_barrier(BarrierKind::Dma, ty, arch);
            let smp = mem_barrier(BarrierKind::Smp, ty, arch);
            let compiler = mem_barrier(BarrierKind::Compiler, ty, arch);
            assert!(mmio.at_least_as_strong(dma));
            assert!(dma.at_least_as_strong(smp));
            assert!(smp.at_least_as_strong(compiler));
            assert!(mmio.at_least_as_strong(smp));
            assert!(mmio.at_least_as_strong(compiler));
            assert!(!compiler.at_least_as_strong(smp));
        }
    }
}

#[test]
fn weaker_kinds_stay_below_where_the_architecture_distinguishes() {
    let ty = BarrierType::General;
    let on = |kind, arch| mem_barrier(kind, ty, arch);
    assert!(!on(BarrierKind::Smp, Arch::Aarch64).at_least_as_strong(on(BarrierKind::Dma, Arch::Aarch64)));
    assert!(!on(BarrierKind::Dma, Arch::Aarch64).at_least_as_strong(on(BarrierKind::Mmio, Arch::Aarch64)));
    assert!(!on(BarrierKind::Smp, Arch::Riscv).at_least_as_strong(on(BarrierKind::Mmio, Arch::Riscv)));
    assert!(on(BarrierKind::Dma, Arch::Riscv).at_least_as_strong(on(BarrierKind::Mmio, Arch::Riscv)));
    assert!(on(BarrierKind::Smp, Arch::X86).at_least_as_strong(on(BarrierKind::Mmio, Arch::X86)));
}

#[test]
fn strength_is_reflexive_and_transitive_on_the_selected_barriers() {
    let mut all = vec![Barrier::Compiler];
    for arch in ARCHES {
        for kind in KINDS {
            for ty in TYPES {
                all.push(mem_barrier(kind, ty, arch));
            }
        }
    }
    for a in &all {
        assert!(a.at_least_as_strong(*a));
        for b in &all {
            for c in &all {
                if a.at_least_as_strong(*b) && b.at_least_as_strong(*c) {
                    assert!(a.at_least_as_strong(*c));
                }
            }
        }
    }
}

#[test]
fn instructions_of_different_architectures_do_not_compare() {
    let arm = Instruction::Aarch64(Aarch64Barrier::DsbSy);
    let riscv = Instruction::Riscv(RiscvFence::Iorw);
    let x86 = Instruction::X86(X86Fence::Mfence);
    assert!(!arm.at_least_as_strong(riscv));
    assert!(!riscv.at_least_as_strong(x86));
    assert!(!x86.at_least_as_strong(arm));
    assert!(arm.at_least_as_strong(arm));
    assert!(!Barrier::Compiler.at_least_as_strong(Barrier::Cpu(x86)));
    assert!(Barrier::Cpu(x86).at_least_as_strong(Barrier::Compiler));
    assert!(Barrier::Compiler.at_least_as_strong(Barrier::Compiler));
}
