//! The MMU, the bus, the protection matrix, the PSL accessors, and the
//! remaining processor state.

use ervax::PrivilegeMode;
use ervax::RegID;
use ervax::bus::VAXBus;
use ervax::execution::ExecutionContext;
use ervax::mmu::MMUFault;
use ervax::mmu::MemoryAccessType;
use ervax::mmu::PTE;
use ervax::mmu::PTEProtectionCode;
use ervax::mmu::PFN;
use ervax::mmu::VAXMMU;
use ervax::registers::PrivRegisters;
use ervax::sysclk::SystemClock;

#[test]
fn address_region_decode() {
    assert_eq!(VAXMMU::address_region(0x0000_0000), 0);
    assert_eq!(VAXMMU::address_region(0xC000_0000), 3);
}

#[test]
fn mmu_address_region_decode() {
    assert_eq!(VAXMMU::address_region(0x0000_0000), 0);
    assert_eq!(VAXMMU::address_region(0xC000_0000), 3);
}

#[test]
fn psl_get_set() {
    let mut exec = ExecutionContext::new();
    assert_eq!(exec.get_cur_priv_mode(), PrivilegeMode::Kernel);
    exec.set_cur_priv_mode(PrivilegeMode::User);
    assert_eq!(exec.get_cur_priv_mode(), PrivilegeMode::User);
}

// -----
// PSL bit accessors
// -----

#[test]
fn psl_bits_set_get_and_preserve() {
    let mut exec = ExecutionContext::new();

    assert!(!exec.get_carry());
    exec.set_carry(true);
    assert!(exec.get_carry());

    exec.set_zero(true);
    exec.set_negative(true);
    exec.set_trace_enable(true);
    exec.set_integer_overflow_enable(true);
    exec.set_floating_underflow_enable(true);
    exec.set_decimal_overflow_enable(true);
    exec.set_interrupt_stack(true);
    exec.set_first_part_done(true);
    exec.set_trace_pending(true);

    // Every set bit reads back, none disturbed another.
    assert!(exec.get_carry());
    assert!(exec.get_zero());
    assert!(exec.get_negative());
    assert!(exec.get_trace_enable());
    assert!(exec.get_integer_overflow_enable());
    assert!(exec.get_floating_underflow_enable());
    assert!(exec.get_decimal_overflow_enable());
    assert!(exec.get_interrupt_stack());
    assert!(exec.get_first_part_done());
    assert!(exec.get_trace_pending());
    assert_eq!(exec.get_cur_priv_mode(), PrivilegeMode::Kernel);

    // Clearing one bit leaves the rest standing.
    exec.set_zero(false);
    assert!(!exec.get_zero());
    assert!(exec.get_carry());
    assert!(exec.get_negative());
    assert!(exec.get_trace_pending());

    // The privilege-mode field moves without touching the flags.
    exec.set_cur_priv_mode(PrivilegeMode::Supervisor);
    assert_eq!(exec.get_cur_priv_mode(), PrivilegeMode::Supervisor);
    assert!(exec.get_carry());
    assert!(exec.get_first_part_done());
    assert!(exec.get_interrupt_stack());
}

#[test]
fn psl_previous_mode_field() {
    let mut exec = ExecutionContext::new();
    assert_eq!(exec.get_prev_priv_mode(), PrivilegeMode::Kernel);
    exec.set_prev_priv_mode(PrivilegeMode::Executive);
    exec.set_cur_priv_mode(PrivilegeMode::User);
    assert_eq!(exec.get_prev_priv_mode(), PrivilegeMode::Executive);
    assert_eq!(exec.get_cur_priv_mode(), PrivilegeMode::User);
}

#[test]
fn register_14_follows_the_privilege_mode() {
    let mut exec = ExecutionContext::new();

    exec.set_reg(RegID(3), 77);
    assert_eq!(exec.get_reg(RegID(3)), 77);

    exec.set_reg(RegID(15), 0x2000);
    assert_eq!(exec.get_reg(RegID(15)), 0x2000);

    // Register 14 reads and writes the stack pointer of the current mode.
    exec.set_reg(RegID(14), 0x1111);
    assert_eq!(exec.get_reg(RegID(14)), 0x1111);
    exec.set_cur_priv_mode(PrivilegeMode::User);
    exec.set_reg(RegID(14), 0x2222);
    assert_eq!(exec.get_reg(RegID(14)), 0x2222);
    // Switching back reveals the kernel stack pointer untouched.
    exec.set_cur_priv_mode(PrivilegeMode::Kernel);
    assert_eq!(exec.get_reg(RegID(14)), 0x1111);

    // With the interrupt-stack flag set, slot 14 is the interrupt stack
    // pointer instead.
    exec.set_interrupt_stack(true);
    exec.set_reg(RegID(14), 0x3333);
    assert_eq!(exec.get_reg(RegID(14)), 0x3333);
    exec.set_interrupt_stack(false);
    assert_eq!(exec.get_reg(RegID(14)), 0x1111);
}

// -----
// Protection matrix
// -----

/// The sixteen rows of the protection matrix, cells ordered
/// kernel/executive/supervisor/user: 'W' permits read and write, 'R' read
/// only, '-' neither.
fn matrix() -> Vec<(PTEProtectionCode, [char; 4])> {
    vec![
        (PTEProtectionCode::NoAccess, ['-', '-', '-', '-']),
        (PTEProtectionCode::ZeroPage, ['R', 'R', 'R', 'R']),
        (PTEProtectionCode::KernW, ['W', '-', '-', '-']),
        (PTEProtectionCode::KernR, ['R', '-', '-', '-']),
        (PTEProtectionCode::UserW, ['W', 'W', 'W', 'W']),
        (PTEProtectionCode::ExecW, ['W', 'W', '-', '-']),
        (PTEProtectionCode::ExecRKernW, ['W', 'R', '-', '-']),
        (PTEProtectionCode::ExecR, ['R', 'R', '-', '-']),
        (PTEProtectionCode::SuperW, ['W', 'W', 'W', '-']),
        (PTEProtectionCode::SuperRExecW, ['W', 'W', 'R', '-']),
        (PTEProtectionCode::SuperRKernW, ['W', 'R', 'R', '-']),
        (PTEProtectionCode::SuperR, ['R', 'R', 'R', '-']),
        (PTEProtectionCode::UserRSuperW, ['W', 'W', 'W', 'R']),
        (PTEProtectionCode::UserRExecW, ['W', 'W', 'R', 'R']),
        (PTEProtectionCode::UserRKernW, ['W', 'R', 'R', 'R']),
        (PTEProtectionCode::UserR, ['R', 'R', 'R', 'R']),
    ]
}

#[test]
fn protection_matrix_all_cells() {
    let modes = [
        PrivilegeMode::Kernel,
        PrivilegeMode::Executive,
        PrivilegeMode::Supervisor,
        PrivilegeMode::User,
    ];
    for (code, cells) in matrix() {
        for (mode, cell) in modes.iter().zip(cells.iter()) {
            let read = code.can_access(*mode, MemoryAccessType::Read);
            let write = code.can_access(*mode, MemoryAccessType::Write);
            assert_eq!(read, *cell != '-', "read cell of {:?} for {:?}", code, mode);
            assert_eq!(write, *cell == 'W', "write cell of {:?} for {:?}", code, mode);
            if write {
                assert!(read, "write implies read at {:?} for {:?}", code, mode);
            }
        }
    }
}

#[test]
fn protection_code_from_int() {
    for n in 0..16u8 {
        let code = PTEProtectionCode::from_int(n).unwrap();
        assert_eq!(PTEProtectionCode::from_int(n), Some(code));
    }
    assert_eq!(PTEProtectionCode::from_int(0), Some(PTEProtectionCode::NoAccess));
    assert_eq!(PTEProtectionCode::from_int(3), Some(PTEProtectionCode::KernR));
    assert_eq!(PTEProtectionCode::from_int(15), Some(PTEProtectionCode::UserR));
    assert_eq!(PTEProtectionCode::from_int(16), None);
    assert_eq!(PTEProtectionCode::from_int(255), None);
}

// -----
// PTE decoding
// -----

#[test]
fn parse_pte_valid_and_invalid() {
    // Valid bit, protection KernR (3), modify set, frame 0x42.
    let pte = VAXMMU::parse_pte(0x8000_0000 | (3 << 27) | (1 << 26) | 0x42);
    assert_eq!(
        pte,
        PTE::ValidPTE { prot: PTEProtectionCode::KernR, modify: true, pfn: PFN(0x42) }
    );

    // Valid bit clear: the entry is invalid whatever else it carries.
    assert_eq!(VAXMMU::parse_pte(0x7FFF_FFFF), PTE::InvalidPTE {});
    assert_eq!(VAXMMU::parse_pte(0), PTE::InvalidPTE {});
}

// -----
// The bus
// -----

#[test]
fn bus_longword_round_trip() {
    let mut bus = VAXBus::new(4096);
    assert_eq!(bus.read_physical_longword(0), 0);
    bus.write_physical_longword(16, 0x1234_5678);
    assert_eq!(bus.read_physical_longword(16), 0x1234_5678);
    // Unaligned reads see the little-endian bytes shifted by one.
    assert_eq!(bus.read_physical_longword(17), 0x0012_3456);
    // Reads and writes beyond RAM yield zero and are dropped.
    assert_eq!(bus.read_physical_longword(4096), 0);
    bus.write_physical_longword(0x3FFF_FFFC, 0xDEAD_BEEF);
    assert_eq!(bus.read_physical_longword(0x3FFF_FFFC), 0);
}

// -----
// Translation
// -----

#[test]
fn translate_disabled_is_identity_in_region_0() {
    let bus = VAXBus::new(4096);
    let mmu = VAXMMU::new();
    assert_eq!(
        mmu.translate(0x0000_1234, PrivilegeMode::Kernel, MemoryAccessType::Read, &bus),
        Ok(0x0000_1234)
    );
    assert_eq!(
        mmu.translate(0x3FFF_FFFF, PrivilegeMode::User, MemoryAccessType::Write, &bus),
        Ok(0x3FFF_FFFF)
    );
    // Other regions fault while translation is off.
    assert_eq!(
        mmu.translate(0x4000_0000, PrivilegeMode::Kernel, MemoryAccessType::Read, &bus),
        Err(MMUFault::TranslationNotValid {
            addr: 0x4000_0000,
            access: MemoryAccessType::Read,
            pte: None
        })
    );
}

#[test]
fn translate_region_0_kernel_read() {
    let mut bus = VAXBus::new(65536);
    let mut mmu = VAXMMU::new();
    // P0 page table at 0x1000, 16 pages long; the PTE for page 0 is valid,
    // protection kernel-read, frame 0x42.
    bus.write_physical_longword(0x1000, 0x8000_0000 | (3 << 27) | 0x42);
    mmu.set_p0_base(0x1000);
    mmu.set_p0_len(16);
    mmu.set_enabled(true);

    assert_eq!(mmu.get_pte_address(0x0000_0003), Some(0x1000));
    assert_eq!(
        mmu.translate(0x0000_0003, PrivilegeMode::Kernel, MemoryAccessType::Read, &bus),
        Ok(0x0000_8403)
    );
    // The same page denies user reads.
    assert_eq!(
        mmu.translate(0x0000_0003, PrivilegeMode::User, MemoryAccessType::Read, &bus),
        Err(MMUFault::AccessViolation {
            addr: 0x0000_0003,
            access: MemoryAccessType::Read,
            pte: 0x8000_0000 | (3 << 27) | 0x42
        })
    );
}

#[test]
fn translate_faults() {
    let mut bus = VAXBus::new(65536);
    let mut mmu = VAXMMU::new();
    bus.write_physical_longword(0x1000, 0x8000_0000 | (3 << 27) | 0x42);
    mmu.set_p0_base(0x1000);
    mmu.set_p0_len(1);
    mmu.set_enabled(true);

    // Page 1 lies beyond the one-page P0 region.
    assert_eq!(
        mmu.translate(0x0000_0200, PrivilegeMode::Kernel, MemoryAccessType::Read, &bus),
        Err(MMUFault::LengthViolation { addr: 0x0000_0200, access: MemoryAccessType::Read })
    );
    // Region 3 is reserved.
    assert_eq!(
        mmu.translate(0xC000_0000, PrivilegeMode::Kernel, MemoryAccessType::Read, &bus),
        Err(MMUFault::LengthViolation { addr: 0xC000_0000, access: MemoryAccessType::Read })
    );
    // A PTE with the valid bit clear faults, carrying the entry read.
    mmu.set_p0_base(0x2000);
    assert_eq!(
        mmu.translate(0x0000_0003, PrivilegeMode::Kernel, MemoryAccessType::Read, &bus),
        Err(MMUFault::TranslationNotValid {
            addr: 0x0000_0003,
            access: MemoryAccessType::Read,
            pte: Some(0)
        })
    );
}

#[test]
fn translate_write_and_modify_bit() {
    let mut bus = VAXBus::new(65536);
    let mut mmu = VAXMMU::new();
    // Page 0: writable by all (UserW = 4), modify bit clear.
    bus.write_physical_longword(0x1000, 0x8000_0000 | (4 << 27) | 0x10);
    // Page 1: same protection with the modify bit set.
    bus.write_physical_longword(0x1004, 0x8000_0000 | (4 << 27) | (1 << 26) | 0x11);
    mmu.set_p0_base(0x1000);
    mmu.set_p0_len(16);
    mmu.set_enabled(true);

    assert_eq!(
        mmu.translate(0x0000_0000, PrivilegeMode::User, MemoryAccessType::Write, &bus),
        Err(MMUFault::ModifyBitNotSet { addr: 0, pte: 0x8000_0000 | (4 << 27) | 0x10 })
    );
    // Reads do not consult the modify bit.
    assert_eq!(
        mmu.translate(0x0000_0000, PrivilegeMode::User, MemoryAccessType::Read, &bus),
        Ok(0x10 << 9)
    );
    assert_eq!(
        mmu.translate(0x0000_0205, PrivilegeMode::User, MemoryAccessType::Write, &bus),
        Ok((0x11 << 9) | 5)
    );
}

#[test]
fn translate_p1_grows_downward() {
    let mut bus = VAXBus::new(65536);
    let mut mmu = VAXMMU::new();
    mmu.set_p1_base(0x1000);
    mmu.set_p1_len(1);
    mmu.set_enabled(true);

    // Only the topmost P1 page (page 0x1FFFFF) is within a one-page region.
    let top = 0x4000_0000u32 | (0x1F_FFFF << 9);
    assert!(mmu.is_address_valid(top));
    assert!(!mmu.is_address_valid(0x4000_0000));

    // Its PTE sits at base + page * 4.
    assert_eq!(mmu.get_pte_address(top), Some(0x1000 + 0x1F_FFFF * 4));

    let below = 0x4000_0000u32 | (0x1F_FFFE << 9);
    assert_eq!(
        mmu.translate(below, PrivilegeMode::Kernel, MemoryAccessType::Read, &bus),
        Err(MMUFault::LengthViolation { addr: below, access: MemoryAccessType::Read })
    );
}

#[test]
fn translate_system_region() {
    let mut bus = VAXBus::new(65536);
    let mut mmu = VAXMMU::new();
    bus.write_physical_longword(0x3000, 0x8000_0000 | (1 << 27) | 0x55);
    mmu.set_sys_base(0x3000);
    mmu.set_sys_len(4);
    mmu.set_enabled(true);

    // ZeroPage grants read to every mode, write to none.
    let addr = 0x8000_0007u32;
    assert_eq!(
        mmu.translate(addr, PrivilegeMode::User, MemoryAccessType::Read, &bus),
        Ok((0x55 << 9) | 7)
    );
    assert_eq!(
        mmu.translate(addr, PrivilegeMode::Kernel, MemoryAccessType::Write, &bus),
        Err(MMUFault::AccessViolation {
            addr,
            access: MemoryAccessType::Write,
            pte: 0x8000_0000 | (1 << 27) | 0x55
        })
    );
}

#[test]
fn mmu_region_lengths() {
    let mut mmu = VAXMMU::new();
    mmu.set_p0_len(16);
    mmu.set_p1_len(2);
    mmu.set_sys_len(0x80_0000);
    assert_eq!(mmu.get_p0_len(), 16 * 512);
    assert_eq!(mmu.get_p1_len(), 2 * 512);
    assert_eq!(mmu.get_sys_len(), 0x80_0000 * 512);
}

#[test]
fn mmu_base_truncated_to_30_bits() {
    let mut bus = VAXBus::new(65536);
    let mut mmu = VAXMMU::new();
    bus.write_physical_longword(0x1000, 0x8000_0000 | (3 << 27) | 0x42);
    // Bits 30 and 31 of the base are ignored.
    mmu.set_p0_base(0xC000_1000);
    mmu.set_p0_len(16);
    mmu.set_enabled(true);
    assert_eq!(mmu.get_pte_address(0x0000_0003), Some(0x1000));
    assert_eq!(
        mmu.translate(0x0000_0003, PrivilegeMode::Kernel, MemoryAccessType::Read, &bus),
        Ok(0x0000_8403)
    );
}

#[test]
fn pte_address_none_when_disabled_or_invalid() {
    let mut mmu = VAXMMU::new();
    assert_eq!(mmu.get_pte_address(0), None);
    mmu.set_enabled(true);
    // Zero-length P0: no address is valid there.
    assert_eq!(mmu.get_pte_address(0), None);
}

#[test]
fn pfn_of_virtual_address() {
    assert_eq!(PFN::from(0x0000_0003), PFN(0));
    assert_eq!(PFN::from(0x0000_0200), PFN(1));
    assert_eq!(PFN::from(0x3FFF_FFFF), PFN(0x1F_FFFF));
}

// -----
// Privileged registers and the clock
// -----

#[test]
fn privileged_register_numbers() {
    assert_eq!(PrivRegisters::KSP.register_number(), 0);
    assert_eq!(PrivRegisters::MAPEN.register_number(), 56);
    assert_eq!(PrivRegisters::P0BR.register_number(), 8);
    assert_eq!(PrivRegisters::from_number(12), Some(PrivRegisters::SBR));
    assert_eq!(PrivRegisters::from_number(5), None);
    assert_eq!(PrivRegisters::from_number(57), None);

    for n in 0..=255u8 {
        if let Some(reg) = PrivRegisters::from_number(n) {
            assert_eq!(reg.register_number(), n);
        }
    }
}

#[test]
fn system_clock_ticks() {
    let mut clock = SystemClock::new(100);
    assert!(!clock.consume_cycles(60));
    assert!(clock.consume_cycles(40));
    assert_eq!(clock.cycles_all_time, 100);
    clock.new_tick();
    assert_eq!(clock.cycles_this_tick, 0);
    assert!(!clock.consume_cycles(99));
    assert!(clock.consume_cycles(1));
    assert_eq!(clock.cycles_all_time, 200);
}

#[test]
fn privilege_mode_values() {
    assert_eq!(PrivilegeMode::Kernel.value(), 0);
    assert_eq!(PrivilegeMode::User.value(), 3);
    assert_eq!(PrivilegeMode::from_value(2), Some(PrivilegeMode::Supervisor));
    assert_eq!(PrivilegeMode::from_value(4), None);
    assert!(PrivilegeMode::Kernel < PrivilegeMode::User);
}
