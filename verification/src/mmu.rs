//! The memory-management unit: virtual-to-physical translation and per-page
//! protection.
//!
//! A 32-bit virtual address splits into a region (bits 30 and 31), a page
//! number (bits 9 through 29) and a byte within its 512-byte page. Regions
//! 0 (P0), 1 (P1) and 2 (System) are translated through per-region page
//! tables; region 3 is reserved and faults. P0 and System grow upward from
//! page zero, P1 grows downward. Each page-table entry carries a valid bit,
//! a four-bit protection code checked against the current privilege mode,
//! a modify bit, and the 21-bit page frame number of the physical page.

use vstd::prelude::*;

use crate::PrivilegeMode;
use crate::bus::VAXBus;
use crate::bus::spec_read_longword;
use crate::spec_mode_value;

verus! {

/// The sixteen protection classes a PTE can carry. Each row of the fixed
/// protection matrix names which privilege modes may read and which may
/// write a page of that class; see `spec_can_read` and `spec_can_write`.
#[derive(Copy, Clone, Debug, PartialEq, Eq, PartialOrd, Ord, Hash, Structural)]
pub enum PTEProtectionCode {
    NoAccess,
    ZeroPage,
    KernW,
    KernR,
    UserW,
    ExecW,
    ExecRKernW,
    ExecR,
    SuperW,
    SuperRExecW,
    SuperRKernW,
    SuperR,
    UserRSuperW,
    UserRExecW,
    UserRKernW,
    UserR,
}

/// The four-bit encoding of each protection code, as it sits in a PTE.
pub open spec fn spec_prot_value(c: PTEProtectionCode) -> int {
    match c {
        PTEProtectionCode::NoAccess => 0,
        PTEProtectionCode::ZeroPage => 1,
        PTEProtectionCode::KernW => 2,
        PTEProtectionCode::KernR => 3,
        PTEProtectionCode::UserW => 4,
        PTEProtectionCode::ExecW => 5,
        PTEProtectionCode::ExecRKernW => 6,
        PTEProtectionCode::ExecR => 7,
        PTEProtectionCode::SuperW => 8,
        PTEProtectionCode::SuperRExecW => 9,
        PTEProtectionCode::SuperRKernW => 10,
        PTEProtectionCode::SuperR => 11,
        PTEProtectionCode::UserRSuperW => 12,
        PTEProtectionCode::UserRExecW => 13,
        PTEProtectionCode::UserRKernW => 14,
        PTEProtectionCode::UserR => 15,
    }
}

/// The protection code encoded by a four-bit value.
pub open spec fn spec_prot_from_value(n: int) -> PTEProtectionCode {
    if n == 0 {
        PTEProtectionCode::NoAccess
    } else if n == 1 {
        PTEProtectionCode::ZeroPage
    } else if n == 2 {
        PTEProtectionCode::KernW
    } else if n == 3 {
        PTEProtectionCode::KernR
    } else if n == 4 {
        PTEProtectionCode::UserW
    } else if n == 5 {
        PTEProtectionCode::ExecW
    } else if n == 6 {
        PTEProtectionCode::ExecRKernW
    } else if n == 7 {
        PTEProtectionCode::ExecR
    } else if n == 8 {
        PTEProtectionCode::SuperW
    } else if n == 9 {
        PTEProtectionCode::SuperRExecW
    } else if n == 10 {
        PTEProtectionCode::SuperRKernW
    } else if n == 11 {
        PTEProtectionCode::SuperR
    } else if n == 12 {
        PTEProtectionCode::UserRSuperW
    } else if n == 13 {
        PTEProtectionCode::UserRExecW
    } else if n == 14 {
        PTEProtectionCode::UserRKernW
    } else {
        PTEProtectionCode::UserR
    }
}

/// The least privileged mode that may read a page of class `c`, as a mode
/// number, or -1 when no mode may. The matrix rows, cells ordered
/// kernel/executive/supervisor/user:
///
/// ```text
/// NoAccess     - - - -    SuperW       W W W -
/// ZeroPage     R R R R    SuperRExecW  W W R -
/// KernW        W - - -    SuperRKernW  W R R -
/// KernR        R - - -    SuperR       R R R -
/// UserW        W W W W    UserRSuperW  W W W R
/// ExecW        W W - -    UserRExecW   W W R R
/// ExecRKernW   W R - -    UserRKernW   W R R R
/// ExecR        R R - -    UserR        R R R R
/// ```
///
/// A `W` cell permits read and write, an `R` cell read only, `-` neither.
pub open spec fn spec_read_limit(c: PTEProtectionCode) -> int {
    match c {
        PTEProtectionCode::NoAccess => -1,
        PTEProtectionCode::ZeroPage => 3,
        PTEProtectionCode::KernW => 0,
        PTEProtectionCode::KernR => 0,
        PTEProtectionCode::UserW => 3,
        PTEProtectionCode::ExecW => 1,
        PTEProtectionCode::ExecRKernW => 1,
        PTEProtectionCode::ExecR => 1,
        PTEProtectionCode::SuperW => 2,
        PTEProtectionCode::SuperRExecW => 2,
        PTEProtectionCode::SuperRKernW => 2,
        PTEProtectionCode::SuperR => 2,
        PTEProtectionCode::UserRSuperW => 3,
        PTEProtectionCode::UserRExecW => 3,
        PTEProtectionCode::UserRKernW => 3,
        PTEProtectionCode::UserR => 3,
    }
}

/// The least privileged mode that may write a page of class `c`, as a mode
/// number, or -1 when no mode may. See `spec_read_limit` for the matrix.
pub open spec fn spec_write_limit(c: PTEProtectionCode) -> int {
    match c {
        PTEProtectionCode::NoAccess => -1,
        PTEProtectionCode::ZeroPage => -1,
        PTEProtectionCode::KernW => 0,
        PTEProtectionCode::KernR => -1,
        PTEProtectionCode::UserW => 3,
        PTEProtectionCode::ExecW => 1,
        PTEProtectionCode::ExecRKernW => 0,
        PTEProtectionCode::ExecR => -1,
        PTEProtectionCode::SuperW => 2,
        PTEProtectionCode::SuperRExecW => 1,
        PTEProtectionCode::SuperRKernW => 0,
        PTEProtectionCode::SuperR => -1,
        PTEProtectionCode::UserRSuperW => 2,
        PTEProtectionCode::UserRExecW => 1,
        PTEProtectionCode::UserRKernW => 0,
        PTEProtectionCode::UserR => -1,
    }
}

/// Whether mode `m` may read a page of class `c`.
pub open spec fn spec_can_read(c: PTEProtectionCode, m: PrivilegeMode) -> bool {
    spec_mode_value(m) <= spec_read_limit(c)
}

/// Whether mode `m` may write a page of class `c`.
pub open spec fn spec_can_write(c: PTEProtectionCode, m: PrivilegeMode) -> bool {
    spec_mode_value(m) <= spec_write_limit(c)
}

/// Whether mode `m` may perform `access` on a page of class `c`.
pub open spec fn spec_can_access(
    c: PTEProtectionCode,
    m: PrivilegeMode,
    access: MemoryAccessType,
) -> bool {
    match access {
        MemoryAccessType::Read => spec_can_read(c, m),
        MemoryAccessType::Write => spec_can_write(c, m),
    }
}

/// In every cell of the protection matrix, permission to write implies
/// permission to read.
pub proof fn lemma_write_implies_read(c: PTEProtectionCode, m: PrivilegeMode)
    ensures
        spec_can_write(c, m) ==> spec_can_read(c, m),
{
}

impl PTEProtectionCode {
    /// The protection code encoded by `n`, which must be a four-bit value.
    pub fn from_int(n: u8) -> (r: Option<Self>)
        ensures
            n <= 0b1111 ==> (r matches Some(c) && c == spec_prot_from_value(n as int)
                && spec_prot_value(c) == n),
            n > 0b1111 ==> r is None,
    {
        match n {
            0 => Some(PTEProtectionCode::NoAccess),
            1 => Some(PTEProtectionCode::ZeroPage),
            2 => Some(PTEProtectionCode::KernW),
            3 => Some(PTEProtectionCode::KernR),
            4 => Some(PTEProtectionCode::UserW),
            5 => Some(PTEProtectionCode::ExecW),
            6 => Some(PTEProtectionCode::ExecRKernW),
            7 => Some(PTEProtectionCode::ExecR),
            8 => Some(PTEProtectionCode::SuperW),
            9 => Some(PTEProtectionCode::SuperRExecW),
            10 => Some(PTEProtectionCode::SuperRKernW),
            11 => Some(PTEProtectionCode::SuperR),
            12 => Some(PTEProtectionCode::UserRSuperW),
            13 => Some(PTEProtectionCode::UserRExecW),
            14 => Some(PTEProtectionCode::UserRKernW),
            15 => Some(PTEProtectionCode::UserR),
            _ => None,
        }
    }

    /// Whether this protection class grants `mode` the requested `access`.
    pub fn can_access(self, mode: PrivilegeMode, access: MemoryAccessType) -> (r: bool)
        ensures
            r == spec_can_access(self, mode, access),
    {
        let limit: i32 = match access {
            MemoryAccessType::Read => match self {
                PTEProtectionCode::NoAccess => -1,
                PTEProtectionCode::ZeroPage => 3,
                PTEProtectionCode::KernW => 0,
                PTEProtectionCode::KernR => 0,
                PTEProtectionCode::UserW => 3,
                PTEProtectionCode::ExecW => 1,
                PTEProtectionCode::ExecRKernW => 1,
                PTEProtectionCode::ExecR => 1,
                PTEProtectionCode::SuperW => 2,
                PTEProtectionCode::SuperRExecW => 2,
                PTEProtectionCode::SuperRKernW => 2,
                PTEProtectionCode::SuperR => 2,
                PTEProtectionCode::UserRSuperW => 3,
                PTEProtectionCode::UserRExecW => 3,
                PTEProtectionCode::UserRKernW => 3,
                PTEProtectionCode::UserR => 3,
            },
            MemoryAccessType::Write => match self {
                PTEProtectionCode::NoAccess => -1,
                PTEProtectionCode::ZeroPage => -1,
                PTEProtectionCode::KernW => 0,
                PTEProtectionCode::KernR => -1,
                PTEProtectionCode::UserW => 3,
                PTEProtectionCode::ExecW => 1,
                PTEProtectionCode::ExecRKernW => 0,
                PTEProtectionCode::ExecR => -1,
                PTEProtectionCode::SuperW => 2,
                PTEProtectionCode::SuperRExecW => 1,
                PTEProtectionCode::SuperRKernW => 0,
                PTEProtectionCode::SuperR => -1,
                PTEProtectionCode::UserRSuperW => 2,
                PTEProtectionCode::UserRExecW => 1,
                PTEProtectionCode::UserRKernW => 0,
                PTEProtectionCode::UserR => -1,
            },
        };
        (mode.value() as i32) <= limit
    }
}

/// The kind of memory access being translated.
#[derive(Copy, Clone, Debug, PartialEq, Eq, Structural)]
pub enum MemoryAccessType {
    Read,
    Write,
}

/// A 21-bit page frame number: the physical page an address falls in.
#[derive(Copy, Clone, Debug, PartialEq, Eq, PartialOrd, Ord, Structural)]
pub struct PFN(pub u32);

/// The page frame number of a virtual address: bits 9 through 29, the
/// virtual page the address falls in.
pub open spec fn spec_pfn_of_addr(v: u32) -> u32 {
    (((v as int) / 0x200) % 0x20_0000) as u32
}

impl From<u32> for PFN {
    /// The virtual page of the address `v`.
    fn from(v: u32) -> (r: PFN) {
        PFN((v / 0x200) % 0x20_0000)
    }
}

impl vstd::std_specs::convert::FromSpecImpl<u32> for PFN {
    open spec fn obeys_from_spec() -> bool {
        true
    }

    open spec fn from_spec(v: u32) -> PFN {
        PFN(spec_pfn_of_addr(v))
    }
}

/// A decoded page table entry. The GPTX form is recognized but not usable;
/// an entry with the valid bit clear decodes to `InvalidPTE`, its raw bits
/// staying with the caller for the fault payload.
#[derive(Copy, Clone, Debug, PartialEq, Eq)]
pub enum PTE {
    ValidPTE { prot: PTEProtectionCode, modify: bool, pfn: PFN },
    ValidPTENoUse { prot: PTEProtectionCode, pfn: PFN },
    GPTXPTE { prot: PTEProtectionCode, owner: u8, pfn: PFN },
    InvalidPTE {},
}

/// Whether the PTE longword has its valid bit (bit 31) set.
pub open spec fn spec_pte_valid(pte: u32) -> bool {
    pte >= 0x8000_0000
}

/// The protection field of a PTE longword: bits 27 through 30.
pub open spec fn spec_pte_prot(pte: u32) -> PTEProtectionCode {
    spec_prot_from_value(((pte as int) / 0x800_0000) % 16)
}

/// The modify bit of a PTE longword: bit 26.
pub open spec fn spec_pte_modify(pte: u32) -> bool {
    ((pte as int) / 0x400_0000) % 2 == 1
}

/// The page frame number of a PTE longword: bits 0 through 20.
pub open spec fn spec_pte_pfn(pte: u32) -> int {
    (pte as int) % 0x20_0000
}

/// What decoding the PTE longword yields: a valid entry's protection,
/// modify bit and frame number, or `InvalidPTE` when the valid bit is
/// clear.
pub open spec fn spec_parse_pte(pte: u32) -> PTE {
    if spec_pte_valid(pte) {
        PTE::ValidPTE {
            prot: spec_pte_prot(pte),
            modify: spec_pte_modify(pte),
            pfn: PFN(spec_pte_pfn(pte) as u32),
        }
    } else {
        PTE::InvalidPTE {  }
    }
}

/// The faults a translation can raise, each carrying the virtual address
/// and, where one was read, the offending PTE longword.
#[derive(Copy, Clone, Debug, PartialEq, Eq)]
pub enum MMUFault {
    LengthViolation { addr: u32, access: MemoryAccessType },
    TranslationNotValid { addr: u32, access: MemoryAccessType, pte: Option<u32> },
    AccessViolation { addr: u32, access: MemoryAccessType, pte: u32 },
    ModifyBitNotSet { addr: u32, pte: u32 },
}

/// The configuration of the MMU, as the contracts see it: the enable flag
/// and the three per-region base and length registers. Bases are physical
/// byte addresses truncated to 30 bits; lengths count 512-byte pages.
pub ghost struct MMUView {
    pub enabled: bool,
    pub p0_base: u32,
    pub p0_len: u32,
    pub p1_base: u32,
    pub p1_len: u32,
    pub sys_base: u32,
    pub sys_len: u32,
}

/// The region a virtual address falls in: its top two bits.
pub open spec fn spec_region(addr: u32) -> int {
    (addr as int) / 0x4000_0000
}

/// The page number of a virtual address: bits 9 through 29.
pub open spec fn spec_page(addr: u32) -> int {
    ((addr as int) / 0x200) % 0x20_0000
}

/// The byte offset of a virtual address within its 512-byte page.
pub open spec fn spec_byte_in_page(addr: u32) -> int {
    (addr as int) % 0x200
}

/// Whether a virtual address lies within its region's configured length.
/// P0 and System grow upward, so their pages run from zero up to the
/// length; P1 grows downward from the top of its region. With translation
/// disabled only region 0 is valid, and it maps through unchanged.
pub open spec fn spec_address_valid(m: MMUView, addr: u32) -> bool {
    if !m.enabled {
        spec_region(addr) == 0
    } else {
        let page = spec_page(addr);
        if spec_region(addr) == 0 {
            page < m.p0_len
        } else if spec_region(addr) == 1 {
            page + m.p1_len >= 0x20_0000
        } else if spec_region(addr) == 2 {
            page < m.sys_len
        } else {
            false
        }
    }
}

/// The base register of the region `addr` falls in.
pub open spec fn spec_region_base(m: MMUView, addr: u32) -> u32 {
    if spec_region(addr) == 0 {
        m.p0_base
    } else if spec_region(addr) == 1 {
        m.p1_base
    } else {
        m.sys_base
    }
}

/// The physical address of the PTE that translates `addr`: the region's
/// base plus four bytes per page, defined when the MMU is enabled and the
/// address is valid.
pub open spec fn spec_pte_address(m: MMUView, addr: u32) -> int {
    spec_region_base(m, addr) + spec_page(addr) * 4
}

/// What translating `addr` for `access` in privilege mode `mode` yields,
/// with page tables read from the physical memory `mem`. The pipeline:
/// disabled translation passes region 0 through unchanged and faults
/// elsewhere; an enabled translation checks the region length, reads the
/// PTE, requires its valid bit, checks the protection matrix, requires the
/// modify bit for writes, and composes the physical address from the PTE's
/// frame number and the byte within the page.
pub open spec fn spec_translate(
    m: MMUView,
    mem: Seq<u8>,
    addr: u32,
    mode: PrivilegeMode,
    access: MemoryAccessType,
) -> Result<u32, MMUFault> {
    if !m.enabled {
        if spec_region(addr) == 0 {
            Ok(addr)
        } else {
            Err(MMUFault::TranslationNotValid { addr, access, pte: None })
        }
    } else if !spec_address_valid(m, addr) {
        Err(MMUFault::LengthViolation { addr, access })
    } else {
        let pte = spec_read_longword(mem, spec_pte_address(m, addr)) as u32;
        if !spec_pte_valid(pte) {
            Err(MMUFault::TranslationNotValid { addr, access, pte: Some(pte) })
        } else if !spec_can_access(spec_pte_prot(pte), mode, access) {
            Err(MMUFault::AccessViolation { addr, access, pte })
        } else if access == MemoryAccessType::Write && !spec_pte_modify(pte) {
            Err(MMUFault::ModifyBitNotSet { addr, pte })
        } else {
            Ok((spec_pte_pfn(pte) * 0x200 + spec_byte_in_page(addr)) as u32)
        }
    }
}

/// With translation disabled, a region 0 address maps to itself.
pub proof fn lemma_translate_identity_when_disabled(
    m: MMUView,
    mem: Seq<u8>,
    addr: u32,
    mode: PrivilegeMode,
    access: MemoryAccessType,
)
    requires
        !m.enabled,
        spec_region(addr) == 0,
    ensures
        spec_translate(m, mem, addr, mode, access) == Ok::<u32, MMUFault>(addr),
{
}

/// The MMU's register state. The view is an `MMUView` of the same fields.
pub struct VAXMMU {
    enabled: bool,
    p0_base: u32,
    p0_len: u32,
    p1_base: u32,
    p1_len: u32,
    sys_base: u32,
    sys_len: u32,
}

impl View for VAXMMU {
    type V = MMUView;

    closed spec fn view(&self) -> MMUView {
        MMUView {
            enabled: self.enabled,
            p0_base: self.p0_base,
            p0_len: self.p0_len,
            p1_base: self.p1_base,
            p1_len: self.p1_len,
            sys_base: self.sys_base,
            sys_len: self.sys_len,
        }
    }
}

/// The register state is well formed: bases are truncated to 30 bits and
/// lengths do not exceed 2^23 pages. The constructor establishes this and
/// every setter keeps it.
pub open spec fn mmu_wf(m: MMUView) -> bool {
    &&& m.p0_base < 0x4000_0000
    &&& m.p1_base < 0x4000_0000
    &&& m.sys_base < 0x4000_0000
    &&& m.p0_len <= 0x80_0000
    &&& m.p1_len <= 0x80_0000
    &&& m.sys_len <= 0x80_0000
}

impl VAXMMU {
    /// An MMU with translation disabled and all region registers zero.
    pub fn new() -> (mmu: VAXMMU)
        ensures
            mmu@ == (MMUView {
                enabled: false,
                p0_base: 0,
                p0_len: 0,
                p1_base: 0,
                p1_len: 0,
                sys_base: 0,
                sys_len: 0,
            }),
            mmu_wf(mmu@),
    {
        VAXMMU {
            enabled: false,
            p0_base: 0,
            p0_len: 0,
            p1_base: 0,
            p1_len: 0,
            sys_base: 0,
            sys_len: 0,
        }
    }

    /// Enable or disable translation.
    pub fn set_enabled(&mut self, enabled: bool)
        ensures
            final(self)@ == (MMUView { enabled, ..old(self)@ }),
    {
        self.enabled = enabled;
    }

    /// Set the P0 length register, in pages.
    pub fn set_p0_len(&mut self, len: u32)
        requires
            len <= 0x80_0000,
        ensures
            final(self)@ == (MMUView { p0_len: len, ..old(self)@ }),
    {
        self.p0_len = len;
    }

    /// The P0 region's length in bytes.
    pub fn get_p0_len(&self) -> (r: u64)
        ensures
            r == self@.p0_len * 512,
    {
        (self.p0_len as u64) * 512
    }

    /// Set the P1 length register, in pages.
    pub fn set_p1_len(&mut self, len: u32)
        requires
            len <= 0x80_0000,
        ensures
            final(self)@ == (MMUView { p1_len: len, ..old(self)@ }),
    {
        self.p1_len = len;
    }

    /// The P1 region's length in bytes.
    pub fn get_p1_len(&self) -> (r: u64)
        ensures
            r == self@.p1_len * 512,
    {
        (self.p1_len as u64) * 512
    }

    /// Set the System length register, in pages.
    pub fn set_sys_len(&mut self, len: u32)
        requires
            len <= 0x80_0000,
        ensures
            final(self)@ == (MMUView { sys_len: len, ..old(self)@ }),
    {
        self.sys_len = len;
    }

    /// The System region's length in bytes.
    pub fn get_sys_len(&self) -> (r: u64)
        ensures
            r == self@.sys_len * 512,
    {
        (self.sys_len as u64) * 512
    }

    /// Set the P0 base register; bits 30 and 31 are ignored.
    pub fn set_p0_base(&mut self, base: u32)
        ensures
            final(self)@ == (MMUView { p0_base: base % 0x4000_0000, ..old(self)@ }),
    {
        self.p0_base = base % 0x4000_0000;
    }

    /// Set the P1 base register; bits 30 and 31 are ignored.
    pub fn set_p1_base(&mut self, base: u32)
        ensures
            final(self)@ == (MMUView { p1_base: base % 0x4000_0000, ..old(self)@ }),
    {
        self.p1_base = base % 0x4000_0000;
    }

    /// Set the System base register; bits 30 and 31 are ignored.
    pub fn set_sys_base(&mut self, base: u32)
        ensures
            final(self)@ == (MMUView { sys_base: base % 0x4000_0000, ..old(self)@ }),
    {
        self.sys_base = base % 0x4000_0000;
    }

    /// Whether `addr` lies within its region's configured length; see page
    /// 209 of the VAX Architecture Reference Manual (1987).
    pub fn is_address_valid(&self, addr: u32) -> (r: bool)
        ensures
            r == spec_address_valid(self@, addr),
    {
        let region = VAXMMU::address_region(addr);
        if !self.enabled {
            return region == 0;
        }
        let page = (addr / 0x200) % 0x20_0000;
        match region {
            0 => page < self.p0_len,
            1 => (page as u64) + (self.p1_len as u64) >= 0x20_0000,
            2 => page < self.sys_len,
            _ => false,
        }
    }

    /// The region of the address: 0, 1, 2 or 3, its top two bits.
    pub fn address_region(addr: u32) -> (r: u8)
        ensures
            r == spec_region(addr),
            r == (addr >> 30) & 3,
    {
        proof {
            assert((addr >> 30) & 3 == addr / 0x4000_0000) by (bit_vector);
        }
        (addr / 0x4000_0000) as u8
    }

    /// The physical address of the PTE that would translate `addr`:
    /// defined when translation is enabled and the address is valid,
    /// `None` otherwise.
    pub fn get_pte_address(&self, translatee: u32) -> (r: Option<u32>)
        requires
            mmu_wf(self@),
        ensures
            self@.enabled && spec_address_valid(self@, translatee) ==> r == Some(
                spec_pte_address(self@, translatee) as u32,
            ),
            !(self@.enabled && spec_address_valid(self@, translatee)) ==> r is None,
    {
        if !self.enabled {
            return None;
        }
        if !self.is_address_valid(translatee) {
            return None;
        }
        let pfn: PFN = translatee.into();
        let page = pfn.0;
        match VAXMMU::address_region(translatee) {
            0 => Some(self.p0_base + page * 4),
            1 => Some(self.p1_base + page * 4),
            _ => Some(self.sys_base + page * 4),
        }
    }

    /// Decode a PTE longword.
    pub fn parse_pte(pte: u32) -> (r: PTE)
        ensures
            r == spec_parse_pte(pte),
    {
        proof {
            assert((pte & 0x8000_0000) >> 31 == (if pte >= 0x8000_0000 { 1u32 } else { 0u32 })
                && (pte & 0x7800_0000) >> 27 == (pte / 0x800_0000) % 16 && (pte & 0x0400_0000)
                >> 26 == (pte / 0x400_0000) % 2 && pte & 0x001F_FFFF == pte % 0x20_0000)
                by (bit_vector);
        }
        let valid = ((pte & 0x8000_0000) >> 31) != 0;
        let protr = (pte & 0x7800_0000) >> 27;
        let modify = ((pte & 0x0400_0000) >> 26) != 0;

        if valid {
            let prot = match PTEProtectionCode::from_int(protr as u8) {
                Some(p) => p,
                None => vstd::pervasive::unreached(),
            };
            let pfn = PFN(pte & 0x001F_FFFF);
            PTE::ValidPTE { prot, modify, pfn }
        } else {
            PTE::InvalidPTE {  }
        }
    }

    /// Translate the virtual address `addr` for an `access` performed in
    /// privilege mode `mode`, reading page tables over the bus. Returns the
    /// physical address, always below 2^30, or the fault the translation
    /// raises.
    pub fn translate(
        &self,
        addr: u32,
        mode: PrivilegeMode,
        access: MemoryAccessType,
        bus: &VAXBus,
    ) -> (r: Result<u32, MMUFault>)
        requires
            mmu_wf(self@),
        ensures
            r == spec_translate(self@, bus@, addr, mode, access),
            r matches Ok(p) ==> p < 0x4000_0000,
    {
        if !self.enabled {
            if VAXMMU::address_region(addr) == 0 {
                proof {
                    assert(addr / 0x4000_0000 == 0 ==> addr < 0x4000_0000);
                }
                return Ok(addr);
            }
            return Err(MMUFault::TranslationNotValid { addr, access, pte: None });
        }
        if !self.is_address_valid(addr) {
            return Err(MMUFault::LengthViolation { addr, access });
        }
        let pte_addr = match self.get_pte_address(addr) {
            Some(a) => a,
            None => vstd::pervasive::unreached(),
        };
        let pte = bus.read_physical_longword(pte_addr);
        match VAXMMU::parse_pte(pte) {
            PTE::ValidPTE { prot, modify, pfn } => {
                if !prot.can_access(mode, access) {
                    Err(MMUFault::AccessViolation { addr, access, pte })
                } else if access == MemoryAccessType::Write && !modify {
                    Err(MMUFault::ModifyBitNotSet { addr, pte })
                } else {
                    let byte = addr % 0x200;
                    Ok(pfn.0 * 0x200 + byte)
                }
            },
            _ => Err(MMUFault::TranslationNotValid { addr, access, pte: Some(pte) }),
        }
    }
}

} // verus!
