//! Geometry of the on-chip flash: the addresses that the linker assigns to the
//! boot stage and to the user region, and the page bounds that every internal
//! flash write must respect.

use vstd::prelude::*;

verus! {

/// Size in bytes of one internal flash page: the erase granularity, and the
/// unit in which the user region is programmed.
pub const PAGE_SIZE: u32 = 128;

/// Absolute addresses of the on-chip flash regions.  The values come from
/// linker-defined symbols and are handed in by the caller; nothing here is
/// known at compile time.
pub struct FlashAddr {
    /// Start of on-chip flash (base of the boot stage's own vector table).
    pub start: u32,
    /// Start of the user region (base of the application's vector table).
    pub user_start: u32,
    /// Byte length of the user region.
    pub user_length: usize,
}

impl FlashAddr {
    /// The layout invariants: the user region sits at or above the flash base,
    /// is non-empty, is page-aligned, covers a whole number of pages, and fits
    /// the 32-bit address space.
    pub open spec fn wf(self) -> bool {
        &&& self.start <= self.user_start
        &&& self.user_length > 0
        &&& (self.user_start - self.start) % (PAGE_SIZE as int) == 0
        &&& (self.user_length as int) % (PAGE_SIZE as int) == 0
        &&& self.user_start + self.user_length <= u32::MAX as int + 1
    }

    /// The page starting at `start + page_index * PAGE_SIZE` lies wholly
    /// inside the user region.
    pub open spec fn page_in_user_region(self, page_index: u32) -> bool {
        &&& self.user_start <= self.start + page_index * (PAGE_SIZE as int)
        &&& self.start + (page_index + 1) * (PAGE_SIZE as int) <= self.user_start
            + self.user_length
    }

    /// Index of the first page of the user region, counted from `start`.
    pub open spec fn spec_user_page_base(self) -> int {
        (self.user_start - self.start) / (PAGE_SIZE as int)
    }
}

/// Whether a page index addresses a page wholly inside the user region.
/// Every internal flash write is guarded by this check.
pub fn check_page_bounds(addr: &FlashAddr, page_index: u32) -> (r: bool)
    requires
        addr.wf(),
    ensures
        r == addr.page_in_user_region(page_index),
{
    proof {
        assert(page_index as u64 * (PAGE_SIZE as u64) <= 0xFFFF_FFFFu64 * 128) by (nonlinear_arith)
            requires
                page_index as u64 <= 0xFFFF_FFFFu64,
        ;
    }
    let target: u64 = addr.start as u64 + page_index as u64 * PAGE_SIZE as u64;
    let user_end: u64 = addr.user_start as u64 + addr.user_length as u64;
    addr.user_start as u64 <= target && target + PAGE_SIZE as u64 <= user_end
}

/// Absolute target address of a page write, or `None` when the page falls
/// outside the user region.
pub fn page_target_addr(addr: &FlashAddr, page_index: u32) -> (r: Option<u32>)
    requires
        addr.wf(),
    ensures
        r is Some <==> addr.page_in_user_region(page_index),
        r matches Some(a) ==> a == addr.start + page_index * (PAGE_SIZE as int),
{
    if check_page_bounds(addr, page_index) {
        Some(addr.start + page_index * PAGE_SIZE)
    } else {
        None
    }
}

/// The application's vector table head: word 0 is the initial main stack
/// pointer, word 1 the reset handler address (thumb bit included).
pub struct VectorEntries {
    /// Value to load into the main stack pointer before the branch.
    pub initial_sp: u32,
    /// Address of the application's reset handler.
    pub reset_handler: u32,
}

/// Decodes the two head words of the application's vector table from the
/// first 8 bytes of the user region, little-endian.
pub fn parse_vector_entries(head: &[u8]) -> (v: VectorEntries)
    requires
        head@.len() >= 8,
    ensures
        v.initial_sp == crate::meta::le32_at(head@, 0),
        v.reset_handler == crate::meta::le32_at(head@, 4),
{
    let initial_sp: u32 = head[0] as u32 + head[1] as u32 * 0x100 + head[2] as u32 * 0x1_0000
        + head[3] as u32 * 0x100_0000;
    let reset_handler: u32 = head[4] as u32 + head[5] as u32 * 0x100 + head[6] as u32
        * 0x1_0000 + head[7] as u32 * 0x100_0000;
    VectorEntries { initial_sp, reset_handler }
}

/// Offset of the user region from the flash base: the value written to the
/// vector table offset register when control moves to the application.
pub fn vector_table_offset(addr: &FlashAddr) -> (off: u32)
    requires
        addr.wf(),
    ensures
        off == addr.user_start - addr.start,
{
    addr.user_start - addr.start
}

} // verus!
