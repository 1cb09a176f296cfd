//! Secure-boot image validation and installation logic.
//!
//! On each reset a boot stage inspects a candidate firmware image staged in an
//! SPI-attached external NOR flash, authenticates it (SHA-256 digest, revocation
//! list, ECDSA P-256 signature), copies it page by page into the user region of
//! the on-chip flash, and hands control to it.  This crate holds that pipeline's
//! decisions and computations, verified; the hardware edges (SPI reads, flash
//! program/erase, LED, the final branch into the application) live outside it
//! and hand it plain bytes.

use vstd::prelude::*;

pub mod hash;
pub mod install;
pub mod layout;
pub mod meta;
pub mod pipeline;
pub mod sig;

verus! {

/// Length in bytes of the trailing ECDSA P-256 signature (R and S, 32 bytes each).
pub const FW_SIGNATURE_LEN: usize = 64;

/// Fixed offset of the 8-byte firmware metadata record inside the image.
/// The header is part of the signed payload.
pub const FW_META_OFFSET: u32 = 0xC0;

} // verus!
