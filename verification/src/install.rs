//! Page-by-page installation of an accepted image into the user region.
//!
//! The whole image (payload and trailing signature) is copied in page-sized
//! steps.  Each page buffer is zero-filled past the image bytes laid into it,
//! so the tail of the last page is zero-padded.  A caller on the device reads
//! one page's worth of bytes at a time and plans each write with
//! `plan_page_write`, holding a single page in RAM; `plan_install` runs the
//! same planning over an already staged slice, for callers (and tests) that
//! have one.  Planning a write fixes the page index and the exact page
//! contents; the flash controller itself (erase, program, read-back) is
//! driven outside this crate with the values planned here.

use vstd::arithmetic::div_mod::{
    lemma_fundamental_div_mod, lemma_fundamental_div_mod_converse_div, lemma_mod_bound,
};
use vstd::prelude::*;

use crate::layout::{FlashAddr, PAGE_SIZE};

verus! {

/// One planned write: the target page of the internal flash and the full page
/// of bytes to program there.
pub struct PageWrite {
    /// Page index counted from the start of on-chip flash.
    pub page_index: u32,
    /// Exactly `PAGE_SIZE` bytes to program.
    pub data: Vec<u8>,
}

/// Number of pages the first `fw_len` bytes of the image occupy, the last one
/// possibly partial.
pub open spec fn page_count(fw_len: int) -> int {
    (fw_len + PAGE_SIZE - 1) / (PAGE_SIZE as int)
}

/// Byte `j` of the zero-padded image: the image byte below `fw_len`, zero
/// above it.
pub open spec fn padded_byte(image: Seq<u8>, fw_len: int, j: int) -> u8 {
    if j < fw_len {
        image[j]
    } else {
        0u8
    }
}

/// The page of zero-padded image bytes starting at byte offset `page_start`.
pub open spec fn spec_page_data(image: Seq<u8>, fw_len: int, page_start: int) -> Seq<u8> {
    Seq::new(PAGE_SIZE as nat, |j: int| padded_byte(image, fw_len, page_start + j))
}

/// How many image bytes page `k` of an installation holds: a full page, or
/// what remains of `fw_len` for the last page.
pub open spec fn page_chunk_len(fw_len: int, k: int) -> int {
    if fw_len - k * (PAGE_SIZE as int) < PAGE_SIZE {
        fw_len - k * (PAGE_SIZE as int)
    } else {
        PAGE_SIZE as int
    }
}

/// Number of page writes the installation of `fw_len` bytes takes.
pub fn install_page_count(fw_len: u32) -> (n: u32)
    requires
        1 <= fw_len,
    ensures
        n == page_count(fw_len as int),
{
    proof {
        lemma_fundamental_div_mod(fw_len as int + PAGE_SIZE - 1, PAGE_SIZE as int);
        lemma_mod_bound(fw_len as int + PAGE_SIZE - 1, PAGE_SIZE as int);
    }
    ((fw_len as u64 + PAGE_SIZE as u64 - 1) / PAGE_SIZE as u64) as u32
}

/// The pages covering `fw_len` bytes fit a page-aligned region of at least
/// `fw_len` bytes.
proof fn lemma_pages_fit_region(fw_len: int, user_length: int)
    requires
        1 <= fw_len <= user_length,
        user_length % (PAGE_SIZE as int) == 0,
    ensures
        page_count(fw_len) * (PAGE_SIZE as int) <= user_length,
        (page_count(fw_len) - 1) * (PAGE_SIZE as int) < fw_len,
{
    lemma_fundamental_div_mod(fw_len + PAGE_SIZE - 1, PAGE_SIZE as int);
    lemma_mod_bound(fw_len + PAGE_SIZE - 1, PAGE_SIZE as int);
    lemma_fundamental_div_mod(user_length, PAGE_SIZE as int);
}

/// The absolute index of the `k`-th page of the user region, together with
/// the fact that this page lies wholly inside the region.
fn user_page_index(addr: &FlashAddr, k: u32) -> (idx: u32)
    requires
        addr.wf(),
        (k + 1) * (PAGE_SIZE as int) <= addr.user_length as int,
    ensures
        idx == addr.spec_user_page_base() + k,
        addr.page_in_user_region(idx),
{
    let flash_user_offset: u32 = addr.user_start - addr.start;
    let ghost base: int = addr.spec_user_page_base();
    proof {
        // The user region starts on a page boundary.
        lemma_fundamental_div_mod(addr.user_start - addr.start, PAGE_SIZE as int);
        assert(flash_user_offset == base * (PAGE_SIZE as int));
        assert(k * (PAGE_SIZE as int) + PAGE_SIZE <= addr.user_length as int)
            by (nonlinear_arith)
            requires
                (k + 1) * (PAGE_SIZE as int) <= addr.user_length as int,
        ;
    }
    let ext_offset: u32 = k * PAGE_SIZE;
    let idx: u32 = ((ext_offset as u64 + flash_user_offset as u64) / PAGE_SIZE as u64) as u32;
    proof {
        assert(ext_offset as int + flash_user_offset as int == (base + k) * (PAGE_SIZE as int))
            by (nonlinear_arith)
            requires
                ext_offset == k * (PAGE_SIZE as int),
                flash_user_offset == base * (PAGE_SIZE as int),
        ;
        lemma_fundamental_div_mod_converse_div(
            ext_offset as int + flash_user_offset as int,
            PAGE_SIZE as int,
            base + k,
            0,
        );
        assert(idx == base + k);
        assert(addr.user_start <= addr.start + idx * (PAGE_SIZE as int) && addr.start + (idx
            + 1) * (PAGE_SIZE as int) <= addr.user_start + addr.user_length)
            by (nonlinear_arith)
            requires
                idx == base + k,
                addr.user_start - addr.start == base * (PAGE_SIZE as int),
                0 <= k,
                (k + 1) * (PAGE_SIZE as int) <= addr.user_length as int,
        ;
    }
    idx
}

/// Plans the write of page `k` of an installation from the bytes read for
/// that page alone: the chunk is zero-padded to a full page and aimed at the
/// `k`-th page of the user region.  A caller that cannot stage the image
/// reads `page_chunk_len(fw_len, k)` bytes at offset `k * PAGE_SIZE` and
/// hands them here, one page at a time.
pub fn plan_page_write(addr: &FlashAddr, fw_len: u32, k: u32, chunk: &[u8]) -> (w: PageWrite)
    requires
        addr.wf(),
        1 <= fw_len,
        fw_len as int <= addr.user_length as int,
        k < page_count(fw_len as int),
        chunk@.len() == page_chunk_len(fw_len as int, k as int),
    ensures
        w.page_index == addr.spec_user_page_base() + k,
        addr.page_in_user_region(w.page_index),
        w.data@.len() == PAGE_SIZE,
        w.data@ == chunk@ + Seq::new((PAGE_SIZE - chunk@.len()) as nat, |i: int| 0u8),
{
    proof {
        lemma_pages_fit_region(fw_len as int, addr.user_length as int);
        assert((k + 1) * (PAGE_SIZE as int) <= page_count(fw_len as int) * (PAGE_SIZE as int))
            by (nonlinear_arith)
            requires
                k + 1 <= page_count(fw_len as int),
        ;
        assert(k * (PAGE_SIZE as int) <= (page_count(fw_len as int) - 1) * (PAGE_SIZE as int))
            by (nonlinear_arith)
            requires
                k <= page_count(fw_len as int) - 1,
        ;
    }
    let page_index = user_page_index(addr, k);
    let n = chunk.len();
    let mut data: Vec<u8> = Vec::new();
    let mut i: usize = 0;
    proof {
        assert(data@ =~= chunk@.subrange(0, 0));
    }
    while i < n
        invariant
            i <= n,
            n == chunk@.len(),
            data@ == chunk@.subrange(0, i as int),
        decreases n - i,
    {
        data.push(chunk[i]);
        i = i + 1;
        proof {
            assert(data@ =~= chunk@.subrange(0, i as int));
        }
    }
    proof {
        assert(data@ =~= chunk@);
    }
    while data.len() < PAGE_SIZE as usize
        invariant
            chunk@.len() <= data@.len() <= PAGE_SIZE,
            data@.subrange(0, chunk@.len() as int) == chunk@,
            forall|j: int| chunk@.len() <= j < data@.len() ==> data@[j] == 0,
        decreases PAGE_SIZE as usize - data.len(),
    {
        data.push(0u8);
        proof {
            assert(data@.subrange(0, chunk@.len() as int) =~= chunk@);
        }
    }
    proof {
        assert(data@ =~= chunk@ + Seq::new((PAGE_SIZE - chunk@.len()) as nat, |i: int| 0u8));
    }
    PageWrite { page_index, data }
}

/// A page planned from its chunk equals the corresponding page of the
/// zero-padded image, whenever the chunk holds exactly the image's bytes for
/// that page.
pub proof fn lemma_chunk_page_matches_image(
    image: Seq<u8>,
    fw_len: int,
    k: int,
    chunk: Seq<u8>,
)
    requires
        0 < fw_len <= image.len(),
        0 <= k < page_count(fw_len),
        chunk == image.subrange(
            k * (PAGE_SIZE as int),
            k * (PAGE_SIZE as int) + page_chunk_len(fw_len, k),
        ),
    ensures
        chunk + Seq::new((PAGE_SIZE - chunk.len()) as nat, |i: int| 0u8) == spec_page_data(
            image,
            fw_len,
            k * (PAGE_SIZE as int),
        ),
{
    lemma_fundamental_div_mod(fw_len + PAGE_SIZE - 1, PAGE_SIZE as int);
    lemma_mod_bound(fw_len + PAGE_SIZE - 1, PAGE_SIZE as int);
    assert(k * (PAGE_SIZE as int) <= (page_count(fw_len) - 1) * (PAGE_SIZE as int))
        by (nonlinear_arith)
        requires
            k <= page_count(fw_len) - 1,
    ;
    assert(chunk + Seq::new((PAGE_SIZE - chunk.len()) as nat, |i: int| 0u8) =~= spec_page_data(
        image,
        fw_len,
        k * (PAGE_SIZE as int),
    ));
}

/// Builds the page buffer whose first bytes come from the image and whose
/// tail, past `fw_len`, stays zero.
fn build_page(image: &[u8], fw_len: u32, page_start: u32) -> (data: Vec<u8>)
    requires
        fw_len as int <= image@.len(),
        page_start < fw_len,
    ensures
        data@ == spec_page_data(image@, fw_len as int, page_start as int),
{
    let mut data: Vec<u8> = Vec::new();
    let mut j: usize = 0;
    while j < PAGE_SIZE as usize
        invariant
            j <= PAGE_SIZE,
            data@.len() == j,
            fw_len as int <= image@.len(),
            page_start < fw_len,
            forall|i: int|
                0 <= i < j ==> data@[i] == padded_byte(image@, fw_len as int, page_start + i),
        decreases PAGE_SIZE as usize - j,
    {
        let pos: u64 = page_start as u64 + j as u64;
        if pos < fw_len as u64 {
            data.push(image[pos as usize]);
        } else {
            data.push(0u8);
        }
        j = j + 1;
    }
    proof {
        assert(data@ =~= spec_page_data(image@, fw_len as int, page_start as int));
    }
    data
}

/// Plans the copy of a staged image's first `fw_len` bytes into the user
/// region: one write per page, indices rising from the first user page, every
/// write inside the user region, every page holding exactly the zero-padded
/// image bytes of its offset range.
pub fn plan_install(image: &[u8], fw_len: u32, addr: &FlashAddr) -> (writes: Vec<PageWrite>)
    requires
        addr.wf(),
        fw_len >= 1,
        fw_len as int <= image@.len(),
        fw_len as int <= addr.user_length as int,
    ensures
        writes@.len() == page_count(fw_len as int),
        forall|k: int|
            0 <= k < writes@.len() ==> {
                &&& (#[trigger] writes@[k]).page_index == addr.spec_user_page_base() + k
                &&& addr.page_in_user_region(writes@[k].page_index)
                &&& writes@[k].data@ == spec_page_data(
                    image@,
                    fw_len as int,
                    k * (PAGE_SIZE as int),
                )
            },
{
    let total_pages: u32 = install_page_count(fw_len);
    proof {
        lemma_pages_fit_region(fw_len as int, addr.user_length as int);
    }
    let mut writes: Vec<PageWrite> = Vec::new();
    let mut k: u32 = 0;
    while k < total_pages
        invariant
            k <= total_pages,
            writes@.len() == k,
            addr.wf(),
            fw_len >= 1,
            fw_len as int <= image@.len(),
            fw_len as int <= addr.user_length as int,
            total_pages == page_count(fw_len as int),
            total_pages * (PAGE_SIZE as int) <= addr.user_length as int,
            (total_pages - 1) * (PAGE_SIZE as int) < fw_len as int,
            forall|i: int|
                0 <= i < k ==> {
                    &&& (#[trigger] writes@[i]).page_index == addr.spec_user_page_base() + i
                    &&& addr.page_in_user_region(writes@[i].page_index)
                    &&& writes@[i].data@ == spec_page_data(
                        image@,
                        fw_len as int,
                        i * (PAGE_SIZE as int),
                    )
                },
        decreases total_pages - k,
    {
        proof {
            // The page starts inside the image, and fits the user region.
            assert(k * (PAGE_SIZE as int) <= (total_pages - 1) * (PAGE_SIZE as int))
                by (nonlinear_arith)
                requires
                    k <= total_pages - 1,
            ;
            assert((k + 1) * (PAGE_SIZE as int) <= total_pages * (PAGE_SIZE as int))
                by (nonlinear_arith)
                requires
                    k + 1 <= total_pages,
            ;
        }
        let ext_offset: u32 = k * PAGE_SIZE;
        let data = build_page(image, fw_len, ext_offset);
        let page_index = user_page_index(addr, k);
        writes.push(PageWrite { page_index, data });
        k = k + 1;
    }
    writes
}

/// The planned pages, laid end to end at the start of the user region, hold
/// the image's first `fw_len` bytes unchanged, and zeroes from there to the
/// end of the last page.
pub proof fn lemma_plan_covers_image(image: Seq<u8>, fw_len: int, pages: Seq<Seq<u8>>)
    requires
        0 < fw_len <= image.len(),
        pages.len() == page_count(fw_len),
        forall|k: int|
            0 <= k < pages.len() ==> #[trigger] pages[k] == spec_page_data(
                image,
                fw_len,
                k * (PAGE_SIZE as int),
            ),
    ensures
        forall|j: int|
            0 <= j < fw_len ==> #[trigger] pages[j / (PAGE_SIZE as int)][j % (PAGE_SIZE as int)]
                == image[j],
        forall|j: int|
            fw_len <= j < page_count(fw_len) * (PAGE_SIZE as int) ==> #[trigger] pages[j / (
            PAGE_SIZE as int)][j % (PAGE_SIZE as int)] == 0,
{
    assert forall|j: int| 0 <= j < page_count(fw_len) * (PAGE_SIZE as int) implies pages[j / (
    PAGE_SIZE as int)][j % (PAGE_SIZE as int)] == padded_byte(image, fw_len, j) by {
        let p = PAGE_SIZE as int;
        let k = j / p;
        let r = j % p;
        lemma_fundamental_div_mod(j, p);
        lemma_mod_bound(j, p);
        assert(0 <= k) by (nonlinear_arith)
            requires
                j == p * k + r,
                0 <= j,
                0 <= r < p,
                p > 0,
        ;
        assert(k < page_count(fw_len)) by (nonlinear_arith)
            requires
                j == p * k + r,
                j < page_count(fw_len) * p,
                0 <= r < p,
                p > 0,
        ;
        assert(pages[k] == spec_page_data(image, fw_len, k * p));
        assert(pages[k][r] == padded_byte(image, fw_len, k * p + r));
        assert(k * p + r == j) by (nonlinear_arith)
            requires
                j == p * k + r,
        ;
    }
    assert forall|j: int| 0 <= j < fw_len implies pages[j / (PAGE_SIZE as int)][j % (PAGE_SIZE
        as int)] == image[j] by {
        assert(fw_len <= page_count(fw_len) * (PAGE_SIZE as int)) by (nonlinear_arith)
            requires
                page_count(fw_len) == (fw_len + PAGE_SIZE - 1) / (PAGE_SIZE as int),
                fw_len > 0,
        ;
    }
}

/// Packs one half-page of a page buffer into 32-bit little-endian words, the
/// unit the flash controller programs.
pub fn pack_halfpage_words(bytes: &[u8], half: usize) -> (words: Vec<u32>)
    requires
        bytes@.len() == PAGE_SIZE,
        half < 2,
    ensures
        words@.len() == PAGE_SIZE / 8,
        forall|w: int|
            0 <= w < words@.len() ==> #[trigger] words@[w] == crate::meta::le32_at(
                bytes@,
                half * ((PAGE_SIZE as int) / 2) + 4 * w,
            ),
{
    let words_per_halfpage: usize = PAGE_SIZE as usize / 8;
    proof {
        assert(half * ((PAGE_SIZE as int) / 2) <= (PAGE_SIZE as int) / 2) by (nonlinear_arith)
            requires
                half < 2,
        ;
    }
    let byte_offset_halfpage: usize = half * (PAGE_SIZE as usize / 2);
    let mut words: Vec<u32> = Vec::new();
    let mut w: usize = 0;
    while w < words_per_halfpage
        invariant
            w <= words_per_halfpage,
            words_per_halfpage == PAGE_SIZE / 8,
            byte_offset_halfpage == half * ((PAGE_SIZE as int) / 2),
            byte_offset_halfpage <= PAGE_SIZE / 2,
            half < 2,
            bytes@.len() == PAGE_SIZE,
            words@.len() == w,
            forall|i: int|
                0 <= i < w ==> #[trigger] words@[i] == crate::meta::le32_at(
                    bytes@,
                    byte_offset_halfpage + 4 * i,
                ),
        decreases words_per_halfpage - w,
    {
        let byte_offset: usize = 4 * w + byte_offset_halfpage;
        let word: u32 = bytes[byte_offset] as u32 + bytes[byte_offset + 1] as u32 * 0x100
            + bytes[byte_offset + 2] as u32 * 0x1_0000 + bytes[byte_offset + 3] as u32
            * 0x100_0000;
        words.push(word);
        w = w + 1;
    }
    words
}

/// Whether a freshly erased page read back as all zeroes, the erased state of
/// this device's flash.  A write proceeds only when it did.
pub fn erased_page_ok(bytes: &[u8]) -> (r: bool)
    ensures
        r == (forall|i: int| 0 <= i < bytes@.len() ==> bytes@[i] == 0),
{
    let n = bytes.len();
    let mut i: usize = 0;
    while i < n
        invariant
            i <= n,
            n == bytes@.len(),
            forall|j: int| 0 <= j < i ==> bytes@[j] == 0,
        decreases n - i,
    {
        if bytes[i] != 0 {
            return false;
        }
        i = i + 1;
    }
    true
}

} // verus!
