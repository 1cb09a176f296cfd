//! The once-per-reset installation pipeline: header check, verification,
//! copy planning, and the human-visible outcome signalling.
//!
//! The pipeline reads the candidate image as plain bytes, decides, and plans.
//! Reading those bytes off the external flash, programming the planned pages,
//! blinking the LED and branching into the application are the caller's side;
//! every decision between them is made and proved here.  A caller on the
//! device, which cannot stage the image, drives the stages one by one with
//! bounded buffers: `parse_meta` and `validate_meta` on the 8 header bytes,
//! `begin_payload_hash` and `absorb_payload_chunk` on one chunk at a time,
//! `verify_signature` on the trailing 64 bytes, and `plan_page_write` on one
//! page's bytes at a time.  `run_pipeline` below runs the same stages over an
//! already staged slice, for hosted callers and tests.

use vstd::prelude::*;

use crate::hash::{hash_payload, hasher_bytes, sha256_of};
use crate::install::{page_count, plan_install, spec_page_data, PageWrite};
use crate::layout::{FlashAddr, PAGE_SIZE};
use crate::meta::{meta_valid, parse_meta, spec_parse_meta, validate_meta, FirmwareMeta};
use crate::sig::{
    blacklist_view, ecdsa_p256_accepts, spec_blacklisted, verify_signature, SignatureError,
};
use crate::{FW_META_OFFSET, FW_SIGNATURE_LEN};

verus! {

/// Verdict on the JEDEC manufacturer byte of the external flash.
#[derive(Clone, Copy, Debug, PartialEq, Eq, Structural)]
pub enum JedecCheck {
    /// `0x00` or `0xFF`: no device answered.  Fatal.
    NoFlash,
    /// The one manufacturer this board ships with.
    Recognized,
    /// Some other manufacturer: an untrusted part.  Fatal.
    UnknownFlash,
}

/// Classifies the JEDEC manufacturer byte: all-zero and all-one answers mean
/// no device, `0x1F` is the trusted vendor, anything else is untrusted.
pub fn classify_jedec(mfr: u8) -> (r: JedecCheck)
    ensures
        r == JedecCheck::NoFlash <==> (mfr == 0x00 || mfr == 0xFF),
        r == JedecCheck::Recognized <==> mfr == 0x1F,
        r == JedecCheck::UnknownFlash <==> (mfr != 0x00 && mfr != 0xFF && mfr != 0x1F),
{
    if mfr == 0x00 || mfr == 0xFF {
        JedecCheck::NoFlash
    } else if mfr == 0x1F {
        JedecCheck::Recognized
    } else {
        JedecCheck::UnknownFlash
    }
}

/// Why the pipeline refused a candidate image.  Every kind here is non-fatal:
/// the previously installed image keeps booting.
#[derive(Clone, Copy, Debug, PartialEq, Eq, Structural)]
pub enum BootError {
    /// The metadata record failed the validity predicate.
    HeaderInvalid,
    /// The payload digest is on the revocation list.
    Blacklisted,
    /// Malformed scalars, malformed public key, or a failed curve check.
    SignatureInvalid,
}

/// What one reset's pipeline run decided and planned.
pub struct InstallOutcome {
    /// Whether the candidate was accepted and is to be installed.
    pub ok: bool,
    /// Why it was refused, when it was.
    pub error: Option<BootError>,
    /// The page writes to perform, in order; empty when refused.
    pub writes: Vec<PageWrite>,
}

/// The metadata record stored inside an image.
pub open spec fn spec_image_meta(image: Seq<u8>) -> FirmwareMeta {
    spec_parse_meta(image.subrange(FW_META_OFFSET as int, FW_META_OFFSET as int + 8))
}

/// The signed payload: everything before the trailing signature.
pub open spec fn spec_payload(image: Seq<u8>, fw_len: int) -> Seq<u8> {
    image.subrange(0, fw_len - FW_SIGNATURE_LEN)
}

/// The trailing signature: the image's last 64 declared bytes.
pub open spec fn spec_signature(image: Seq<u8>, fw_len: int) -> Seq<u8> {
    image.subrange(fw_len - FW_SIGNATURE_LEN, fw_len)
}

/// Whether a candidate image is to be installed: a valid header, a payload
/// digest off the revocation list, and a signature the curve accepts over
/// that same digest.
pub open spec fn spec_image_accepted(
    image: Seq<u8>,
    user_length: int,
    pubkey: Seq<u8>,
    blacklist: Seq<Seq<u8>>,
) -> bool {
    let m = spec_image_meta(image);
    let digest = sha256_of(spec_payload(image, m.fw_len as int));
    &&& meta_valid(m, user_length)
    &&& !spec_blacklisted(digest, blacklist)
    &&& ecdsa_p256_accepts(pubkey, digest, spec_signature(image, m.fw_len as int))
}

/// Runs the whole pipeline on a staged candidate image: parses and validates
/// the header, streams the payload through SHA-256, holds the digest against
/// the revocation list, verifies the signature, and plans the page-by-page
/// copy.  Exactly the accepted images yield a plan; every refusal names its
/// reason.
pub fn run_pipeline(
    image: &[u8],
    addr: &FlashAddr,
    pubkey: &[u8; 65],
    blacklist: &[[u8; 32]],
) -> (out: InstallOutcome)
    requires
        addr.wf(),
        image@.len() >= FW_META_OFFSET + 8,
        addr.user_length as int <= image@.len(),
    ensures
        ({
            let m = spec_image_meta(image@);
            let header_ok = meta_valid(m, addr.user_length as int);
            let digest = sha256_of(spec_payload(image@, m.fw_len as int));
            let revoked = spec_blacklisted(digest, blacklist_view(blacklist@));
            let accepted = ecdsa_p256_accepts(
                pubkey@,
                digest,
                spec_signature(image@, m.fw_len as int),
            );
            &&& out.ok == spec_image_accepted(
                image@,
                addr.user_length as int,
                pubkey@,
                blacklist_view(blacklist@),
            )
            &&& out.error == (if !header_ok {
                Some(BootError::HeaderInvalid)
            } else if revoked {
                Some(BootError::Blacklisted)
            } else if !accepted {
                Some(BootError::SignatureInvalid)
            } else {
                None::<BootError>
            })
            &&& !out.ok ==> out.writes@.len() == 0
            &&& out.ok ==> {
                &&& out.writes@.len() == page_count(m.fw_len as int)
                &&& forall|k: int|
                    0 <= k < out.writes@.len() ==> {
                        &&& (#[trigger] out.writes@[k]).page_index == addr.spec_user_page_base()
                            + k
                        &&& addr.page_in_user_region(out.writes@[k].page_index)
                        &&& out.writes@[k].data@ == spec_page_data(
                            image@,
                            m.fw_len as int,
                            k * (PAGE_SIZE as int),
                        )
                    }
            }
        }),
{
    let o = FW_META_OFFSET as usize;
    let buffer: [u8; 8] = [
        image[o],
        image[o + 1],
        image[o + 2],
        image[o + 3],
        image[o + 4],
        image[o + 5],
        image[o + 6],
        image[o + 7],
    ];
    proof {
        assert(buffer@ =~= image@.subrange(FW_META_OFFSET as int, FW_META_OFFSET as int + 8));
    }
    let meta = parse_meta(buffer);
    if !validate_meta(&meta, addr) {
        return InstallOutcome { ok: false, error: Some(BootError::HeaderInvalid), writes: Vec::new() };
    }
    let payload_len: usize = meta.fw_len as usize - FW_SIGNATURE_LEN;
    let hasher = hash_payload(image, payload_len);
    let sig_bytes = vstd::slice::slice_subrange(
        image,
        payload_len,
        payload_len + FW_SIGNATURE_LEN,
    );
    match verify_signature(hasher, sig_bytes, pubkey, blacklist) {
        Err(SignatureError::Blacklisted) => InstallOutcome {
            ok: false,
            error: Some(BootError::Blacklisted),
            writes: Vec::new(),
        },
        Err(SignatureError::Failed) => InstallOutcome {
            ok: false,
            error: Some(BootError::SignatureInvalid),
            writes: Vec::new(),
        },
        Ok(()) => {
            let writes = plan_install(image, meta.fw_len, addr);
            InstallOutcome { ok: true, error: None, writes }
        },
    }
}

/// One LED pulse: on for `on_ms`, then off for `off_ms`.
#[derive(Clone, Copy, Debug, PartialEq, Eq, Structural)]
pub struct Pulse {
    /// Milliseconds the LED stays lit.
    pub on_ms: u32,
    /// Milliseconds the LED stays dark before the next pulse.
    pub off_ms: u32,
}

/// The three human-visible signals the boot stage gives.
#[derive(Clone, Copy, Debug, PartialEq, Eq, Structural)]
pub enum LedSignal {
    /// An update is about to start: one long pulse.
    StartUpdate,
    /// The image was installed: two long pulses.
    InstallOk,
    /// The candidate was refused: three short pulses.
    InstallBad,
}

/// The pulse train for each signal: one 300 ms pulse for an update starting,
/// two 300 ms on / 600 ms off pulses for success, three 50 ms on / 40 ms off
/// pulses for failure.
pub fn signal_pulses(signal: LedSignal) -> (pulses: Vec<Pulse>)
    ensures
        signal == LedSignal::StartUpdate ==> pulses@ == seq![
            Pulse { on_ms: 300, off_ms: 0 },
        ],
        signal == LedSignal::InstallOk ==> pulses@ == seq![
            Pulse { on_ms: 300, off_ms: 600 },
            Pulse { on_ms: 300, off_ms: 600 },
        ],
        signal == LedSignal::InstallBad ==> pulses@ == seq![
            Pulse { on_ms: 50, off_ms: 40 },
            Pulse { on_ms: 50, off_ms: 40 },
            Pulse { on_ms: 50, off_ms: 40 },
        ],
{
    let mut pulses: Vec<Pulse> = Vec::new();
    match signal {
        LedSignal::StartUpdate => {
            pulses.push(Pulse { on_ms: 300, off_ms: 0 });
        },
        LedSignal::InstallOk => {
            pulses.push(Pulse { on_ms: 300, off_ms: 600 });
            pulses.push(Pulse { on_ms: 300, off_ms: 600 });
        },
        LedSignal::InstallBad => {
            pulses.push(Pulse { on_ms: 50, off_ms: 40 });
            pulses.push(Pulse { on_ms: 50, off_ms: 40 });
            pulses.push(Pulse { on_ms: 50, off_ms: 40 });
        },
    }
    proof {
        match signal {
            LedSignal::StartUpdate => {
                assert(pulses@ =~= seq![Pulse { on_ms: 300, off_ms: 0 }]);
            },
            LedSignal::InstallOk => {
                assert(pulses@ =~= seq![
                    Pulse { on_ms: 300, off_ms: 600 },
                    Pulse { on_ms: 300, off_ms: 600 },
                ]);
            },
            LedSignal::InstallBad => {
                assert(pulses@ =~= seq![
                    Pulse { on_ms: 50, off_ms: 40 },
                    Pulse { on_ms: 50, off_ms: 40 },
                    Pulse { on_ms: 50, off_ms: 40 },
                ]);
            },
        }
    }
    pulses
}

} // verus!
