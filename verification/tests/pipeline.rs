//! End-to-end runs of the installation pipeline on images built and signed
//! with the real curve and hash implementations.

use bootloader::layout::{FlashAddr, PAGE_SIZE};
use bootloader::meta::{pack_meta, FirmwareMeta};
use bootloader::hash::{absorb_payload_chunk, begin_payload_hash, HASH_CHUNK_SIZE};
use bootloader::install::{install_page_count, plan_page_write};
use bootloader::meta::{parse_meta, validate_meta};
use bootloader::pipeline::{classify_jedec, run_pipeline, BootError, JedecCheck};
use bootloader::sig::verify_signature;
use bootloader::{FW_META_OFFSET, FW_SIGNATURE_LEN};

use p256::ecdsa::signature::Signer;
use sha2::Digest;
use p256::ecdsa::{Signature, SigningKey};

const TEST_KEY: [u8; 32] = [0x01; 32];

fn test_layout() -> FlashAddr {
    FlashAddr { start: 0x0800_0000, user_start: 0x0800_2000, user_length: 1024 }
}

fn test_pubkey(sk: &SigningKey) -> [u8; 65] {
    let point = sk.verifying_key().to_sec1_point(false);
    point.as_bytes().try_into().unwrap()
}

/// Builds a signed image of total length `fw_len` inside a buffer of
/// `buf_len` bytes: a zero prelude, the header at `FW_META_OFFSET`, a payload
/// of `0x41` bytes, and the trailing signature over everything before it.
fn build_image(fw_len: u32, image_type: u16, extra_file_count: u16, buf_len: usize) -> (Vec<u8>, [u8; 65]) {
    let sk = SigningKey::from_slice(&TEST_KEY).unwrap();
    let mut image = vec![0u8; buf_len];
    let payload_len = fw_len as usize - FW_SIGNATURE_LEN;
    for b in image.iter_mut().take(payload_len).skip(FW_META_OFFSET as usize + 8) {
        *b = 0x41;
    }
    let header = pack_meta(&FirmwareMeta { image_type, extra_file_count, fw_len });
    image[FW_META_OFFSET as usize..FW_META_OFFSET as usize + 8].copy_from_slice(&header);
    let sig: Signature = sk.sign(&image[..payload_len]);
    image[payload_len..payload_len + FW_SIGNATURE_LEN].copy_from_slice(&sig.to_bytes());
    (image, test_pubkey(&sk))
}

#[test]
fn good_image_accepted() {
    let fw_len: u32 = FW_META_OFFSET + 8 + 504 + FW_SIGNATURE_LEN as u32;
    assert_eq!(fw_len, 768);
    let addr = test_layout();
    let (image, pubkey) = build_image(fw_len, 0x3801, 0, addr.user_length);
    let out = run_pipeline(&image, &addr, &pubkey, &[]);
    assert!(out.ok);
    assert!(out.error.is_none());
    assert_eq!(out.writes.len(), 6);
    let base = (addr.user_start - addr.start) / PAGE_SIZE;
    let mut installed: Vec<u8> = Vec::new();
    for (k, w) in out.writes.iter().enumerate() {
        assert_eq!(w.page_index, base + k as u32);
        assert_eq!(w.data.len(), PAGE_SIZE as usize);
        installed.extend_from_slice(&w.data);
    }
    assert_eq!(&installed[..], &image[..fw_len as usize]);
}

#[test]
fn partial_last_page_zero_padded() {
    let fw_len: u32 = FW_META_OFFSET + 8 + 500 + FW_SIGNATURE_LEN as u32;
    assert_eq!(fw_len, 764);
    let addr = test_layout();
    let (image, pubkey) = build_image(fw_len, 0x3801, 0, addr.user_length);
    let out = run_pipeline(&image, &addr, &pubkey, &[]);
    assert!(out.ok);
    assert_eq!(out.writes.len(), 6);
    let last = &out.writes[5].data;
    assert_eq!(&last[..124], &image[640..764]);
    assert_eq!(&last[124..], &[0u8; 4]);
}

#[test]
fn wrong_image_type_rejected() {
    let addr = test_layout();
    let (image, pubkey) = build_image(768, 0x0000, 0, addr.user_length);
    let out = run_pipeline(&image, &addr, &pubkey, &[]);
    assert!(!out.ok);
    assert_eq!(out.error, Some(BootError::HeaderInvalid));
    assert!(out.writes.is_empty());
}

#[test]
fn extra_files_rejected() {
    let addr = test_layout();
    let (image, pubkey) = build_image(768, 0x3801, 1, addr.user_length);
    let out = run_pipeline(&image, &addr, &pubkey, &[]);
    assert!(!out.ok);
    assert_eq!(out.error, Some(BootError::HeaderInvalid));
}

#[test]
fn tampered_payload_rejected() {
    let addr = test_layout();
    let (mut image, pubkey) = build_image(768, 0x3801, 0, addr.user_length);
    image[0x200] ^= 0x01;
    let out = run_pipeline(&image, &addr, &pubkey, &[]);
    assert!(!out.ok);
    assert_eq!(out.error, Some(BootError::SignatureInvalid));
    assert!(out.writes.is_empty());
}

#[test]
fn blacklisted_digest_rejected() {
    let addr = test_layout();
    let (image, pubkey) = build_image(768, 0x3801, 0, addr.user_length);
    let payload_len = 768 - FW_SIGNATURE_LEN;
    let digest: [u8; 32] = sha2::Sha256::digest(&image[..payload_len]).into();
    let blacklist = [digest];
    let out = run_pipeline(&image, &addr, &pubkey, &blacklist);
    assert!(!out.ok);
    assert_eq!(out.error, Some(BootError::Blacklisted));
    assert!(out.writes.is_empty());
}

#[test]
fn unrelated_blacklist_entry_ignored() {
    let addr = test_layout();
    let (image, pubkey) = build_image(768, 0x3801, 0, addr.user_length);
    let blacklist = [[0xEEu8; 32]];
    let out = run_pipeline(&image, &addr, &pubkey, &blacklist);
    assert!(out.ok);
    assert!(out.error.is_none());
}

#[test]
fn oversize_image_rejected() {
    let addr = test_layout();
    // Declared length one past the user region: refused at the header stage.
    let fw_len = addr.user_length as u32 + 1;
    let sk = SigningKey::from_slice(&TEST_KEY).unwrap();
    let mut image = vec![0u8; addr.user_length];
    let header = pack_meta(&FirmwareMeta { image_type: 0x3801, extra_file_count: 0, fw_len });
    image[FW_META_OFFSET as usize..FW_META_OFFSET as usize + 8].copy_from_slice(&header);
    let out = run_pipeline(&image, &addr, &test_pubkey(&sk), &[]);
    assert!(!out.ok);
    assert_eq!(out.error, Some(BootError::HeaderInvalid));
    assert!(out.writes.is_empty());
}

#[test]
fn signature_slack_bound_enforced() {
    let addr = test_layout();
    // The acceptance bound keeps a second signature's worth of slack:
    // fw_len + 64 must still fit the user region.
    let fw_len = addr.user_length as u32 - FW_SIGNATURE_LEN as u32 + 1;
    let (image, pubkey) = build_image(fw_len, 0x3801, 0, addr.user_length);
    let out = run_pipeline(&image, &addr, &pubkey, &[]);
    assert!(!out.ok);
    assert_eq!(out.error, Some(BootError::HeaderInvalid));
}

#[test]
fn zeroed_signature_rejected() {
    let addr = test_layout();
    let (mut image, pubkey) = build_image(768, 0x3801, 0, addr.user_length);
    let payload_len = 768 - FW_SIGNATURE_LEN;
    for b in image[payload_len..768].iter_mut() {
        *b = 0;
    }
    let out = run_pipeline(&image, &addr, &pubkey, &[]);
    assert!(!out.ok);
    assert_eq!(out.error, Some(BootError::SignatureInvalid));
}

#[test]
fn missing_flash_detected() {
    assert_eq!(classify_jedec(0xFF), JedecCheck::NoFlash);
    assert_eq!(classify_jedec(0x00), JedecCheck::NoFlash);
    assert_eq!(classify_jedec(0x1F), JedecCheck::Recognized);
    assert_eq!(classify_jedec(0xC2), JedecCheck::UnknownFlash);
}

/// Drives the stages as the device does — header, chunked hashing, signature,
/// then one page at a time — and checks the result against the one-shot run.
#[test]
fn streamed_stages_match_one_shot() {

    let fw_len: u32 = 764;
    let addr = test_layout();
    let (image, pubkey) = build_image(fw_len, 0x3801, 0, addr.user_length);

    // Header stage: 8 bytes.
    let header: [u8; 8] =
        image[FW_META_OFFSET as usize..FW_META_OFFSET as usize + 8].try_into().unwrap();
    let meta = parse_meta(header);
    assert_eq!(meta.fw_len, fw_len);
    assert!(validate_meta(&meta, &addr));

    // Hashing stage: one chunk at a time.
    let payload_len = (fw_len as usize) - FW_SIGNATURE_LEN;
    let mut hasher = begin_payload_hash();
    let mut offset = 0usize;
    while offset < payload_len {
        let len = (payload_len - offset).min(HASH_CHUNK_SIZE);
        absorb_payload_chunk(&mut hasher, &image[offset..offset + len]);
        offset += len;
    }

    // Signature stage: the trailing 64 bytes.
    let sig = &image[payload_len..payload_len + FW_SIGNATURE_LEN];
    assert!(verify_signature(hasher, sig, &pubkey, &[]).is_ok());

    // Copy stage: one page's bytes at a time.
    let one_shot = run_pipeline(&image, &addr, &pubkey, &[]);
    assert!(one_shot.ok);
    let total = install_page_count(fw_len);
    assert_eq!(total as usize, one_shot.writes.len());
    for k in 0..total {
        let start = (k * PAGE_SIZE) as usize;
        let len = (fw_len as usize - start).min(PAGE_SIZE as usize);
        let w = plan_page_write(&addr, fw_len, k, &image[start..start + len]);
        assert_eq!(w.page_index, one_shot.writes[k as usize].page_index);
        assert_eq!(w.data, one_shot.writes[k as usize].data);
    }
}

#[test]
fn chunked_hashing_accepts_odd_chunk_sizes() {

    let addr = test_layout();
    let (image, pubkey) = build_image(768, 0x3801, 0, addr.user_length);
    let payload_len = 768 - FW_SIGNATURE_LEN;

    // Feed the payload in uneven pieces: the hasher must only see the bytes.
    let mut hasher = begin_payload_hash();
    let mut offset = 0usize;
    for step in [1usize, 7, 64, 200, 131, 999] {
        let len = step.min(payload_len - offset);
        absorb_payload_chunk(&mut hasher, &image[offset..offset + len]);
        offset += len;
        if offset == payload_len {
            break;
        }
    }
    assert_eq!(offset, payload_len);
    let sig = &image[payload_len..768];
    assert!(verify_signature(hasher, sig, &pubkey, &[]).is_ok());
}
