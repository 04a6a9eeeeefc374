use flipper::mem::{decode_upload, upload_byte_count, MemEnd, MemType, RegWrite, XFB_VALUE};

fn le_words(words: &[u32]) -> Vec<u8> {
    let mut out = Vec::new();
    for w in words {
        out.extend_from_slice(&w.to_le_bytes());
    }
    out
}

fn plain(reg: usize, value: u32) -> RegWrite {
    RegWrite { reg, value, xfb_request: None }
}

#[test]
fn bp_upload_is_little_endian() {
    let bytes = [0x56, 0x34, 0x12, 0x00, 0x01, 0x00, 0x00, 0x00];
    let (writes, end) = decode_upload(MemType::Bp, 8, &bytes);
    assert_eq!(writes, vec![plain(0, 0x12_3456), plain(1, 1)]);
    assert_eq!(end, MemEnd::Done);
}

#[test]
fn bp_upload_rejects_wide_value() {
    let bytes = le_words(&[5, 0x0100_0000, 7]);
    let (writes, end) = decode_upload(MemType::Bp, 12, &bytes);
    assert_eq!(writes, vec![plain(0, 5)]);
    assert_eq!(end, MemEnd::InvalidValue);
}

#[test]
fn bp_upload_redirects_framebuffer_register() {
    let mut words = vec![0u32; 0x4d];
    words[0x4b] = 0x00ab_cdef;
    words[0x4c] = 3;
    let bytes = le_words(&words);
    let (writes, end) = decode_upload(MemType::Bp, bytes.len(), &bytes);
    assert_eq!(end, MemEnd::Done);
    assert_eq!(writes.len(), 0x4d);
    assert_eq!(
        writes[0x4b],
        RegWrite { reg: 0x4b, value: XFB_VALUE, xfb_request: Some(0x00ab_cdef << 5) }
    );
    assert_eq!(XFB_VALUE, 0x0177_4000 >> 5);
    assert_eq!(writes[0x4c], plain(0x4c, 3));
    assert_eq!(writes[0x4a], plain(0x4a, 0));
}

#[test]
fn cp_upload_accepts_full_words() {
    let bytes = le_words(&[0xffff_ffff, 0x0100_0000]);
    let (writes, end) = decode_upload(MemType::Cp, 8, &bytes);
    assert_eq!(writes, vec![plain(0, 0xffff_ffff), plain(1, 0x0100_0000)]);
    assert_eq!(end, MemEnd::Done);
}

#[test]
fn xf_regs_upload_starts_at_0x1000() {
    let bytes = le_words(&[10, 20, 30]);
    let (writes, end) = decode_upload(MemType::XfRegs, 12, &bytes);
    assert_eq!(writes, vec![plain(0x1000, 10), plain(0x1001, 20), plain(0x1002, 30)]);
    assert_eq!(end, MemEnd::Done);
}

#[test]
fn xf_upload_short_payload_is_truncated() {
    let bytes = le_words(&[1, 2]);
    let (writes, end) = decode_upload(MemType::Xf, 12, &bytes);
    assert_eq!(writes, vec![plain(0, 1), plain(1, 2)]);
    assert_eq!(end, MemEnd::Truncated);
}

#[test]
fn size_is_rounded_down_to_words() {
    let bytes = le_words(&[1, 2]);
    let (writes, end) = decode_upload(MemType::Cp, 7, &bytes);
    assert_eq!(writes, vec![plain(0, 1)]);
    assert_eq!(end, MemEnd::Done);
}

#[test]
fn texture_upload_is_ignored() {
    let (writes, end) = decode_upload(MemType::TexMem, 16, &[1, 2, 3]);
    assert!(writes.is_empty());
    assert_eq!(end, MemEnd::Done);
}

#[test]
fn unknown_memory_type_fails() {
    let (writes, end) = decode_upload(MemType::Unknown, 4, &[1, 2, 3, 4]);
    assert!(writes.is_empty());
    assert_eq!(end, MemEnd::UnknownType);
}

#[test]
fn upload_reads_whole_words_only() {
    assert_eq!(upload_byte_count(MemType::Bp, 7), 4);
    assert_eq!(upload_byte_count(MemType::XfRegs, 12), 12);
    assert_eq!(upload_byte_count(MemType::Cp, 3), 0);
    assert_eq!(upload_byte_count(MemType::TexMem, 16), 0);
    assert_eq!(upload_byte_count(MemType::Unknown, 16), 0);
}

#[test]
fn trailing_bytes_do_not_matter() {
    let exact = le_words(&[1, 2]);
    let mut longer = exact.clone();
    longer.extend_from_slice(&[0xff, 0xff, 0xff]);
    assert_eq!(decode_upload(MemType::Bp, 11, &exact), decode_upload(MemType::Bp, 11, &longer));
    assert_eq!(decode_upload(MemType::Bp, 11, &exact).1, MemEnd::Done);
}
