use flipper::fifo::{decode_fifo, FifoEnd, FifoEvent, FIFO_XFB_VALUE};

#[test]
fn empty_stream_is_complete() {
    let (events, end) = decode_fifo(&[]);
    assert!(events.is_empty());
    assert_eq!(end, FifoEnd::Complete);
}

#[test]
fn operandless_commands() {
    let (events, end) = decode_fifo(&[0x00, 0x48, 0x33, 0x00]);
    assert_eq!(
        events,
        vec![
            FifoEvent::Nop,
            FifoEvent::InvalidateVertexCache,
            FifoEvent::Unknown { opcode: 0x33 },
            FifoEvent::Nop,
        ]
    );
    assert_eq!(end, FifoEnd::Complete);
}

#[test]
fn bp_load_splits_register_and_value() {
    let (events, end) = decode_fifo(&[0x61, 0x20, 0x12, 0x34, 0x56]);
    assert_eq!(events, vec![FifoEvent::Bp { reg: 0x20, value: 0x12_3456, patched: false }]);
    assert_eq!(end, FifoEnd::Complete);
}

#[test]
fn bp_framebuffer_load_is_patched() {
    let (events, end) = decode_fifo(&[0x61, 0x4b, 0xaa, 0xbb, 0xcc]);
    assert_eq!(events, vec![FifoEvent::Bp { reg: 0x4b, value: 0x00bb_a000, patched: true }]);
    assert_eq!(FIFO_XFB_VALUE, 0x1774_0000 >> 5);
    assert_eq!(end, FifoEnd::Complete);
}

#[test]
fn truncated_bp_load() {
    let (events, end) = decode_fifo(&[0x00, 0x61, 0x01, 0x02]);
    assert_eq!(events, vec![FifoEvent::Nop]);
    assert_eq!(end, FifoEnd::Truncated);
}

#[test]
fn xf_load_reads_num_plus_one_words() {
    let bytes = [
        0x10, 0x00, 0x01, 0x10, 0x00, 0xde, 0xad, 0xbe, 0xef, 0x01, 0x02, 0x03, 0x04, 0x48,
    ];
    let (events, end) = decode_fifo(&bytes);
    assert_eq!(
        events,
        vec![
            FifoEvent::XfHeader { count: 2, start_reg: 0x1000 },
            FifoEvent::XfWord { data: 0xdead_beef },
            FifoEvent::XfWord { data: 0x0102_0304 },
            FifoEvent::InvalidateVertexCache,
        ]
    );
    assert_eq!(end, FifoEnd::Complete);
}

#[test]
fn truncated_xf_load_keeps_header_and_read_words() {
    let bytes = [0x10, 0x00, 0x02, 0x00, 0x05, 0x00, 0x00, 0x00, 0x07, 0x00, 0x00];
    let (events, end) = decode_fifo(&bytes);
    assert_eq!(
        events,
        vec![FifoEvent::XfHeader { count: 3, start_reg: 5 }, FifoEvent::XfWord { data: 7 }]
    );
    assert_eq!(end, FifoEnd::Truncated);
}

#[test]
fn truncated_xf_header() {
    let (events, end) = decode_fifo(&[0x10, 0x00, 0x01, 0x10]);
    assert!(events.is_empty());
    assert_eq!(end, FifoEnd::Truncated);
}

#[test]
fn xf_count_overflow() {
    let (events, end) = decode_fifo(&[0x00, 0x10, 0xff, 0xff, 0x00, 0x00, 0x01, 0x02, 0x03, 0x04]);
    assert_eq!(events, vec![FifoEvent::Nop]);
    assert_eq!(end, FifoEnd::CountOverflow);
}

#[test]
fn draw_triangles_reads_vertex_pairs() {
    let (events, end) = decode_fifo(&[0x90, 0x00, 0x02, 0x01, 0x02, 0x03, 0x04]);
    assert_eq!(
        events,
        vec![
            FifoEvent::DrawHeader { vertices: 2 },
            FifoEvent::Vertex { a: 1, b: 2 },
            FifoEvent::Vertex { a: 3, b: 4 },
        ]
    );
    assert_eq!(end, FifoEnd::Complete);
}

#[test]
fn draw_with_zero_vertices() {
    let (events, end) = decode_fifo(&[0x90, 0x00, 0x00, 0x00]);
    assert_eq!(events, vec![FifoEvent::DrawHeader { vertices: 0 }, FifoEvent::Nop]);
    assert_eq!(end, FifoEnd::Complete);
}

#[test]
fn truncated_draw_keeps_whole_pairs() {
    let (events, end) = decode_fifo(&[0x90, 0x00, 0x02, 0x01, 0x02, 0x03]);
    assert_eq!(
        events,
        vec![FifoEvent::DrawHeader { vertices: 2 }, FifoEvent::Vertex { a: 1, b: 2 }]
    );
    assert_eq!(end, FifoEnd::Truncated);
}

#[test]
fn concatenated_streams_decode_piecewise() {
    let a = vec![0x61, 0x4b, 0, 0, 1, 0x10, 0x00, 0x00, 0x00, 0x08, 1, 2, 3, 4];
    let b = vec![0x90, 0x00, 0x01, 9, 8, 0x61, 0x01];
    let mut ab = a.clone();
    ab.extend_from_slice(&b);
    let (ea, end_a) = decode_fifo(&a);
    let (eb, end_b) = decode_fifo(&b);
    let (eab, end_ab) = decode_fifo(&ab);
    assert_eq!(end_a, FifoEnd::Complete);
    let mut expected = ea.clone();
    expected.extend_from_slice(&eb);
    assert_eq!(eab, expected);
    assert_eq!(end_ab, end_b);
    assert_eq!(end_ab, FifoEnd::Truncated);
}

#[test]
fn every_bp_event_fits_24_bits() {
    let bytes = [0x61, 0xff, 0xff, 0xff, 0xff, 0x61, 0x4b, 0xff, 0xff, 0xff];
    let (events, end) = decode_fifo(&bytes);
    assert_eq!(end, FifoEnd::Complete);
    assert_eq!(
        events,
        vec![
            FifoEvent::Bp { reg: 0xff, value: 0xff_ffff, patched: false },
            FifoEvent::Bp { reg: 0x4b, value: FIFO_XFB_VALUE, patched: true },
        ]
    );
}
