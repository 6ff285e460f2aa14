use lunatic_distributed::protocol::{frame_body_len, frame_header, FRAME_HEADER_LEN};

#[test]
fn frame_header_is_the_length_in_little_endian() {
    assert_eq!(frame_header(0), Some(vec![0, 0, 0, 0]));
    assert_eq!(frame_header(0x0102_0304), Some(vec![4, 3, 2, 1]));
    assert_eq!(frame_header(u32::MAX as usize), Some(vec![0xFF; 4]));
    assert_eq!(FRAME_HEADER_LEN, 4);
}

#[test]
fn frame_header_of_a_body_that_is_too_long_is_refused() {
    if usize::BITS > 32 {
        assert_eq!(frame_header(u32::MAX as usize + 1), None);
        assert_eq!(frame_header(usize::MAX), None);
    }
}

#[test]
fn frame_body_len_reads_what_frame_header_wrote() {
    assert_eq!(frame_body_len(&[4, 3, 2, 1]), 0x0102_0304);
    assert_eq!(frame_body_len(&[0, 0, 0, 0]), 0);
    for n in [1usize, 255, 256, 65_536, 4_000_000_000] {
        let header = frame_header(n).unwrap();
        assert_eq!(frame_body_len(&[header[0], header[1], header[2], header[3]]), n);
    }
}
