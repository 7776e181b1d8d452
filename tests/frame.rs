use rbc_node::frame::{
    body_length, frame, length_prefix, read_length_prefix, strip_length_prefix, FrameError,
    MAX_FRAME_LEN,
};

#[test]
fn frame_puts_big_endian_length_first() {
    let f = frame(&vec![104u8, 101, 108, 108, 111]).unwrap();
    assert_eq!(f, vec![0u8, 0, 0, 5, 104, 101, 108, 108, 111]);
}

#[test]
fn frame_of_empty_body_is_a_zero_header() {
    assert_eq!(frame(&Vec::new()).unwrap(), vec![0u8, 0, 0, 0]);
}

#[test]
fn frame_refuses_a_body_over_the_bound() {
    let body = vec![0u8; MAX_FRAME_LEN + 1];
    assert_eq!(frame(&body), Err(FrameError::FrameTooLarge));
}

#[test]
fn frame_accepts_a_body_at_the_bound() {
    let body = vec![7u8; MAX_FRAME_LEN];
    let f = frame(&body).unwrap();
    assert_eq!(f.len(), MAX_FRAME_LEN + 4);
    assert_eq!(&f[..4], &[1u8, 0, 0, 0]);
}

#[test]
fn length_prefix_round_trips() {
    for n in [0u32, 1, 255, 256, 65_535, 16_777_216, 0x0102_0304, u32::MAX] {
        let h = length_prefix(n);
        assert_eq!(h, n.to_be_bytes());
        assert_eq!(read_length_prefix(h), n);
    }
}

#[test]
fn read_length_prefix_is_big_endian() {
    assert_eq!(read_length_prefix([0x01, 0x02, 0x03, 0x04]), 0x0102_0304);
    assert_eq!(read_length_prefix([0, 0, 1, 0]), 256);
}

#[test]
fn body_length_bounds_the_header() {
    assert_eq!(body_length([0, 0, 0, 9]), Ok(9));
    assert_eq!(body_length([1, 0, 0, 0]), Ok(MAX_FRAME_LEN));
    assert_eq!(body_length([1, 0, 0, 1]), Err(FrameError::FrameTooLarge));
    assert_eq!(body_length([255, 255, 255, 255]), Err(FrameError::FrameTooLarge));
}

#[test]
fn strip_length_prefix_round_trips() {
    let bodies: Vec<Vec<u8>> = vec![vec![], vec![1], b"{\"Hello\":{\"node_id\":3}}".to_vec()];
    for body in bodies {
        let f = frame(&body).unwrap();
        assert_eq!(strip_length_prefix(&f), Ok(body));
    }
}

#[test]
fn strip_length_prefix_reports_short_frames() {
    assert_eq!(strip_length_prefix(&vec![0u8, 0, 0]), Err(FrameError::ShortRead));
    assert_eq!(strip_length_prefix(&vec![0u8, 0, 0, 3, 1, 2]), Err(FrameError::ShortRead));
}

#[test]
fn strip_length_prefix_reports_oversized_headers() {
    assert_eq!(strip_length_prefix(&vec![2u8, 0, 0, 0, 1]), Err(FrameError::FrameTooLarge));
}

#[test]
fn strip_length_prefix_leaves_what_follows_the_frame() {
    assert_eq!(strip_length_prefix(&vec![0u8, 0, 0, 2, 9, 8, 7]), Ok(vec![9u8, 8]));
}
