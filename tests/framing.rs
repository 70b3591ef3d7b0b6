use rc_stickynote::framing::{encode_frame, FrameError, FrameReader, MAX_FRAME_LEN};

#[test]
fn encodes_length_head_then_payload() {
    assert_eq!(encode_frame(b"hi"), Ok(vec![0, 0, 0, 2, b'h', b'i']));
    assert_eq!(encode_frame(b""), Ok(vec![0, 0, 0, 0]));
    let long = vec![7u8; 300];
    let framed = encode_frame(&long).unwrap();
    assert_eq!(&framed[..4], &[0, 0, 1, 44]);
    assert_eq!(framed.len(), 304);
}

#[test]
fn refuses_oversized_payload() {
    let big = vec![0u8; MAX_FRAME_LEN + 1];
    assert_eq!(encode_frame(&big), Err(FrameError::Oversized));
    let max = vec![0u8; MAX_FRAME_LEN];
    assert!(encode_frame(&max).is_ok());
}

#[test]
fn reader_waits_for_whole_frame() {
    let mut r = FrameReader::new();
    r.push(&[0, 0]);
    assert_eq!(r.next_frame(), Ok(None));
    r.push(&[0, 3, b'a']);
    assert_eq!(r.next_frame(), Ok(None));
    r.push(&[b'b', b'c', 0, 0]);
    assert_eq!(r.next_frame(), Ok(Some(b"abc".to_vec())));
    assert_eq!(r.next_frame(), Ok(None));
    assert_eq!(r.finish(), Err(FrameError::Truncated));
    r.push(&[0, 1, b'z']);
    assert_eq!(r.next_frame(), Ok(Some(b"z".to_vec())));
    assert_eq!(r.finish(), Ok(()));
}

#[test]
fn reader_splits_back_to_back_frames() {
    let mut bytes = encode_frame(b"one").unwrap();
    bytes.extend(encode_frame(b"two").unwrap());
    let mut r = FrameReader::new();
    r.push(&bytes);
    assert_eq!(r.next_frame(), Ok(Some(b"one".to_vec())));
    assert_eq!(r.next_frame(), Ok(Some(b"two".to_vec())));
    assert_eq!(r.next_frame(), Ok(None));
}

#[test]
fn reader_refuses_oversized_head() {
    let mut r = FrameReader::new();
    r.push(&[0, 0x80, 0, 1]);
    assert_eq!(r.next_frame(), Err(FrameError::Oversized));
}

#[test]
fn clean_end_of_stream() {
    let r = FrameReader::new();
    assert_eq!(r.finish(), Ok(()));
}
