use bytes::BytesMut;

use docs_sync::net::codec::{FrameError, SyncCodec, MAX_MESSAGE_SIZE};

fn parse(payload: &[u8]) -> Result<Vec<u8>, postcard::Error> {
    postcard::from_bytes(payload)
}

fn encode(items: &[u8]) -> BytesMut {
    let payload = postcard::to_stdvec(&items.to_vec()).unwrap();
    let mut frame = BytesMut::new();
    SyncCodec.encode(&payload, &mut frame).unwrap();
    frame
}

#[test]
fn a_frame_is_the_length_of_its_payload_and_the_payload() {
    let mut frame = BytesMut::new();
    SyncCodec.encode(&[9, 8, 7], &mut frame).unwrap();
    assert_eq!(&frame[..], &[0, 0, 0, 3, 9, 8, 7]);
    let mut empty = BytesMut::new();
    SyncCodec.encode(&[], &mut empty).unwrap();
    assert_eq!(&empty[..], &[0, 0, 0, 0]);
    let mut long = BytesMut::new();
    SyncCodec.encode(&[5; 0x0102], &mut long).unwrap();
    assert_eq!(&long[..5], &[0, 0, 1, 2, 5]);
    assert_eq!(long.len(), 4 + 0x0102);
}

#[test]
fn frames_are_decoded_in_the_order_they_were_sent() {
    let mut stream = BytesMut::new();
    stream.extend_from_slice(&encode(&[1, 2]));
    stream.extend_from_slice(&encode(&[]));
    stream.extend_from_slice(&encode(&[3; 300]));
    let mut codec = SyncCodec;
    assert_eq!(codec.decode(&mut stream, parse).unwrap(), Some(vec![1, 2]));
    assert_eq!(codec.decode(&mut stream, parse).unwrap(), Some(vec![]));
    assert_eq!(codec.decode(&mut stream, parse).unwrap(), Some(vec![3; 300]));
    assert!(stream.is_empty());
    assert_eq!(codec.decode(&mut stream, parse).unwrap(), None);
}

#[test]
fn a_frame_is_decoded_once_it_arrived_whole() {
    let frame = encode(&[1, 2, 3]);
    let mut codec = SyncCodec;
    for arrived in 0..frame.len() {
        let mut part = BytesMut::from(&frame[..arrived]);
        assert_eq!(codec.decode(&mut part, parse).unwrap(), None);
        assert_eq!(&part[..], &frame[..arrived]);
    }
    let mut more = frame.clone();
    more.extend_from_slice(&[0, 0]);
    assert_eq!(codec.decode(&mut more, parse).unwrap(), Some(vec![1, 2, 3]));
    assert_eq!(&more[..], &[0, 0]);
}

#[test]
fn a_frame_that_is_too_large_is_refused_by_its_head_alone() {
    let mut head = BytesMut::from(&[0x40, 0, 0, 1][..]);
    match SyncCodec.decode(&mut head, parse) {
        Err(FrameError::TooLarge { len }) => assert_eq!(len, MAX_MESSAGE_SIZE + 1),
        _ => panic!("the frame was not refused"),
    }
    assert_eq!(&head[..], &[0x40, 0, 0, 1]);
    let mut largest = BytesMut::from(&[0x40, 0, 0, 0][..]);
    assert_eq!(SyncCodec.decode(&mut largest, parse).unwrap(), None);
}

#[test]
fn a_frame_that_is_no_message_is_refused() {
    let mut frame = BytesMut::from(&[0, 0, 0, 4, 0xff, 0xff, 0xff, 0xff][..]);
    assert!(matches!(
        SyncCodec.decode(&mut frame, parse),
        Err(FrameError::Malformed(_))
    ));
    assert_eq!(frame.len(), 8);
}

#[test]
fn encoding_behind_other_bytes_overwrites_them_from_the_fifth_on() {
    let mut dst = BytesMut::from(&[1, 2, 3, 4, 5, 6, 7, 8, 9, 10][..]);
    SyncCodec.encode(&[0xaa, 0xbb], &mut dst).unwrap();
    assert_eq!(&dst[..], &[1, 2, 3, 4, 0xaa, 0xbb, 7, 8, 9, 10, 0, 0, 0, 2]);
    let mut short = BytesMut::from(&[1][..]);
    SyncCodec.encode(&[0xaa, 0xbb, 0xcc], &mut short).unwrap();
    assert_eq!(&short[..], &[1, 0, 0, 0, 0xaa, 0xbb, 0xcc]);
}

#[test]
fn a_buffer_with_room_is_encoded_into() {
    let mut dst = BytesMut::new();
    assert!(matches!(SyncCodec.try_encode(&[7], &mut dst), Some(Ok(()))));
    assert_eq!(&dst[..], &[0, 0, 0, 1, 7]);
}

#[test]
fn a_payload_that_is_too_large_is_not_sent() {
    let payload = vec![0u8; MAX_MESSAGE_SIZE + 1];
    let mut dst = BytesMut::from(&[1][..]);
    match SyncCodec.encode(&payload, &mut dst) {
        Err(FrameError::TooLarge { len }) => assert_eq!(len, MAX_MESSAGE_SIZE + 1),
        _ => panic!("the payload was not refused"),
    }
    assert_eq!(&dst[..], &[1]);
    assert!(matches!(
        SyncCodec.try_encode(&payload, &mut dst),
        Some(Err(FrameError::TooLarge { .. }))
    ));
}
