use ubx2rinex::decoder::{encode_frame, DecodeError, Decoder, UbxEvent};

fn frame(class: u8, id: u8, payload: &[u8]) -> Vec<u8> {
    encode_frame(class, id, &payload.to_vec())
}

#[test]
fn decodes_one_frame() {
    let mut d = Decoder::new();
    let bytes = frame(0x02, 0x15, &[1, 2, 3, 4]);
    let events = d.feed(&bytes);
    assert_eq!(events.len(), 1);
    match &events[0] {
        UbxEvent::Packet(f) => {
            assert_eq!(f.class, 0x02);
            assert_eq!(f.id, 0x15);
            assert_eq!(f.payload, vec![1, 2, 3, 4]);
        },
        UbxEvent::Error(_) => panic!("expected a frame"),
    }
}

#[test]
fn frame_layout_is_fixed() {
    // sync, class, id, little-endian length, payload, Fletcher checksum
    let bytes = frame(0x05, 0x01, &[0x06, 0x00]);
    assert_eq!(bytes[0], 0xB5);
    assert_eq!(bytes[1], 0x62);
    assert_eq!(bytes[2], 0x05);
    assert_eq!(bytes[3], 0x01);
    assert_eq!(bytes[4], 2);
    assert_eq!(bytes[5], 0);
    assert_eq!(&bytes[6..8], &[0x06, 0x00]);
    // checksum over class..payload: 05 01 02 00 06 00
    let mut a: u8 = 0;
    let mut b: u8 = 0;
    for &x in &bytes[2..8] {
        a = a.wrapping_add(x);
        b = b.wrapping_add(a);
    }
    assert_eq!(bytes[8], a);
    assert_eq!(bytes[9], b);
}

#[test]
fn resynchronizes_after_corrupted_frame() {
    // a corrupted frame embedded between two valid frames yields exactly one
    // decode error and both valid frames are still decoded
    let f1 = frame(0x02, 0x15, &[9, 9]);
    let mut corrupt = frame(0x02, 0x13, &[1, 2, 3]);
    let last = corrupt.len() - 1;
    corrupt[last] = corrupt[last].wrapping_add(1);
    let f2 = frame(0x01, 0x61, &[7]);

    let mut stream = Vec::new();
    stream.extend_from_slice(&f1);
    stream.extend_from_slice(&corrupt);
    stream.extend_from_slice(&f2);

    let mut d = Decoder::new();
    let events = d.feed(&stream);
    assert_eq!(events.len(), 3);
    assert!(matches!(&events[0], UbxEvent::Packet(f) if f.id == 0x15));
    assert!(matches!(&events[1], UbxEvent::Error(DecodeError::Checksum)));
    assert!(matches!(&events[2], UbxEvent::Packet(f) if f.id == 0x61));
}

#[test]
fn buffers_partial_frames_across_feeds() {
    let bytes = frame(0x02, 0x15, &[1, 2, 3, 4, 5, 6, 7, 8]);
    let mut d = Decoder::new();
    let first = d.feed(&bytes[..5].to_vec());
    assert_eq!(first.len(), 0);
    let second = d.feed(&bytes[5..].to_vec());
    assert_eq!(second.len(), 1);
    assert!(matches!(&second[0], UbxEvent::Packet(f) if f.payload.len() == 8));
}

#[test]
fn skips_leading_garbage_with_a_sync_loss() {
    let mut stream = vec![0x00, 0xFF, 0x17];
    stream.extend_from_slice(&frame(0x0A, 0x04, &[]));
    let mut d = Decoder::new();
    let events = d.feed(&stream);
    assert_eq!(events.len(), 2);
    assert!(matches!(&events[0], UbxEvent::Error(DecodeError::SyncLoss)));
    assert!(matches!(&events[1], UbxEvent::Packet(f) if f.class == 0x0A));
}

#[test]
fn ack_matching() {
    let ack = frame(0x05, 0x01, &[0x06, 0x08]);
    let mut d = Decoder::new();
    let events = d.feed(&ack);
    match &events[0] {
        UbxEvent::Packet(f) => {
            assert!(f.is_ack_for(0x06, 0x08));
            assert!(!f.is_ack_for(0x06, 0x01));
        },
        UbxEvent::Error(_) => panic!("expected a frame"),
    }
}

#[test]
fn zero_reads_yield_nothing() {
    let mut d = Decoder::new();
    let events = d.feed(&Vec::new());
    assert_eq!(events.len(), 0);
}

#[test]
fn full_queue_never_stalls_framing() {
    // best-effort queueing: a full collector queue drops the message, and
    // the decoder keeps framing subsequent valid packets
    let (tx, mut rx) = tokio::sync::mpsc::channel::<u8>(1);
    assert!(tx.try_send(1).is_ok());
    assert!(tx.try_send(2).is_err(), "the second send is dropped, not blocked");

    let mut d = Decoder::new();
    let mut stream = frame(0x02, 0x15, &[1]);
    stream.extend_from_slice(&frame(0x02, 0x15, &[2]));
    let events = d.feed(&stream);
    assert_eq!(events.len(), 2);
    assert!(events.iter().all(|e| matches!(e, UbxEvent::Packet(_))));

    assert_eq!(rx.try_recv().ok(), Some(1));
}
