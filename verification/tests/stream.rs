use dji_referee::gentrans::buff::RobotBuff;
use dji_referee::gentrans::result::{GameResult, Winner};
use dji_referee::tasks::pictrans::{data_process, CustomRobotData, PicTransRx, RxEvent};
use dji_referee::tasks::rxbuf::RxBytes;
use dji_referee::{DjiValidator, Error, Marshaler, Messager};

fn frame_of<M: Marshaler>(seq: u8, msg: &M) -> Vec<u8> {
    let mut m: Messager<DjiValidator> = Messager::new(seq);
    let mut buf = [0u8; 64];
    let n = m.pack(msg, &mut buf).unwrap();
    buf[..n].to_vec()
}

#[test]
fn sequence_advances_and_wraps() {
    let msg = GameResult { winner: Winner::Red };
    let mut m: Messager<DjiValidator> = Messager::new(254);
    let mut buf = [0u8; 16];
    assert_eq!(m.pack(&msg, &mut buf), Ok(10));
    assert_eq!(buf[3], 254);
    m.pack(&msg, &mut buf).unwrap();
    assert_eq!(buf[3], 255);
    m.pack(&msg, &mut buf).unwrap();
    assert_eq!(buf[3], 0);
    let (f, n) = m.unpack(&buf).unwrap();
    assert_eq!(n, 10);
    assert_eq!(f.sequence(), 0);
    assert_eq!(f.cmd_id(), 0x0002);
    assert_eq!(f.payload(), &[1u8][..]);
}

#[test]
fn failed_pack_keeps_sequence() {
    let msg = RobotBuff {
        recovery_rate: 1,
        colling_value: 2,
        defence_rate: 3,
        vulnerablity_rate: 4,
        attack_rate: 5,
        remain_energy: 6,
    };
    let mut m: Messager<DjiValidator> = Messager::new(9);
    let mut tiny = [0xEEu8; 6];
    assert_eq!(m.pack(&msg, &mut tiny), Err(Error::BufferTooSmall { need: 7 }));
    assert_eq!(tiny, [0xEE; 6]);
    let mut short = [0xEEu8; 16];
    // Payload fits after the header, the tail CRC does not: the header
    // bytes stay, the marshaled payload is left after them.
    assert_eq!(m.pack(&msg, &mut short), Err(Error::BufferTooSmall { need: 1 }));
    assert_eq!(short[..7], [0xEE; 7]);
    assert_eq!(short[7..15], [1, 2, 0, 3, 4, 5, 0, 6]);
    assert_eq!(short[15], 0xEE);
    let mut ok = [0u8; 17];
    assert_eq!(m.pack(&msg, &mut ok), Ok(17));
    assert_eq!(ok[3], 9);
    let mut wrap: Messager<DjiValidator> = Messager::new(0xFF);
    assert_eq!(wrap.pack(&msg, &mut ok), Ok(17));
    assert_eq!(ok[3], 0xFF);
    assert!(wrap.pack(&msg, &mut tiny).is_err());
    assert_eq!(wrap.pack(&msg, &mut ok), Ok(17));
    assert_eq!(ok[3], 0x00);
}

#[test]
fn unpack_with_trailing_bytes() {
    let msg = GameResult { winner: Winner::Blue };
    let mut bytes = frame_of(3, &msg);
    let len = bytes.len();
    bytes.extend_from_slice(&[0xA5, 0x00, 0x42]);
    let m: Messager<DjiValidator> = Messager::new(0);
    let (f, n) = m.unpack(&bytes).unwrap();
    assert_eq!(n, len);
    assert_eq!(GameResult::unmarshal(f.payload()), Ok(msg));
}

#[test]
fn unpack_errors() {
    let m: Messager<DjiValidator> = Messager::new(0);
    assert_eq!(m.unpack(&[]).err(), Some(Error::MissingHeader { skip: 0 }));
    assert_eq!(m.unpack(&[1, 2, 0xA5, 3]).err(), Some(Error::ReSync { skip: 2 }));
    assert_eq!(m.unpack(&[0xA5, 1, 0]).err(), Some(Error::UnexpectedEnd { read: 3 }));
    let bytes = frame_of(0, &GameResult { winner: Winner::Draw });
    assert_eq!(m.unpack(&bytes[..9]).err(), Some(Error::UnexpectedEnd { read: 9 }));
    assert_eq!(Error::ReSync { skip: 2 }.skip(), 2);
    assert_eq!(Error::InvalidChecksum { at: 14 }.skip(), 1);
    assert_eq!(Error::UnexpectedEnd { read: 9 }.skip(), 0);
    assert_eq!(Error::DecodeError { at: 4 }.skip(), 4);
}

#[test]
fn error_messages() {
    assert_eq!(
        Error::BufferTooSmall { need: 12 }.message(),
        "Insufficient buffer, need 12 bytes at least"
    );
    assert_eq!(
        Error::InputTooLarge { max: 65535 }.message(),
        "Input size exceeds maximum allowed size of 65535 bytes"
    );
    assert_eq!(Error::MissingHeader { skip: 0 }.message(), "Missing header at offset 0");
    assert_eq!(
        Error::ReSync { skip: 3 }.message(),
        "Stream requires resynchronization, skipped 3 bytes"
    );
    assert_eq!(Error::EncodeError { inner: 7 }.message(), "Failed to encode message: 7");
    assert_eq!(
        Error::InvalidDataLength { expected: 100 }.message(),
        "Invalid data length, expected 100 bytes"
    );
}

#[test]
fn custom_data_codec() {
    let d = CustomRobotData::<5> { data: [1, 2, 3, 4, 5] };
    let mut buf = [0u8; 5];
    assert_eq!(d.marshal(&mut buf), Ok(5));
    assert_eq!(CustomRobotData::<5>::unmarshal(&buf), Ok(d));
    let mut small = [0u8; 3];
    assert_eq!(d.marshal(&mut small), Err(Error::BufferTooSmall { need: 2 }));
    assert_eq!(
        CustomRobotData::<5>::unmarshal(&buf[..4]),
        Err(Error::InvalidDataLength { expected: 5 })
    );
}

#[test]
fn data_process_takes_one_frame() {
    let d = CustomRobotData::<5> { data: [9, 8, 7, 6, 5] };
    let mut bytes = vec![0x00, 0x01];
    bytes.extend(frame_of(1, &d));
    let mut src = RxBytes::from_slice(&bytes).unwrap();
    // Junk before the frame: resynchronise first.
    assert_eq!(data_process::<5>(&mut src), None);
    assert_eq!(src.as_slice().len(), 14);
    assert_eq!(data_process::<5>(&mut src), Some(d));
    assert!(src.as_slice().is_empty());
    // A frame of another command is consumed without a message.
    let mut other = RxBytes::from_slice(&frame_of(0, &GameResult { winner: Winner::Red })).unwrap();
    assert_eq!(data_process::<5>(&mut other), None);
    assert!(other.as_slice().is_empty());
    // Bytes without a marker are all dropped.
    let mut junk = RxBytes::from_slice(&[1, 2, 3]).unwrap();
    assert_eq!(data_process::<5>(&mut junk), None);
    assert!(junk.as_slice().is_empty());
    // A partial frame stays until the rest arrives.
    let frame = frame_of(2, &d);
    let mut part = RxBytes::from_slice(&frame[..6]).unwrap();
    assert_eq!(data_process::<5>(&mut part), None);
    assert_eq!(part.as_slice(), &frame[..6]);
}

#[test]
fn rx_bytes_capacity() {
    assert!(RxBytes::from_slice(&[0u8; 128]).is_some());
    assert!(RxBytes::from_slice(&[0u8; 129]).is_none());
    assert!(RxBytes::new().as_slice().is_empty());
}

#[test]
fn pictrans_receiver() {
    let d = CustomRobotData::<5> { data: [1, 1, 2, 3, 5] };
    let frame = frame_of(0, &d);
    let mut rx = PicTransRx::new();
    match rx.on_chunk(&frame[..6]) {
        RxEvent::Processed(None) => {}
        e => panic!("unexpected {:?}", e),
    }
    match rx.on_chunk(&frame[6..]) {
        RxEvent::Processed(Some(x)) => assert_eq!(x, d),
        e => panic!("unexpected {:?}", e),
    }
    assert!(rx.buffered().is_empty());
    match rx.on_chunk(&[]) {
        RxEvent::Idle => {}
        e => panic!("unexpected {:?}", e),
    }
    match rx.on_chunk(&frame[..3]) {
        RxEvent::Processed(None) => {}
        e => panic!("unexpected {:?}", e),
    }
    assert_eq!(rx.buffered(), &frame[..3]);
    match rx.on_chunk(&[0u8; 126]) {
        RxEvent::Overflow => {}
        e => panic!("unexpected {:?}", e),
    }
    assert!(rx.buffered().is_empty());
    match rx.on_chunk(&[0u8; 129]) {
        RxEvent::Overflow => {}
        e => panic!("unexpected {:?}", e),
    }
}
