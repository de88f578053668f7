//! The streaming reader: frame boundaries, faults, and overflow recovery.

use dsmr5::Reader;
use dsmr5::ReaderError;

fn build_frame(header: &str, lines: &[&str]) -> Vec<u8> {
    let mut v: Vec<u8> = Vec::new();
    v.extend_from_slice(header.as_bytes());
    v.extend_from_slice(b"\r\n\r\n");
    for l in lines {
        v.extend_from_slice(l.as_bytes());
        v.extend_from_slice(b"\r\n");
    }
    v.push(b'!');
    let crc = crc16::State::<crc16::ARC>::calculate(&v);
    v.extend_from_slice(format!("{:04X}", crc).as_bytes());
    v.extend_from_slice(b"\r\n");
    v
}

const LINES: &[&str] = &[
    "1-3:0.2.8(50)",
    "0-0:1.0.0(190320181403W)",
    "1-0:1.8.1(000576.239*kWh)",
];

fn ok_stream(bytes: &[u8]) -> Vec<Result<u8, u8>> {
    bytes.iter().map(|&b| Ok(b)).collect()
}

#[test]
fn reader() {
    let frame = build_frame("/ISK5\\2M550E-1012", LINES);
    let mut bytes: Vec<u8> = Vec::new();
    bytes.extend_from_slice(&frame);
    bytes.extend_from_slice(&frame);
    bytes.extend_from_slice(&frame);
    // Spool some bytes such that the stream starts inside the first frame.
    let mut reader = Reader::new(ok_stream(&bytes[10..]));

    // Instantiating telegrams forces CRC to be checked.
    let _t1 = reader.next().unwrap().unwrap().to_telegram().unwrap();
    let _t2 = reader.next().unwrap().unwrap().to_telegram().unwrap();

    // We only have two messages until the stream is terminated.
    assert!(reader.next().is_none());
}

#[test]
fn recover_from_overflow() {
    let frame = build_frame("/ISK5\\2M550E-1012", LINES);
    let mut bytes: Vec<u8> = Vec::new();
    bytes.extend_from_slice(&frame);
    // An oversized malformed frame: a start marker and no terminator for
    // longer than the readout capacity.
    bytes.push(b'/');
    bytes.extend_from_slice(&[b'x'; 3000]);
    bytes.extend_from_slice(&frame);

    let mut reader = Reader::new(ok_stream(&bytes));

    let t1 = reader.next();
    let t2 = reader.next();
    let t3 = reader.next();
    let t4 = reader.next();

    assert!(matches!(t1, Some(Ok(_))));
    assert!(matches!(t2, Some(Err(ReaderError::BufferOverFlow))));
    assert!(matches!(t3, Some(Ok(_))));
    assert!(t4.is_none());

    // The frame after the overflow is still extracted correctly: it passes
    // the checksum and carries the expected header.
    if let Some(Ok(readout)) = t3 {
        let telegram = readout.to_telegram().unwrap();
        assert_eq!(telegram.prefix, b"ISK".to_vec());
    } else {
        unreachable!();
    }
}

#[test]
fn source_fault_is_reported_and_skipped() {
    let frame = build_frame("/ISK5\\2M550E-1012", LINES);
    let mut stream: Vec<Result<u8, u8>> = vec![Ok(b'a'), Err(7)];
    stream.extend(frame.iter().map(|&b| Ok(b)));
    let mut reader = Reader::new(stream);

    let first = reader.next();
    assert!(matches!(first, Some(Err(ReaderError::IOError(7)))));
    let second = reader.next().unwrap().unwrap();
    assert!(second.to_telegram().is_ok());
    assert!(reader.next().is_none());
}

#[test]
fn truncated_frame_ends_the_sequence() {
    let frame = build_frame("/ISK5\\2M550E-1012", LINES);
    // Cut the frame before its terminator: the partial frame is dropped.
    let cut = &frame[..frame.len() - 10];
    let mut reader = Reader::new(ok_stream(cut));
    assert!(reader.next().is_none());
}
