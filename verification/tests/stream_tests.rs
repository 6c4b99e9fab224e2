use rusty_visio_parser::parser_vsd::vsdinternal_stream::encode_literals;
use rusty_visio_parser::parser_vsd::vsdinternal_stream::SeekFrom;
use rusty_visio_parser::parser_vsd::vsdinternal_stream::VSDInternalStream;

fn decoded(input: &[u8]) -> Vec<u8> {
    VSDInternalStream::new(input, input.len(), true).as_slice().to_vec()
}

#[test]
fn test_stream_operations() {
    let data = vec![1, 2, 3, 4, 5];
    let mut stream = VSDInternalStream::new(&data, data.len(), false);

    let mut buf = [0; 3];
    assert_eq!(stream.read(&mut buf), 3);
    assert_eq!(buf, [1, 2, 3]);

    assert_eq!(stream.seek(SeekFrom::Start(1)), 1);
    assert_eq!(stream.read(&mut buf), 3);
    assert_eq!(buf, [2, 3, 4]);

    assert!(!stream.is_end());
    stream.seek(SeekFrom::End(0));
    assert!(stream.is_end());
}

#[test]
fn uncompressed_chunk_is_a_copy() {
    let data = vec![10u8, 20, 30, 40];
    let stream = VSDInternalStream::new(&data, 4, false);
    assert_eq!(stream.as_slice(), &[10, 20, 30, 40]);
    assert_eq!(stream.get_size(), 4);
    assert_eq!(stream.tell(), 0);
}

#[test]
fn uncompressed_chunk_takes_no_more_than_its_size() {
    let data = vec![10u8, 20, 30, 40];
    let stream = VSDInternalStream::new(&data, 3, false);
    assert_eq!(stream.as_slice(), &[10, 20, 30]);
}

#[test]
fn short_source_shortens_the_chunk() {
    let data = vec![10u8, 20, 30];
    let stream = VSDInternalStream::new(&data, 1000, false);
    assert_eq!(stream.as_slice(), &[10, 20, 30]);
}

#[test]
fn fewer_than_two_bytes_make_an_empty_chunk() {
    assert_eq!(VSDInternalStream::new(&[], 10, true).get_size(), 0);
    assert_eq!(VSDInternalStream::new(&[7], 10, true).get_size(), 0);
    assert_eq!(VSDInternalStream::new(&[], 10, false).get_size(), 0);
    assert_eq!(VSDInternalStream::new(&[7], 10, false).get_size(), 0);
    assert_eq!(VSDInternalStream::new(&[7, 8, 9], 1, true).get_size(), 0);
    assert_eq!(VSDInternalStream::new(&[7, 8, 9], 0, false).get_size(), 0);
    assert_eq!(VSDInternalStream::decompress_buffer(&[]).get_size(), 0);
    assert_eq!(VSDInternalStream::decompress_buffer(&[7]).get_size(), 0);
}

#[test]
fn literals_are_copied() {
    assert_eq!(decoded(&[0xFF, 1, 2, 3]), vec![1, 2, 3]);
    assert_eq!(decoded(&[0x07, 9]), vec![9]);
}

#[test]
fn flag_bits_are_read_from_the_lowest() {
    // bit 0 clear: a back-reference into the empty window; bit 1 set: a literal;
    // bit 2 clear: a back-reference that the input ends in.
    assert_eq!(decoded(&[0x02, 0xEE, 0xF0, 0x41, 0x99]), vec![0, 0, 0, 0x41]);
}

#[test]
fn truncated_back_reference_is_dropped() {
    assert_eq!(decoded(&[0x00, 0xEE]), Vec::<u8>::new());
}

#[test]
fn back_references_copy_from_the_seeded_window() {
    let input: Vec<u8> = vec![
        255, 65, 66, 67, 68, 69, 70, 71, 72, 0, 238, 240, 242, 241, 246, 240, 238, 255, 245, 240,
        240, 242, 237, 240, 18, 3,
    ];
    let expected: Vec<u8> = vec![
        65, 66, 67, 68, 69, 70, 71, 72, 65, 66, 67, 69, 70, 71, 72, 65, 66, 67, 65, 66, 67, 68, 69,
        70, 71, 72, 65, 66, 67, 69, 70, 71, 72, 65, 66, 67, 72, 65, 66, 67, 68, 69, 70, 71, 0, 65,
        66, 72, 65, 66, 67, 68, 69,
    ];
    assert_eq!(decoded(&input), expected);
}

#[test]
fn back_reference_may_read_what_it_writes() {
    // one literal, then eighteen bytes copied from the slot of that literal
    assert_eq!(decoded(&[0x01, 0x5A, 0xEE, 0xFF]), vec![0x5A; 19]);
}

#[test]
fn back_reference_length_and_offsets() {
    // stored pointer 0: slot 18, which holds the last literal and is read
    // again as the copy runs on; stored pointer 4079: slot 1
    let mut input: Vec<u8> = vec![0xFF];
    input.extend_from_slice(&[1, 2, 3, 4, 5, 6, 7, 8]);
    input.push(0xFF);
    input.extend_from_slice(&[9, 10, 11, 12, 13, 14, 15, 16]);
    input.push(0x07);
    input.extend_from_slice(&[17, 18, 19]);
    input.extend_from_slice(&[0x00, 0x00, 0xEF, 0xF1]);
    let out = decoded(&input);
    assert_eq!(out.len(), 19 + 3 + 4);
    assert_eq!(&out[19..22], &[19, 19, 19]);
    assert_eq!(&out[22..26], &[2, 3, 4, 5]);
}

#[test]
fn window_wraps_after_4096_bytes() {
    let data: Vec<u8> = (0..5000u32).map(|i| (i % 251) as u8).collect();
    let mut input = encode_literals(&data);
    // slot 0 now holds byte 4096 of the output, slot 1000 still byte 1000
    input.push(0x00);
    input.extend_from_slice(&[0xEE, 0xF0]);
    input.extend_from_slice(&[0xD6, 0x31]);
    let out = decoded(&input);
    assert_eq!(out.len(), 5000 + 3 + 4);
    assert_eq!(&out[5000..5003], &[80, 81, 82]);
    assert_eq!(&out[5003..5007], &[247, 248, 249, 250]);
}

#[test]
fn literal_encoding_has_a_flag_byte_for_every_eight_bytes() {
    assert_eq!(encode_literals(&[]), Vec::<u8>::new());
    assert_eq!(encode_literals(&[5]), vec![0xFF, 5]);
    assert_eq!(
        encode_literals(&[1, 2, 3, 4, 5, 6, 7, 8, 9]),
        vec![0xFF, 1, 2, 3, 4, 5, 6, 7, 8, 0xFF, 9]
    );
}

#[test]
fn decompression_inverts_the_literal_encoding() {
    let samples: Vec<Vec<u8>> = vec![
        vec![],
        vec![0],
        vec![1, 2, 3],
        (0..8u8).collect(),
        (0..9u8).collect(),
        (0..=255u8).collect(),
        (0..10000u32).map(|i| (i * 7 % 256) as u8).collect(),
    ];
    for data in samples {
        let encoded = encode_literals(&data);
        let stream = VSDInternalStream::new(&encoded, encoded.len(), true);
        assert_eq!(stream.as_slice(), &data[..]);
    }
}

#[test]
fn read_stops_at_the_end() {
    let data = vec![1u8, 2, 3, 4, 5];
    let mut stream = VSDInternalStream::new(&data, 5, false);
    let mut buf = [9u8; 4];
    assert_eq!(stream.read(&mut buf), 4);
    assert_eq!(buf, [1, 2, 3, 4]);
    assert_eq!(stream.read(&mut buf), 1);
    assert_eq!(buf, [5, 2, 3, 4]);
    assert_eq!(stream.tell(), 5);
    assert_eq!(stream.read(&mut buf), 0);
    assert_eq!(buf, [5, 2, 3, 4]);
    let mut none: [u8; 0] = [];
    assert_eq!(stream.read(&mut none), 0);
}

#[test]
fn seek_clamps_to_the_buffer() {
    let data = vec![1u8, 2, 3, 4, 5];
    let mut stream = VSDInternalStream::new(&data, 5, false);
    assert_eq!(stream.seek(SeekFrom::Start(3)), 3);
    assert_eq!(stream.seek(SeekFrom::Start(99)), 5);
    assert_eq!(stream.seek(SeekFrom::Start(u64::MAX)), 5);
    assert_eq!(stream.seek(SeekFrom::End(-2)), 3);
    assert_eq!(stream.seek(SeekFrom::End(-9)), 0);
    assert_eq!(stream.seek(SeekFrom::End(4)), 5);
    assert_eq!(stream.seek(SeekFrom::End(i64::MIN)), 0);
    assert_eq!(stream.seek(SeekFrom::Start(2)), 2);
    assert_eq!(stream.seek(SeekFrom::Current(2)), 4);
    assert_eq!(stream.seek(SeekFrom::Current(-3)), 1);
    assert_eq!(stream.seek(SeekFrom::Current(-3)), 0);
    assert_eq!(stream.seek(SeekFrom::Current(i64::MAX)), 5);
    assert_eq!(stream.seek(SeekFrom::Current(i64::MIN)), 0);
    assert_eq!(stream.tell(), 0);
}
