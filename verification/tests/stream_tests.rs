use sdf_sonar::{
    decode_stream, take_sys3000_sample, Channel, DataPageHeader, DecodeError,
    System3000DataChannels, System3000Sample, HEADER_LEN,
};

fn zero_header() -> DataPageHeader {
    let zeros: Vec<u8> = vec![0; HEADER_LEN];
    DataPageHeader::parse(&zeros).unwrap().1
}

fn ping(number: u32) -> System3000Sample {
    let mut header = zero_header();
    header.ping_number = number;
    header.ship_lat = (0.01 * number as f64).to_bits();
    System3000Sample {
        post_marker_counter: 1000 + number,
        header,
        data: System3000DataChannels {
            portlf: vec![number as u16; number as usize],
            stbdlf: vec![],
            porthf: vec![1, 2, 3],
            stbdhf: vec![],
            sbp: vec![number; 2],
        },
    }
}

#[test]
fn one_ping_is_marker_counter_header_arrays() {
    let p = ping(2);
    let bytes = p.encode().unwrap();
    assert_eq!(bytes.len(), 4 + 4 + 512 + (2 + 4) + 2 + (2 + 6) + 2 + (4 + 8));
    assert_eq!(&bytes[0..4], &[0xFFu8; 4][..]);
    assert_eq!(&bytes[4..8], &1002u32.to_le_bytes()[..]);
    assert_eq!(&bytes[8..520], &p.header.encode()[..]);
    assert_eq!(&bytes[520..], &p.data.encode().unwrap()[..]);
}

#[test]
fn sample_round_trip() {
    let p = ping(5);
    let mut bytes = p.encode().unwrap();
    bytes.extend_from_slice(&[0x10, 0x20]);
    let (rest, back) = take_sys3000_sample(&bytes).unwrap();
    assert_eq!(back, p);
    assert_eq!(back.post_marker_counter, 1005);
    assert_eq!(rest, &[0x10u8, 0x20][..]);
}

#[test]
fn sample_after_leading_bytes() {
    let p = ping(1);
    let mut bytes: Vec<u8> = vec![0x00, 0x01, 0xFF, 0x02];
    bytes.extend(p.encode().unwrap());
    let (rest, back) = take_sys3000_sample(&bytes).unwrap();
    assert_eq!(back, p);
    assert!(rest.is_empty());
}

#[test]
fn sample_stages_fail_in_order() {
    let bytes = ping(3).encode().unwrap();
    // No marker at all.
    assert_eq!(
        take_sys3000_sample(&bytes[4..300]).map(|_| ()),
        Err(DecodeError::FramingError)
    );
    // Marker and counter, then too little for a header.
    assert_eq!(
        take_sys3000_sample(&bytes[..8]).map(|_| ()),
        Err(DecodeError::TruncatedHeaderError)
    );
    assert_eq!(
        take_sys3000_sample(&bytes[..519]).map(|_| ()),
        Err(DecodeError::TruncatedHeaderError)
    );
    // The header is whole, the first array is not.
    assert_eq!(
        take_sys3000_sample(&bytes[..520]).map(|_| ()),
        Err(DecodeError::TruncatedChannelError { channel: Channel::PortLowFrequency })
    );
    // All but the last byte.
    assert_eq!(
        take_sys3000_sample(&bytes[..bytes.len() - 1]).map(|_| ()),
        Err(DecodeError::TruncatedChannelError { channel: Channel::SubBottomProfiler })
    );
}

#[test]
fn empty_recording_holds_no_ping() {
    assert_eq!(decode_stream(&[]), Ok(vec![]));
}

#[test]
fn pings_come_out_in_the_order_of_the_bytes() {
    let pings: Vec<System3000Sample> = vec![ping(4), ping(0), ping(9), ping(2), ping(2)];
    let mut bytes: Vec<u8> = Vec::new();
    for p in &pings {
        bytes.extend(p.encode().unwrap());
    }
    let back = decode_stream(&bytes).unwrap();
    assert_eq!(back.len(), 5);
    assert_eq!(back, pings);
    let numbers: Vec<u32> = back.iter().map(|p| p.header.ping_number).collect();
    assert_eq!(numbers, vec![4, 0, 9, 2, 2]);
}

#[test]
fn many_pings_in_one_recording() {
    let mut bytes: Vec<u8> = Vec::new();
    for k in 0..50u32 {
        bytes.extend(ping(k).encode().unwrap());
    }
    let back = decode_stream(&bytes).unwrap();
    assert_eq!(back.len(), 50);
    for (k, p) in back.iter().enumerate() {
        assert_eq!(*p, ping(k as u32));
    }
}

#[test]
fn bytes_between_pings_are_passed_over() {
    let mut bytes: Vec<u8> = vec![0x12, 0x34];
    bytes.extend(ping(1).encode().unwrap());
    bytes.extend_from_slice(&[0x00, 0xFF, 0xFF, 0x00]);
    bytes.extend(ping(2).encode().unwrap());
    let back = decode_stream(&bytes).unwrap();
    assert_eq!(back, vec![ping(1), ping(2)]);
}

#[test]
fn bytes_after_the_last_ping_fail_the_whole_decode() {
    let mut bytes = ping(1).encode().unwrap();
    bytes.extend(ping(2).encode().unwrap());
    bytes.push(0x00);
    assert_eq!(decode_stream(&bytes), Err(DecodeError::FramingError));
}

#[test]
fn a_cut_recording_fails_the_whole_decode() {
    let mut bytes = ping(1).encode().unwrap();
    let second = ping(2).encode().unwrap();
    bytes.extend_from_slice(&second[..100]);
    assert_eq!(decode_stream(&bytes), Err(DecodeError::TruncatedHeaderError));
    let mut bytes = ping(1).encode().unwrap();
    bytes.extend_from_slice(&second[..second.len() - 3]);
    assert_eq!(
        decode_stream(&bytes),
        Err(DecodeError::TruncatedChannelError { channel: Channel::SubBottomProfiler })
    );
}

#[test]
fn a_ping_with_an_overlong_array_has_no_encoding() {
    let mut p = ping(1);
    p.data.porthf = vec![0; 70_000];
    assert_eq!(p.encode(), None);
}
