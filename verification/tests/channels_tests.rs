use sdf_sonar::channels::{take_samples16, take_samples32};
use sdf_sonar::{take_sys3000_data_channels, Channel, DecodeError, System3000DataChannels};

fn array16(samples: &[u16]) -> Vec<u8> {
    let mut out: Vec<u8> = Vec::new();
    out.extend_from_slice(&(samples.len() as u16).to_le_bytes());
    for s in samples {
        out.extend_from_slice(&s.to_le_bytes());
    }
    out
}

fn array32(samples: &[u32]) -> Vec<u8> {
    let mut out: Vec<u8> = Vec::new();
    out.extend_from_slice(&(samples.len() as u32).to_le_bytes());
    for s in samples {
        out.extend_from_slice(&s.to_le_bytes());
    }
    out
}

fn truncated(channel: Channel) -> DecodeError {
    DecodeError::TruncatedChannelError { channel }
}

#[test]
fn samples16_count_then_samples() {
    let b: Vec<u8> = vec![0x03, 0x00, 0x01, 0x00, 0x00, 0x01, 0xFF, 0xFF, 0x77];
    let (rest, v) = take_samples16(&b).unwrap();
    assert_eq!(v, vec![1u16, 256, 65535]);
    assert_eq!(rest, &[0x77u8][..]);
}

#[test]
fn samples32_count_then_samples() {
    let b: Vec<u8> = vec![
        0x02, 0x00, 0x00, 0x00, 0x01, 0x00, 0x00, 0x00, 0xEF, 0xBE, 0xAD, 0xDE, 0x77, 0x88,
    ];
    let (rest, v) = take_samples32(&b).unwrap();
    assert_eq!(v, vec![1u32, 0xDEAD_BEEF]);
    assert_eq!(rest, &[0x77u8, 0x88][..]);
}

#[test]
fn empty_array_takes_only_its_count() {
    let b: Vec<u8> = vec![0x00, 0x00, 0x05];
    let (rest, v) = take_samples16(&b).unwrap();
    assert!(v.is_empty());
    assert_eq!(rest, &[0x05u8][..]);
    let b: Vec<u8> = vec![0x00, 0x00, 0x00, 0x00, 0x05];
    let (rest, v) = take_samples32(&b).unwrap();
    assert!(v.is_empty());
    assert_eq!(rest, &[0x05u8][..]);
}

#[test]
fn array_with_too_few_bytes_is_not_decoded() {
    assert_eq!(take_samples16(&[]), None);
    assert_eq!(take_samples16(&[0x01]), None);
    assert_eq!(take_samples16(&[0x01, 0x00]), None);
    assert_eq!(take_samples16(&[0x01, 0x00, 0x09]), None);
    assert_eq!(take_samples16(&[0x02, 0x00, 0x09, 0x09, 0x09]), None);
    assert_eq!(take_samples32(&[0x00, 0x00, 0x00]), None);
    assert_eq!(take_samples32(&[0x01, 0x00, 0x00, 0x00, 0x09, 0x09, 0x09]), None);
    assert_eq!(take_samples32(&[0xFF, 0xFF, 0xFF, 0xFF, 0x09, 0x09, 0x09, 0x09]), None);
}

#[test]
fn five_arrays_in_order() {
    let mut b: Vec<u8> = Vec::new();
    b.extend(array16(&[1, 2]));
    b.extend(array16(&[3]));
    b.extend(array16(&[4, 5, 6]));
    b.extend(array16(&[]));
    b.extend(array32(&[70_000, 80_000]));
    b.extend_from_slice(&[0xEE, 0xDD]);
    let (rest, c) = take_sys3000_data_channels(&b).unwrap();
    assert_eq!(c.portlf, vec![1u16, 2]);
    assert_eq!(c.stbdlf, vec![3u16]);
    assert_eq!(c.porthf, vec![4u16, 5, 6]);
    assert!(c.stbdhf.is_empty());
    assert_eq!(c.sbp, vec![70_000u32, 80_000]);
    assert_eq!(rest, &[0xEEu8, 0xDD][..]);
}

#[test]
fn all_arrays_empty_take_twelve_bytes() {
    let b: Vec<u8> = vec![0; 13];
    let (rest, c) = take_sys3000_data_channels(&b).unwrap();
    assert_eq!(rest.len(), 1);
    assert!(c.portlf.is_empty());
    assert!(c.stbdlf.is_empty());
    assert!(c.porthf.is_empty());
    assert!(c.stbdhf.is_empty());
    assert!(c.sbp.is_empty());
}

#[test]
fn truncation_names_the_port_low_frequency_array() {
    assert_eq!(
        take_sys3000_data_channels(&[]).map(|_| ()),
        Err(truncated(Channel::PortLowFrequency))
    );
    assert_eq!(
        take_sys3000_data_channels(&[0x02, 0x00, 0x01, 0x00, 0x02]).map(|_| ()),
        Err(truncated(Channel::PortLowFrequency))
    );
}

#[test]
fn truncation_names_the_starboard_low_frequency_array() {
    let mut b = array16(&[1]);
    b.extend_from_slice(&[0x01]);
    assert_eq!(
        take_sys3000_data_channels(&b).map(|_| ()),
        Err(truncated(Channel::StarboardLowFrequency))
    );
}

#[test]
fn truncation_names_the_port_high_frequency_array() {
    let mut b = array16(&[1]);
    b.extend(array16(&[2]));
    b.extend_from_slice(&[0x05, 0x00, 0x01, 0x00]);
    assert_eq!(
        take_sys3000_data_channels(&b).map(|_| ()),
        Err(truncated(Channel::PortHighFrequency))
    );
}

#[test]
fn truncation_names_the_starboard_high_frequency_array() {
    let mut b = array16(&[]);
    b.extend(array16(&[]));
    b.extend(array16(&[]));
    assert_eq!(
        take_sys3000_data_channels(&b).map(|_| ()),
        Err(truncated(Channel::StarboardHighFrequency))
    );
}

#[test]
fn truncation_names_the_sub_bottom_profiler_array() {
    let mut b = array16(&[]);
    b.extend(array16(&[]));
    b.extend(array16(&[]));
    b.extend(array16(&[9]));
    b.extend_from_slice(&[0x01, 0x00, 0x00, 0x00, 0xAA, 0xBB, 0xCC]);
    assert_eq!(
        take_sys3000_data_channels(&b).map(|_| ()),
        Err(truncated(Channel::SubBottomProfiler))
    );
    let mut b = array16(&[]);
    b.extend(array16(&[]));
    b.extend(array16(&[]));
    b.extend(array16(&[]));
    b.extend_from_slice(&[0x00, 0x00]);
    assert_eq!(
        take_sys3000_data_channels(&b).map(|_| ()),
        Err(truncated(Channel::SubBottomProfiler))
    );
}

#[test]
fn channels_round_trip() {
    let c = System3000DataChannels {
        portlf: vec![0, 1, 65535],
        stbdlf: vec![],
        porthf: vec![500; 40],
        stbdhf: vec![7],
        sbp: vec![0, u32::MAX, 123_456_789],
    };
    let bytes = c.encode().unwrap();
    assert_eq!(bytes.len(), 2 + 6 + 2 + 2 + 80 + 2 + 2 + 4 + 12);
    let (rest, back) = take_sys3000_data_channels(&bytes).unwrap();
    assert!(rest.is_empty());
    assert_eq!(back, c);
}

#[test]
fn each_array_consumes_its_count_field_and_its_samples() {
    for n in [0usize, 1, 2, 17, 1000] {
        let samples: Vec<u16> = (0..n).map(|i| (i * 3) as u16).collect();
        let mut b = array16(&samples);
        b.extend_from_slice(&[0xAB; 5]);
        let (rest, v) = take_samples16(&b).unwrap();
        assert_eq!(v, samples);
        assert_eq!(b.len() - rest.len(), 2 + 2 * n);
        let samples: Vec<u32> = (0..n).map(|i| (i * 100_000) as u32).collect();
        let mut b = array32(&samples);
        b.extend_from_slice(&[0xAB; 5]);
        let (rest, v) = take_samples32(&b).unwrap();
        assert_eq!(v, samples);
        assert_eq!(b.len() - rest.len(), 4 + 4 * n);
    }
}

#[test]
fn longest_sonar_array_round_trips() {
    let c = System3000DataChannels {
        portlf: (0..=65534u16).collect(),
        stbdlf: vec![],
        porthf: vec![],
        stbdhf: vec![],
        sbp: vec![],
    };
    assert_eq!(c.portlf.len(), 65535);
    let bytes = c.encode().unwrap();
    assert_eq!(bytes.len(), 2 + 2 * 65535 + 10);
    let (rest, back) = take_sys3000_data_channels(&bytes).unwrap();
    assert!(rest.is_empty());
    assert_eq!(back, c);
}

#[test]
fn array_too_long_for_its_count_has_no_encoding() {
    let c = System3000DataChannels {
        portlf: vec![],
        stbdlf: vec![],
        porthf: vec![],
        stbdhf: vec![1; 65536],
        sbp: vec![],
    };
    assert_eq!(c.encode(), None);
}

#[test]
fn encoding_agrees_with_a_hand_written_buffer() {
    let c = System3000DataChannels {
        portlf: vec![0x0102],
        stbdlf: vec![],
        porthf: vec![],
        stbdhf: vec![0x0304, 0x0506],
        sbp: vec![0x0708_090A],
    };
    assert_eq!(
        c.encode().unwrap(),
        vec![
            0x01, 0x00, 0x02, 0x01, 0x00, 0x00, 0x00, 0x00, 0x02, 0x00, 0x04, 0x03, 0x06, 0x05,
            0x01, 0x00, 0x00, 0x00, 0x0A, 0x09, 0x08, 0x07
        ]
    );
}
