use sdf_sonar::marker::push_marker;
use sdf_sonar::{take_until_ping_marker, DecodeError};

#[test]
fn marker_at_the_front() {
    let b: Vec<u8> = vec![0xFF, 0xFF, 0xFF, 0xFF, 0x2A, 0x00, 0x00, 0x00, 0x11, 0x22];
    let (rest, counter) = take_until_ping_marker(&b).unwrap();
    assert_eq!(counter, 42);
    assert_eq!(rest, &[0x2Au8, 0x00, 0x00, 0x00, 0x11, 0x22][..]);
}

#[test]
fn rest_begins_right_behind_the_marker() {
    let b: Vec<u8> = (0..40u8).map(|k| if (13..17).contains(&k) { 0xFF } else { k }).collect();
    let (rest, counter) = take_until_ping_marker(&b).unwrap();
    assert_eq!(rest, &b[17..]);
    assert_eq!(b.len() - rest.len(), 13 + 4);
    assert_eq!(counter, u32::from_le_bytes([17, 18, 19, 20]));
}

#[test]
fn marker_after_other_bytes() {
    let b: Vec<u8> = vec![
        0x00, 0xFF, 0xFF, 0x01, 0xFF, 0xFF, 0xFF, 0xFF, 0x78, 0x56, 0x34, 0x12, 0x99,
    ];
    let (rest, counter) = take_until_ping_marker(&b).unwrap();
    assert_eq!(counter, 0x1234_5678);
    assert_eq!(rest, &[0x78u8, 0x56, 0x34, 0x12, 0x99][..]);
}

#[test]
fn first_of_two_markers_is_taken() {
    let b: Vec<u8> = vec![
        0xAA, 0xFF, 0xFF, 0xFF, 0xFF, 0x01, 0x02, 0x03, 0x04, 0xFF, 0xFF, 0xFF, 0xFF, 0x09,
    ];
    let (rest, counter) = take_until_ping_marker(&b).unwrap();
    assert_eq!(counter, 0x0403_0201);
    assert_eq!(rest, &[0x01u8, 0x02, 0x03, 0x04, 0xFF, 0xFF, 0xFF, 0xFF, 0x09][..]);
}

#[test]
fn a_run_of_three_set_bytes_is_no_marker() {
    let b: Vec<u8> = vec![
        0xFF, 0xFF, 0xFF, 0x00, 0xFF, 0xFF, 0xFF, 0xFF, 0x2A, 0x00, 0x00, 0x00,
    ];
    let (rest, counter) = take_until_ping_marker(&b).unwrap();
    assert_eq!(counter, 42);
    assert_eq!(rest, &[0x2Au8, 0x00, 0x00, 0x00][..]);
}

#[test]
fn scanning_again_finds_the_next_marker() {
    let mut b: Vec<u8> = vec![7, 7];
    push_marker(&mut b, 1);
    push_marker(&mut b, 2);
    let (rest, counter) = take_until_ping_marker(&b).unwrap();
    assert_eq!(counter, 1);
    assert_eq!(rest.len(), 12);
    assert_eq!(&rest[..4], &1u32.to_le_bytes()[..]);
    let (rest, counter) = take_until_ping_marker(rest).unwrap();
    assert_eq!(counter, 2);
    assert_eq!(rest, &2u32.to_le_bytes()[..]);
    assert_eq!(take_until_ping_marker(rest), Err(DecodeError::FramingError));
}

#[test]
fn marker_inside_a_longer_run_of_set_bytes() {
    // Five bytes with all bits set: the marker is the first four, and the
    // fifth is the low byte of the counter.
    let b: Vec<u8> = vec![0xFF, 0xFF, 0xFF, 0xFF, 0xFF, 0x00, 0x00, 0x00];
    let (rest, counter) = take_until_ping_marker(&b).unwrap();
    assert_eq!(counter, 0xFF);
    assert_eq!(rest, &[0xFFu8, 0x00, 0x00, 0x00][..]);
}

#[test]
fn only_the_counter_left_behind_the_marker() {
    let b: Vec<u8> = vec![0xFF, 0xFF, 0xFF, 0xFF, 0x01, 0x00, 0x00, 0x00];
    let (rest, counter) = take_until_ping_marker(&b).unwrap();
    assert_eq!(counter, 1);
    assert_eq!(rest, &[0x01u8, 0x00, 0x00, 0x00][..]);
}

#[test]
fn what_follows_the_counter_is_not_judged() {
    let b: Vec<u8> = vec![0xFF, 0xFF, 0xFF, 0xFF, 0x00, 0x00, 0x00, 0x80, 0xDE, 0xAD];
    let (rest, counter) = take_until_ping_marker(&b).unwrap();
    assert_eq!(counter, 0x8000_0000);
    assert_eq!(rest.len(), 6);
}

#[test]
fn no_marker_is_a_framing_error() {
    let b: Vec<u8> = vec![0x00, 0xFF, 0xFF, 0xFF, 0x00, 0xFF, 0xFF, 0xFF, 0x00];
    assert_eq!(take_until_ping_marker(&b), Err(DecodeError::FramingError));
}

#[test]
fn empty_input_is_a_framing_error() {
    let b: Vec<u8> = Vec::new();
    assert_eq!(take_until_ping_marker(&b), Err(DecodeError::FramingError));
}

#[test]
fn input_shorter_than_the_marker_is_a_framing_error() {
    let b: Vec<u8> = vec![0xFF, 0xFF, 0xFF];
    assert_eq!(take_until_ping_marker(&b), Err(DecodeError::FramingError));
}

#[test]
fn marker_without_its_counter_is_a_framing_error() {
    let b: Vec<u8> = vec![0x00, 0xFF, 0xFF, 0xFF, 0xFF, 0x01, 0x02, 0x03];
    assert_eq!(take_until_ping_marker(&b), Err(DecodeError::FramingError));
    let b: Vec<u8> = vec![0x00, 0xFF, 0xFF, 0xFF, 0xFF];
    assert_eq!(take_until_ping_marker(&b), Err(DecodeError::FramingError));
}

#[test]
fn push_marker_writes_marker_then_counter() {
    let mut out: Vec<u8> = vec![5];
    push_marker(&mut out, 0x0403_0201);
    assert_eq!(out, vec![5, 0xFF, 0xFF, 0xFF, 0xFF, 0x01, 0x02, 0x03, 0x04]);
}
