use float_cmp::{ApproxEq, F64Margin};
use sdf_sonar::track::ship_positions;
use sdf_sonar::{
    decode_stream, take_sys3000_data_channels, DataPageHeader, DecodeError, System3000Sample,
    Track, TrackPoint, HEADER_LEN,
};

fn header(ship_lat: f64, ship_lon: f64) -> DataPageHeader {
    let zeros: Vec<u8> = vec![0; HEADER_LEN];
    let mut h = DataPageHeader::parse(&zeros).unwrap().1;
    h.ship_lat = ship_lat.to_bits();
    h.ship_lon = ship_lon.to_bits();
    h
}

fn record_bytes(ship_lat: f64, ship_lon: f64) -> Vec<u8> {
    let mut b: Vec<u8> = vec![0xFF, 0xFF, 0xFF, 0xFF];
    b.extend_from_slice(&[0xA5, 0x5A, 0xA5, 0x5A]);
    b.extend(header(ship_lat, ship_lon).encode());
    b.extend_from_slice(&[0u8; 12]);
    b
}

fn degrees(radians_bits: u64) -> u64 {
    (f64::from_bits(radians_bits) * 180.0 / std::f64::consts::PI).to_bits()
}

fn close(a_bits: u64, b_bits: u64) -> bool {
    let margin = F64Margin { epsilon: 1e-3, ulps: 2 };
    f64::from_bits(a_bits).approx_eq(f64::from_bits(b_bits), margin)
}

fn track_of(records: &Vec<System3000Sample>) -> Vec<(f64, f64)> {
    let mut track = Track::new();
    track.add_recording(records, degrees, close);
    track.points.iter().map(|p| (f64::from_bits(p.lon), f64::from_bits(p.lat))).collect()
}

#[test]
fn one_record_gives_one_point() {
    let b = record_bytes(0.0, 0.0);
    assert_eq!(b.len(), 4 + 4 + 512 + 12);
    let records = decode_stream(&b).unwrap();
    assert_eq!(records.len(), 1);
    assert_eq!(records[0].post_marker_counter, 0x5AA5_5AA5);
    assert_eq!(f64::from_bits(records[0].header.ship_lat), 0.0);
    assert_eq!(f64::from_bits(records[0].header.ship_lon), 0.0);
    assert!(records[0].data.portlf.is_empty());
    assert!(records[0].data.sbp.is_empty());
    assert_eq!(track_of(&records), vec![(0.0, 0.0)]);
}

#[test]
fn two_records_at_nearly_one_place_give_one_point() {
    let mut b = record_bytes(0.0, 0.0);
    b.extend(record_bytes(1e-6, 0.0));
    let records = decode_stream(&b).unwrap();
    assert_eq!(records.len(), 2);
    assert_eq!(f64::from_bits(records[1].header.ship_lat), 1e-6);
    assert_eq!(track_of(&records), vec![(0.0, 0.0)]);
}

#[test]
fn two_records_at_two_places_give_two_points() {
    let mut b = record_bytes(0.0, 0.0);
    b.extend(record_bytes(0.5, -1.0));
    let records = decode_stream(&b).unwrap();
    let track = track_of(&records);
    assert_eq!(track.len(), 2);
    assert_eq!(track[0], (0.0, 0.0));
    assert_eq!(track[1], (-1.0 * 180.0 / std::f64::consts::PI, 0.5 * 180.0 / std::f64::consts::PI));
    assert!((track[1].0 - -57.29577951308232).abs() < 1e-12);
    assert!((track[1].1 - 28.64788975654116).abs() < 1e-12);
}

#[test]
fn channel_counts_three_and_two() {
    let mut b: Vec<u8> = header(0.0, 0.0).encode();
    b.extend_from_slice(&[0x03, 0x00, 0x0A, 0x00, 0x14, 0x00, 0x1E, 0x00]);
    b.extend_from_slice(&[0x00, 0x00]);
    b.extend_from_slice(&[0x00, 0x00]);
    b.extend_from_slice(&[0x00, 0x00]);
    b.extend_from_slice(&[0x02, 0x00, 0x00, 0x00, 0xA0, 0x86, 0x01, 0x00, 0x40, 0x0D, 0x03, 0x00]);
    let (after_header, _) = DataPageHeader::parse(&b).unwrap();
    let (rest, c) = take_sys3000_data_channels(after_header).unwrap();
    assert!(rest.is_empty());
    assert_eq!(c.portlf, vec![10u16, 20, 30]);
    assert!(c.stbdlf.is_empty());
    assert!(c.porthf.is_empty());
    assert!(c.stbdhf.is_empty());
    assert_eq!(c.sbp, vec![100_000u32, 200_000]);
}

#[test]
fn no_marker_is_a_framing_error_and_no_record() {
    let b: Vec<u8> = (0..600u32).map(|k| (k % 251) as u8).collect();
    assert_eq!(decode_stream(&b), Err(DecodeError::FramingError));
    let records = decode_stream(&b).unwrap_or_default();
    assert_eq!(records.len(), 0);
}

#[test]
fn track_grows_from_recording_to_recording() {
    let mut first = record_bytes(0.1, 0.2);
    first.extend(record_bytes(0.1, 0.2));
    first.extend(record_bytes(0.3, 0.2));
    let mut second = record_bytes(0.3, 0.2);
    second.extend(record_bytes(0.3, 0.4));
    let mut track = Track::new();
    track.add_recording(&decode_stream(&first).unwrap(), degrees, close);
    assert_eq!(track.points.len(), 2);
    track.add_recording(&decode_stream(&second).unwrap(), degrees, close);
    let want: Vec<TrackPoint> = vec![(0.2, 0.1), (0.2, 0.3), (0.4, 0.3)]
        .into_iter()
        .map(|(lon, lat): (f64, f64)| TrackPoint {
            lon: degrees(lon.to_bits()),
            lat: degrees(lat.to_bits()),
        })
        .collect();
    assert_eq!(track.points, want);
}

#[test]
fn position_is_longitude_then_latitude_in_degrees() {
    let b = record_bytes(std::f64::consts::PI / 4.0, -std::f64::consts::PI / 2.0);
    let records = decode_stream(&b).unwrap();
    assert_eq!(track_of(&records), vec![(-90.0, 45.0)]);
}

#[test]
fn positions_come_from_the_ship_fields_in_order() {
    let mut b = record_bytes(0.25, -0.5);
    b.extend(record_bytes(0.25, -0.5));
    b.extend(record_bytes(-1.0, 2.0));
    let records = decode_stream(&b).unwrap();
    let points = ship_positions(&records, degrees);
    assert_eq!(
        points,
        vec![
            TrackPoint { lon: degrees((-0.5f64).to_bits()), lat: degrees(0.25f64.to_bits()) },
            TrackPoint { lon: degrees((-0.5f64).to_bits()), lat: degrees(0.25f64.to_bits()) },
            TrackPoint { lon: degrees(2.0f64.to_bits()), lat: degrees((-1.0f64).to_bits()) },
        ]
    );
    assert_eq!(f64::from_bits(points[2].lon), 2.0 * 180.0 / std::f64::consts::PI);
    assert!(ship_positions(&vec![], degrees).is_empty());
}

#[test]
fn a_record_near_in_one_coordinate_only_is_kept() {
    // The latitudes agree; the longitudes are a whole degree apart.
    let one_degree = std::f64::consts::PI / 180.0;
    let mut b = record_bytes(0.3, 0.0);
    b.extend(record_bytes(0.3, one_degree));
    b.extend(record_bytes(0.3 + one_degree, one_degree));
    b.extend(record_bytes(0.3 + one_degree, one_degree));
    let records = decode_stream(&b).unwrap();
    assert_eq!(track_of(&records).len(), 3);
}
