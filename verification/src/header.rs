//! The fixed header that opens every ping: its fields, where each stands in
//! the 512 bytes, and the decoder and encoder for it.
//!
//! Later firmware only ever appended fields, so a field's offset never
//! changes. Every multi-byte field is little-endian. Floating-point fields are
//! kept as their IEEE-754 bit patterns, which is what the bytes hold; a caller
//! turns a pattern into a number with `f32::from_bits` or `f64::from_bits`.

use vstd::prelude::*;
use vstd::slice::slice_subrange;
use crate::error::DecodeError;
use crate::wire::{
    begins_with, bits_of_i32, i32_of_bits, le_u16, le_u32, le_u64, lemma_begins_with_itself,
    lemma_i32_pattern, lemma_u16_closes_prefix, lemma_u32_closes_prefix,
    lemma_u64_closes_prefix, push_i32, push_u16, push_u32, push_u64, read_i32, read_u16,
    read_u32, read_u64, u16_bytes, u32_bytes, u64_bytes,
};

verus! {

/// Number of bytes that a header takes.
pub const HEADER_LEN: usize = 512;

/// Number of reserved words that close the header.
pub const RESERVED_WORDS: usize = 26;

/// The bit pattern of a 32-bit IEEE-754 number.
pub type F32Bits = u32;

/// The bit pattern of a 64-bit IEEE-754 number.
pub type F64Bits = u64;

/// The header of one ping, field by field in the order of the bytes.
#[derive(Clone, Copy, Debug, PartialEq, Eq)]
pub struct DataPageHeader {
    /// Size of the page in bytes, as the recorder wrote it.
    pub number_bytes: u32,
    pub page_version: u32,
    pub configuration: u32,
    pub ping_number: u32,
    pub num_samples: u32,
    pub beams_to_display: u32,
    pub error_flags: u32,
    pub range: u32,
    pub speed_fish: u32,
    pub speed_sound: u32,
    pub res_mode: u32,
    pub tx_waveform: u32,
    pub resp_div: u32,
    pub resp_freq: u32,
    pub manual_speed_switch: u32,
    pub despeckle_switch: u32,
    pub speed_filter_switch: u32,
    pub year: u32,
    pub month: u32,
    pub day: u32,
    pub hour: u32,
    pub minute: u32,
    pub second: u32,
    pub hsecond: u32,
    pub fix_time_hour: u32,
    pub fix_time_minute: u32,
    pub fix_time_second: F32Bits,
    pub heading: F32Bits,
    pub pitch: F32Bits,
    pub roll: F32Bits,
    pub depth: F32Bits,
    pub altitude: F32Bits,
    pub temperature: F32Bits,
    pub speed: F32Bits,
    pub ship_heading: F32Bits,
    pub magnetic_variation: F32Bits,
    /// Ship latitude in radians.
    pub ship_lat: F64Bits,
    /// Ship longitude in radians.
    pub ship_lon: F64Bits,
    /// Towfish latitude in radians.
    pub fish_lat: F64Bits,
    /// Towfish longitude in radians.
    pub fish_lon: F64Bits,
    pub tvg_page: u32,
    pub header_size: u32,
    pub fix_time_year: u32,
    pub fix_time_month: u32,
    pub fix_time_day: u32,
    pub aux_pitch: F32Bits,
    pub aux_roll: F32Bits,
    pub aux_depth: F32Bits,
    pub aux_alt: F32Bits,
    pub cable_out: F32Bits,
    pub fseconds: F32Bits,
    pub altimeter: u32,
    pub sample_freq: u32,
    pub depressor_type: u32,
    pub cable_type: u32,
    pub shieve_x_off: F32Bits,
    pub shieve_y_off: F32Bits,
    pub shieve_z_off: F32Bits,
    pub gps_height: F32Bits,
    pub raw_data_config: u32,
    pub header3_extension_size: u32,
    pub sbp_tx_waveform: u32,
    pub sbp_pre_amp_gain: u32,
    pub sbp_data_raw: u32,
    pub sbp_num_samples: u32,
    pub sbp_sample_freq: u32,
    pub sbp_tx_waveform_version: u32,
    pub wing_angle: u32,
    pub emergency_switch_state: u32,
    pub layback_method: u32,
    pub layback_fish_lat: F64Bits,
    pub layback_fish_lon: F64Bits,
    pub fish_heading_offset: F32Bits,
    pub pressure_sensor_offset: F32Bits,
    /// First field added by firmware 6.13.
    pub tpu_sw_version: u32,
    /// Added by firmware 6.17.
    pub capability_mask: u32,
    /// Added by firmware 6.19.
    pub tx_version: u32,
    /// Added by firmware 6.22.
    pub num_samples_extra: u32,
    /// First field added by firmware 7.00.
    pub post_process_version: u32,
    pub motion_sensor_type: u16,
    pub ping_time_ref_count: u16,
    pub ext_trig_time_ref_count: u16,
    pub one_pps_time_ref_count: u16,
    pub time_ref_count_weight: u32,
    pub altitude_bathy: F32Bits,
    pub ping_interval: F32Bits,
    /// First field added by firmware 8.00.
    pub sdf_extension_size: u32,
    pub seconds_of_week: F64Bits,
    pub speed_sound_source: u32,
    pub pressure_sensor_max: F32Bits,
    pub pressure_sensor_voltage_min: F32Bits,
    pub pressure_sensor_voltage_max: F32Bits,
    pub processed_ping_number: u32,
    pub processed_ping_spacing: F32Bits,
    pub temperate_ambient: F32Bits,
    pub saturation_detect_threshold: i32,
    pub sonar_freq: u32,
    /// Words kept free for later firmware.
    pub reserved: [u32; RESERVED_WORDS],
}

/// The header that the first 512 bytes of `s` hold: each field read at its
/// fixed offset.
#[verifier::opaque]
pub open spec fn header_of(s: Seq<u8>) -> DataPageHeader {
    DataPageHeader {
        number_bytes: le_u32(s, 0),
        page_version: le_u32(s, 4),
        configuration: le_u32(s, 8),
        ping_number: le_u32(s, 12),
        num_samples: le_u32(s, 16),
        beams_to_display: le_u32(s, 20),
        error_flags: le_u32(s, 24),
        range: le_u32(s, 28),
        speed_fish: le_u32(s, 32),
        speed_sound: le_u32(s, 36),
        res_mode: le_u32(s, 40),
        tx_waveform: le_u32(s, 44),
        resp_div: le_u32(s, 48),
        resp_freq: le_u32(s, 52),
        manual_speed_switch: le_u32(s, 56),
        despeckle_switch: le_u32(s, 60),
        speed_filter_switch: le_u32(s, 64),
        year: le_u32(s, 68),
        month: le_u32(s, 72),
        day: le_u32(s, 76),
        hour: le_u32(s, 80),
        minute: le_u32(s, 84),
        second: le_u32(s, 88),
        hsecond: le_u32(s, 92),
        fix_time_hour: le_u32(s, 96),
        fix_time_minute: le_u32(s, 100),
        fix_time_second: le_u32(s, 104),
        heading: le_u32(s, 108),
        pitch: le_u32(s, 112),
        roll: le_u32(s, 116),
        depth: le_u32(s, 120),
        altitude: le_u32(s, 124),
        temperature: le_u32(s, 128),
        speed: le_u32(s, 132),
        ship_heading: le_u32(s, 136),
        magnetic_variation: le_u32(s, 140),
        ship_lat: le_u64(s, 144),
        ship_lon: le_u64(s, 152),
        fish_lat: le_u64(s, 160),
        fish_lon: le_u64(s, 168),
        tvg_page: le_u32(s, 176),
        header_size: le_u32(s, 180),
        fix_time_year: le_u32(s, 184),
        fix_time_month: le_u32(s, 188),
        fix_time_day: le_u32(s, 192),
        aux_pitch: le_u32(s, 196),
        aux_roll: le_u32(s, 200),
        aux_depth: le_u32(s, 204),
        aux_alt: le_u32(s, 208),
        cable_out: le_u32(s, 212),
        fseconds: le_u32(s, 216),
        altimeter: le_u32(s, 220),
        sample_freq: le_u32(s, 224),
        depressor_type: le_u32(s, 228),
        cable_type: le_u32(s, 232),
        shieve_x_off: le_u32(s, 236),
        shieve_y_off: le_u32(s, 240),
        shieve_z_off: le_u32(s, 244),
        gps_height: le_u32(s, 248),
        raw_data_config: le_u32(s, 252),
        header3_extension_size: le_u32(s, 256),
        sbp_tx_waveform: le_u32(s, 260),
        sbp_pre_amp_gain: le_u32(s, 264),
        sbp_data_raw: le_u32(s, 268),
        sbp_num_samples: le_u32(s, 272),
        sbp_sample_freq: le_u32(s, 276),
        sbp_tx_waveform_version: le_u32(s, 280),
        wing_angle: le_u32(s, 284),
        emergency_switch_state: le_u32(s, 288),
        layback_method: le_u32(s, 292),
        layback_fish_lat: le_u64(s, 296),
        layback_fish_lon: le_u64(s, 304),
        fish_heading_offset: le_u32(s, 312),
        pressure_sensor_offset: le_u32(s, 316),
        tpu_sw_version: le_u32(s, 320),
        capability_mask: le_u32(s, 324),
        tx_version: le_u32(s, 328),
        num_samples_extra: le_u32(s, 332),
        post_process_version: le_u32(s, 336),
        motion_sensor_type: le_u16(s, 340),
        ping_time_ref_count: le_u16(s, 342),
        ext_trig_time_ref_count: le_u16(s, 344),
        one_pps_time_ref_count: le_u16(s, 346),
        time_ref_count_weight: le_u32(s, 348),
        altitude_bathy: le_u32(s, 352),
        ping_interval: le_u32(s, 356),
        sdf_extension_size: le_u32(s, 360),
        seconds_of_week: le_u64(s, 364),
        speed_sound_source: le_u32(s, 372),
        pressure_sensor_max: le_u32(s, 376),
        pressure_sensor_voltage_min: le_u32(s, 380),
        pressure_sensor_voltage_max: le_u32(s, 384),
        processed_ping_number: le_u32(s, 388),
        processed_ping_spacing: le_u32(s, 392),
        temperate_ambient: le_u32(s, 396),
        saturation_detect_threshold: i32_of_bits(le_u32(s, 400)),
        sonar_freq: le_u32(s, 404),
        reserved: [
            le_u32(s, 408),
            le_u32(s, 412),
            le_u32(s, 416),
            le_u32(s, 420),
            le_u32(s, 424),
            le_u32(s, 428),
            le_u32(s, 432),
            le_u32(s, 436),
            le_u32(s, 440),
            le_u32(s, 444),
            le_u32(s, 448),
            le_u32(s, 452),
            le_u32(s, 456),
            le_u32(s, 460),
            le_u32(s, 464),
            le_u32(s, 468),
            le_u32(s, 472),
            le_u32(s, 476),
            le_u32(s, 480),
            le_u32(s, 484),
            le_u32(s, 488),
            le_u32(s, 492),
            le_u32(s, 496),
            le_u32(s, 500),
            le_u32(s, 504),
            le_u32(s, 508),
        ],
    }
}

/// Number of bytes of the header as it was first laid out, before any
/// firmware appended to it.
pub const BASE_LEN: usize = 320;

/// The first 320 bytes that `h` is written as: the fields of the first layout
/// in order, each as its little-endian bytes.
#[verifier::opaque]
pub open spec fn base_bytes(h: DataPageHeader) -> Seq<u8> {
    Seq::<u8>::empty()
        + u32_bytes(h.number_bytes)
        + u32_bytes(h.page_version)
        + u32_bytes(h.configuration)
        + u32_bytes(h.ping_number)
        + u32_bytes(h.num_samples)
        + u32_bytes(h.beams_to_display)
        + u32_bytes(h.error_flags)
        + u32_bytes(h.range)
        + u32_bytes(h.speed_fish)
        + u32_bytes(h.speed_sound)
        + u32_bytes(h.res_mode)
        + u32_bytes(h.tx_waveform)
        + u32_bytes(h.resp_div)
        + u32_bytes(h.resp_freq)
        + u32_bytes(h.manual_speed_switch)
        + u32_bytes(h.despeckle_switch)
        + u32_bytes(h.speed_filter_switch)
        + u32_bytes(h.year)
        + u32_bytes(h.month)
        + u32_bytes(h.day)
        + u32_bytes(h.hour)
        + u32_bytes(h.minute)
        + u32_bytes(h.second)
        + u32_bytes(h.hsecond)
        + u32_bytes(h.fix_time_hour)
        + u32_bytes(h.fix_time_minute)
        + u32_bytes(h.fix_time_second)
        + u32_bytes(h.heading)
        + u32_bytes(h.pitch)
        + u32_bytes(h.roll)
        + u32_bytes(h.depth)
        + u32_bytes(h.altitude)
        + u32_bytes(h.temperature)
        + u32_bytes(h.speed)
        + u32_bytes(h.ship_heading)
        + u32_bytes(h.magnetic_variation)
        + u64_bytes(h.ship_lat)
        + u64_bytes(h.ship_lon)
        + u64_bytes(h.fish_lat)
        + u64_bytes(h.fish_lon)
        + u32_bytes(h.tvg_page)
        + u32_bytes(h.header_size)
        + u32_bytes(h.fix_time_year)
        + u32_bytes(h.fix_time_month)
        + u32_bytes(h.fix_time_day)
        + u32_bytes(h.aux_pitch)
        + u32_bytes(h.aux_roll)
        + u32_bytes(h.aux_depth)
        + u32_bytes(h.aux_alt)
        + u32_bytes(h.cable_out)
        + u32_bytes(h.fseconds)
        + u32_bytes(h.altimeter)
        + u32_bytes(h.sample_freq)
        + u32_bytes(h.depressor_type)
        + u32_bytes(h.cable_type)
        + u32_bytes(h.shieve_x_off)
        + u32_bytes(h.shieve_y_off)
        + u32_bytes(h.shieve_z_off)
        + u32_bytes(h.gps_height)
        + u32_bytes(h.raw_data_config)
        + u32_bytes(h.header3_extension_size)
        + u32_bytes(h.sbp_tx_waveform)
        + u32_bytes(h.sbp_pre_amp_gain)
        + u32_bytes(h.sbp_data_raw)
        + u32_bytes(h.sbp_num_samples)
        + u32_bytes(h.sbp_sample_freq)
        + u32_bytes(h.sbp_tx_waveform_version)
        + u32_bytes(h.wing_angle)
        + u32_bytes(h.emergency_switch_state)
        + u32_bytes(h.layback_method)
        + u64_bytes(h.layback_fish_lat)
        + u64_bytes(h.layback_fish_lon)
        + u32_bytes(h.fish_heading_offset)
        + u32_bytes(h.pressure_sensor_offset)
}

/// The 512 bytes that `h` is written as: the first layout, then the fields
/// that later firmware appended, then the reserved words.
#[verifier::opaque]
pub open spec fn header_bytes(h: DataPageHeader) -> Seq<u8> {
    base_bytes(h)
        + u32_bytes(h.tpu_sw_version)
        + u32_bytes(h.capability_mask)
        + u32_bytes(h.tx_version)
        + u32_bytes(h.num_samples_extra)
        + u32_bytes(h.post_process_version)
        + u16_bytes(h.motion_sensor_type)
        + u16_bytes(h.ping_time_ref_count)
        + u16_bytes(h.ext_trig_time_ref_count)
        + u16_bytes(h.one_pps_time_ref_count)
        + u32_bytes(h.time_ref_count_weight)
        + u32_bytes(h.altitude_bathy)
        + u32_bytes(h.ping_interval)
        + u32_bytes(h.sdf_extension_size)
        + u64_bytes(h.seconds_of_week)
        + u32_bytes(h.speed_sound_source)
        + u32_bytes(h.pressure_sensor_max)
        + u32_bytes(h.pressure_sensor_voltage_min)
        + u32_bytes(h.pressure_sensor_voltage_max)
        + u32_bytes(h.processed_ping_number)
        + u32_bytes(h.processed_ping_spacing)
        + u32_bytes(h.temperate_ambient)
        + u32_bytes(bits_of_i32(h.saturation_detect_threshold))
        + u32_bytes(h.sonar_freq)
        + u32_bytes(h.reserved[0])
        + u32_bytes(h.reserved[1])
        + u32_bytes(h.reserved[2])
        + u32_bytes(h.reserved[3])
        + u32_bytes(h.reserved[4])
        + u32_bytes(h.reserved[5])
        + u32_bytes(h.reserved[6])
        + u32_bytes(h.reserved[7])
        + u32_bytes(h.reserved[8])
        + u32_bytes(h.reserved[9])
        + u32_bytes(h.reserved[10])
        + u32_bytes(h.reserved[11])
        + u32_bytes(h.reserved[12])
        + u32_bytes(h.reserved[13])
        + u32_bytes(h.reserved[14])
        + u32_bytes(h.reserved[15])
        + u32_bytes(h.reserved[16])
        + u32_bytes(h.reserved[17])
        + u32_bytes(h.reserved[18])
        + u32_bytes(h.reserved[19])
        + u32_bytes(h.reserved[20])
        + u32_bytes(h.reserved[21])
        + u32_bytes(h.reserved[22])
        + u32_bytes(h.reserved[23])
        + u32_bytes(h.reserved[24])
        + u32_bytes(h.reserved[25])
}

/// What decoding a header from the front of `s` gives: the bytes after the
/// header and the header, or the error.
pub open spec fn parse_header(s: Seq<u8>) -> Result<(Seq<u8>, DataPageHeader), DecodeError> {
    if s.len() < HEADER_LEN {
        Err(DecodeError::TruncatedHeaderError)
    } else {
        Ok((s.skip(HEADER_LEN as int), header_of(s)))
    }
}

impl DataPageHeader {
    /// Decodes the header at the front of `b` and returns it with the bytes
    /// that follow it. The decode goes by position alone and judges no value.
    /// With fewer than 512 bytes it fails and reads nothing.
    pub fn parse(b: &[u8]) -> (r: Result<(&[u8], DataPageHeader), DecodeError>)
        ensures
            match r {
                Ok((rest, h)) => parse_header(b@) == Ok::<(Seq<u8>, DataPageHeader), DecodeError>(
                    (rest@, h),
                ),
                Err(e) => parse_header(b@) == Err::<(Seq<u8>, DataPageHeader), DecodeError>(e),
            },
            b.len() < HEADER_LEN ==> r == Err::<(&[u8], DataPageHeader), DecodeError>(
                DecodeError::TruncatedHeaderError,
            ),
            b.len() >= HEADER_LEN ==> r.is_ok(),
    {
        if b.len() < HEADER_LEN {
            return Err(DecodeError::TruncatedHeaderError);
        }
        proof {
            reveal(header_of);
        }
        let h = DataPageHeader {
            number_bytes: read_u32(b, 0),
            page_version: read_u32(b, 4),
            configuration: read_u32(b, 8),
            ping_number: read_u32(b, 12),
            num_samples: read_u32(b, 16),
            beams_to_display: read_u32(b, 20),
            error_flags: read_u32(b, 24),
            range: read_u32(b, 28),
            speed_fish: read_u32(b, 32),
            speed_sound: read_u32(b, 36),
            res_mode: read_u32(b, 40),
            tx_waveform: read_u32(b, 44),
            resp_div: read_u32(b, 48),
            resp_freq: read_u32(b, 52),
            manual_speed_switch: read_u32(b, 56),
            despeckle_switch: read_u32(b, 60),
            speed_filter_switch: read_u32(b, 64),
            year: read_u32(b, 68),
            month: read_u32(b, 72),
            day: read_u32(b, 76),
            hour: read_u32(b, 80),
            minute: read_u32(b, 84),
            second: read_u32(b, 88),
            hsecond: read_u32(b, 92),
            fix_time_hour: read_u32(b, 96),
            fix_time_minute: read_u32(b, 100),
            fix_time_second: read_u32(b, 104),
            heading: read_u32(b, 108),
            pitch: read_u32(b, 112),
            roll: read_u32(b, 116),
            depth: read_u32(b, 120),
            altitude: read_u32(b, 124),
            temperature: read_u32(b, 128),
            speed: read_u32(b, 132),
            ship_heading: read_u32(b, 136),
            magnetic_variation: read_u32(b, 140),
            ship_lat: read_u64(b, 144),
            ship_lon: read_u64(b, 152),
            fish_lat: read_u64(b, 160),
            fish_lon: read_u64(b, 168),
            tvg_page: read_u32(b, 176),
            header_size: read_u32(b, 180),
            fix_time_year: read_u32(b, 184),
            fix_time_month: read_u32(b, 188),
            fix_time_day: read_u32(b, 192),
            aux_pitch: read_u32(b, 196),
            aux_roll: read_u32(b, 200),
            aux_depth: read_u32(b, 204),
            aux_alt: read_u32(b, 208),
            cable_out: read_u32(b, 212),
            fseconds: read_u32(b, 216),
            altimeter: read_u32(b, 220),
            sample_freq: read_u32(b, 224),
            depressor_type: read_u32(b, 228),
            cable_type: read_u32(b, 232),
            shieve_x_off: read_u32(b, 236),
            shieve_y_off: read_u32(b, 240),
            shieve_z_off: read_u32(b, 244),
            gps_height: read_u32(b, 248),
            raw_data_config: read_u32(b, 252),
            header3_extension_size: read_u32(b, 256),
            sbp_tx_waveform: read_u32(b, 260),
            sbp_pre_amp_gain: read_u32(b, 264),
            sbp_data_raw: read_u32(b, 268),
            sbp_num_samples: read_u32(b, 272),
            sbp_sample_freq: read_u32(b, 276),
            sbp_tx_waveform_version: read_u32(b, 280),
            wing_angle: read_u32(b, 284),
            emergency_switch_state: read_u32(b, 288),
            layback_method: read_u32(b, 292),
            layback_fish_lat: read_u64(b, 296),
            layback_fish_lon: read_u64(b, 304),
            fish_heading_offset: read_u32(b, 312),
            pressure_sensor_offset: read_u32(b, 316),
            tpu_sw_version: read_u32(b, 320),
            capability_mask: read_u32(b, 324),
            tx_version: read_u32(b, 328),
            num_samples_extra: read_u32(b, 332),
            post_process_version: read_u32(b, 336),
            motion_sensor_type: read_u16(b, 340),
            ping_time_ref_count: read_u16(b, 342),
            ext_trig_time_ref_count: read_u16(b, 344),
            one_pps_time_ref_count: read_u16(b, 346),
            time_ref_count_weight: read_u32(b, 348),
            altitude_bathy: read_u32(b, 352),
            ping_interval: read_u32(b, 356),
            sdf_extension_size: read_u32(b, 360),
            seconds_of_week: read_u64(b, 364),
            speed_sound_source: read_u32(b, 372),
            pressure_sensor_max: read_u32(b, 376),
            pressure_sensor_voltage_min: read_u32(b, 380),
            pressure_sensor_voltage_max: read_u32(b, 384),
            processed_ping_number: read_u32(b, 388),
            processed_ping_spacing: read_u32(b, 392),
            temperate_ambient: read_u32(b, 396),
            saturation_detect_threshold: read_i32(b, 400),
            sonar_freq: read_u32(b, 404),
            reserved: [
                read_u32(b, 408),
                read_u32(b, 412),
                read_u32(b, 416),
                read_u32(b, 420),
                read_u32(b, 424),
                read_u32(b, 428),
                read_u32(b, 432),
                read_u32(b, 436),
                read_u32(b, 440),
                read_u32(b, 444),
                read_u32(b, 448),
                read_u32(b, 452),
                read_u32(b, 456),
                read_u32(b, 460),
                read_u32(b, 464),
                read_u32(b, 468),
                read_u32(b, 472),
                read_u32(b, 476),
                read_u32(b, 480),
                read_u32(b, 484),
                read_u32(b, 488),
                read_u32(b, 492),
                read_u32(b, 496),
                read_u32(b, 500),
                read_u32(b, 504),
                read_u32(b, 508),
            ],
        };
        let rest = slice_subrange(b, HEADER_LEN, b.len());
        Ok((rest, h))
    }

    /// Writes the header as its 512 bytes.
    pub fn encode(&self) -> (out: Vec<u8>)
        ensures
            out@ == header_bytes(*self),
    {
        proof {
            reveal(base_bytes);
            reveal(header_bytes);
        }
        let mut out: Vec<u8> = Vec::new();
        push_u32(&mut out, self.number_bytes);
        push_u32(&mut out, self.page_version);
        push_u32(&mut out, self.configuration);
        push_u32(&mut out, self.ping_number);
        push_u32(&mut out, self.num_samples);
        push_u32(&mut out, self.beams_to_display);
        push_u32(&mut out, self.error_flags);
        push_u32(&mut out, self.range);
        push_u32(&mut out, self.speed_fish);
        push_u32(&mut out, self.speed_sound);
        push_u32(&mut out, self.res_mode);
        push_u32(&mut out, self.tx_waveform);
        push_u32(&mut out, self.resp_div);
        push_u32(&mut out, self.resp_freq);
        push_u32(&mut out, self.manual_speed_switch);
        push_u32(&mut out, self.despeckle_switch);
        push_u32(&mut out, self.speed_filter_switch);
        push_u32(&mut out, self.year);
        push_u32(&mut out, self.month);
        push_u32(&mut out, self.day);
        push_u32(&mut out, self.hour);
        push_u32(&mut out, self.minute);
        push_u32(&mut out, self.second);
        push_u32(&mut out, self.hsecond);
        push_u32(&mut out, self.fix_time_hour);
        push_u32(&mut out, self.fix_time_minute);
        push_u32(&mut out, self.fix_time_second);
        push_u32(&mut out, self.heading);
        push_u32(&mut out, self.pitch);
        push_u32(&mut out, self.roll);
        push_u32(&mut out, self.depth);
        push_u32(&mut out, self.altitude);
        push_u32(&mut out, self.temperature);
        push_u32(&mut out, self.speed);
        push_u32(&mut out, self.ship_heading);
        push_u32(&mut out, self.magnetic_variation);
        push_u64(&mut out, self.ship_lat);
        push_u64(&mut out, self.ship_lon);
        push_u64(&mut out, self.fish_lat);
        push_u64(&mut out, self.fish_lon);
        push_u32(&mut out, self.tvg_page);
        push_u32(&mut out, self.header_size);
        push_u32(&mut out, self.fix_time_year);
        push_u32(&mut out, self.fix_time_month);
        push_u32(&mut out, self.fix_time_day);
        push_u32(&mut out, self.aux_pitch);
        push_u32(&mut out, self.aux_roll);
        push_u32(&mut out, self.aux_depth);
        push_u32(&mut out, self.aux_alt);
        push_u32(&mut out, self.cable_out);
        push_u32(&mut out, self.fseconds);
        push_u32(&mut out, self.altimeter);
        push_u32(&mut out, self.sample_freq);
        push_u32(&mut out, self.depressor_type);
        push_u32(&mut out, self.cable_type);
        push_u32(&mut out, self.shieve_x_off);
        push_u32(&mut out, self.shieve_y_off);
        push_u32(&mut out, self.shieve_z_off);
        push_u32(&mut out, self.gps_height);
        push_u32(&mut out, self.raw_data_config);
        push_u32(&mut out, self.header3_extension_size);
        push_u32(&mut out, self.sbp_tx_waveform);
        push_u32(&mut out, self.sbp_pre_amp_gain);
        push_u32(&mut out, self.sbp_data_raw);
        push_u32(&mut out, self.sbp_num_samples);
        push_u32(&mut out, self.sbp_sample_freq);
        push_u32(&mut out, self.sbp_tx_waveform_version);
        push_u32(&mut out, self.wing_angle);
        push_u32(&mut out, self.emergency_switch_state);
        push_u32(&mut out, self.layback_method);
        push_u64(&mut out, self.layback_fish_lat);
        push_u64(&mut out, self.layback_fish_lon);
        push_u32(&mut out, self.fish_heading_offset);
        push_u32(&mut out, self.pressure_sensor_offset);
        push_u32(&mut out, self.tpu_sw_version);
        push_u32(&mut out, self.capability_mask);
        push_u32(&mut out, self.tx_version);
        push_u32(&mut out, self.num_samples_extra);
        push_u32(&mut out, self.post_process_version);
        push_u16(&mut out, self.motion_sensor_type);
        push_u16(&mut out, self.ping_time_ref_count);
        push_u16(&mut out, self.ext_trig_time_ref_count);
        push_u16(&mut out, self.one_pps_time_ref_count);
        push_u32(&mut out, self.time_ref_count_weight);
        push_u32(&mut out, self.altitude_bathy);
        push_u32(&mut out, self.ping_interval);
        push_u32(&mut out, self.sdf_extension_size);
        push_u64(&mut out, self.seconds_of_week);
        push_u32(&mut out, self.speed_sound_source);
        push_u32(&mut out, self.pressure_sensor_max);
        push_u32(&mut out, self.pressure_sensor_voltage_min);
        push_u32(&mut out, self.pressure_sensor_voltage_max);
        push_u32(&mut out, self.processed_ping_number);
        push_u32(&mut out, self.processed_ping_spacing);
        push_u32(&mut out, self.temperate_ambient);
        push_i32(&mut out, self.saturation_detect_threshold);
        push_u32(&mut out, self.sonar_freq);
        push_u32(&mut out, self.reserved[0]);
        push_u32(&mut out, self.reserved[1]);
        push_u32(&mut out, self.reserved[2]);
        push_u32(&mut out, self.reserved[3]);
        push_u32(&mut out, self.reserved[4]);
        push_u32(&mut out, self.reserved[5]);
        push_u32(&mut out, self.reserved[6]);
        push_u32(&mut out, self.reserved[7]);
        push_u32(&mut out, self.reserved[8]);
        push_u32(&mut out, self.reserved[9]);
        push_u32(&mut out, self.reserved[10]);
        push_u32(&mut out, self.reserved[11]);
        push_u32(&mut out, self.reserved[12]);
        push_u32(&mut out, self.reserved[13]);
        push_u32(&mut out, self.reserved[14]);
        push_u32(&mut out, self.reserved[15]);
        push_u32(&mut out, self.reserved[16]);
        push_u32(&mut out, self.reserved[17]);
        push_u32(&mut out, self.reserved[18]);
        push_u32(&mut out, self.reserved[19]);
        push_u32(&mut out, self.reserved[20]);
        push_u32(&mut out, self.reserved[21]);
        push_u32(&mut out, self.reserved[22]);
        push_u32(&mut out, self.reserved[23]);
        push_u32(&mut out, self.reserved[24]);
        push_u32(&mut out, self.reserved[25]);
        out
    }
}

/// Whatever begins with the first layout of `h` holds each field of that
/// layout at its offset.
#[verifier::rlimit(60)]
proof fn lemma_base_read_back(h: DataPageHeader, s: Seq<u8>)
    requires
        begins_with(s, base_bytes(h)),
    ensures
        base_bytes(h).len() == BASE_LEN,
        le_u32(s, 0) == h.number_bytes,
        le_u32(s, 4) == h.page_version,
        le_u32(s, 8) == h.configuration,
        le_u32(s, 12) == h.ping_number,
        le_u32(s, 16) == h.num_samples,
        le_u32(s, 20) == h.beams_to_display,
        le_u32(s, 24) == h.error_flags,
        le_u32(s, 28) == h.range,
        le_u32(s, 32) == h.speed_fish,
        le_u32(s, 36) == h.speed_sound,
        le_u32(s, 40) == h.res_mode,
        le_u32(s, 44) == h.tx_waveform,
        le_u32(s, 48) == h.resp_div,
        le_u32(s, 52) == h.resp_freq,
        le_u32(s, 56) == h.manual_speed_switch,
        le_u32(s, 60) == h.despeckle_switch,
        le_u32(s, 64) == h.speed_filter_switch,
        le_u32(s, 68) == h.year,
        le_u32(s, 72) == h.month,
        le_u32(s, 76) == h.day,
        le_u32(s, 80) == h.hour,
        le_u32(s, 84) == h.minute,
        le_u32(s, 88) == h.second,
        le_u32(s, 92) == h.hsecond,
        le_u32(s, 96) == h.fix_time_hour,
        le_u32(s, 100) == h.fix_time_minute,
        le_u32(s, 104) == h.fix_time_second,
        le_u32(s, 108) == h.heading,
        le_u32(s, 112) == h.pitch,
        le_u32(s, 116) == h.roll,
        le_u32(s, 120) == h.depth,
        le_u32(s, 124) == h.altitude,
        le_u32(s, 128) == h.temperature,
        le_u32(s, 132) == h.speed,
        le_u32(s, 136) == h.ship_heading,
        le_u32(s, 140) == h.magnetic_variation,
        le_u64(s, 144) == h.ship_lat,
        le_u64(s, 152) == h.ship_lon,
        le_u64(s, 160) == h.fish_lat,
        le_u64(s, 168) == h.fish_lon,
        le_u32(s, 176) == h.tvg_page,
        le_u32(s, 180) == h.header_size,
        le_u32(s, 184) == h.fix_time_year,
        le_u32(s, 188) == h.fix_time_month,
        le_u32(s, 192) == h.fix_time_day,
        le_u32(s, 196) == h.aux_pitch,
        le_u32(s, 200) == h.aux_roll,
        le_u32(s, 204) == h.aux_depth,
        le_u32(s, 208) == h.aux_alt,
        le_u32(s, 212) == h.cable_out,
        le_u32(s, 216) == h.fseconds,
        le_u32(s, 220) == h.altimeter,
        le_u32(s, 224) == h.sample_freq,
        le_u32(s, 228) == h.depressor_type,
        le_u32(s, 232) == h.cable_type,
        le_u32(s, 236) == h.shieve_x_off,
        le_u32(s, 240) == h.shieve_y_off,
        le_u32(s, 244) == h.shieve_z_off,
        le_u32(s, 248) == h.gps_height,
        le_u32(s, 252) == h.raw_data_config,
        le_u32(s, 256) == h.header3_extension_size,
        le_u32(s, 260) == h.sbp_tx_waveform,
        le_u32(s, 264) == h.sbp_pre_amp_gain,
        le_u32(s, 268) == h.sbp_data_raw,
        le_u32(s, 272) == h.sbp_num_samples,
        le_u32(s, 276) == h.sbp_sample_freq,
        le_u32(s, 280) == h.sbp_tx_waveform_version,
        le_u32(s, 284) == h.wing_angle,
        le_u32(s, 288) == h.emergency_switch_state,
        le_u32(s, 292) == h.layback_method,
        le_u64(s, 296) == h.layback_fish_lat,
        le_u64(s, 304) == h.layback_fish_lon,
        le_u32(s, 312) == h.fish_heading_offset,
        le_u32(s, 316) == h.pressure_sensor_offset,
{
    reveal(base_bytes);
    // The encoding, one field at a time.
    let w0 = Seq::<u8>::empty();
    let w1 = w0 + u32_bytes(h.number_bytes);
    let w2 = w1 + u32_bytes(h.page_version);
    let w3 = w2 + u32_bytes(h.configuration);
    let w4 = w3 + u32_bytes(h.ping_number);
    let w5 = w4 + u32_bytes(h.num_samples);
    let w6 = w5 + u32_bytes(h.beams_to_display);
    let w7 = w6 + u32_bytes(h.error_flags);
    let w8 = w7 + u32_bytes(h.range);
    let w9 = w8 + u32_bytes(h.speed_fish);
    let w10 = w9 + u32_bytes(h.speed_sound);
    let w11 = w10 + u32_bytes(h.res_mode);
    let w12 = w11 + u32_bytes(h.tx_waveform);
    let w13 = w12 + u32_bytes(h.resp_div);
    let w14 = w13 + u32_bytes(h.resp_freq);
    let w15 = w14 + u32_bytes(h.manual_speed_switch);
    let w16 = w15 + u32_bytes(h.despeckle_switch);
    let w17 = w16 + u32_bytes(h.speed_filter_switch);
    let w18 = w17 + u32_bytes(h.year);
    let w19 = w18 + u32_bytes(h.month);
    let w20 = w19 + u32_bytes(h.day);
    let w21 = w20 + u32_bytes(h.hour);
    let w22 = w21 + u32_bytes(h.minute);
    let w23 = w22 + u32_bytes(h.second);
    let w24 = w23 + u32_bytes(h.hsecond);
    let w25 = w24 + u32_bytes(h.fix_time_hour);
    let w26 = w25 + u32_bytes(h.fix_time_minute);
    let w27 = w26 + u32_bytes(h.fix_time_second);
    let w28 = w27 + u32_bytes(h.heading);
    let w29 = w28 + u32_bytes(h.pitch);
    let w30 = w29 + u32_bytes(h.roll);
    let w31 = w30 + u32_bytes(h.depth);
    let w32 = w31 + u32_bytes(h.altitude);
    let w33 = w32 + u32_bytes(h.temperature);
    let w34 = w33 + u32_bytes(h.speed);
    let w35 = w34 + u32_bytes(h.ship_heading);
    let w36 = w35 + u32_bytes(h.magnetic_variation);
    let w37 = w36 + u64_bytes(h.ship_lat);
    let w38 = w37 + u64_bytes(h.ship_lon);
    let w39 = w38 + u64_bytes(h.fish_lat);
    let w40 = w39 + u64_bytes(h.fish_lon);
    let w41 = w40 + u32_bytes(h.tvg_page);
    let w42 = w41 + u32_bytes(h.header_size);
    let w43 = w42 + u32_bytes(h.fix_time_year);
    let w44 = w43 + u32_bytes(h.fix_time_month);
    let w45 = w44 + u32_bytes(h.fix_time_day);
    let w46 = w45 + u32_bytes(h.aux_pitch);
    let w47 = w46 + u32_bytes(h.aux_roll);
    let w48 = w47 + u32_bytes(h.aux_depth);
    let w49 = w48 + u32_bytes(h.aux_alt);
    let w50 = w49 + u32_bytes(h.cable_out);
    let w51 = w50 + u32_bytes(h.fseconds);
    let w52 = w51 + u32_bytes(h.altimeter);
    let w53 = w52 + u32_bytes(h.sample_freq);
    let w54 = w53 + u32_bytes(h.depressor_type);
    let w55 = w54 + u32_bytes(h.cable_type);
    let w56 = w55 + u32_bytes(h.shieve_x_off);
    let w57 = w56 + u32_bytes(h.shieve_y_off);
    let w58 = w57 + u32_bytes(h.shieve_z_off);
    let w59 = w58 + u32_bytes(h.gps_height);
    let w60 = w59 + u32_bytes(h.raw_data_config);
    let w61 = w60 + u32_bytes(h.header3_extension_size);
    let w62 = w61 + u32_bytes(h.sbp_tx_waveform);
    let w63 = w62 + u32_bytes(h.sbp_pre_amp_gain);
    let w64 = w63 + u32_bytes(h.sbp_data_raw);
    let w65 = w64 + u32_bytes(h.sbp_num_samples);
    let w66 = w65 + u32_bytes(h.sbp_sample_freq);
    let w67 = w66 + u32_bytes(h.sbp_tx_waveform_version);
    let w68 = w67 + u32_bytes(h.wing_angle);
    let w69 = w68 + u32_bytes(h.emergency_switch_state);
    let w70 = w69 + u32_bytes(h.layback_method);
    let w71 = w70 + u64_bytes(h.layback_fish_lat);
    let w72 = w71 + u64_bytes(h.layback_fish_lon);
    let w73 = w72 + u32_bytes(h.fish_heading_offset);
    let w74 = w73 + u32_bytes(h.pressure_sensor_offset);
    assert(base_bytes(h) == w74);
    // Each field is read back where it was written, last field first.
    lemma_u32_closes_prefix(w73, h.pressure_sensor_offset, s);
    lemma_u32_closes_prefix(w72, h.fish_heading_offset, s);
    lemma_u64_closes_prefix(w71, h.layback_fish_lon, s);
    lemma_u64_closes_prefix(w70, h.layback_fish_lat, s);
    lemma_u32_closes_prefix(w69, h.layback_method, s);
    lemma_u32_closes_prefix(w68, h.emergency_switch_state, s);
    lemma_u32_closes_prefix(w67, h.wing_angle, s);
    lemma_u32_closes_prefix(w66, h.sbp_tx_waveform_version, s);
    lemma_u32_closes_prefix(w65, h.sbp_sample_freq, s);
    lemma_u32_closes_prefix(w64, h.sbp_num_samples, s);
    lemma_u32_closes_prefix(w63, h.sbp_data_raw, s);
    lemma_u32_closes_prefix(w62, h.sbp_pre_amp_gain, s);
    lemma_u32_closes_prefix(w61, h.sbp_tx_waveform, s);
    lemma_u32_closes_prefix(w60, h.header3_extension_size, s);
    lemma_u32_closes_prefix(w59, h.raw_data_config, s);
    lemma_u32_closes_prefix(w58, h.gps_height, s);
    lemma_u32_closes_prefix(w57, h.shieve_z_off, s);
    lemma_u32_closes_prefix(w56, h.shieve_y_off, s);
    lemma_u32_closes_prefix(w55, h.shieve_x_off, s);
    lemma_u32_closes_prefix(w54, h.cable_type, s);
    lemma_u32_closes_prefix(w53, h.depressor_type, s);
    lemma_u32_closes_prefix(w52, h.sample_freq, s);
    lemma_u32_closes_prefix(w51, h.altimeter, s);
    lemma_u32_closes_prefix(w50, h.fseconds, s);
    lemma_u32_closes_prefix(w49, h.cable_out, s);
    lemma_u32_closes_prefix(w48, h.aux_alt, s);
    lemma_u32_closes_prefix(w47, h.aux_depth, s);
    lemma_u32_closes_prefix(w46, h.aux_roll, s);
    lemma_u32_closes_prefix(w45, h.aux_pitch, s);
    lemma_u32_closes_prefix(w44, h.fix_time_day, s);
    lemma_u32_closes_prefix(w43, h.fix_time_month, s);
    lemma_u32_closes_prefix(w42, h.fix_time_year, s);
    lemma_u32_closes_prefix(w41, h.header_size, s);
    lemma_u32_closes_prefix(w40, h.tvg_page, s);
    lemma_u64_closes_prefix(w39, h.fish_lon, s);
    lemma_u64_closes_prefix(w38, h.fish_lat, s);
    lemma_u64_closes_prefix(w37, h.ship_lon, s);
    lemma_u64_closes_prefix(w36, h.ship_lat, s);
    lemma_u32_closes_prefix(w35, h.magnetic_variation, s);
    lemma_u32_closes_prefix(w34, h.ship_heading, s);
    lemma_u32_closes_prefix(w33, h.speed, s);
    lemma_u32_closes_prefix(w32, h.temperature, s);
    lemma_u32_closes_prefix(w31, h.altitude, s);
    lemma_u32_closes_prefix(w30, h.depth, s);
    lemma_u32_closes_prefix(w29, h.roll, s);
    lemma_u32_closes_prefix(w28, h.pitch, s);
    lemma_u32_closes_prefix(w27, h.heading, s);
    lemma_u32_closes_prefix(w26, h.fix_time_second, s);
    lemma_u32_closes_prefix(w25, h.fix_time_minute, s);
    lemma_u32_closes_prefix(w24, h.fix_time_hour, s);
    lemma_u32_closes_prefix(w23, h.hsecond, s);
    lemma_u32_closes_prefix(w22, h.second, s);
    lemma_u32_closes_prefix(w21, h.minute, s);
    lemma_u32_closes_prefix(w20, h.hour, s);
    lemma_u32_closes_prefix(w19, h.day, s);
    lemma_u32_closes_prefix(w18, h.month, s);
    lemma_u32_closes_prefix(w17, h.year, s);
    lemma_u32_closes_prefix(w16, h.speed_filter_switch, s);
    lemma_u32_closes_prefix(w15, h.despeckle_switch, s);
    lemma_u32_closes_prefix(w14, h.manual_speed_switch, s);
    lemma_u32_closes_prefix(w13, h.resp_freq, s);
    lemma_u32_closes_prefix(w12, h.resp_div, s);
    lemma_u32_closes_prefix(w11, h.tx_waveform, s);
    lemma_u32_closes_prefix(w10, h.res_mode, s);
    lemma_u32_closes_prefix(w9, h.speed_sound, s);
    lemma_u32_closes_prefix(w8, h.speed_fish, s);
    lemma_u32_closes_prefix(w7, h.range, s);
    lemma_u32_closes_prefix(w6, h.error_flags, s);
    lemma_u32_closes_prefix(w5, h.beams_to_display, s);
    lemma_u32_closes_prefix(w4, h.num_samples, s);
    lemma_u32_closes_prefix(w3, h.ping_number, s);
    lemma_u32_closes_prefix(w2, h.configuration, s);
    lemma_u32_closes_prefix(w1, h.page_version, s);
    lemma_u32_closes_prefix(w0, h.number_bytes, s);
}

/// Whatever begins with the encoding of `h` begins with its first layout and
/// holds each field that was appended to it at its offset.
#[verifier::rlimit(60)]
proof fn lemma_appended_read_back(h: DataPageHeader, s: Seq<u8>)
    requires
        begins_with(s, header_bytes(h)),
        base_bytes(h).len() == BASE_LEN,
    ensures
        begins_with(s, base_bytes(h)),
        header_bytes(h).len() == HEADER_LEN,
        s.len() >= HEADER_LEN,
        le_u32(s, 320) == h.tpu_sw_version,
        le_u32(s, 324) == h.capability_mask,
        le_u32(s, 328) == h.tx_version,
        le_u32(s, 332) == h.num_samples_extra,
        le_u32(s, 336) == h.post_process_version,
        le_u16(s, 340) == h.motion_sensor_type,
        le_u16(s, 342) == h.ping_time_ref_count,
        le_u16(s, 344) == h.ext_trig_time_ref_count,
        le_u16(s, 346) == h.one_pps_time_ref_count,
        le_u32(s, 348) == h.time_ref_count_weight,
        le_u32(s, 352) == h.altitude_bathy,
        le_u32(s, 356) == h.ping_interval,
        le_u32(s, 360) == h.sdf_extension_size,
        le_u64(s, 364) == h.seconds_of_week,
        le_u32(s, 372) == h.speed_sound_source,
        le_u32(s, 376) == h.pressure_sensor_max,
        le_u32(s, 380) == h.pressure_sensor_voltage_min,
        le_u32(s, 384) == h.pressure_sensor_voltage_max,
        le_u32(s, 388) == h.processed_ping_number,
        le_u32(s, 392) == h.processed_ping_spacing,
        le_u32(s, 396) == h.temperate_ambient,
        i32_of_bits(le_u32(s, 400)) == h.saturation_detect_threshold,
        le_u32(s, 404) == h.sonar_freq,
        le_u32(s, 408) == h.reserved[0],
        le_u32(s, 412) == h.reserved[1],
        le_u32(s, 416) == h.reserved[2],
        le_u32(s, 420) == h.reserved[3],
        le_u32(s, 424) == h.reserved[4],
        le_u32(s, 428) == h.reserved[5],
        le_u32(s, 432) == h.reserved[6],
        le_u32(s, 436) == h.reserved[7],
        le_u32(s, 440) == h.reserved[8],
        le_u32(s, 444) == h.reserved[9],
        le_u32(s, 448) == h.reserved[10],
        le_u32(s, 452) == h.reserved[11],
        le_u32(s, 456) == h.reserved[12],
        le_u32(s, 460) == h.reserved[13],
        le_u32(s, 464) == h.reserved[14],
        le_u32(s, 468) == h.reserved[15],
        le_u32(s, 472) == h.reserved[16],
        le_u32(s, 476) == h.reserved[17],
        le_u32(s, 480) == h.reserved[18],
        le_u32(s, 484) == h.reserved[19],
        le_u32(s, 488) == h.reserved[20],
        le_u32(s, 492) == h.reserved[21],
        le_u32(s, 496) == h.reserved[22],
        le_u32(s, 500) == h.reserved[23],
        le_u32(s, 504) == h.reserved[24],
        le_u32(s, 508) == h.reserved[25],
{
    reveal(header_bytes);
    // The encoding of what follows the first layout, one field at a time.
    let w0 = base_bytes(h);
    let w1 = w0 + u32_bytes(h.tpu_sw_version);
    let w2 = w1 + u32_bytes(h.capability_mask);
    let w3 = w2 + u32_bytes(h.tx_version);
    let w4 = w3 + u32_bytes(h.num_samples_extra);
    let w5 = w4 + u32_bytes(h.post_process_version);
    let w6 = w5 + u16_bytes(h.motion_sensor_type);
    let w7 = w6 + u16_bytes(h.ping_time_ref_count);
    let w8 = w7 + u16_bytes(h.ext_trig_time_ref_count);
    let w9 = w8 + u16_bytes(h.one_pps_time_ref_count);
    let w10 = w9 + u32_bytes(h.time_ref_count_weight);
    let w11 = w10 + u32_bytes(h.altitude_bathy);
    let w12 = w11 + u32_bytes(h.ping_interval);
    let w13 = w12 + u32_bytes(h.sdf_extension_size);
    let w14 = w13 + u64_bytes(h.seconds_of_week);
    let w15 = w14 + u32_bytes(h.speed_sound_source);
    let w16 = w15 + u32_bytes(h.pressure_sensor_max);
    let w17 = w16 + u32_bytes(h.pressure_sensor_voltage_min);
    let w18 = w17 + u32_bytes(h.pressure_sensor_voltage_max);
    let w19 = w18 + u32_bytes(h.processed_ping_number);
    let w20 = w19 + u32_bytes(h.processed_ping_spacing);
    let w21 = w20 + u32_bytes(h.temperate_ambient);
    let w22 = w21 + u32_bytes(bits_of_i32(h.saturation_detect_threshold));
    let w23 = w22 + u32_bytes(h.sonar_freq);
    let w24 = w23 + u32_bytes(h.reserved[0]);
    let w25 = w24 + u32_bytes(h.reserved[1]);
    let w26 = w25 + u32_bytes(h.reserved[2]);
    let w27 = w26 + u32_bytes(h.reserved[3]);
    let w28 = w27 + u32_bytes(h.reserved[4]);
    let w29 = w28 + u32_bytes(h.reserved[5]);
    let w30 = w29 + u32_bytes(h.reserved[6]);
    let w31 = w30 + u32_bytes(h.reserved[7]);
    let w32 = w31 + u32_bytes(h.reserved[8]);
    let w33 = w32 + u32_bytes(h.reserved[9]);
    let w34 = w33 + u32_bytes(h.reserved[10]);
    let w35 = w34 + u32_bytes(h.reserved[11]);
    let w36 = w35 + u32_bytes(h.reserved[12]);
    let w37 = w36 + u32_bytes(h.reserved[13]);
    let w38 = w37 + u32_bytes(h.reserved[14]);
    let w39 = w38 + u32_bytes(h.reserved[15]);
    let w40 = w39 + u32_bytes(h.reserved[16]);
    let w41 = w40 + u32_bytes(h.reserved[17]);
    let w42 = w41 + u32_bytes(h.reserved[18]);
    let w43 = w42 + u32_bytes(h.reserved[19]);
    let w44 = w43 + u32_bytes(h.reserved[20]);
    let w45 = w44 + u32_bytes(h.reserved[21]);
    let w46 = w45 + u32_bytes(h.reserved[22]);
    let w47 = w46 + u32_bytes(h.reserved[23]);
    let w48 = w47 + u32_bytes(h.reserved[24]);
    let w49 = w48 + u32_bytes(h.reserved[25]);
    assert(header_bytes(h) == w49);
    // Each field is read back where it was written, last field first.
    lemma_u32_closes_prefix(w48, h.reserved[25], s);
    lemma_u32_closes_prefix(w47, h.reserved[24], s);
    lemma_u32_closes_prefix(w46, h.reserved[23], s);
    lemma_u32_closes_prefix(w45, h.reserved[22], s);
    lemma_u32_closes_prefix(w44, h.reserved[21], s);
    lemma_u32_closes_prefix(w43, h.reserved[20], s);
    lemma_u32_closes_prefix(w42, h.reserved[19], s);
    lemma_u32_closes_prefix(w41, h.reserved[18], s);
    lemma_u32_closes_prefix(w40, h.reserved[17], s);
    lemma_u32_closes_prefix(w39, h.reserved[16], s);
    lemma_u32_closes_prefix(w38, h.reserved[15], s);
    lemma_u32_closes_prefix(w37, h.reserved[14], s);
    lemma_u32_closes_prefix(w36, h.reserved[13], s);
    lemma_u32_closes_prefix(w35, h.reserved[12], s);
    lemma_u32_closes_prefix(w34, h.reserved[11], s);
    lemma_u32_closes_prefix(w33, h.reserved[10], s);
    lemma_u32_closes_prefix(w32, h.reserved[9], s);
    lemma_u32_closes_prefix(w31, h.reserved[8], s);
    lemma_u32_closes_prefix(w30, h.reserved[7], s);
    lemma_u32_closes_prefix(w29, h.reserved[6], s);
    lemma_u32_closes_prefix(w28, h.reserved[5], s);
    lemma_u32_closes_prefix(w27, h.reserved[4], s);
    lemma_u32_closes_prefix(w26, h.reserved[3], s);
    lemma_u32_closes_prefix(w25, h.reserved[2], s);
    lemma_u32_closes_prefix(w24, h.reserved[1], s);
    lemma_u32_closes_prefix(w23, h.reserved[0], s);
    lemma_u32_closes_prefix(w22, h.sonar_freq, s);
    lemma_u32_closes_prefix(w21, bits_of_i32(h.saturation_detect_threshold), s);
    lemma_i32_pattern(h.saturation_detect_threshold);
    lemma_u32_closes_prefix(w20, h.temperate_ambient, s);
    lemma_u32_closes_prefix(w19, h.processed_ping_spacing, s);
    lemma_u32_closes_prefix(w18, h.processed_ping_number, s);
    lemma_u32_closes_prefix(w17, h.pressure_sensor_voltage_max, s);
    lemma_u32_closes_prefix(w16, h.pressure_sensor_voltage_min, s);
    lemma_u32_closes_prefix(w15, h.pressure_sensor_max, s);
    lemma_u32_closes_prefix(w14, h.speed_sound_source, s);
    lemma_u64_closes_prefix(w13, h.seconds_of_week, s);
    lemma_u32_closes_prefix(w12, h.sdf_extension_size, s);
    lemma_u32_closes_prefix(w11, h.ping_interval, s);
    lemma_u32_closes_prefix(w10, h.altitude_bathy, s);
    lemma_u32_closes_prefix(w9, h.time_ref_count_weight, s);
    lemma_u16_closes_prefix(w8, h.one_pps_time_ref_count, s);
    lemma_u16_closes_prefix(w7, h.ext_trig_time_ref_count, s);
    lemma_u16_closes_prefix(w6, h.ping_time_ref_count, s);
    lemma_u16_closes_prefix(w5, h.motion_sensor_type, s);
    lemma_u32_closes_prefix(w4, h.post_process_version, s);
    lemma_u32_closes_prefix(w3, h.num_samples_extra, s);
    lemma_u32_closes_prefix(w2, h.tx_version, s);
    lemma_u32_closes_prefix(w1, h.capability_mask, s);
    lemma_u32_closes_prefix(w0, h.tpu_sw_version, s);
}

/// The first layout of any header is 320 bytes long.
proof fn lemma_base_len(h: DataPageHeader)
    ensures
        base_bytes(h).len() == BASE_LEN,
{
    lemma_begins_with_itself(base_bytes(h), Seq::<u8>::empty());
    lemma_base_read_back(h, base_bytes(h) + Seq::<u8>::empty());
}

/// Whatever begins with the encoding of `h` decodes to `h`.
pub proof fn lemma_header_read_back(h: DataPageHeader, s: Seq<u8>)
    requires
        begins_with(s, header_bytes(h)),
    ensures
        header_bytes(h).len() == HEADER_LEN,
        s.len() >= HEADER_LEN,
        header_of(s) == h,
{
    reveal(header_of);
    lemma_base_len(h);
    lemma_appended_read_back(h, s);
    lemma_base_read_back(h, s);
    assert(header_of(s).reserved =~= h.reserved);
}

/// Encoding then decoding gives back every field exactly, whatever bytes
/// follow the header; the encoding is 512 bytes long and the decoder consumes
/// those and no more.
pub proof fn lemma_header_round_trip(h: DataPageHeader, tail: Seq<u8>)
    ensures
        header_bytes(h).len() == HEADER_LEN,
        parse_header(header_bytes(h) + tail) == Ok::<(Seq<u8>, DataPageHeader), DecodeError>(
            (tail, h),
        ),
{
    let s = header_bytes(h) + tail;
    lemma_begins_with_itself(header_bytes(h), tail);
    lemma_header_read_back(h, s);
    assert(s.skip(512) =~= tail);
}

} // verus!
