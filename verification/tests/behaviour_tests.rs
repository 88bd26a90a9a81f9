use onflight::{fletcher16, parse, Columns, FileHeader, Frame, OnFlightFile, ParseError, ParseOptions};

const META: [u8; 60] = [
    0x4d, 0x44, 0x00, 0x36, 0x00, 0x00, 0x00, 0x00, 0x00, 0x00, 0x54, 0x45, 0x53, 0x54, 0x00, 0x00,
    0x00, 0x00, 0x00, 0x00, 0x00, 0x00, 0x54, 0x65, 0x73, 0x74, 0x20, 0x50, 0x69, 0x6c, 0x6f, 0x74,
    0x00, 0x00, 0x00, 0x00, 0x00, 0x00, 0x00, 0x00, 0x00, 0x00, 0x00, 0x00, 0x00, 0x00, 0x43, 0x31,
    0x37, 0x32, 0x00, 0x00, 0x00, 0x00, 0x00, 0x00, 0x00, 0x00, 0xb2, 0xc9,
];

const FRAME_V2: [u8; 190] = [
    0x42, 0x46, 0x02, 0xb8, 0xfc, 0xef, 0x00, 0x00, 0x00, 0x00, 0x26, 0xe4, 0x2d, 0x00, 0x62, 0x62,
    0x32, 0x36, 0xcc, 0xff, 0x28, 0x00, 0x9f, 0xfa, 0x1c, 0x00, 0x29, 0x00, 0xc8, 0xff, 0x31, 0x36,
    0xf9, 0x68, 0xea, 0xac, 0x09, 0x35, 0xc6, 0xb3, 0x94, 0x38, 0x03, 0x11, 0x15, 0x29, 0x02, 0x0d,
    0x18, 0x05, 0x5c, 0xfd, 0xb0, 0x03, 0x85, 0x04, 0x7c, 0x31, 0x3d, 0xfc, 0x60, 0x15, 0xb0, 0x16,
    0x87, 0xab, 0x02, 0xb7, 0x36, 0xff, 0x82, 0xf7, 0x0e, 0x05, 0xab, 0x32, 0x9d, 0x2d, 0x34, 0xfa,
    0x2c, 0x05, 0xe1, 0xff, 0xdb, 0xff, 0xc5, 0xfa, 0x46, 0x00, 0x22, 0x00, 0xc5, 0xff, 0xff, 0xf8,
    0x42, 0xea, 0x78, 0x09, 0x72, 0xfd, 0xb0, 0x03, 0xc5, 0x04, 0xe1, 0x2c, 0xb8, 0x30, 0xaa, 0x2b,
    0xa2, 0xfd, 0x7c, 0x31, 0x3d, 0x15, 0xb0, 0x16, 0x6e, 0xac, 0x02, 0xb7, 0xc1, 0xb3, 0x5d, 0x31,
    0x00, 0x00, 0x00, 0x00, 0x00, 0x00, 0x00, 0x00, 0x00, 0x00, 0x00, 0x00, 0x00, 0x10, 0x27, 0x10,
    0x27, 0x00, 0x00, 0x00, 0x00, 0x00, 0x00, 0x00, 0x00, 0x00, 0x00, 0x00, 0x00, 0x00, 0x00, 0x00,
    0x00, 0x00, 0x00, 0x00, 0x00, 0x00, 0x00, 0x00, 0x00, 0x00, 0x00, 0x00, 0x00, 0x00, 0x00, 0x00,
    0x00, 0x00, 0x00, 0x00, 0x00, 0x00, 0x00, 0x00, 0x00, 0x00, 0x00, 0x00, 0xcb, 0xcc,
];

fn file_of(frames: &[&[u8]]) -> Vec<u8> {
    let mut data = META.to_vec();
    for f in frames {
        data.extend_from_slice(f);
    }
    data
}

/// A frame of `version` whose payload bytes are `fill(i)`, with a correct checksum.
fn synth_frame(version: u8, payload_len: usize, fill: impl Fn(usize) -> u8) -> Vec<u8> {
    let mut f = vec![b'B', b'F', version, payload_len as u8];
    for i in 0..payload_len {
        f.push(fill(i));
    }
    let ck = fletcher16(&f);
    f.extend_from_slice(&ck.to_le_bytes());
    f
}

fn opts(validate: bool, skip: bool) -> ParseOptions {
    ParseOptions { validate_checksums: validate, skip_bad_checksums: skip }
}

#[test]
fn default_options_validate_and_keep() {
    let o = ParseOptions::default();
    assert!(o.validate_checksums);
    assert!(!o.skip_bad_checksums);
}

#[test]
fn too_short_is_file_too_small() {
    let data = file_of(&[]);
    assert_eq!(parse(&data[..59], &ParseOptions::default()).err(), Some(ParseError::FileTooSmall));
    assert_eq!(parse(&[], &ParseOptions::default()).err(), Some(ParseError::FileTooSmall));
}

#[test]
fn wrong_magic_is_bad_magic() {
    let mut data = file_of(&[&FRAME_V2]);
    data[1] = b'X';
    assert_eq!(parse(&data, &ParseOptions::default()).err(), Some(ParseError::BadMagic));
}

#[test]
fn metadata_only_has_no_frames() {
    let data = file_of(&[]);
    assert_eq!(parse(&data, &ParseOptions::default()).err(), Some(ParseError::NoDataFrames));
}

#[test]
fn unknown_version_is_not_a_frame_header() {
    let mut frame = FRAME_V2.to_vec();
    frame[2] = 7;
    let data = file_of(&[&frame]);
    assert_eq!(parse(&data, &ParseOptions::default()).err(), Some(ParseError::NoDataFrames));
}

#[test]
fn header_fields() {
    let file = parse(&file_of(&[&FRAME_V2]), &ParseOptions::default()).unwrap();
    let h: &FileHeader = &file.header;
    assert_eq!(h.version, 0);
    assert_eq!(h.serial_number, [0, 0, 0, 0, 0, 0]);
    assert_eq!(h.tail_number, "TEST");
    assert_eq!(h.pilot_name, "Test Pilot");
    assert_eq!(h.aircraft_type, "C172");
}

#[test]
fn header_string_without_terminator_and_invalid_utf8() {
    let mut data = file_of(&[&FRAME_V2]);
    for i in 10..22 {
        data[i] = b'A';
    }
    data[22] = 0xff;
    data[23] = b'x';
    data[24] = 0;
    let file = parse(&data, &ParseOptions::default()).unwrap();
    assert_eq!(file.header.tail_number, "AAAAAAAAAAAA");
    assert_eq!(file.header.pilot_name, "\u{FFFD}x");
}

#[test]
fn junk_before_first_frame_is_skipped() {
    let mut data = META.to_vec();
    data.extend_from_slice(&[0x42, 0x46, 0x09, 0x00, 0x13, 0x42, 0x46, 0x00, 0x10]);
    data.extend_from_slice(&FRAME_V2);
    let file = parse(&data, &ParseOptions::default()).unwrap();
    assert_eq!(file.frames.len(), 1);
    assert_eq!(file.frames[0].sys_time_ms, 3007526);
}

#[test]
fn trailing_partial_frame_is_ignored() {
    let mut data = file_of(&[&FRAME_V2, &FRAME_V2]);
    let whole = parse(&data, &ParseOptions::default()).unwrap();
    data.extend_from_slice(&FRAME_V2[..189]);
    let longer = parse(&data, &ParseOptions::default()).unwrap();
    assert_eq!(whole.frames.len(), 2);
    assert_eq!(longer.frames.len(), 2);
    assert_eq!(longer.checksum_errors, whole.checksum_errors);
}

#[test]
fn run_stops_at_first_unmarked_slot() {
    let mut second = FRAME_V2.to_vec();
    second[1] = b'X';
    let data = file_of(&[&FRAME_V2, &second, &FRAME_V2]);
    let file = parse(&data, &ParseOptions::default()).unwrap();
    assert_eq!(file.frames.len(), 1);
}

#[test]
fn no_validation_counts_no_errors() {
    let mut data = file_of(&[&FRAME_V2]);
    data[META.len() + 10] ^= 0xFF;
    let file = parse(&data, &opts(false, true)).unwrap();
    assert_eq!(file.checksum_errors, 0);
    assert_eq!(file.frames.len(), 1);
}

#[test]
fn skipping_drops_exactly_the_bad_frames() {
    let mut bad = FRAME_V2.to_vec();
    bad[20] ^= 0x01;
    let data = file_of(&[&FRAME_V2, &bad, &FRAME_V2, &bad]);
    let kept = parse(&data, &opts(true, true)).unwrap();
    assert_eq!(kept.frames.len(), 2);
    assert_eq!(kept.checksum_errors, 2);
    let all = parse(&data, &opts(true, false)).unwrap();
    assert_eq!(all.frames.len(), 4);
    assert_eq!(all.checksum_errors, 2);
    assert_eq!(all.frames[1].imu_accel_y, i16::from_le_bytes([FRAME_V2[20] ^ 0x01, FRAME_V2[21]]));
}

#[test]
fn version_zero_frame_leaves_optional_fields_zero() {
    let frame = synth_frame(0, 143, |i| (i as u8).wrapping_mul(3).wrapping_add(1));
    let file = parse(&file_of(&[&frame]), &ParseOptions::default()).unwrap();
    assert_eq!(file.checksum_errors, 0);
    let f: &Frame = &file.frames[0];
    assert_eq!(f.status, [1, 4, 7, 10, 13, 16]);
    assert_eq!(f.adc_pres_alt, u16::from_le_bytes([(122 * 3 + 1) as u8, (123 * 3 + 1) as u8]));
    assert_eq!(f.airdata_die_temp_c, 0);
    assert_eq!(f.airdata_wind_dir_mag, 0);
    assert_eq!(f.agl_alt_in, 0);
    assert_eq!(f.heart_rate_bpm, 0);
}

#[test]
fn version_one_frame_has_airdata_only() {
    let frame = synth_frame(1, 155, |i| if i >= 124 { 0x80 | i as u8 } else { 0 });
    let file = parse(&file_of(&[&frame]), &ParseOptions::default()).unwrap();
    let f = &file.frames[0];
    assert_eq!(f.airdata_die_temp_c, (0x80u8 | 124) as i8);
    assert_eq!(f.airdata_oat, i16::from_le_bytes([0x80 | 129, 0x80 | 130]));
    assert_eq!(f.airdata_wind_dir_mag, u16::from_le_bytes([0x80 | 147, 0x80 | 148]));
    assert_eq!(f.agl_die_temp_c, 0);
    assert_eq!(f.heart_rate_bpm, 0);
}

#[test]
fn version_two_frame_has_agl_and_heart_rate() {
    let frame = synth_frame(2, 184, |i| i as u8);
    let file = parse(&file_of(&[&frame]), &ParseOptions::default()).unwrap();
    let f = &file.frames[0];
    assert_eq!(f.agl_die_temp_c, -107);
    assert_eq!(f.agl_alt_in, i16::from_le_bytes([150, 151]));
    assert_eq!(f.heart_rate_bpm, 152);
    assert_eq!(f.gnss_fix, 36 & 7);
    assert_eq!(f.gnss_num_sv, 36 >> 3);
    assert_eq!(f.gnss_utc_year, 1970 + 37);
    assert_eq!(f.gnss_lat, i32::from_le_bytes([56, 57, 58, 59]));
}

#[test]
fn signed_fields_decode_twos_complement() {
    let frame = synth_frame(2, 184, |_| 0xFF);
    let file = parse(&file_of(&[&frame]), &ParseOptions::default()).unwrap();
    let f = &file.frames[0];
    assert_eq!(f.cpu_die_temp_c, -1);
    assert_eq!(f.imu_accel_x, -1);
    assert_eq!(f.gnss_lat, -1);
    assert_eq!(f.sys_time_ms, u32::MAX);
    assert_eq!(f.pres, u16::MAX);
    assert_eq!(f.gnss_fix, 7);
    assert_eq!(f.gnss_num_sv, 31);
    assert_eq!(f.gnss_utc_year, 1970 + 255);
}

fn columns_of(n: usize) -> (OnFlightFile, Columns) {
    let frame2 = synth_frame(2, 184, |i| (i as u8).wrapping_mul(7));
    let mut frames: Vec<&[u8]> = Vec::new();
    for k in 0..n {
        frames.push(if k % 2 == 0 { &FRAME_V2 } else { &frame2 });
    }
    let data = file_of(&frames);
    let file = parse(&data, &ParseOptions::default()).unwrap();
    let again = parse(&data, &ParseOptions::default()).unwrap();
    (again, Columns::from_file(file))
}

#[test]
fn columns_are_the_transposed_rows() {
    let (file, cols) = columns_of(3);
    assert_eq!(cols.len, 3);
    assert_eq!(cols.header.tail_number, "TEST");
    for (i, f) in file.frames.iter().enumerate() {
        assert_eq!(cols.status[i], f.status);
        assert_eq!(cols.sys_time_ms[i], f.sys_time_ms);
        assert_eq!(cols.imu_accel_z[i], f.imu_accel_z);
        assert_eq!(cols.gnss_lat[i], f.gnss_lat);
        assert_eq!(cols.ins_lon[i], f.ins_lon);
        assert_eq!(cols.airdata_wind_dir_mag[i], f.airdata_wind_dir_mag);
        assert_eq!(cols.heart_rate_bpm[i], f.heart_rate_bpm);
    }
    assert_eq!(cols.heart_rate_bpm.len(), 3);
    assert_eq!(cols.status.len(), 3);
}

#[test]
fn integer_accessors() {
    let (_, cols) = columns_of(1);
    assert_eq!(cols.pres_pa(0), 2 * 46022);
    assert_eq!(cols.adc_pres_pa(0), 2 * 46017);
    assert_eq!(cols.gnss_alt_wgs84_ft(0), 2668);
    assert_eq!(cols.ins_alt_wgs84_ft(0), 2668);
    assert_eq!(cols.adc_pres_alt_ft(0), 2637);
    assert_eq!(cols.airdata_pres_alt_ft(0), 0);
    assert_eq!(cols.airdata_density_alt_ft(0), 0);
    assert_eq!(cols.ins_climb_rate_fpm(0), -1484);
}

#[test]
fn status_accessors() {
    let (_, cols) = columns_of(1);
    assert!(cols.ins_initialized(0));
    assert!(cols.ins_healthy(0));
    assert!(cols.gnss_healthy(0));
    assert!(!cols.gnss_new_data(0));
    assert!(cols.imu_healthy(0));
    assert!(!cols.airdata_connected(0));
    assert!(!cols.agl_connected(0));
}

#[test]
fn first_fix_index_finds_first_3d_fix() {
    let (_, mut cols) = columns_of(4);
    assert_eq!(cols.first_fix_index(), Some(0));
    cols.gnss_fix[0] = 2;
    cols.gnss_fix[1] = 0;
    cols.gnss_fix[2] = 3;
    assert_eq!(cols.first_fix_index(), Some(2));
    for v in cols.gnss_fix.iter_mut() {
        *v = 2;
    }
    assert_eq!(cols.first_fix_index(), None);
}

#[test]
fn error_messages() {
    assert_eq!(ParseError::FileTooSmall.message(), "File too small to contain header");
    assert_eq!(ParseError::BadMagic.message(), "Bad magic: expected 'MD' header");
    assert_eq!(ParseError::NoDataFrames.message(), "No valid data frames found");
    assert_eq!(ParseError::UnsupportedVersion { version: 7 }.message(), "Unsupported data frame version: 7");
    assert_eq!(ParseError::UnsupportedVersion { version: 40 }.message(), "Unsupported data frame version: 40");
    assert_eq!(ParseError::UnsupportedVersion { version: 255 }.message(), "Unsupported data frame version: 255");
    assert_eq!(ParseError::UnsupportedVersion { version: 100 }.message(), "Unsupported data frame version: 100");
}

#[test]
fn frame_default_is_all_zero() {
    let f = Frame::default();
    assert_eq!(f.status, [0; 6]);
    assert_eq!(f.sys_time_ms, 0);
    assert_eq!(f.heart_rate_bpm, 0);
}

#[test]
fn push_frame_appends_to_every_column() {
    let (file, mut cols) = columns_of(2);
    let f = file.frames[0].clone();
    // Columns that disagree in length still each get the new entry.
    cols.heart_rate_bpm.push(9);
    cols.push_frame(&f);
    assert_eq!(cols.len, 3);
    assert_eq!(cols.sys_time_ms.len(), 3);
    assert_eq!(cols.sys_time_ms[2], f.sys_time_ms);
    assert_eq!(cols.status[2], f.status);
    assert_eq!(cols.heart_rate_bpm.len(), 4);
    assert_eq!(cols.heart_rate_bpm[2], 9);
    assert_eq!(cols.heart_rate_bpm[3], f.heart_rate_bpm);
}

#[test]
fn ascii_header_field_reads_back_exactly() {
    let mut data = file_of(&[&FRAME_V2]);
    data[46..58].copy_from_slice(b"PA-28\0\0\0\0\0\0\0");
    let file = parse(&data, &ParseOptions::default()).unwrap();
    assert_eq!(file.header.aircraft_type, "PA-28");
}
