//! One 50 Hz data frame: its fields, how they decode from a payload, and the decoder.
//!
//! All fields hold raw encoded values; the field comments give the scale
//! factors that turn them into engineering units.

use vstd::prelude::*;

verus! {

/// Payload length of a version 0 frame.
pub const PAYLOAD_V0: usize = 143;

/// Payload length of a version 1 frame (adds external airdata).
pub const PAYLOAD_V1: usize = 155;

/// Payload length of a version 2 frame (adds AGL altimeter and heart rate).
pub const PAYLOAD_V2: usize = 184;

/// Shortest payload that holds every field of the fixed part of a frame.
pub const BASE_FIELDS_LEN: usize = 124;

/// A single 50 Hz data frame.
///
/// Fields are raw encoded values as stored in the binary format.
#[derive(Debug, Clone, Default)]
pub struct Frame {
    // -- Status (6 bytes) --
    /// Per-frame status bitfield.
    pub status: [u8; 6],

    // -- System --
    /// Time since boot in milliseconds.
    pub sys_time_ms: u32,
    /// Input voltage, raw. Divide by 25 for volts.
    pub input_volt: u8,
    /// Filtered input voltage, raw. Divide by 25 for volts.
    pub filt_input_volt: u8,
    /// CPU die temperature in °C.
    pub cpu_die_temp_c: i8,

    // -- IMU (uncompensated, unfiltered, body frame) --
    /// IMU die temperature in °C.
    pub imu_die_temp_c: i8,
    /// X-axis accelerometer. Divide by 1000 for G.
    pub imu_accel_x: i16,
    /// Y-axis accelerometer. Divide by 1000 for G.
    pub imu_accel_y: i16,
    /// Z-axis accelerometer. Divide by 1000 for G.
    pub imu_accel_z: i16,
    /// X-axis gyro. Divide by 10 for deg/s.
    pub imu_gyro_x: i16,
    /// Y-axis gyro. Divide by 10 for deg/s.
    pub imu_gyro_y: i16,
    /// Z-axis gyro. Divide by 10 for deg/s.
    pub imu_gyro_z: i16,

    // -- Magnetometer --
    /// Magnetometer die temperature in °C.
    pub mag_die_temp_c: i8,
    /// X-axis magnetometer. Divide by 80 for µT.
    pub mag_x: i16,
    /// Y-axis magnetometer. Divide by 80 for µT.
    pub mag_y: i16,
    /// Z-axis magnetometer. Divide by 80 for µT.
    pub mag_z: i16,

    // -- Static pressure --
    /// Static pressure die temperature in °C.
    pub pres_die_temp_c: i8,
    /// Static pressure, raw. Multiply by 2 for Pa.
    pub pres: u16,

    // -- GNSS --
    /// GNSS fix type (0=none, 2=2D, 3=3D, 4=differential).
    pub gnss_fix: u8,
    /// Number of satellite vehicles used in solution.
    pub gnss_num_sv: u8,
    /// UTC year (absolute, e.g. 2026).
    pub gnss_utc_year: u16,
    pub gnss_utc_month: u8,
    pub gnss_utc_day: u8,
    pub gnss_utc_hour: u8,
    pub gnss_utc_min: u8,
    pub gnss_utc_sec: u8,
    /// Estimated horizontal position accuracy. Divide by 10 for ft.
    pub gnss_horz_pos_acc: u8,
    /// Estimated vertical position accuracy. Divide by 10 for ft.
    pub gnss_vert_pos_acc: u8,
    /// Estimated velocity accuracy. Divide by 10 for kts.
    pub gnss_vel_acc: u8,
    /// GNSS North velocity. Divide by 10 for kts.
    pub gnss_ned_vel_x: i16,
    /// GNSS East velocity. Divide by 10 for kts.
    pub gnss_ned_vel_y: i16,
    /// GNSS Down velocity. Divide by 100 for kts.
    pub gnss_ned_vel_z: i16,
    /// GNSS altitude above WGS84 ellipsoid, biased +10000. Subtract 10000 for ft.
    pub gnss_alt_wgs84: u16,
    /// GNSS geoid height. Divide by 10 for ft. MSL = WGS84 - geoid.
    pub gnss_geoid_height: i16,
    /// GNSS latitude. Divide by 1e7 for degrees.
    pub gnss_lat: i32,
    /// GNSS longitude. Divide by 1e7 for degrees.
    pub gnss_lon: i32,

    // -- INS (EKF-compensated, filtered) --
    /// Pitch angle (+up). Divide by 100 for degrees.
    pub ins_pitch: i16,
    /// Roll angle (+right). Divide by 100 for degrees.
    pub ins_roll: i16,
    /// Magnetic variation (+east). Divide by 100 for degrees.
    pub ins_mag_var: i16,
    /// True heading (0-360). Divide by 100 for degrees.
    pub ins_heading_true: u16,
    /// Magnetic heading (0-360). Divide by 100 for degrees.
    pub ins_heading_mag: u16,
    /// Climb rate in ft/min (1:1 scale).
    pub ins_climb_rate: i16,
    /// Load factor. Divide by 1000 for G.
    pub ins_load_factor: i16,
    /// INS X-axis accelerometer (+forward). Divide by 1000 for G.
    pub ins_accel_x: i16,
    /// INS Y-axis accelerometer (+right). Divide by 1000 for G.
    pub ins_accel_y: i16,
    /// INS Z-axis accelerometer (+down). Divide by 1000 for G.
    pub ins_accel_z: i16,
    /// INS X-axis gyro. Divide by 10 for deg/s.
    pub ins_gyro_x: i16,
    /// INS Y-axis gyro. Divide by 10 for deg/s.
    pub ins_gyro_y: i16,
    /// INS Z-axis gyro. Divide by 10 for deg/s.
    pub ins_gyro_z: i16,
    /// INS X-axis magnetometer. Divide by 80 for µT.
    pub ins_mag_x: i16,
    /// INS Y-axis magnetometer. Divide by 80 for µT.
    pub ins_mag_y: i16,
    /// INS Z-axis magnetometer. Divide by 80 for µT.
    pub ins_mag_z: i16,
    /// INS North velocity. Divide by 10 for kts.
    pub ins_ned_vel_x: i16,
    /// INS East velocity. Divide by 10 for kts.
    pub ins_ned_vel_y: i16,
    /// INS Down velocity. Divide by 100 for kts.
    pub ins_ned_vel_z: i16,
    /// INS ground speed. Divide by 100 for kts.
    pub ins_gnd_spd: u16,
    /// INS ground track, true (0-360). Divide by 100 for degrees.
    pub ins_gnd_track_true: u16,
    /// INS ground track, magnetic (0-360). Divide by 100 for degrees.
    pub ins_gnd_track_mag: u16,
    /// INS flight path angle (+/- 90). Divide by 100 for degrees.
    pub ins_flt_path: i16,
    /// INS altitude above WGS84 ellipsoid, biased +10000. Subtract 10000 for ft.
    pub ins_alt_wgs84: u16,
    /// INS latitude. Divide by 1e7 for degrees.
    pub ins_lat: i32,
    /// INS longitude. Divide by 1e7 for degrees.
    pub ins_lon: i32,

    // -- ADC (internal air data computer) --
    /// ADC static pressure, raw. Multiply by 2 for Pa.
    pub adc_pres: u16,
    /// ADC pressure altitude, biased +10000. Subtract 10000 for ft.
    pub adc_pres_alt: u16,

    // -- External airdata (firmware v1+, zero when not connected) --
    /// External airdata board die temperature in °C.
    pub airdata_die_temp_c: i8,
    /// External airdata static pressure. Multiply by 2 for Pa.
    pub airdata_static_pres: u16,
    /// External airdata differential pressure in Pa (1:1 scale).
    pub airdata_diff_pres: u16,
    /// External airdata OAT. Divide by 100 for °C.
    pub airdata_oat: i16,
    /// External airdata IAS. Divide by 100 for kts.
    pub airdata_ias: u16,
    /// External airdata CAS. Divide by 100 for kts.
    pub airdata_cas: u16,
    /// External airdata TAS. Divide by 100 for kts.
    pub airdata_tas: u16,
    /// External airdata pressure altitude, biased +10000. Subtract 10000 for ft.
    pub airdata_pres_alt: u16,
    /// External airdata density altitude, biased +10000. Subtract 10000 for ft.
    pub airdata_density_alt: u16,
    /// External airdata AOA. Divide by 100 for degrees (or pressure ratio per status bit).
    pub airdata_aoa: i16,
    /// External airdata wind speed. Divide by 100 for kts.
    pub airdata_wind_spd: u16,
    /// External airdata wind direction, true. Divide by 100 for degrees.
    pub airdata_wind_dir_true: u16,
    /// External airdata wind direction, magnetic. Divide by 100 for degrees.
    pub airdata_wind_dir_mag: u16,

    // -- External AGL altimeter (firmware v2, zero when not connected) --
    /// AGL altimeter board die temperature in °C.
    pub agl_die_temp_c: i8,
    /// AGL altitude in inches (1:1 scale). Divide by 12 for feet.
    pub agl_alt_in: i16,

    // -- Heart rate (firmware v2, zero when not connected) --
    /// Heart rate in BPM.
    pub heart_rate_bpm: u8,
}

/// Little-endian unsigned 16-bit value at `off`.
pub open spec fn le_u16(p: Seq<u8>, off: int) -> int {
    p[off] + 256 * p[off + 1]
}

/// Little-endian unsigned 32-bit value at `off`.
pub open spec fn le_u32(p: Seq<u8>, off: int) -> int {
    p[off] + 256 * p[off + 1] + 65536 * p[off + 2] + 16777216 * p[off + 3]
}

/// Two's-complement reading of an 8-bit pattern `v` (0 <= v < 2^8).
pub open spec fn signed8(v: int) -> int {
    if v < 0x80 { v } else { v - 0x100 }
}

/// Two's-complement reading of a 16-bit pattern `v` (0 <= v < 2^16).
pub open spec fn signed16(v: int) -> int {
    if v < 0x8000 { v } else { v - 0x1_0000 }
}

/// Two's-complement reading of a 32-bit pattern `v` (0 <= v < 2^32).
pub open spec fn signed32(v: int) -> int {
    if v < 0x8000_0000 { v } else { v - 0x1_0000_0000 }
}

/// The fixed part of a frame (present in every version) decodes from payload `p`.
pub open spec fn base_fields_decode(f: Frame, p: Seq<u8>) -> bool {
    &&& f.status@ == p.subrange(0, 6)
    &&& f.sys_time_ms == le_u32(p, 6)
    &&& f.input_volt == p[10]
    &&& f.filt_input_volt == p[11]
    &&& f.cpu_die_temp_c == signed8(p[12] as int)
    &&& f.imu_die_temp_c == signed8(p[13] as int)
    &&& f.imu_accel_x == signed16(le_u16(p, 14))
    &&& f.imu_accel_y == signed16(le_u16(p, 16))
    &&& f.imu_accel_z == signed16(le_u16(p, 18))
    &&& f.imu_gyro_x == signed16(le_u16(p, 20))
    &&& f.imu_gyro_y == signed16(le_u16(p, 22))
    &&& f.imu_gyro_z == signed16(le_u16(p, 24))
    &&& f.mag_die_temp_c == signed8(p[26] as int)
    &&& f.mag_x == signed16(le_u16(p, 27))
    &&& f.mag_y == signed16(le_u16(p, 29))
    &&& f.mag_z == signed16(le_u16(p, 31))
    &&& f.pres_die_temp_c == signed8(p[33] as int)
    &&& f.pres == le_u16(p, 34)
    &&& f.gnss_fix == p[36] % 8
    &&& f.gnss_num_sv == p[36] / 8
    &&& f.gnss_utc_year == p[37] + 1970
    &&& f.gnss_utc_month == p[38]
    &&& f.gnss_utc_day == p[39]
    &&& f.gnss_utc_hour == p[40]
    &&& f.gnss_utc_min == p[41]
    &&& f.gnss_utc_sec == p[42]
    &&& f.gnss_horz_pos_acc == p[43]
    &&& f.gnss_vert_pos_acc == p[44]
    &&& f.gnss_vel_acc == p[45]
    &&& f.gnss_ned_vel_x == signed16(le_u16(p, 46))
    &&& f.gnss_ned_vel_y == signed16(le_u16(p, 48))
    &&& f.gnss_ned_vel_z == signed16(le_u16(p, 50))
    &&& f.gnss_alt_wgs84 == le_u16(p, 52)
    &&& f.gnss_geoid_height == signed16(le_u16(p, 54))
    &&& f.gnss_lat == signed32(le_u32(p, 56))
    &&& f.gnss_lon == signed32(le_u32(p, 60))
    &&& f.ins_pitch == signed16(le_u16(p, 64))
    &&& f.ins_roll == signed16(le_u16(p, 66))
    &&& f.ins_mag_var == signed16(le_u16(p, 68))
    &&& f.ins_heading_true == le_u16(p, 70)
    &&& f.ins_heading_mag == le_u16(p, 72)
    &&& f.ins_climb_rate == signed16(le_u16(p, 74))
    &&& f.ins_load_factor == signed16(le_u16(p, 76))
    &&& f.ins_accel_x == signed16(le_u16(p, 78))
    &&& f.ins_accel_y == signed16(le_u16(p, 80))
    &&& f.ins_accel_z == signed16(le_u16(p, 82))
    &&& f.ins_gyro_x == signed16(le_u16(p, 84))
    &&& f.ins_gyro_y == signed16(le_u16(p, 86))
    &&& f.ins_gyro_z == signed16(le_u16(p, 88))
    &&& f.ins_mag_x == signed16(le_u16(p, 90))
    &&& f.ins_mag_y == signed16(le_u16(p, 92))
    &&& f.ins_mag_z == signed16(le_u16(p, 94))
    &&& f.ins_ned_vel_x == signed16(le_u16(p, 96))
    &&& f.ins_ned_vel_y == signed16(le_u16(p, 98))
    &&& f.ins_ned_vel_z == signed16(le_u16(p, 100))
    &&& f.ins_gnd_spd == le_u16(p, 102)
    &&& f.ins_gnd_track_true == le_u16(p, 104)
    &&& f.ins_gnd_track_mag == le_u16(p, 106)
    &&& f.ins_flt_path == signed16(le_u16(p, 108))
    &&& f.ins_alt_wgs84 == le_u16(p, 110)
    &&& f.ins_lat == signed32(le_u32(p, 112))
    &&& f.ins_lon == signed32(le_u32(p, 116))
    &&& f.adc_pres == le_u16(p, 120)
    &&& f.adc_pres_alt == le_u16(p, 122)
}

/// The external airdata fields decode from payload `p`.
pub open spec fn airdata_fields_decode(f: Frame, p: Seq<u8>) -> bool {
    &&& f.airdata_die_temp_c == signed8(p[124] as int)
    &&& f.airdata_static_pres == le_u16(p, 125)
    &&& f.airdata_diff_pres == le_u16(p, 127)
    &&& f.airdata_oat == signed16(le_u16(p, 129))
    &&& f.airdata_ias == le_u16(p, 131)
    &&& f.airdata_cas == le_u16(p, 133)
    &&& f.airdata_tas == le_u16(p, 135)
    &&& f.airdata_pres_alt == le_u16(p, 137)
    &&& f.airdata_density_alt == le_u16(p, 139)
    &&& f.airdata_aoa == signed16(le_u16(p, 141))
    &&& f.airdata_wind_spd == le_u16(p, 143)
    &&& f.airdata_wind_dir_true == le_u16(p, 145)
    &&& f.airdata_wind_dir_mag == le_u16(p, 147)
}

/// The external airdata fields are all zero.
pub open spec fn airdata_fields_zero(f: Frame) -> bool {
    &&& f.airdata_die_temp_c == 0
    &&& f.airdata_static_pres == 0
    &&& f.airdata_diff_pres == 0
    &&& f.airdata_oat == 0
    &&& f.airdata_ias == 0
    &&& f.airdata_cas == 0
    &&& f.airdata_tas == 0
    &&& f.airdata_pres_alt == 0
    &&& f.airdata_density_alt == 0
    &&& f.airdata_aoa == 0
    &&& f.airdata_wind_spd == 0
    &&& f.airdata_wind_dir_true == 0
    &&& f.airdata_wind_dir_mag == 0
}

/// The AGL altimeter and heart rate fields decode from payload `p`.
pub open spec fn agl_fields_decode(f: Frame, p: Seq<u8>) -> bool {
    &&& f.agl_die_temp_c == signed8(p[149] as int)
    &&& f.agl_alt_in == signed16(le_u16(p, 150))
    &&& f.heart_rate_bpm == p[152]
}

/// The AGL altimeter and heart rate fields are all zero.
pub open spec fn agl_fields_zero(f: Frame) -> bool {
    &&& f.agl_die_temp_c == 0
    &&& f.agl_alt_in == 0
    &&& f.heart_rate_bpm == 0
}

/// Whether a frame of this version, with this payload, carries the external airdata fields.
pub open spec fn has_airdata(p: Seq<u8>, version: u8) -> bool {
    version >= 1 && p.len() >= PAYLOAD_V1
}

/// Whether a frame of this version, with this payload, carries the AGL and heart-rate fields.
pub open spec fn has_agl(p: Seq<u8>, version: u8) -> bool {
    version >= 2 && p.len() >= PAYLOAD_V2
}

/// `f` is the frame that payload `p` of a frame of version `version` decodes to:
/// the fixed part always, each optional group when the version and the payload
/// length carry it, and zero in that group's fields otherwise.
pub open spec fn frame_decodes(f: Frame, p: Seq<u8>, version: u8) -> bool {
    &&& base_fields_decode(f, p)
    &&& if has_airdata(p, version) {
        airdata_fields_decode(f, p)
    } else {
        airdata_fields_zero(f)
    }
    &&& if has_agl(p, version) {
        agl_fields_decode(f, p)
    } else {
        agl_fields_zero(f)
    }
}

/// Decoded GNSS fix type and satellite count come from one packed byte (3 and
/// 5 bits), and the UTC year is an offset from 1970 held in one byte.
pub proof fn lemma_gnss_field_ranges(f: Frame, p: Seq<u8>, version: u8)
    requires
        frame_decodes(f, p, version),
    ensures
        f.gnss_fix < 8,
        f.gnss_num_sv < 32,
        1970 <= f.gnss_utc_year <= 1970 + 255,
{
}

proof fn lemma_pattern8(v: int, b: u8)
    requires
        v == b || v == signed8(b as int),
    ensures
        v % 0x100 == b,
{
}

proof fn lemma_pattern16(v: int, lo: u8, hi: u8)
    requires
        v == lo + 0x100 * hi || v == signed16(lo + 0x100 * hi),
    ensures
        v % 0x1_0000 == lo + 0x100 * hi,
{
}

proof fn lemma_pattern32(v: int, b0: u8, b1: u8, b2: u8, b3: u8)
    requires
        v == b0 + 0x100 * b1 + 0x1_0000 * b2 + 0x100_0000 * b3 || v == signed32(
            b0 + 0x100 * b1 + 0x1_0000 * b2 + 0x100_0000 * b3,
        ),
    ensures
        v % 0x1_0000_0000 == b0 + 0x100 * b1 + 0x1_0000 * b2 + 0x100_0000 * b3,
{
}

/// Layout of the fixed part of a frame, against the payload bytes: the status
/// block is bytes 0..6, and every other field's bit pattern (its value modulo
/// 2^8, 2^16 or 2^32 for its width) is the little-endian reading of the bytes
/// at its offset. The fix type and satellite count share byte 36 (low 3 bits,
/// high 5 bits), and the UTC year is 1970 plus byte 37.
pub proof fn lemma_fixed_part_layout(f: Frame, p: Seq<u8>, version: u8)
    requires
        frame_decodes(f, p, version),
        p.len() >= 124,
    ensures
        forall|i: int| 0 <= i < 6 ==> f.status@[i] == p[i],
        f.sys_time_ms as int % 0x1_0000_0000 == p[6] + 0x100 * p[7] + 0x1_0000 * p[8] + 0x100_0000 * p[9],
        f.input_volt as int % 0x100 == p[10],
        f.filt_input_volt as int % 0x100 == p[11],
        f.cpu_die_temp_c as int % 0x100 == p[12],
        f.imu_die_temp_c as int % 0x100 == p[13],
        f.imu_accel_x as int % 0x1_0000 == p[14] + 0x100 * p[15],
        f.imu_accel_y as int % 0x1_0000 == p[16] + 0x100 * p[17],
        f.imu_accel_z as int % 0x1_0000 == p[18] + 0x100 * p[19],
        f.imu_gyro_x as int % 0x1_0000 == p[20] + 0x100 * p[21],
        f.imu_gyro_y as int % 0x1_0000 == p[22] + 0x100 * p[23],
        f.imu_gyro_z as int % 0x1_0000 == p[24] + 0x100 * p[25],
        f.mag_die_temp_c as int % 0x100 == p[26],
        f.mag_x as int % 0x1_0000 == p[27] + 0x100 * p[28],
        f.mag_y as int % 0x1_0000 == p[29] + 0x100 * p[30],
        f.mag_z as int % 0x1_0000 == p[31] + 0x100 * p[32],
        f.pres_die_temp_c as int % 0x100 == p[33],
        f.pres as int % 0x1_0000 == p[34] + 0x100 * p[35],
        f.gnss_fix == p[36] % 8,
        f.gnss_num_sv == p[36] / 8,
        f.gnss_utc_year == 1970 + p[37],
        f.gnss_utc_month as int % 0x100 == p[38],
        f.gnss_utc_day as int % 0x100 == p[39],
        f.gnss_utc_hour as int % 0x100 == p[40],
        f.gnss_utc_min as int % 0x100 == p[41],
        f.gnss_utc_sec as int % 0x100 == p[42],
        f.gnss_horz_pos_acc as int % 0x100 == p[43],
        f.gnss_vert_pos_acc as int % 0x100 == p[44],
        f.gnss_vel_acc as int % 0x100 == p[45],
        f.gnss_ned_vel_x as int % 0x1_0000 == p[46] + 0x100 * p[47],
        f.gnss_ned_vel_y as int % 0x1_0000 == p[48] + 0x100 * p[49],
        f.gnss_ned_vel_z as int % 0x1_0000 == p[50] + 0x100 * p[51],
        f.gnss_alt_wgs84 as int % 0x1_0000 == p[52] + 0x100 * p[53],
        f.gnss_geoid_height as int % 0x1_0000 == p[54] + 0x100 * p[55],
        f.gnss_lat as int % 0x1_0000_0000 == p[56] + 0x100 * p[57] + 0x1_0000 * p[58] + 0x100_0000 * p[59],
        f.gnss_lon as int % 0x1_0000_0000 == p[60] + 0x100 * p[61] + 0x1_0000 * p[62] + 0x100_0000 * p[63],
        f.ins_pitch as int % 0x1_0000 == p[64] + 0x100 * p[65],
        f.ins_roll as int % 0x1_0000 == p[66] + 0x100 * p[67],
        f.ins_mag_var as int % 0x1_0000 == p[68] + 0x100 * p[69],
        f.ins_heading_true as int % 0x1_0000 == p[70] + 0x100 * p[71],
        f.ins_heading_mag as int % 0x1_0000 == p[72] + 0x100 * p[73],
        f.ins_climb_rate as int % 0x1_0000 == p[74] + 0x100 * p[75],
        f.ins_load_factor as int % 0x1_0000 == p[76] + 0x100 * p[77],
        f.ins_accel_x as int % 0x1_0000 == p[78] + 0x100 * p[79],
        f.ins_accel_y as int % 0x1_0000 == p[80] + 0x100 * p[81],
        f.ins_accel_z as int % 0x1_0000 == p[82] + 0x100 * p[83],
        f.ins_gyro_x as int % 0x1_0000 == p[84] + 0x100 * p[85],
        f.ins_gyro_y as int % 0x1_0000 == p[86] + 0x100 * p[87],
        f.ins_gyro_z as int % 0x1_0000 == p[88] + 0x100 * p[89],
        f.ins_mag_x as int % 0x1_0000 == p[90] + 0x100 * p[91],
        f.ins_mag_y as int % 0x1_0000 == p[92] + 0x100 * p[93],
        f.ins_mag_z as int % 0x1_0000 == p[94] + 0x100 * p[95],
        f.ins_ned_vel_x as int % 0x1_0000 == p[96] + 0x100 * p[97],
        f.ins_ned_vel_y as int % 0x1_0000 == p[98] + 0x100 * p[99],
        f.ins_ned_vel_z as int % 0x1_0000 == p[100] + 0x100 * p[101],
        f.ins_gnd_spd as int % 0x1_0000 == p[102] + 0x100 * p[103],
        f.ins_gnd_track_true as int % 0x1_0000 == p[104] + 0x100 * p[105],
        f.ins_gnd_track_mag as int % 0x1_0000 == p[106] + 0x100 * p[107],
        f.ins_flt_path as int % 0x1_0000 == p[108] + 0x100 * p[109],
        f.ins_alt_wgs84 as int % 0x1_0000 == p[110] + 0x100 * p[111],
        f.ins_lat as int % 0x1_0000_0000 == p[112] + 0x100 * p[113] + 0x1_0000 * p[114] + 0x100_0000 * p[115],
        f.ins_lon as int % 0x1_0000_0000 == p[116] + 0x100 * p[117] + 0x1_0000 * p[118] + 0x100_0000 * p[119],
        f.adc_pres as int % 0x1_0000 == p[120] + 0x100 * p[121],
        f.adc_pres_alt as int % 0x1_0000 == p[122] + 0x100 * p[123],
{
    lemma_pattern32(f.sys_time_ms as int, p[6], p[7], p[8], p[9]);
    lemma_pattern8(f.input_volt as int, p[10]);
    lemma_pattern8(f.filt_input_volt as int, p[11]);
    lemma_pattern8(f.cpu_die_temp_c as int, p[12]);
    lemma_pattern8(f.imu_die_temp_c as int, p[13]);
    lemma_pattern16(f.imu_accel_x as int, p[14], p[15]);
    lemma_pattern16(f.imu_accel_y as int, p[16], p[17]);
    lemma_pattern16(f.imu_accel_z as int, p[18], p[19]);
    lemma_pattern16(f.imu_gyro_x as int, p[20], p[21]);
    lemma_pattern16(f.imu_gyro_y as int, p[22], p[23]);
    lemma_pattern16(f.imu_gyro_z as int, p[24], p[25]);
    lemma_pattern8(f.mag_die_temp_c as int, p[26]);
    lemma_pattern16(f.mag_x as int, p[27], p[28]);
    lemma_pattern16(f.mag_y as int, p[29], p[30]);
    lemma_pattern16(f.mag_z as int, p[31], p[32]);
    lemma_pattern8(f.pres_die_temp_c as int, p[33]);
    lemma_pattern16(f.pres as int, p[34], p[35]);
    lemma_pattern8(f.gnss_utc_month as int, p[38]);
    lemma_pattern8(f.gnss_utc_day as int, p[39]);
    lemma_pattern8(f.gnss_utc_hour as int, p[40]);
    lemma_pattern8(f.gnss_utc_min as int, p[41]);
    lemma_pattern8(f.gnss_utc_sec as int, p[42]);
    lemma_pattern8(f.gnss_horz_pos_acc as int, p[43]);
    lemma_pattern8(f.gnss_vert_pos_acc as int, p[44]);
    lemma_pattern8(f.gnss_vel_acc as int, p[45]);
    lemma_pattern16(f.gnss_ned_vel_x as int, p[46], p[47]);
    lemma_pattern16(f.gnss_ned_vel_y as int, p[48], p[49]);
    lemma_pattern16(f.gnss_ned_vel_z as int, p[50], p[51]);
    lemma_pattern16(f.gnss_alt_wgs84 as int, p[52], p[53]);
    lemma_pattern16(f.gnss_geoid_height as int, p[54], p[55]);
    lemma_pattern32(f.gnss_lat as int, p[56], p[57], p[58], p[59]);
    lemma_pattern32(f.gnss_lon as int, p[60], p[61], p[62], p[63]);
    lemma_pattern16(f.ins_pitch as int, p[64], p[65]);
    lemma_pattern16(f.ins_roll as int, p[66], p[67]);
    lemma_pattern16(f.ins_mag_var as int, p[68], p[69]);
    lemma_pattern16(f.ins_heading_true as int, p[70], p[71]);
    lemma_pattern16(f.ins_heading_mag as int, p[72], p[73]);
    lemma_pattern16(f.ins_climb_rate as int, p[74], p[75]);
    lemma_pattern16(f.ins_load_factor as int, p[76], p[77]);
    lemma_pattern16(f.ins_accel_x as int, p[78], p[79]);
    lemma_pattern16(f.ins_accel_y as int, p[80], p[81]);
    lemma_pattern16(f.ins_accel_z as int, p[82], p[83]);
    lemma_pattern16(f.ins_gyro_x as int, p[84], p[85]);
    lemma_pattern16(f.ins_gyro_y as int, p[86], p[87]);
    lemma_pattern16(f.ins_gyro_z as int, p[88], p[89]);
    lemma_pattern16(f.ins_mag_x as int, p[90], p[91]);
    lemma_pattern16(f.ins_mag_y as int, p[92], p[93]);
    lemma_pattern16(f.ins_mag_z as int, p[94], p[95]);
    lemma_pattern16(f.ins_ned_vel_x as int, p[96], p[97]);
    lemma_pattern16(f.ins_ned_vel_y as int, p[98], p[99]);
    lemma_pattern16(f.ins_ned_vel_z as int, p[100], p[101]);
    lemma_pattern16(f.ins_gnd_spd as int, p[102], p[103]);
    lemma_pattern16(f.ins_gnd_track_true as int, p[104], p[105]);
    lemma_pattern16(f.ins_gnd_track_mag as int, p[106], p[107]);
    lemma_pattern16(f.ins_flt_path as int, p[108], p[109]);
    lemma_pattern16(f.ins_alt_wgs84 as int, p[110], p[111]);
    lemma_pattern32(f.ins_lat as int, p[112], p[113], p[114], p[115]);
    lemma_pattern32(f.ins_lon as int, p[116], p[117], p[118], p[119]);
    lemma_pattern16(f.adc_pres as int, p[120], p[121]);
    lemma_pattern16(f.adc_pres_alt as int, p[122], p[123]);
}

/// Layout of the external airdata group, present from version 1 on (when the
/// payload is long enough): each field's bit pattern is the little-endian
/// reading of the bytes at its offset, from byte 124 to byte 148.
pub proof fn lemma_airdata_layout(f: Frame, p: Seq<u8>, version: u8)
    requires
        frame_decodes(f, p, version),
        version >= 1,
        p.len() >= 155,
    ensures
        f.airdata_die_temp_c as int % 0x100 == p[124],
        f.airdata_static_pres as int % 0x1_0000 == p[125] + 0x100 * p[126],
        f.airdata_diff_pres as int % 0x1_0000 == p[127] + 0x100 * p[128],
        f.airdata_oat as int % 0x1_0000 == p[129] + 0x100 * p[130],
        f.airdata_ias as int % 0x1_0000 == p[131] + 0x100 * p[132],
        f.airdata_cas as int % 0x1_0000 == p[133] + 0x100 * p[134],
        f.airdata_tas as int % 0x1_0000 == p[135] + 0x100 * p[136],
        f.airdata_pres_alt as int % 0x1_0000 == p[137] + 0x100 * p[138],
        f.airdata_density_alt as int % 0x1_0000 == p[139] + 0x100 * p[140],
        f.airdata_aoa as int % 0x1_0000 == p[141] + 0x100 * p[142],
        f.airdata_wind_spd as int % 0x1_0000 == p[143] + 0x100 * p[144],
        f.airdata_wind_dir_true as int % 0x1_0000 == p[145] + 0x100 * p[146],
        f.airdata_wind_dir_mag as int % 0x1_0000 == p[147] + 0x100 * p[148],
{
}

/// Layout of the AGL altimeter and heart-rate group, present from version 2 on
/// (when the payload is long enough): bytes 149 to 152.
pub proof fn lemma_agl_layout(f: Frame, p: Seq<u8>, version: u8)
    requires
        frame_decodes(f, p, version),
        version >= 2,
        p.len() >= 184,
    ensures
        f.agl_die_temp_c as int % 0x100 == p[149],
        f.agl_alt_in as int % 0x1_0000 == p[150] + 0x100 * p[151],
        f.heart_rate_bpm as int % 0x100 == p[152],
{
}

/// A group the frame's version (or payload length) does not carry reads as zero:
/// version 0 frames have no airdata, and frames before version 2 no AGL or heart rate.
pub proof fn lemma_absent_groups_zero(f: Frame, p: Seq<u8>, version: u8)
    requires
        frame_decodes(f, p, version),
    ensures
        version == 0 || p.len() < 155 ==> {
            &&& f.airdata_die_temp_c == 0
            &&& f.airdata_static_pres == 0
            &&& f.airdata_diff_pres == 0
            &&& f.airdata_oat == 0
            &&& f.airdata_ias == 0
            &&& f.airdata_cas == 0
            &&& f.airdata_tas == 0
            &&& f.airdata_pres_alt == 0
            &&& f.airdata_density_alt == 0
            &&& f.airdata_aoa == 0
            &&& f.airdata_wind_spd == 0
            &&& f.airdata_wind_dir_true == 0
            &&& f.airdata_wind_dir_mag == 0
        },
        version <= 1 || p.len() < 184 ==> {
            &&& f.agl_die_temp_c == 0
            &&& f.agl_alt_in == 0
            &&& f.heart_rate_bpm == 0
        },
{
}

/// Little-endian `u16` at `off`.
pub fn u16_le(p: &[u8], off: usize) -> (r: u16)
    requires
        off + 1 < p@.len(),
    ensures
        r == le_u16(p@, off as int),
{
    p[off] as u16 + (p[off + 1] as u16) * 256
}

/// Little-endian `u32` at `off`.
pub fn u32_le(p: &[u8], off: usize) -> (r: u32)
    requires
        off + 3 < p@.len(),
    ensures
        r == le_u32(p@, off as int),
{
    p[off] as u32 + (p[off + 1] as u32) * 256 + (p[off + 2] as u32) * 65536 + (p[off + 3] as u32)
        * 16777216
}

/// Byte at `off`, read as a two's-complement `i8`.
pub fn i8_at(p: &[u8], off: usize) -> (r: i8)
    requires
        off < p@.len(),
    ensures
        r == signed8(p@[off as int] as int),
{
    let b = p[off];
    if b < 0x80 {
        b as i8
    } else {
        ((b - 0x80) as i8) - 0x7f - 1
    }
}

/// Little-endian two's-complement `i16` at `off`.
pub fn i16_le(p: &[u8], off: usize) -> (r: i16)
    requires
        off + 1 < p@.len(),
    ensures
        r == signed16(le_u16(p@, off as int)),
{
    let v = u16_le(p, off);
    if v < 0x8000 {
        v as i16
    } else {
        ((v - 0x8000) as i16) - 0x7fff - 1
    }
}

/// Little-endian two's-complement `i32` at `off`.
pub fn i32_le(p: &[u8], off: usize) -> (r: i32)
    requires
        off + 3 < p@.len(),
    ensures
        r == signed32(le_u32(p@, off as int)),
{
    let v = u32_le(p, off);
    if v < 0x8000_0000 {
        v as i32
    } else {
        ((v - 0x8000_0000) as i32) - 0x7fff_ffff - 1
    }
}

/// Decode the payload `p` (the frame without its 4-byte header) of a frame of version `version`.
pub fn parse_frame(p: &[u8], version: u8) -> (f: Frame)
    requires
        p@.len() >= BASE_FIELDS_LEN,
    ensures
        frame_decodes(f, p@, version),
{
    let status: [u8; 6] = [p[0], p[1], p[2], p[3], p[4], p[5]];
    assert(status@ =~= p@.subrange(0, 6));
    let g = p[36];
    assert(g & 0x07 == g % 8 && g >> 3 == g / 8) by (bit_vector);
    let mut f = Frame {
        status,
        sys_time_ms: u32_le(p, 6),
        input_volt: p[10],
        filt_input_volt: p[11],
        cpu_die_temp_c: i8_at(p, 12),
        imu_die_temp_c: i8_at(p, 13),
        imu_accel_x: i16_le(p, 14),
        imu_accel_y: i16_le(p, 16),
        imu_accel_z: i16_le(p, 18),
        imu_gyro_x: i16_le(p, 20),
        imu_gyro_y: i16_le(p, 22),
        imu_gyro_z: i16_le(p, 24),
        mag_die_temp_c: i8_at(p, 26),
        mag_x: i16_le(p, 27),
        mag_y: i16_le(p, 29),
        mag_z: i16_le(p, 31),
        pres_die_temp_c: i8_at(p, 33),
        pres: u16_le(p, 34),
        gnss_fix: p[36] & 0x07,
        gnss_num_sv: p[36] >> 3,
        gnss_utc_year: p[37] as u16 + 1970,
        gnss_utc_month: p[38],
        gnss_utc_day: p[39],
        gnss_utc_hour: p[40],
        gnss_utc_min: p[41],
        gnss_utc_sec: p[42],
        gnss_horz_pos_acc: p[43],
        gnss_vert_pos_acc: p[44],
        gnss_vel_acc: p[45],
        gnss_ned_vel_x: i16_le(p, 46),
        gnss_ned_vel_y: i16_le(p, 48),
        gnss_ned_vel_z: i16_le(p, 50),
        gnss_alt_wgs84: u16_le(p, 52),
        gnss_geoid_height: i16_le(p, 54),
        gnss_lat: i32_le(p, 56),
        gnss_lon: i32_le(p, 60),
        ins_pitch: i16_le(p, 64),
        ins_roll: i16_le(p, 66),
        ins_mag_var: i16_le(p, 68),
        ins_heading_true: u16_le(p, 70),
        ins_heading_mag: u16_le(p, 72),
        ins_climb_rate: i16_le(p, 74),
        ins_load_factor: i16_le(p, 76),
        ins_accel_x: i16_le(p, 78),
        ins_accel_y: i16_le(p, 80),
        ins_accel_z: i16_le(p, 82),
        ins_gyro_x: i16_le(p, 84),
        ins_gyro_y: i16_le(p, 86),
        ins_gyro_z: i16_le(p, 88),
        ins_mag_x: i16_le(p, 90),
        ins_mag_y: i16_le(p, 92),
        ins_mag_z: i16_le(p, 94),
        ins_ned_vel_x: i16_le(p, 96),
        ins_ned_vel_y: i16_le(p, 98),
        ins_ned_vel_z: i16_le(p, 100),
        ins_gnd_spd: u16_le(p, 102),
        ins_gnd_track_true: u16_le(p, 104),
        ins_gnd_track_mag: u16_le(p, 106),
        ins_flt_path: i16_le(p, 108),
        ins_alt_wgs84: u16_le(p, 110),
        ins_lat: i32_le(p, 112),
        ins_lon: i32_le(p, 116),
        adc_pres: u16_le(p, 120),
        adc_pres_alt: u16_le(p, 122),
        airdata_die_temp_c: 0,
        airdata_static_pres: 0,
        airdata_diff_pres: 0,
        airdata_oat: 0,
        airdata_ias: 0,
        airdata_cas: 0,
        airdata_tas: 0,
        airdata_pres_alt: 0,
        airdata_density_alt: 0,
        airdata_aoa: 0,
        airdata_wind_spd: 0,
        airdata_wind_dir_true: 0,
        airdata_wind_dir_mag: 0,
        agl_die_temp_c: 0,
        agl_alt_in: 0,
        heart_rate_bpm: 0,
    };

    if version >= 1 && p.len() >= PAYLOAD_V1 {
        f.airdata_die_temp_c = i8_at(p, 124);
        f.airdata_static_pres = u16_le(p, 125);
        f.airdata_diff_pres = u16_le(p, 127);
        f.airdata_oat = i16_le(p, 129);
        f.airdata_ias = u16_le(p, 131);
        f.airdata_cas = u16_le(p, 133);
        f.airdata_tas = u16_le(p, 135);
        f.airdata_pres_alt = u16_le(p, 137);
        f.airdata_density_alt = u16_le(p, 139);
        f.airdata_aoa = i16_le(p, 141);
        f.airdata_wind_spd = u16_le(p, 143);
        f.airdata_wind_dir_true = u16_le(p, 145);
        f.airdata_wind_dir_mag = u16_le(p, 147);
    }

    if version >= 2 && p.len() >= PAYLOAD_V2 {
        f.agl_die_temp_c = i8_at(p, 149);
        f.agl_alt_in = i16_le(p, 150);
        f.heart_rate_bpm = p[152];
    }

    f
}

} // verus!
