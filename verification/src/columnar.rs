//! Columnar (struct-of-arrays) representation of flight data.
//!
//! [`Columns`] stores each field as a contiguous vector, transposed from
//! the row-oriented [`Frame`] representation. This layout suits time-series
//! analysis that iterates one field across many samples.

use vstd::prelude::*;

use crate::frame::Frame;
use crate::parser::{FileHeader, OnFlightFile};

verus! {

/// Columnar flight data storing raw encoded values, one vector per frame field.
#[derive(Debug, Clone)]
pub struct Columns {
    pub header: FileHeader,
    pub len: usize,

    /// Per-frame status bitfield (6 bytes per frame).
    pub status: Vec<[u8; 6]>,

    // System
    pub sys_time_ms: Vec<u32>,
    pub input_volt: Vec<u8>,          // /25 → V
    pub filt_input_volt: Vec<u8>,     // /25 → V
    pub cpu_die_temp_c: Vec<i8>,
    pub imu_die_temp_c: Vec<i8>,
    pub mag_die_temp_c: Vec<i8>,
    pub pres_die_temp_c: Vec<i8>,

    // IMU (raw, body frame)
    pub imu_accel_x: Vec<i16>,       // /1000 → G
    pub imu_accel_y: Vec<i16>,
    pub imu_accel_z: Vec<i16>,
    pub imu_gyro_x: Vec<i16>,        // /10 → deg/s
    pub imu_gyro_y: Vec<i16>,
    pub imu_gyro_z: Vec<i16>,

    // Magnetometer
    pub mag_x: Vec<i16>,             // /80 → µT
    pub mag_y: Vec<i16>,
    pub mag_z: Vec<i16>,

    // Static pressure
    pub pres: Vec<u16>,              // *2 → Pa

    // GNSS
    pub gnss_fix: Vec<u8>,
    pub gnss_num_sv: Vec<u8>,
    pub gnss_utc_year: Vec<u16>,
    pub gnss_utc_month: Vec<u8>,
    pub gnss_utc_day: Vec<u8>,
    pub gnss_utc_hour: Vec<u8>,
    pub gnss_utc_min: Vec<u8>,
    pub gnss_utc_sec: Vec<u8>,
    pub gnss_horz_pos_acc: Vec<u8>,   // /10 → ft
    pub gnss_vert_pos_acc: Vec<u8>,   // /10 → ft
    pub gnss_vel_acc: Vec<u8>,        // /10 → kts
    pub gnss_ned_vel_x: Vec<i16>,     // /10 → kts
    pub gnss_ned_vel_y: Vec<i16>,
    pub gnss_ned_vel_z: Vec<i16>,     // /100 → kts
    pub gnss_alt_wgs84: Vec<u16>,     // -10000 → ft
    pub gnss_geoid_height: Vec<i16>,  // /10 → ft
    pub gnss_lat: Vec<i32>,           // /1e7 → deg
    pub gnss_lon: Vec<i32>,

    // INS (EKF-fused)
    pub ins_pitch: Vec<i16>,          // /100 → deg (+up)
    pub ins_roll: Vec<i16>,           // /100 → deg (+right)
    pub ins_mag_var: Vec<i16>,        // /100 → deg (+east)
    pub ins_heading_true: Vec<u16>,   // /100 → deg (0-360)
    pub ins_heading_mag: Vec<u16>,    // /100 → deg (0-360)
    pub ins_climb_rate: Vec<i16>,     // 1:1 → ft/min
    pub ins_load_factor: Vec<i16>,    // /1000 → G
    pub ins_accel_x: Vec<i16>,        // /1000 → G
    pub ins_accel_y: Vec<i16>,
    pub ins_accel_z: Vec<i16>,
    pub ins_gyro_x: Vec<i16>,         // /10 → deg/s
    pub ins_gyro_y: Vec<i16>,
    pub ins_gyro_z: Vec<i16>,
    pub ins_mag_x: Vec<i16>,          // /80 → µT
    pub ins_mag_y: Vec<i16>,
    pub ins_mag_z: Vec<i16>,
    pub ins_ned_vel_x: Vec<i16>,      // /10 → kts
    pub ins_ned_vel_y: Vec<i16>,
    pub ins_ned_vel_z: Vec<i16>,      // /100 → kts
    pub ins_gnd_spd: Vec<u16>,        // /100 → kts
    pub ins_gnd_track_true: Vec<u16>, // /100 → deg (0-360)
    pub ins_gnd_track_mag: Vec<u16>,  // /100 → deg (0-360)
    pub ins_flt_path: Vec<i16>,       // /100 → deg
    pub ins_alt_wgs84: Vec<u16>,      // -10000 → ft
    pub ins_lat: Vec<i32>,            // /1e7 → deg
    pub ins_lon: Vec<i32>,

    // ADC
    pub adc_pres: Vec<u16>,           // *2 → Pa
    pub adc_pres_alt: Vec<u16>,       // -10000 → ft

    // External airdata (v1+)
    pub airdata_die_temp_c: Vec<i8>,
    pub airdata_static_pres: Vec<u16>,
    pub airdata_diff_pres: Vec<u16>,
    pub airdata_oat: Vec<i16>,         // /100 → °C
    pub airdata_ias: Vec<u16>,         // /100 → kts
    pub airdata_cas: Vec<u16>,         // /100 → kts
    pub airdata_tas: Vec<u16>,         // /100 → kts
    pub airdata_pres_alt: Vec<u16>,    // -10000 → ft
    pub airdata_density_alt: Vec<u16>, // -10000 → ft
    pub airdata_aoa: Vec<i16>,         // /100
    pub airdata_wind_spd: Vec<u16>,    // /100 → kts
    pub airdata_wind_dir_true: Vec<u16>, // /100 → deg
    pub airdata_wind_dir_mag: Vec<u16>,  // /100 → deg

    // External AGL altimeter (v2)
    pub agl_die_temp_c: Vec<i8>,
    pub agl_alt_in: Vec<i16>,         // 1:1 → inches

    // Heart rate (v2)
    pub heart_rate_bpm: Vec<u8>,
}

impl Columns {
    /// Every column holds exactly `len` entries.
    pub open spec fn columns_agree(&self) -> bool {
        &&& self.status@.len() == self.len
        &&& self.sys_time_ms@.len() == self.len
        &&& self.input_volt@.len() == self.len
        &&& self.filt_input_volt@.len() == self.len
        &&& self.cpu_die_temp_c@.len() == self.len
        &&& self.imu_die_temp_c@.len() == self.len
        &&& self.mag_die_temp_c@.len() == self.len
        &&& self.pres_die_temp_c@.len() == self.len
        &&& self.imu_accel_x@.len() == self.len
        &&& self.imu_accel_y@.len() == self.len
        &&& self.imu_accel_z@.len() == self.len
        &&& self.imu_gyro_x@.len() == self.len
        &&& self.imu_gyro_y@.len() == self.len
        &&& self.imu_gyro_z@.len() == self.len
        &&& self.mag_x@.len() == self.len
        &&& self.mag_y@.len() == self.len
        &&& self.mag_z@.len() == self.len
        &&& self.pres@.len() == self.len
        &&& self.gnss_fix@.len() == self.len
        &&& self.gnss_num_sv@.len() == self.len
        &&& self.gnss_utc_year@.len() == self.len
        &&& self.gnss_utc_month@.len() == self.len
        &&& self.gnss_utc_day@.len() == self.len
        &&& self.gnss_utc_hour@.len() == self.len
        &&& self.gnss_utc_min@.len() == self.len
        &&& self.gnss_utc_sec@.len() == self.len
        &&& self.gnss_horz_pos_acc@.len() == self.len
        &&& self.gnss_vert_pos_acc@.len() == self.len
        &&& self.gnss_vel_acc@.len() == self.len
        &&& self.gnss_ned_vel_x@.len() == self.len
        &&& self.gnss_ned_vel_y@.len() == self.len
        &&& self.gnss_ned_vel_z@.len() == self.len
        &&& self.gnss_alt_wgs84@.len() == self.len
        &&& self.gnss_geoid_height@.len() == self.len
        &&& self.gnss_lat@.len() == self.len
        &&& self.gnss_lon@.len() == self.len
        &&& self.ins_pitch@.len() == self.len
        &&& self.ins_roll@.len() == self.len
        &&& self.ins_mag_var@.len() == self.len
        &&& self.ins_heading_true@.len() == self.len
        &&& self.ins_heading_mag@.len() == self.len
        &&& self.ins_climb_rate@.len() == self.len
        &&& self.ins_load_factor@.len() == self.len
        &&& self.ins_accel_x@.len() == self.len
        &&& self.ins_accel_y@.len() == self.len
        &&& self.ins_accel_z@.len() == self.len
        &&& self.ins_gyro_x@.len() == self.len
        &&& self.ins_gyro_y@.len() == self.len
        &&& self.ins_gyro_z@.len() == self.len
        &&& self.ins_mag_x@.len() == self.len
        &&& self.ins_mag_y@.len() == self.len
        &&& self.ins_mag_z@.len() == self.len
        &&& self.ins_ned_vel_x@.len() == self.len
        &&& self.ins_ned_vel_y@.len() == self.len
        &&& self.ins_ned_vel_z@.len() == self.len
        &&& self.ins_gnd_spd@.len() == self.len
        &&& self.ins_gnd_track_true@.len() == self.len
        &&& self.ins_gnd_track_mag@.len() == self.len
        &&& self.ins_flt_path@.len() == self.len
        &&& self.ins_alt_wgs84@.len() == self.len
        &&& self.ins_lat@.len() == self.len
        &&& self.ins_lon@.len() == self.len
        &&& self.adc_pres@.len() == self.len
        &&& self.adc_pres_alt@.len() == self.len
        &&& self.airdata_die_temp_c@.len() == self.len
        &&& self.airdata_static_pres@.len() == self.len
        &&& self.airdata_diff_pres@.len() == self.len
        &&& self.airdata_oat@.len() == self.len
        &&& self.airdata_ias@.len() == self.len
        &&& self.airdata_cas@.len() == self.len
        &&& self.airdata_tas@.len() == self.len
        &&& self.airdata_pres_alt@.len() == self.len
        &&& self.airdata_density_alt@.len() == self.len
        &&& self.airdata_aoa@.len() == self.len
        &&& self.airdata_wind_spd@.len() == self.len
        &&& self.airdata_wind_dir_true@.len() == self.len
        &&& self.airdata_wind_dir_mag@.len() == self.len
        &&& self.agl_die_temp_c@.len() == self.len
        &&& self.agl_alt_in@.len() == self.len
        &&& self.heart_rate_bpm@.len() == self.len
    }

    /// The frame made of entry `i` of every column.
    pub open spec fn row(&self, i: int) -> Frame {
        Frame {
            status: self.status@[i],
            sys_time_ms: self.sys_time_ms@[i],
            input_volt: self.input_volt@[i],
            filt_input_volt: self.filt_input_volt@[i],
            cpu_die_temp_c: self.cpu_die_temp_c@[i],
            imu_die_temp_c: self.imu_die_temp_c@[i],
            imu_accel_x: self.imu_accel_x@[i],
            imu_accel_y: self.imu_accel_y@[i],
            imu_accel_z: self.imu_accel_z@[i],
            imu_gyro_x: self.imu_gyro_x@[i],
            imu_gyro_y: self.imu_gyro_y@[i],
            imu_gyro_z: self.imu_gyro_z@[i],
            mag_die_temp_c: self.mag_die_temp_c@[i],
            mag_x: self.mag_x@[i],
            mag_y: self.mag_y@[i],
            mag_z: self.mag_z@[i],
            pres_die_temp_c: self.pres_die_temp_c@[i],
            pres: self.pres@[i],
            gnss_fix: self.gnss_fix@[i],
            gnss_num_sv: self.gnss_num_sv@[i],
            gnss_utc_year: self.gnss_utc_year@[i],
            gnss_utc_month: self.gnss_utc_month@[i],
            gnss_utc_day: self.gnss_utc_day@[i],
            gnss_utc_hour: self.gnss_utc_hour@[i],
            gnss_utc_min: self.gnss_utc_min@[i],
            gnss_utc_sec: self.gnss_utc_sec@[i],
            gnss_horz_pos_acc: self.gnss_horz_pos_acc@[i],
            gnss_vert_pos_acc: self.gnss_vert_pos_acc@[i],
            gnss_vel_acc: self.gnss_vel_acc@[i],
            gnss_ned_vel_x: self.gnss_ned_vel_x@[i],
            gnss_ned_vel_y: self.gnss_ned_vel_y@[i],
            gnss_ned_vel_z: self.gnss_ned_vel_z@[i],
            gnss_alt_wgs84: self.gnss_alt_wgs84@[i],
            gnss_geoid_height: self.gnss_geoid_height@[i],
            gnss_lat: self.gnss_lat@[i],
            gnss_lon: self.gnss_lon@[i],
            ins_pitch: self.ins_pitch@[i],
            ins_roll: self.ins_roll@[i],
            ins_mag_var: self.ins_mag_var@[i],
            ins_heading_true: self.ins_heading_true@[i],
            ins_heading_mag: self.ins_heading_mag@[i],
            ins_climb_rate: self.ins_climb_rate@[i],
            ins_load_factor: self.ins_load_factor@[i],
            ins_accel_x: self.ins_accel_x@[i],
            ins_accel_y: self.ins_accel_y@[i],
            ins_accel_z: self.ins_accel_z@[i],
            ins_gyro_x: self.ins_gyro_x@[i],
            ins_gyro_y: self.ins_gyro_y@[i],
            ins_gyro_z: self.ins_gyro_z@[i],
            ins_mag_x: self.ins_mag_x@[i],
            ins_mag_y: self.ins_mag_y@[i],
            ins_mag_z: self.ins_mag_z@[i],
            ins_ned_vel_x: self.ins_ned_vel_x@[i],
            ins_ned_vel_y: self.ins_ned_vel_y@[i],
            ins_ned_vel_z: self.ins_ned_vel_z@[i],
            ins_gnd_spd: self.ins_gnd_spd@[i],
            ins_gnd_track_true: self.ins_gnd_track_true@[i],
            ins_gnd_track_mag: self.ins_gnd_track_mag@[i],
            ins_flt_path: self.ins_flt_path@[i],
            ins_alt_wgs84: self.ins_alt_wgs84@[i],
            ins_lat: self.ins_lat@[i],
            ins_lon: self.ins_lon@[i],
            adc_pres: self.adc_pres@[i],
            adc_pres_alt: self.adc_pres_alt@[i],
            airdata_die_temp_c: self.airdata_die_temp_c@[i],
            airdata_static_pres: self.airdata_static_pres@[i],
            airdata_diff_pres: self.airdata_diff_pres@[i],
            airdata_oat: self.airdata_oat@[i],
            airdata_ias: self.airdata_ias@[i],
            airdata_cas: self.airdata_cas@[i],
            airdata_tas: self.airdata_tas@[i],
            airdata_pres_alt: self.airdata_pres_alt@[i],
            airdata_density_alt: self.airdata_density_alt@[i],
            airdata_aoa: self.airdata_aoa@[i],
            airdata_wind_spd: self.airdata_wind_spd@[i],
            airdata_wind_dir_true: self.airdata_wind_dir_true@[i],
            airdata_wind_dir_mag: self.airdata_wind_dir_mag@[i],
            agl_die_temp_c: self.agl_die_temp_c@[i],
            agl_alt_in: self.agl_alt_in@[i],
            heart_rate_bpm: self.heart_rate_bpm@[i],
        }
    }

    /// The rows `0 .. len`, in order.
    pub open spec fn rows(&self) -> Seq<Frame> {
        Seq::new(self.len as nat, |i: int| self.row(i))
    }

    /// The columns are the transpose of the frames they were built from: entry
    /// `i` of each column is the same-named field of frame `i`.
    pub proof fn lemma_transpose(cols: Columns, frames: Seq<Frame>)
        requires
            cols.columns_agree(),
            cols.rows() == frames,
        ensures
            cols.len == frames.len(),
            forall|i: int|
                #![trigger frames[i]]
                0 <= i < frames.len() ==> {
            &&& cols.status@[i] == frames[i].status
            &&& cols.sys_time_ms@[i] == frames[i].sys_time_ms
            &&& cols.input_volt@[i] == frames[i].input_volt
            &&& cols.filt_input_volt@[i] == frames[i].filt_input_volt
            &&& cols.cpu_die_temp_c@[i] == frames[i].cpu_die_temp_c
            &&& cols.imu_die_temp_c@[i] == frames[i].imu_die_temp_c
            &&& cols.mag_die_temp_c@[i] == frames[i].mag_die_temp_c
            &&& cols.pres_die_temp_c@[i] == frames[i].pres_die_temp_c
            &&& cols.imu_accel_x@[i] == frames[i].imu_accel_x
            &&& cols.imu_accel_y@[i] == frames[i].imu_accel_y
            &&& cols.imu_accel_z@[i] == frames[i].imu_accel_z
            &&& cols.imu_gyro_x@[i] == frames[i].imu_gyro_x
            &&& cols.imu_gyro_y@[i] == frames[i].imu_gyro_y
            &&& cols.imu_gyro_z@[i] == frames[i].imu_gyro_z
            &&& cols.mag_x@[i] == frames[i].mag_x
            &&& cols.mag_y@[i] == frames[i].mag_y
            &&& cols.mag_z@[i] == frames[i].mag_z
            &&& cols.pres@[i] == frames[i].pres
            &&& cols.gnss_fix@[i] == frames[i].gnss_fix
            &&& cols.gnss_num_sv@[i] == frames[i].gnss_num_sv
            &&& cols.gnss_utc_year@[i] == frames[i].gnss_utc_year
            &&& cols.gnss_utc_month@[i] == frames[i].gnss_utc_month
            &&& cols.gnss_utc_day@[i] == frames[i].gnss_utc_day
            &&& cols.gnss_utc_hour@[i] == frames[i].gnss_utc_hour
            &&& cols.gnss_utc_min@[i] == frames[i].gnss_utc_min
            &&& cols.gnss_utc_sec@[i] == frames[i].gnss_utc_sec
            &&& cols.gnss_horz_pos_acc@[i] == frames[i].gnss_horz_pos_acc
            &&& cols.gnss_vert_pos_acc@[i] == frames[i].gnss_vert_pos_acc
            &&& cols.gnss_vel_acc@[i] == frames[i].gnss_vel_acc
            &&& cols.gnss_ned_vel_x@[i] == frames[i].gnss_ned_vel_x
            &&& cols.gnss_ned_vel_y@[i] == frames[i].gnss_ned_vel_y
            &&& cols.gnss_ned_vel_z@[i] == frames[i].gnss_ned_vel_z
            &&& cols.gnss_alt_wgs84@[i] == frames[i].gnss_alt_wgs84
            &&& cols.gnss_geoid_height@[i] == frames[i].gnss_geoid_height
            &&& cols.gnss_lat@[i] == frames[i].gnss_lat
            &&& cols.gnss_lon@[i] == frames[i].gnss_lon
            &&& cols.ins_pitch@[i] == frames[i].ins_pitch
            &&& cols.ins_roll@[i] == frames[i].ins_roll
            &&& cols.ins_mag_var@[i] == frames[i].ins_mag_var
            &&& cols.ins_heading_true@[i] == frames[i].ins_heading_true
            &&& cols.ins_heading_mag@[i] == frames[i].ins_heading_mag
            &&& cols.ins_climb_rate@[i] == frames[i].ins_climb_rate
            &&& cols.ins_load_factor@[i] == frames[i].ins_load_factor
            &&& cols.ins_accel_x@[i] == frames[i].ins_accel_x
            &&& cols.ins_accel_y@[i] == frames[i].ins_accel_y
            &&& cols.ins_accel_z@[i] == frames[i].ins_accel_z
            &&& cols.ins_gyro_x@[i] == frames[i].ins_gyro_x
            &&& cols.ins_gyro_y@[i] == frames[i].ins_gyro_y
            &&& cols.ins_gyro_z@[i] == frames[i].ins_gyro_z
            &&& cols.ins_mag_x@[i] == frames[i].ins_mag_x
            &&& cols.ins_mag_y@[i] == frames[i].ins_mag_y
            &&& cols.ins_mag_z@[i] == frames[i].ins_mag_z
            &&& cols.ins_ned_vel_x@[i] == frames[i].ins_ned_vel_x
            &&& cols.ins_ned_vel_y@[i] == frames[i].ins_ned_vel_y
            &&& cols.ins_ned_vel_z@[i] == frames[i].ins_ned_vel_z
            &&& cols.ins_gnd_spd@[i] == frames[i].ins_gnd_spd
            &&& cols.ins_gnd_track_true@[i] == frames[i].ins_gnd_track_true
            &&& cols.ins_gnd_track_mag@[i] == frames[i].ins_gnd_track_mag
            &&& cols.ins_flt_path@[i] == frames[i].ins_flt_path
            &&& cols.ins_alt_wgs84@[i] == frames[i].ins_alt_wgs84
            &&& cols.ins_lat@[i] == frames[i].ins_lat
            &&& cols.ins_lon@[i] == frames[i].ins_lon
            &&& cols.adc_pres@[i] == frames[i].adc_pres
            &&& cols.adc_pres_alt@[i] == frames[i].adc_pres_alt
            &&& cols.airdata_die_temp_c@[i] == frames[i].airdata_die_temp_c
            &&& cols.airdata_static_pres@[i] == frames[i].airdata_static_pres
            &&& cols.airdata_diff_pres@[i] == frames[i].airdata_diff_pres
            &&& cols.airdata_oat@[i] == frames[i].airdata_oat
            &&& cols.airdata_ias@[i] == frames[i].airdata_ias
            &&& cols.airdata_cas@[i] == frames[i].airdata_cas
            &&& cols.airdata_tas@[i] == frames[i].airdata_tas
            &&& cols.airdata_pres_alt@[i] == frames[i].airdata_pres_alt
            &&& cols.airdata_density_alt@[i] == frames[i].airdata_density_alt
            &&& cols.airdata_aoa@[i] == frames[i].airdata_aoa
            &&& cols.airdata_wind_spd@[i] == frames[i].airdata_wind_spd
            &&& cols.airdata_wind_dir_true@[i] == frames[i].airdata_wind_dir_true
            &&& cols.airdata_wind_dir_mag@[i] == frames[i].airdata_wind_dir_mag
            &&& cols.agl_die_temp_c@[i] == frames[i].agl_die_temp_c
            &&& cols.agl_alt_in@[i] == frames[i].agl_alt_in
            &&& cols.heart_rate_bpm@[i] == frames[i].heart_rate_bpm
            },
    {
        assert forall|i: int| 0 <= i < frames.len() implies #[trigger] frames[i] == cols.row(i) by {
            assert(cols.rows()[i] == cols.row(i));
        }
    }

    /// Transpose an [`OnFlightFile`] (row-oriented) into columnar storage.
    pub fn from_file(file: OnFlightFile) -> (cols: Self)
        ensures
            cols.columns_agree(),
            cols.header == file.header,
            cols.len == file.frames@.len(),
            cols.rows() == file.frames@,
    {
        let n = file.frames.len();
        let mut cols = Self::with_capacity(file.header, n);
        let mut i: usize = 0;
        while i < n
            invariant
                n == file.frames@.len(),
                i <= n,
                cols.columns_agree(),
                cols.header == file.header,
                cols.len == i,
                cols.rows() == file.frames@.subrange(0, i as int),
            decreases n - i,
        {
            let f = &file.frames[i];
            cols.push_frame(f);
            assert(file.frames@.subrange(0, i + 1) =~= file.frames@.subrange(0, i as int).push(*f));
            i = i + 1;
        }
        assert(file.frames@.subrange(0, n as int) =~= file.frames@);
        cols
    }

    /// Empty columns, each with room for `n` entries.
    fn with_capacity(header: FileHeader, n: usize) -> (cols: Self)
        ensures
            cols.columns_agree(),
            cols.header == header,
            cols.len == 0,
    {
        Columns {
            header,
            len: 0,
            status: Vec::with_capacity(n),
            sys_time_ms: Vec::with_capacity(n),
            input_volt: Vec::with_capacity(n),
            filt_input_volt: Vec::with_capacity(n),
            cpu_die_temp_c: Vec::with_capacity(n),
            imu_die_temp_c: Vec::with_capacity(n),
            mag_die_temp_c: Vec::with_capacity(n),
            pres_die_temp_c: Vec::with_capacity(n),
            imu_accel_x: Vec::with_capacity(n),
            imu_accel_y: Vec::with_capacity(n),
            imu_accel_z: Vec::with_capacity(n),
            imu_gyro_x: Vec::with_capacity(n),
            imu_gyro_y: Vec::with_capacity(n),
            imu_gyro_z: Vec::with_capacity(n),
            mag_x: Vec::with_capacity(n),
            mag_y: Vec::with_capacity(n),
            mag_z: Vec::with_capacity(n),
            pres: Vec::with_capacity(n),
            gnss_fix: Vec::with_capacity(n),
            gnss_num_sv: Vec::with_capacity(n),
            gnss_utc_year: Vec::with_capacity(n),
            gnss_utc_month: Vec::with_capacity(n),
            gnss_utc_day: Vec::with_capacity(n),
            gnss_utc_hour: Vec::with_capacity(n),
            gnss_utc_min: Vec::with_capacity(n),
            gnss_utc_sec: Vec::with_capacity(n),
            gnss_horz_pos_acc: Vec::with_capacity(n),
            gnss_vert_pos_acc: Vec::with_capacity(n),
            gnss_vel_acc: Vec::with_capacity(n),
            gnss_ned_vel_x: Vec::with_capacity(n),
            gnss_ned_vel_y: Vec::with_capacity(n),
            gnss_ned_vel_z: Vec::with_capacity(n),
            gnss_alt_wgs84: Vec::with_capacity(n),
            gnss_geoid_height: Vec::with_capacity(n),
            gnss_lat: Vec::with_capacity(n),
            gnss_lon: Vec::with_capacity(n),
            ins_pitch: Vec::with_capacity(n),
            ins_roll: Vec::with_capacity(n),
            ins_mag_var: Vec::with_capacity(n),
            ins_heading_true: Vec::with_capacity(n),
            ins_heading_mag: Vec::with_capacity(n),
            ins_climb_rate: Vec::with_capacity(n),
            ins_load_factor: Vec::with_capacity(n),
            ins_accel_x: Vec::with_capacity(n),
            ins_accel_y: Vec::with_capacity(n),
            ins_accel_z: Vec::with_capacity(n),
            ins_gyro_x: Vec::with_capacity(n),
            ins_gyro_y: Vec::with_capacity(n),
            ins_gyro_z: Vec::with_capacity(n),
            ins_mag_x: Vec::with_capacity(n),
            ins_mag_y: Vec::with_capacity(n),
            ins_mag_z: Vec::with_capacity(n),
            ins_ned_vel_x: Vec::with_capacity(n),
            ins_ned_vel_y: Vec::with_capacity(n),
            ins_ned_vel_z: Vec::with_capacity(n),
            ins_gnd_spd: Vec::with_capacity(n),
            ins_gnd_track_true: Vec::with_capacity(n),
            ins_gnd_track_mag: Vec::with_capacity(n),
            ins_flt_path: Vec::with_capacity(n),
            ins_alt_wgs84: Vec::with_capacity(n),
            ins_lat: Vec::with_capacity(n),
            ins_lon: Vec::with_capacity(n),
            adc_pres: Vec::with_capacity(n),
            adc_pres_alt: Vec::with_capacity(n),
            airdata_die_temp_c: Vec::with_capacity(n),
            airdata_static_pres: Vec::with_capacity(n),
            airdata_diff_pres: Vec::with_capacity(n),
            airdata_oat: Vec::with_capacity(n),
            airdata_ias: Vec::with_capacity(n),
            airdata_cas: Vec::with_capacity(n),
            airdata_tas: Vec::with_capacity(n),
            airdata_pres_alt: Vec::with_capacity(n),
            airdata_density_alt: Vec::with_capacity(n),
            airdata_aoa: Vec::with_capacity(n),
            airdata_wind_spd: Vec::with_capacity(n),
            airdata_wind_dir_true: Vec::with_capacity(n),
            airdata_wind_dir_mag: Vec::with_capacity(n),
            agl_die_temp_c: Vec::with_capacity(n),
            agl_alt_in: Vec::with_capacity(n),
            heart_rate_bpm: Vec::with_capacity(n),
        }
    }

    /// Append frame `f` as a new last row: each field of `f` goes to the end of
    /// its column. Columns that all held `len` entries all hold `len + 1` after.
    pub fn push_frame(&mut self, f: &Frame)
        requires
            old(self).len < usize::MAX || old(self).columns_agree(),
        ensures
            final(self).header == old(self).header,
            final(self).len == old(self).len + 1,
            final(self).status@ == old(self).status@.push(f.status),
            final(self).sys_time_ms@ == old(self).sys_time_ms@.push(f.sys_time_ms),
            final(self).input_volt@ == old(self).input_volt@.push(f.input_volt),
            final(self).filt_input_volt@ == old(self).filt_input_volt@.push(f.filt_input_volt),
            final(self).cpu_die_temp_c@ == old(self).cpu_die_temp_c@.push(f.cpu_die_temp_c),
            final(self).imu_die_temp_c@ == old(self).imu_die_temp_c@.push(f.imu_die_temp_c),
            final(self).mag_die_temp_c@ == old(self).mag_die_temp_c@.push(f.mag_die_temp_c),
            final(self).pres_die_temp_c@ == old(self).pres_die_temp_c@.push(f.pres_die_temp_c),
            final(self).imu_accel_x@ == old(self).imu_accel_x@.push(f.imu_accel_x),
            final(self).imu_accel_y@ == old(self).imu_accel_y@.push(f.imu_accel_y),
            final(self).imu_accel_z@ == old(self).imu_accel_z@.push(f.imu_accel_z),
            final(self).imu_gyro_x@ == old(self).imu_gyro_x@.push(f.imu_gyro_x),
            final(self).imu_gyro_y@ == old(self).imu_gyro_y@.push(f.imu_gyro_y),
            final(self).imu_gyro_z@ == old(self).imu_gyro_z@.push(f.imu_gyro_z),
            final(self).mag_x@ == old(self).mag_x@.push(f.mag_x),
            final(self).mag_y@ == old(self).mag_y@.push(f.mag_y),
            final(self).mag_z@ == old(self).mag_z@.push(f.mag_z),
            final(self).pres@ == old(self).pres@.push(f.pres),
            final(self).gnss_fix@ == old(self).gnss_fix@.push(f.gnss_fix),
            final(self).gnss_num_sv@ == old(self).gnss_num_sv@.push(f.gnss_num_sv),
            final(self).gnss_utc_year@ == old(self).gnss_utc_year@.push(f.gnss_utc_year),
            final(self).gnss_utc_month@ == old(self).gnss_utc_month@.push(f.gnss_utc_month),
            final(self).gnss_utc_day@ == old(self).gnss_utc_day@.push(f.gnss_utc_day),
            final(self).gnss_utc_hour@ == old(self).gnss_utc_hour@.push(f.gnss_utc_hour),
            final(self).gnss_utc_min@ == old(self).gnss_utc_min@.push(f.gnss_utc_min),
            final(self).gnss_utc_sec@ == old(self).gnss_utc_sec@.push(f.gnss_utc_sec),
            final(self).gnss_horz_pos_acc@ == old(self).gnss_horz_pos_acc@.push(f.gnss_horz_pos_acc),
            final(self).gnss_vert_pos_acc@ == old(self).gnss_vert_pos_acc@.push(f.gnss_vert_pos_acc),
            final(self).gnss_vel_acc@ == old(self).gnss_vel_acc@.push(f.gnss_vel_acc),
            final(self).gnss_ned_vel_x@ == old(self).gnss_ned_vel_x@.push(f.gnss_ned_vel_x),
            final(self).gnss_ned_vel_y@ == old(self).gnss_ned_vel_y@.push(f.gnss_ned_vel_y),
            final(self).gnss_ned_vel_z@ == old(self).gnss_ned_vel_z@.push(f.gnss_ned_vel_z),
            final(self).gnss_alt_wgs84@ == old(self).gnss_alt_wgs84@.push(f.gnss_alt_wgs84),
            final(self).gnss_geoid_height@ == old(self).gnss_geoid_height@.push(f.gnss_geoid_height),
            final(self).gnss_lat@ == old(self).gnss_lat@.push(f.gnss_lat),
            final(self).gnss_lon@ == old(self).gnss_lon@.push(f.gnss_lon),
            final(self).ins_pitch@ == old(self).ins_pitch@.push(f.ins_pitch),
            final(self).ins_roll@ == old(self).ins_roll@.push(f.ins_roll),
            final(self).ins_mag_var@ == old(self).ins_mag_var@.push(f.ins_mag_var),
            final(self).ins_heading_true@ == old(self).ins_heading_true@.push(f.ins_heading_true),
            final(self).ins_heading_mag@ == old(self).ins_heading_mag@.push(f.ins_heading_mag),
            final(self).ins_climb_rate@ == old(self).ins_climb_rate@.push(f.ins_climb_rate),
            final(self).ins_load_factor@ == old(self).ins_load_factor@.push(f.ins_load_factor),
            final(self).ins_accel_x@ == old(self).ins_accel_x@.push(f.ins_accel_x),
            final(self).ins_accel_y@ == old(self).ins_accel_y@.push(f.ins_accel_y),
            final(self).ins_accel_z@ == old(self).ins_accel_z@.push(f.ins_accel_z),
            final(self).ins_gyro_x@ == old(self).ins_gyro_x@.push(f.ins_gyro_x),
            final(self).ins_gyro_y@ == old(self).ins_gyro_y@.push(f.ins_gyro_y),
            final(self).ins_gyro_z@ == old(self).ins_gyro_z@.push(f.ins_gyro_z),
            final(self).ins_mag_x@ == old(self).ins_mag_x@.push(f.ins_mag_x),
            final(self).ins_mag_y@ == old(self).ins_mag_y@.push(f.ins_mag_y),
            final(self).ins_mag_z@ == old(self).ins_mag_z@.push(f.ins_mag_z),
            final(self).ins_ned_vel_x@ == old(self).ins_ned_vel_x@.push(f.ins_ned_vel_x),
            final(self).ins_ned_vel_y@ == old(self).ins_ned_vel_y@.push(f.ins_ned_vel_y),
            final(self).ins_ned_vel_z@ == old(self).ins_ned_vel_z@.push(f.ins_ned_vel_z),
            final(self).ins_gnd_spd@ == old(self).ins_gnd_spd@.push(f.ins_gnd_spd),
            final(self).ins_gnd_track_true@ == old(self).ins_gnd_track_true@.push(f.ins_gnd_track_true),
            final(self).ins_gnd_track_mag@ == old(self).ins_gnd_track_mag@.push(f.ins_gnd_track_mag),
            final(self).ins_flt_path@ == old(self).ins_flt_path@.push(f.ins_flt_path),
            final(self).ins_alt_wgs84@ == old(self).ins_alt_wgs84@.push(f.ins_alt_wgs84),
            final(self).ins_lat@ == old(self).ins_lat@.push(f.ins_lat),
            final(self).ins_lon@ == old(self).ins_lon@.push(f.ins_lon),
            final(self).adc_pres@ == old(self).adc_pres@.push(f.adc_pres),
            final(self).adc_pres_alt@ == old(self).adc_pres_alt@.push(f.adc_pres_alt),
            final(self).airdata_die_temp_c@ == old(self).airdata_die_temp_c@.push(f.airdata_die_temp_c),
            final(self).airdata_static_pres@ == old(self).airdata_static_pres@.push(f.airdata_static_pres),
            final(self).airdata_diff_pres@ == old(self).airdata_diff_pres@.push(f.airdata_diff_pres),
            final(self).airdata_oat@ == old(self).airdata_oat@.push(f.airdata_oat),
            final(self).airdata_ias@ == old(self).airdata_ias@.push(f.airdata_ias),
            final(self).airdata_cas@ == old(self).airdata_cas@.push(f.airdata_cas),
            final(self).airdata_tas@ == old(self).airdata_tas@.push(f.airdata_tas),
            final(self).airdata_pres_alt@ == old(self).airdata_pres_alt@.push(f.airdata_pres_alt),
            final(self).airdata_density_alt@ == old(self).airdata_density_alt@.push(f.airdata_density_alt),
            final(self).airdata_aoa@ == old(self).airdata_aoa@.push(f.airdata_aoa),
            final(self).airdata_wind_spd@ == old(self).airdata_wind_spd@.push(f.airdata_wind_spd),
            final(self).airdata_wind_dir_true@ == old(self).airdata_wind_dir_true@.push(f.airdata_wind_dir_true),
            final(self).airdata_wind_dir_mag@ == old(self).airdata_wind_dir_mag@.push(f.airdata_wind_dir_mag),
            final(self).agl_die_temp_c@ == old(self).agl_die_temp_c@.push(f.agl_die_temp_c),
            final(self).agl_alt_in@ == old(self).agl_alt_in@.push(f.agl_alt_in),
            final(self).heart_rate_bpm@ == old(self).heart_rate_bpm@.push(f.heart_rate_bpm),
            old(self).columns_agree() ==> final(self).columns_agree(),
            old(self).columns_agree() ==> final(self).rows() == old(self).rows().push(*f),
    {
        let ghost before = *self;
        self.status.push(f.status);
        self.sys_time_ms.push(f.sys_time_ms);
        self.input_volt.push(f.input_volt);
        self.filt_input_volt.push(f.filt_input_volt);
        self.cpu_die_temp_c.push(f.cpu_die_temp_c);
        self.imu_die_temp_c.push(f.imu_die_temp_c);
        self.mag_die_temp_c.push(f.mag_die_temp_c);
        self.pres_die_temp_c.push(f.pres_die_temp_c);
        self.imu_accel_x.push(f.imu_accel_x);
        self.imu_accel_y.push(f.imu_accel_y);
        self.imu_accel_z.push(f.imu_accel_z);
        self.imu_gyro_x.push(f.imu_gyro_x);
        self.imu_gyro_y.push(f.imu_gyro_y);
        self.imu_gyro_z.push(f.imu_gyro_z);
        self.mag_x.push(f.mag_x);
        self.mag_y.push(f.mag_y);
        self.mag_z.push(f.mag_z);
        self.pres.push(f.pres);
        self.gnss_fix.push(f.gnss_fix);
        self.gnss_num_sv.push(f.gnss_num_sv);
        self.gnss_utc_year.push(f.gnss_utc_year);
        self.gnss_utc_month.push(f.gnss_utc_month);
        self.gnss_utc_day.push(f.gnss_utc_day);
        self.gnss_utc_hour.push(f.gnss_utc_hour);
        self.gnss_utc_min.push(f.gnss_utc_min);
        self.gnss_utc_sec.push(f.gnss_utc_sec);
        self.gnss_horz_pos_acc.push(f.gnss_horz_pos_acc);
        self.gnss_vert_pos_acc.push(f.gnss_vert_pos_acc);
        self.gnss_vel_acc.push(f.gnss_vel_acc);
        self.gnss_ned_vel_x.push(f.gnss_ned_vel_x);
        self.gnss_ned_vel_y.push(f.gnss_ned_vel_y);
        self.gnss_ned_vel_z.push(f.gnss_ned_vel_z);
        self.gnss_alt_wgs84.push(f.gnss_alt_wgs84);
        self.gnss_geoid_height.push(f.gnss_geoid_height);
        self.gnss_lat.push(f.gnss_lat);
        self.gnss_lon.push(f.gnss_lon);
        self.ins_pitch.push(f.ins_pitch);
        self.ins_roll.push(f.ins_roll);
        self.ins_mag_var.push(f.ins_mag_var);
        self.ins_heading_true.push(f.ins_heading_true);
        self.ins_heading_mag.push(f.ins_heading_mag);
        self.ins_climb_rate.push(f.ins_climb_rate);
        self.ins_load_factor.push(f.ins_load_factor);
        self.ins_accel_x.push(f.ins_accel_x);
        self.ins_accel_y.push(f.ins_accel_y);
        self.ins_accel_z.push(f.ins_accel_z);
        self.ins_gyro_x.push(f.ins_gyro_x);
        self.ins_gyro_y.push(f.ins_gyro_y);
        self.ins_gyro_z.push(f.ins_gyro_z);
        self.ins_mag_x.push(f.ins_mag_x);
        self.ins_mag_y.push(f.ins_mag_y);
        self.ins_mag_z.push(f.ins_mag_z);
        self.ins_ned_vel_x.push(f.ins_ned_vel_x);
        self.ins_ned_vel_y.push(f.ins_ned_vel_y);
        self.ins_ned_vel_z.push(f.ins_ned_vel_z);
        self.ins_gnd_spd.push(f.ins_gnd_spd);
        self.ins_gnd_track_true.push(f.ins_gnd_track_true);
        self.ins_gnd_track_mag.push(f.ins_gnd_track_mag);
        self.ins_flt_path.push(f.ins_flt_path);
        self.ins_alt_wgs84.push(f.ins_alt_wgs84);
        self.ins_lat.push(f.ins_lat);
        self.ins_lon.push(f.ins_lon);
        self.adc_pres.push(f.adc_pres);
        self.adc_pres_alt.push(f.adc_pres_alt);
        self.airdata_die_temp_c.push(f.airdata_die_temp_c);
        self.airdata_static_pres.push(f.airdata_static_pres);
        self.airdata_diff_pres.push(f.airdata_diff_pres);
        self.airdata_oat.push(f.airdata_oat);
        self.airdata_ias.push(f.airdata_ias);
        self.airdata_cas.push(f.airdata_cas);
        self.airdata_tas.push(f.airdata_tas);
        self.airdata_pres_alt.push(f.airdata_pres_alt);
        self.airdata_density_alt.push(f.airdata_density_alt);
        self.airdata_aoa.push(f.airdata_aoa);
        self.airdata_wind_spd.push(f.airdata_wind_spd);
        self.airdata_wind_dir_true.push(f.airdata_wind_dir_true);
        self.airdata_wind_dir_mag.push(f.airdata_wind_dir_mag);
        self.agl_die_temp_c.push(f.agl_die_temp_c);
        self.agl_alt_in.push(f.agl_alt_in);
        self.heart_rate_bpm.push(f.heart_rate_bpm);
        // A vector never holds more than usize::MAX entries.
        let _rows = self.status.len();
        self.len = self.len + 1;
        proof {
            if before.columns_agree() {
                assert forall|i: int| 0 <= i < before.len implies #[trigger] self.row(i) == before.row(
                    i,
                ) by {}
                assert(self.row(before.len as int) == *f);
                assert(self.rows() =~= before.rows().push(*f));
            }
        }
    }

    // -- Status bits --

    /// Whether, in sample `i`, the INS has initialized (bit `0x40` of status byte 1).
    pub fn ins_initialized(&self, i: usize) -> (r: bool)
        requires
            i < self.status@.len(),
        ensures
            r == (self.status@[i as int][1] & 0x40 != 0),
    {
        self.status[i][1] & 0x40 != 0
    }

    /// Whether, in sample `i`, the INS reports healthy (bit `0x80` of status byte 1).
    pub fn ins_healthy(&self, i: usize) -> (r: bool)
        requires
            i < self.status@.len(),
        ensures
            r == (self.status@[i as int][1] & 0x80 != 0),
    {
        self.status[i][1] & 0x80 != 0
    }

    /// Whether, in sample `i`, the GNSS delivered new data (bit `0x10` of status byte 1).
    pub fn gnss_new_data(&self, i: usize) -> (r: bool)
        requires
            i < self.status@.len(),
        ensures
            r == (self.status@[i as int][1] & 0x10 != 0),
    {
        self.status[i][1] & 0x10 != 0
    }

    /// Whether, in sample `i`, the GNSS reports healthy (bit `0x20` of status byte 1).
    pub fn gnss_healthy(&self, i: usize) -> (r: bool)
        requires
            i < self.status@.len(),
        ensures
            r == (self.status@[i as int][1] & 0x20 != 0),
    {
        self.status[i][1] & 0x20 != 0
    }

    /// Whether, in sample `i`, the IMU reports healthy (bit `0x10` of status byte 0).
    pub fn imu_healthy(&self, i: usize) -> (r: bool)
        requires
            i < self.status@.len(),
        ensures
            r == (self.status@[i as int][0] & 0x10 != 0),
    {
        self.status[i][0] & 0x10 != 0
    }

    /// Whether, in sample `i`, the external airdata board is connected (bit `0x02` of status byte 2).
    pub fn airdata_connected(&self, i: usize) -> (r: bool)
        requires
            i < self.status@.len(),
        ensures
            r == (self.status@[i as int][2] & 0x02 != 0),
    {
        self.status[i][2] & 0x02 != 0
    }

    /// Whether, in sample `i`, the AGL altimeter is connected (bit `0x02` of status byte 4).
    pub fn agl_connected(&self, i: usize) -> (r: bool)
        requires
            i < self.status@.len(),
        ensures
            r == (self.status@[i as int][4] & 0x02 != 0),
    {
        self.status[i][4] & 0x02 != 0
    }

    /// Static pressure of sample `i` in Pa (raw value times 2).
    pub fn pres_pa(&self, i: usize) -> (r: u32)
        requires
            i < self.pres@.len(),
        ensures
            r == 2 * self.pres@[i as int],
    {
        self.pres[i] as u32 * 2
    }

    /// ADC static pressure of sample `i` in Pa (raw value times 2).
    pub fn adc_pres_pa(&self, i: usize) -> (r: u32)
        requires
            i < self.adc_pres@.len(),
        ensures
            r == 2 * self.adc_pres@[i as int],
    {
        self.adc_pres[i] as u32 * 2
    }

    /// GNSS altitude above the WGS84 ellipsoid of sample `i` in ft (the raw value carries a +10000 bias).
    pub fn gnss_alt_wgs84_ft(&self, i: usize) -> (r: i32)
        requires
            i < self.gnss_alt_wgs84@.len(),
        ensures
            r == self.gnss_alt_wgs84@[i as int] - 10000,
    {
        self.gnss_alt_wgs84[i] as i32 - 10000
    }

    /// INS altitude above the WGS84 ellipsoid of sample `i` in ft (the raw value carries a +10000 bias).
    pub fn ins_alt_wgs84_ft(&self, i: usize) -> (r: i32)
        requires
            i < self.ins_alt_wgs84@.len(),
        ensures
            r == self.ins_alt_wgs84@[i as int] - 10000,
    {
        self.ins_alt_wgs84[i] as i32 - 10000
    }

    /// ADC pressure altitude of sample `i` in ft (the raw value carries a +10000 bias).
    pub fn adc_pres_alt_ft(&self, i: usize) -> (r: i32)
        requires
            i < self.adc_pres_alt@.len(),
        ensures
            r == self.adc_pres_alt@[i as int] - 10000,
    {
        self.adc_pres_alt[i] as i32 - 10000
    }

    /// External airdata pressure altitude of sample `i` in ft (the raw value carries a +10000 bias).
    pub fn airdata_pres_alt_ft(&self, i: usize) -> (r: i32)
        requires
            i < self.airdata_pres_alt@.len(),
        ensures
            r == self.airdata_pres_alt@[i as int] - 10000,
    {
        self.airdata_pres_alt[i] as i32 - 10000
    }

    /// External airdata density altitude of sample `i` in ft (the raw value carries a +10000 bias).
    pub fn airdata_density_alt_ft(&self, i: usize) -> (r: i32)
        requires
            i < self.airdata_density_alt@.len(),
        ensures
            r == self.airdata_density_alt@[i as int] - 10000,
    {
        self.airdata_density_alt[i] as i32 - 10000
    }

    /// INS climb rate of sample `i` in ft/min (1:1 scale).
    pub fn ins_climb_rate_fpm(&self, i: usize) -> (r: i16)
        requires
            i < self.ins_climb_rate@.len(),
        ensures
            r == self.ins_climb_rate@[i as int],
    {
        self.ins_climb_rate[i]
    }

    // -- Convenience --

    /// Index of the first sample with a GNSS fix of 3D or better (fix type >= 3).
    pub fn first_fix_index(&self) -> (r: Option<usize>)
        requires
            self.len <= self.gnss_fix@.len() || exists|j: int|
                0 <= j < self.len && j < self.gnss_fix@.len() && self.gnss_fix@[j] >= 3,
        ensures
            r matches Some(i) ==> {
                &&& i < self.len
                &&& self.gnss_fix@[i as int] >= 3
                &&& forall|j: int| 0 <= j < i ==> self.gnss_fix@[j] < 3
            },
            r is None ==> forall|j: int| 0 <= j < self.len ==> self.gnss_fix@[j] < 3,
    {
        let n = self.len;
        let mut i: usize = 0;
        while i < n
            invariant
                n == self.len,
                i <= n,
                forall|j: int| 0 <= j < i ==> self.gnss_fix@[j] < 3,
                self.len <= self.gnss_fix@.len() || exists|j: int|
                    0 <= j < self.len && j < self.gnss_fix@.len() && self.gnss_fix@[j] >= 3,
            decreases n - i,
        {
            if self.gnss_fix[i] >= 3 {
                return Some(i);
            }
            i = i + 1;
        }
        None
    }
}

} // verus!
