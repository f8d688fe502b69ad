//! Numeric codes of the Swiss Ephemeris C interface (`swephexp.h`).
use vstd::prelude::*;

verus! {

// Body numbers (ipl).
pub const SE_SUN: i32 = 0;
pub const SE_MOON: i32 = 1;
pub const SE_MERCURY: i32 = 2;
pub const SE_VENUS: i32 = 3;
pub const SE_MARS: i32 = 4;
pub const SE_JUPITER: i32 = 5;
pub const SE_SATURN: i32 = 6;
pub const SE_URANUS: i32 = 7;
pub const SE_NEPTUNE: i32 = 8;
pub const SE_PLUTO: i32 = 9;
pub const SE_MEAN_NODE: i32 = 10;
pub const SE_TRUE_NODE: i32 = 11;
pub const SE_MEAN_APOG: i32 = 12;
pub const SE_OSCU_APOG: i32 = 13;
pub const SE_EARTH: i32 = 14;
pub const SE_CHIRON: i32 = 15;
pub const SE_PHOLUS: i32 = 16;
pub const SE_CERES: i32 = 17;
pub const SE_PALLAS: i32 = 18;
pub const SE_JUNO: i32 = 19;
pub const SE_VESTA: i32 = 20;

// Calendar flags (gregflag).
pub const SE_JUL_CAL: i32 = 0;
pub const SE_GREG_CAL: i32 = 1;

// Ephemeris and computation flags (iflag).
pub const SEFLG_JPLEPH: i32 = 1;
pub const SEFLG_SWIEPH: i32 = 2;
pub const SEFLG_MOSEPH: i32 = 4;
/// The three ephemeris-source bits together.
pub const SEFLG_EPHMASK: i32 = 7;
pub const SEFLG_HELCTR: i32 = 8;
pub const SEFLG_TRUEPOS: i32 = 16;
pub const SEFLG_J2000: i32 = 32;
pub const SEFLG_NONUT: i32 = 64;
pub const SEFLG_SPEED: i32 = 256;
pub const SEFLG_NOGDEFL: i32 = 512;
pub const SEFLG_NOABERR: i32 = 1024;
/// `SEFLG_NOABERR | SEFLG_NOGDEFL`.
pub const SEFLG_ASTROMETRIC: i32 = 1536;
pub const SEFLG_EQUATORIAL: i32 = 2048;
pub const SEFLG_BARYCTR: i32 = 16384;
pub const SEFLG_TOPOCTR: i32 = 32768;
pub const SEFLG_SIDEREAL: i32 = 65536;

// Sidereal modes (swe_set_sid_mode).
pub const SE_SIDM_FAGAN_BRADLEY: i32 = 0;
pub const SE_SIDM_LAHIRI: i32 = 1;
pub const SE_SIDM_DELUCE: i32 = 2;
pub const SE_SIDM_RAMAN: i32 = 3;
pub const SE_SIDM_KRISHNAMURTI: i32 = 5;

// Eclipse type bits (retflag of the eclipse searches).
pub const SE_ECL_CENTRAL: i32 = 1;
pub const SE_ECL_NONCENTRAL: i32 = 2;
pub const SE_ECL_TOTAL: i32 = 4;
pub const SE_ECL_ANNULAR: i32 = 8;
pub const SE_ECL_PARTIAL: i32 = 16;
pub const SE_ECL_ANNULAR_TOTAL: i32 = 32;
pub const SE_ECL_PENUMBRAL: i32 = 64;

/// Size of the buffers the C interface fills with error messages.
pub const SE_MAX_STNAME: usize = 256;

} // verus!
