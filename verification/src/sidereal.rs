use vstd::prelude::*;
use crate::codes::{
    SEFLG_SWIEPH, SE_SIDM_DELUCE, SE_SIDM_FAGAN_BRADLEY, SE_SIDM_KRISHNAMURTI, SE_SIDM_LAHIRI, SE_SIDM_RAMAN,
};

verus! {

/// An ayanamsha (sidereal zodiac reference).
#[derive(Debug, Clone, Copy, PartialEq, Eq, Hash, Structural)]
pub enum Ayanamsha {
    FaganBradley,
    Lahiri,
    DeLuce,
    Raman,
    Krishnamurti,
}

impl Ayanamsha {
    /// The sidereal mode number (`sid_mode`) of the C interface.
    pub open spec fn code(self) -> i32 {
        match self {
            Ayanamsha::FaganBradley => SE_SIDM_FAGAN_BRADLEY,
            Ayanamsha::Lahiri => SE_SIDM_LAHIRI,
            Ayanamsha::DeLuce => SE_SIDM_DELUCE,
            Ayanamsha::Raman => SE_SIDM_RAMAN,
            Ayanamsha::Krishnamurti => SE_SIDM_KRISHNAMURTI,
        }
    }

    /// The sidereal mode number (`sid_mode`) of the C interface.
    pub fn to_swe(self) -> (c: i32)
        ensures
            c == self.code(),
    {
        match self {
            Ayanamsha::FaganBradley => SE_SIDM_FAGAN_BRADLEY,
            Ayanamsha::Lahiri => SE_SIDM_LAHIRI,
            Ayanamsha::DeLuce => SE_SIDM_DELUCE,
            Ayanamsha::Raman => SE_SIDM_RAMAN,
            Ayanamsha::Krishnamurti => SE_SIDM_KRISHNAMURTI,
        }
    }
}

/// Each ayanamsha is passed its own sidereal mode number of the Swiss
/// Ephemeris interface: Fagan/Bradley 0, Lahiri 1, De Luce 2, Raman 3,
/// Krishnamurti 5; distinct ayanamshas get distinct numbers.
pub proof fn sidereal_mode_numbers(a: Ayanamsha, b: Ayanamsha)
    ensures
        Ayanamsha::FaganBradley.code() == 0 && Ayanamsha::Lahiri.code() == 1
            && Ayanamsha::DeLuce.code() == 2 && Ayanamsha::Raman.code() == 3
            && Ayanamsha::Krishnamurti.code() == 5,
        a != b ==> a.code() != b.code(),
{
}

/// The arguments of an ayanamsha query for `mode`: the sidereal mode for
/// `swe_set_sid_mode`, and the `iflag` for `swe_get_ayanamsa_ex_ut`, which
/// always names the Swiss Ephemeris.
pub fn ayanamsha_arguments(mode: Ayanamsha) -> (args: (i32, i32))
    ensures
        args.0 == mode.code(),
        args.1 == SEFLG_SWIEPH,
{
    (mode.to_swe(), SEFLG_SWIEPH)
}

} // verus!
