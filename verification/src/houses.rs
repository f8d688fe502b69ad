use vstd::prelude::*;
use vstd::string::StringExecFns;
use crate::error::Error;
use crate::flags::{source_conflict_message, Flags};

verus! {

/// A house system.
///
/// Every system here has twelve houses: the cusp buffer handed to the C
/// library has room for twelve cusps only (the 36-house Gauquelin system is
/// deliberately absent).
#[derive(Debug, Clone, Copy, PartialEq, Eq, Hash, Structural)]
pub enum HouseSystem {
    Placidus,
    Koch,
    Porphyry,
    Regiomontanus,
    Campanus,
    /// Equal houses from the Ascendant.
    Equal,
    WholeSign,
    Alcabitius,
    Morinus,
    Topocentric,
    Vehlow,
}

impl HouseSystem {
    /// The house-system letter (`hsys`) of the C interface.
    pub open spec fn code(self) -> i32 {
        match self {
            HouseSystem::Placidus => 80,  // 'P'
            HouseSystem::Koch => 75,  // 'K'
            HouseSystem::Porphyry => 79,  // 'O'
            HouseSystem::Regiomontanus => 82,  // 'R'
            HouseSystem::Campanus => 67,  // 'C'
            HouseSystem::Equal => 65,  // 'A'
            HouseSystem::WholeSign => 87,  // 'W'
            HouseSystem::Alcabitius => 66,  // 'B'
            HouseSystem::Morinus => 77,  // 'M'
            HouseSystem::Topocentric => 84,  // 'T'
            HouseSystem::Vehlow => 86,  // 'V'
        }
    }

    /// The display name.
    pub open spec fn name_text(self) -> Seq<char> {
        match self {
            HouseSystem::Placidus => "Placidus"@,
            HouseSystem::Koch => "Koch"@,
            HouseSystem::Porphyry => "Porphyry"@,
            HouseSystem::Regiomontanus => "Regiomontanus"@,
            HouseSystem::Campanus => "Campanus"@,
            HouseSystem::Equal => "Equal"@,
            HouseSystem::WholeSign => "Whole Sign"@,
            HouseSystem::Alcabitius => "Alcabitius"@,
            HouseSystem::Morinus => "Morinus"@,
            HouseSystem::Topocentric => "Topocentric"@,
            HouseSystem::Vehlow => "Vehlow"@,
        }
    }

    /// The house-system letter (`hsys`) of the C interface, as an `i32`.
    pub fn to_swe(self) -> (c: i32)
        ensures
            c == self.code(),
    {
        match self {
            HouseSystem::Placidus => 'P' as i32,
            HouseSystem::Koch => 'K' as i32,
            HouseSystem::Porphyry => 'O' as i32,
            HouseSystem::Regiomontanus => 'R' as i32,
            HouseSystem::Campanus => 'C' as i32,
            HouseSystem::Equal => 'A' as i32,
            HouseSystem::WholeSign => 'W' as i32,
            HouseSystem::Alcabitius => 'B' as i32,
            HouseSystem::Morinus => 'M' as i32,
            HouseSystem::Topocentric => 'T' as i32,
            HouseSystem::Vehlow => 'V' as i32,
        }
    }

    /// The display name, e.g. `"Whole Sign"`.
    pub fn name(self) -> (n: &'static str)
        ensures
            n@ == self.name_text(),
    {
        match self {
            HouseSystem::Placidus => "Placidus",
            HouseSystem::Koch => "Koch",
            HouseSystem::Porphyry => "Porphyry",
            HouseSystem::Regiomontanus => "Regiomontanus",
            HouseSystem::Campanus => "Campanus",
            HouseSystem::Equal => "Equal",
            HouseSystem::WholeSign => "Whole Sign",
            HouseSystem::Alcabitius => "Alcabitius",
            HouseSystem::Morinus => "Morinus",
            HouseSystem::Topocentric => "Topocentric",
            HouseSystem::Vehlow => "Vehlow",
        }
    }
}

/// Each house system is passed its own letter of the Swiss Ephemeris
/// interface (Placidus 'P', Koch 'K', Porphyry 'O', Regiomontanus 'R',
/// Campanus 'C', Equal 'A', Whole Sign 'W', Alcabitius 'B', Morinus 'M',
/// Topocentric 'T', Vehlow 'V'); distinct systems get distinct letters.
pub proof fn house_system_letters(a: HouseSystem, b: HouseSystem)
    ensures
        HouseSystem::Placidus.code() == 'P' as i32 && HouseSystem::Koch.code() == 'K' as i32
            && HouseSystem::Porphyry.code() == 'O' as i32 && HouseSystem::Regiomontanus.code()
            == 'R' as i32,
        HouseSystem::Campanus.code() == 'C' as i32 && HouseSystem::Equal.code() == 'A' as i32
            && HouseSystem::WholeSign.code() == 'W' as i32 && HouseSystem::Alcabitius.code()
            == 'B' as i32,
        HouseSystem::Morinus.code() == 'M' as i32 && HouseSystem::Topocentric.code() == 'T' as i32
            && HouseSystem::Vehlow.code() == 'V' as i32,
        a != b ==> a.code() != b.code(),
{
}

/// The display names of the house systems.
pub proof fn house_system_names()
    ensures
        HouseSystem::Placidus.name_text() == "Placidus"@ && HouseSystem::Koch.name_text()
            == "Koch"@ && HouseSystem::Porphyry.name_text() == "Porphyry"@
            && HouseSystem::Regiomontanus.name_text() == "Regiomontanus"@,
        HouseSystem::Campanus.name_text() == "Campanus"@ && HouseSystem::Equal.name_text()
            == "Equal"@ && HouseSystem::WholeSign.name_text() == "Whole Sign"@
            && HouseSystem::Alcabitius.name_text() == "Alcabitius"@,
        HouseSystem::Morinus.name_text() == "Morinus"@ && HouseSystem::Topocentric.name_text()
            == "Topocentric"@ && HouseSystem::Vehlow.name_text() == "Vehlow"@,
{
}

/// No house system of this crate is the Gauquelin system (`'G'`), whose 36
/// cusps would overflow the twelve-cusp buffer.
pub proof fn house_systems_have_twelve_houses(system: HouseSystem)
    ensures
        system.code() != 71,
{
}

/// The message of the error that reports a failed houses computation at
/// the latitude written `latitude`.
pub open spec fn houses_failure_message(system: HouseSystem, latitude: Seq<char>) -> Seq<char> {
    system.name_text() + " houses could not be computed at latitude "@ + latitude
        + " (polar region?)"@
}

/// The `(iflag, hsys)` arguments of `swe_houses_ex` for a houses request,
/// or the error that rejects it: a request naming both ephemeris sources.
/// The flags are passed on unchanged; the C library honors only the
/// sidereal and no-nutation bits there.
pub fn houses_arguments(system: HouseSystem, flags: Flags) -> (r: Result<(i32, i32), Error>)
    ensures
        r is Err <==> flags.has_source_conflict(),
        r matches Err(e) ==> e.text() == source_conflict_message(),
        r matches Ok(args) ==> args.0 == flags.raw() && args.1 == system.code(),
{
    flags.validate_source()?;
    Ok((flags.bits(), system.to_swe()))
}

/// The outcome of `swe_houses_ex`: a negative return code means the system
/// is undefined at that latitude (quadrant systems inside the polar
/// circles), reported with the latitude as written in `latitude`.
pub fn houses_outcome(system: HouseSystem, ret: i32, latitude: &str) -> (r: Result<(), Error>)
    ensures
        r is Err <==> ret < 0,
        r matches Err(e) ==> e.text() == houses_failure_message(system, latitude@),
{
    if ret < 0 {
        let mut message = String::from_str(system.name());
        message.append(" houses could not be computed at latitude ");
        message.append(latitude);
        message.append(" (polar region?)");
        return Err(Error::from_string(message));
    }
    Ok(())
}

} // verus!
