use vstd::prelude::*;
use vstd::string::StringExecFns;
use crate::body::{ephemeris_of, Body, Ephemeris};
use crate::codes::{SEFLG_MOSEPH, SEFLG_SPEED};
use crate::error::{check_serr_call, Error};
use crate::flags::{source_conflict_message, Flags};

verus! {

/// Whether a request names the Moshier ephemeris.
pub open spec fn requests_moshier(flags: Flags) -> bool {
    flags.raw() & SEFLG_MOSEPH == SEFLG_MOSEPH
}

/// The message of the error that rejects the Moshier ephemeris for a body
/// it has no model for.
pub open spec fn no_moshier_model_message(body: Body) -> Seq<char> {
    "the Moshier ephemeris has no model for "@ + body.name_text()
        + "; it is computed from Swiss data files — use Flags::SWISS and set_ephe_path"@
}

/// The `(ipl, iflag)` arguments of `swe_calc_ut` for a position request, or
/// the error that rejects it.
///
/// A request is rejected when it names both ephemeris sources, or when it
/// names the Moshier ephemeris for a body Moshier cannot compute (Chiron,
/// Pholus, Ceres, Pallas, Juno, Vesta: the C library would read the Swiss
/// data file anyway while still labeling the result Moshier). Speeds are
/// always requested.
pub fn calc_arguments(body: Body, flags: Flags) -> (r: Result<(i32, i32), Error>)
    ensures
        r is Err <==> flags.has_source_conflict() || (requests_moshier(flags)
            && body.is_file_only()),
        flags.has_source_conflict() ==> (r matches Err(e) && e.text()
            == source_conflict_message()),
        !flags.has_source_conflict() && requests_moshier(flags) && body.is_file_only() ==> (r matches Err(
            e,
        ) && e.text() == no_moshier_model_message(body)),
        r matches Ok(args) ==> args.0 == body.code() && args.1 == flags.raw() | SEFLG_SPEED,
        r matches Ok(args) ==> args.1 & SEFLG_SPEED == SEFLG_SPEED,
{
    flags.validate_source()?;
    if flags.contains(Flags::moshier()) && body.requires_data_files() {
        let mut message = String::from_str("the Moshier ephemeris has no model for ");
        message.append(body.name());
        message.append("; it is computed from Swiss data files — use Flags::SWISS and set_ephe_path");
        return Err(Error::from_string(message));
    }
    let bits = flags.bits();
    let iflag = bits | SEFLG_SPEED;
    assert(iflag & SEFLG_SPEED == SEFLG_SPEED) by (bit_vector)
        requires
            iflag == bits | 256i32,
    ;
    Ok((body.to_swe(), iflag))
}

/// The outcome of `swe_calc_ut`: the C message for a negative return code,
/// and otherwise the ephemeris source that the returned flags report (they
/// differ from the request when the library falls back, e.g. on missing
/// data files).
pub fn calc_outcome(ret: i32, serr: String) -> (r: Result<Ephemeris, Error>)
    ensures
        r is Err <==> ret < 0,
        r matches Err(e) ==> e.text() == serr@,
        r matches Ok(eph) ==> eph == ephemeris_of(ret),
{
    let ret = check_serr_call(ret, serr)?;
    Ok(Ephemeris::from_iflag(ret))
}

} // verus!
