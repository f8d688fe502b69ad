use vstd::prelude::*;
use crate::codes::{
    SEFLG_EPHMASK, SE_ECL_ANNULAR, SE_ECL_ANNULAR_TOTAL, SE_ECL_PARTIAL, SE_ECL_PENUMBRAL,
    SE_ECL_TOTAL,
};
use crate::error::Error;
use crate::flags::{source_conflict_message, Flags};

verus! {

/// The type of a solar or lunar eclipse.
#[derive(Debug, Clone, Copy, PartialEq, Eq, Hash, Structural)]
pub enum EclipseKind {
    Total,
    Annular,
    /// Hybrid (annular-total) solar eclipse.
    Hybrid,
    Partial,
    /// Lunar only.
    Penumbral,
    Unknown,
}

/// The kind that an eclipse search's return flags report: the first of
/// total, hybrid, annular, partial and penumbral whose bit is set.
pub open spec fn eclipse_kind_of(retflag: i32) -> EclipseKind {
    if retflag & SE_ECL_TOTAL != 0 {
        EclipseKind::Total
    } else if retflag & SE_ECL_ANNULAR_TOTAL != 0 {
        EclipseKind::Hybrid
    } else if retflag & SE_ECL_ANNULAR != 0 {
        EclipseKind::Annular
    } else if retflag & SE_ECL_PARTIAL != 0 {
        EclipseKind::Partial
    } else if retflag & SE_ECL_PENUMBRAL != 0 {
        EclipseKind::Penumbral
    } else {
        EclipseKind::Unknown
    }
}

/// The message of the error for a search that reports no eclipse.
pub open spec fn no_eclipse_message() -> Seq<char> {
    "eclipse search returned no result (unexpected)"@
}

impl EclipseKind {
    /// Decode the eclipse type from the return flags of an eclipse search.
    pub fn from_retflag(retflag: i32) -> (k: EclipseKind)
        ensures
            k == eclipse_kind_of(retflag),
    {
        if retflag & SE_ECL_TOTAL != 0 {
            EclipseKind::Total
        } else if retflag & SE_ECL_ANNULAR_TOTAL != 0 {
            EclipseKind::Hybrid
        } else if retflag & SE_ECL_ANNULAR != 0 {
            EclipseKind::Annular
        } else if retflag & SE_ECL_PARTIAL != 0 {
            EclipseKind::Partial
        } else if retflag & SE_ECL_PENUMBRAL != 0 {
            EclipseKind::Penumbral
        } else {
            EclipseKind::Unknown
        }
    }
}

/// The `ifl` argument of the eclipse searches for a request, or the error
/// that rejects it: a request naming both ephemeris sources. The searches
/// accept only the ephemeris-source bits, so all other flags are stripped.
pub fn eclipse_arguments(flags: Flags) -> (r: Result<i32, Error>)
    ensures
        r is Err <==> flags.has_source_conflict(),
        r matches Err(e) ==> e.text() == source_conflict_message(),
        r matches Ok(ifl) ==> ifl == flags.raw() & SEFLG_EPHMASK,
{
    flags.validate_source()?;
    Ok(flags.bits() & SEFLG_EPHMASK)
}

/// The outcome of an eclipse search: the C message for a negative return
/// code, an error for a return code of 0 (the search never reports "none
/// found"), and otherwise the eclipse kind its flags report.
pub fn eclipse_outcome(ret: i32, serr: String) -> (r: Result<EclipseKind, Error>)
    ensures
        r is Err <==> ret <= 0,
        ret < 0 ==> (r matches Err(e) && e.text() == serr@),
        ret == 0 ==> (r matches Err(e) && e.text() == no_eclipse_message()),
        r matches Ok(k) ==> k == eclipse_kind_of(ret),
{
    let ret = crate::error::check_serr_call(ret, serr)?;
    if ret == 0 {
        return Err(Error::new("eclipse search returned no result (unexpected)"));
    }
    Ok(EclipseKind::from_retflag(ret))
}

/// The eclipse kind follows the type bits by precedence: total (4), then
/// hybrid (32), then annular (8), then partial (16), then penumbral (64);
/// with none of them the kind is unknown. Other bits (central, noncentral)
/// do not matter.
pub proof fn eclipse_kind_precedence(retflag: i32)
    ensures
        retflag & 4 != 0 ==> eclipse_kind_of(retflag) == EclipseKind::Total,
        retflag & 4 == 0 && retflag & 32 != 0 ==> eclipse_kind_of(retflag) == EclipseKind::Hybrid,
        retflag & 36 == 0 && retflag & 8 != 0 ==> eclipse_kind_of(retflag) == EclipseKind::Annular,
        retflag & 44 == 0 && retflag & 16 != 0 ==> eclipse_kind_of(retflag) == EclipseKind::Partial,
        retflag & 60 == 0 && retflag & 64 != 0 ==> eclipse_kind_of(retflag)
            == EclipseKind::Penumbral,
        retflag & 124 == 0 ==> eclipse_kind_of(retflag) == EclipseKind::Unknown,
        eclipse_kind_of(retflag) == eclipse_kind_of(retflag & 124),
{
    let r = retflag;
    assert(r & 36 == 0 ==> r & 4 == 0 && r & 32 == 0) by (bit_vector);
    assert(r & 44 == 0 ==> r & 4 == 0 && r & 32 == 0 && r & 8 == 0) by (bit_vector);
    assert(r & 60 == 0 ==> r & 4 == 0 && r & 32 == 0 && r & 8 == 0 && r & 16 == 0)
        by (bit_vector);
    assert(r & 124 == 0 ==> r & 4 == 0 && r & 32 == 0 && r & 8 == 0 && r & 16 == 0 && r & 64 == 0)
        by (bit_vector);
    assert((r & 124) & 4 == r & 4 && (r & 124) & 32 == r & 32 && (r & 124) & 8 == r & 8 && (r
        & 124) & 16 == r & 16 && (r & 124) & 64 == r & 64) by (bit_vector);
}

/// Only ephemeris-source bits reach the eclipse searches.
pub proof fn eclipse_flags_hold_only_source_bits(flags: Flags)
    ensures
        (flags.raw() & SEFLG_EPHMASK) & !SEFLG_EPHMASK == 0,
{
    let x = flags.raw();
    assert((x & 7) & !7i32 == 0) by (bit_vector);
}

} // verus!
