use vstd::prelude::*;
use crate::codes::{
    SEFLG_ASTROMETRIC, SEFLG_BARYCTR, SEFLG_EQUATORIAL, SEFLG_HELCTR, SEFLG_J2000, SEFLG_MOSEPH,
    SEFLG_NONUT, SEFLG_SIDEREAL, SEFLG_SPEED, SEFLG_SWIEPH, SEFLG_TOPOCTR, SEFLG_TRUEPOS,
};
use crate::error::Error;

verus! {

/// Computation flags, combined with `|`: `Flags::swiss() | Flags::sidereal()`.
/// `Flags::default()` is `Flags::swiss()`.
///
/// `Flags::swiss()` and `Flags::moshier()` are mutually exclusive ephemeris
/// sources: a request holding both is rejected with an error rather than
/// letting the C library silently prefer Moshier.
#[derive(Debug, Clone, Copy, PartialEq, Eq)]
pub struct Flags(i32);

/// The message of the error that rejects a request naming both ephemeris
/// sources.
pub open spec fn source_conflict_message() -> Seq<char> {
    "Flags::SWISS and Flags::MOSHIER are mutually exclusive; pick one ephemeris source"@
}

impl Flags {
    /// The raw `iflag` bits, as a specification value.
    pub closed spec fn raw(self) -> i32 {
        self.0
    }

    /// The flags holding every bit of `self` and of `other`.
    pub closed spec fn union(self, other: Flags) -> Flags {
        Flags(self.0 | other.0)
    }

    /// Whether every bit of `other` is set in `self`.
    pub open spec fn holds(self, other: Flags) -> bool {
        self.raw() & other.raw() == other.raw()
    }

    /// Whether both ephemeris sources are requested at once.
    pub open spec fn has_source_conflict(self) -> bool {
        self.raw() & SEFLG_SWIEPH == SEFLG_SWIEPH && self.raw() & SEFLG_MOSEPH == SEFLG_MOSEPH
    }

    /// No flags. With no ephemeris-source bit set, the C library defaults to
    /// the Swiss Ephemeris.
    pub fn none() -> (f: Flags)
        ensures
            f.raw() == 0,
    {
        Flags(0)
    }

    /// Use the Swiss Ephemeris data files, falling back to Moshier for the
    /// bodies Moshier can compute when the files are absent.
    pub fn swiss() -> (f: Flags)
        ensures
            f.raw() == SEFLG_SWIEPH,
    {
        Flags(SEFLG_SWIEPH)
    }

    /// Use the built-in Moshier analytical ephemeris (no data files).
    pub fn moshier() -> (f: Flags)
        ensures
            f.raw() == SEFLG_MOSEPH,
    {
        Flags(SEFLG_MOSEPH)
    }

    /// Speeds; always requested by position computations, kept for the raw
    /// interface.
    pub fn speed() -> (f: Flags)
        ensures
            f.raw() == SEFLG_SPEED,
    {
        Flags(SEFLG_SPEED)
    }

    /// Heliocentric positions.
    pub fn heliocentric() -> (f: Flags)
        ensures
            f.raw() == SEFLG_HELCTR,
    {
        Flags(SEFLG_HELCTR)
    }

    /// Barycentric positions.
    pub fn barycentric() -> (f: Flags)
        ensures
            f.raw() == SEFLG_BARYCTR,
    {
        Flags(SEFLG_BARYCTR)
    }

    /// Equatorial coordinates instead of ecliptic ones (positions only; the
    /// houses computation ignores it).
    pub fn equatorial() -> (f: Flags)
        ensures
            f.raw() == SEFLG_EQUATORIAL,
    {
        Flags(SEFLG_EQUATORIAL)
    }

    /// Sidereal zodiac; select the ayanamsha first.
    pub fn sidereal() -> (f: Flags)
        ensures
            f.raw() == SEFLG_SIDEREAL,
    {
        Flags(SEFLG_SIDEREAL)
    }

    /// Topocentric positions; set the observer first.
    pub fn topocentric() -> (f: Flags)
        ensures
            f.raw() == SEFLG_TOPOCTR,
    {
        Flags(SEFLG_TOPOCTR)
    }

    /// The J2000 equinox instead of the equinox of date (positions only).
    pub fn j2000() -> (f: Flags)
        ensures
            f.raw() == SEFLG_J2000,
    {
        Flags(SEFLG_J2000)
    }

    /// No nutation.
    pub fn no_nutation() -> (f: Flags)
        ensures
            f.raw() == SEFLG_NONUT,
    {
        Flags(SEFLG_NONUT)
    }

    /// True geometric positions (no light-time correction).
    pub fn true_positions() -> (f: Flags)
        ensures
            f.raw() == SEFLG_TRUEPOS,
    {
        Flags(SEFLG_TRUEPOS)
    }

    /// Astrometric positions (no aberration or gravitational deflection).
    pub fn astrometric() -> (f: Flags)
        ensures
            f.raw() == SEFLG_ASTROMETRIC,
    {
        Flags(SEFLG_ASTROMETRIC)
    }

    /// The raw `iflag` bits.
    pub fn bits(self) -> (b: i32)
        ensures
            b == self.raw(),
    {
        self.0
    }

    /// Whether every bit of `other` is set in `self`.
    pub fn contains(self, other: Flags) -> (r: bool)
        ensures
            r == self.holds(other),
    {
        self.0 & other.0 == other.0
    }

    /// Reject the contradictory combination of both ephemeris sources.
    pub fn validate_source(self) -> (r: Result<(), Error>)
        ensures
            r is Err <==> self.has_source_conflict(),
            r matches Err(e) ==> e.text() == source_conflict_message(),
    {
        if self.contains(Flags::swiss()) && self.contains(Flags::moshier()) {
            return Err(
                Error::new(
                    "Flags::SWISS and Flags::MOSHIER are mutually exclusive; pick one ephemeris source",
                ),
            );
        }
        Ok(())
    }
}

impl Default for Flags {
    fn default() -> (f: Flags)
        ensures
            f.raw() == SEFLG_SWIEPH,
    {
        Flags::swiss()
    }
}

impl core::ops::BitOr for Flags {
    type Output = Flags;

    fn bitor(self, rhs: Flags) -> (f: Flags)
        ensures
            f.raw() == self.raw() | rhs.raw(),
            f == self.union(rhs),
    {
        Flags(self.0 | rhs.0)
    }
}

impl vstd::std_specs::ops::BitOrSpecImpl for Flags {
    open spec fn obeys_bitor_spec() -> bool {
        true
    }

    open spec fn bitor_req(self, rhs: Flags) -> bool {
        true
    }

    closed spec fn bitor_spec(self, rhs: Flags) -> Flags {
        Flags(self.0 | rhs.0)
    }
}

impl core::ops::BitOrAssign for Flags {
    fn bitor_assign(&mut self, rhs: Flags)
        ensures
            final(self).raw() == old(self).raw() | rhs.raw(),
            *final(self) == old(self).union(rhs),
    {
        self.0 = self.0 | rhs.0;
    }
}

/// Flags are their bits: two flag values with the same bits are equal (so
/// `Flags::default()` is `Flags::swiss()`, both having the Swiss bit only).
pub proof fn flags_are_their_bits(a: Flags, b: Flags)
    ensures
        a.raw() == b.raw() <==> a == b,
{
}

/// The bits of a union are the union of the bits.
pub proof fn union_bits(a: Flags, b: Flags)
    ensures
        a.union(b).raw() == a.raw() | b.raw(),
{
}

/// Combining flags with `|` is commutative, associative and idempotent,
/// and the empty flags (`Flags::none()`) are its unit.
pub proof fn union_laws(a: Flags, b: Flags, c: Flags, empty: Flags)
    requires
        empty.raw() == 0,
    ensures
        a.union(b) == b.union(a),
        a.union(b).union(c) == a.union(b.union(c)),
        a.union(a) == a,
        a.union(empty) == a,
{
    let x = a.raw();
    let y = b.raw();
    let z = c.raw();
    assert(x | y == y | x) by (bit_vector);
    assert((x | y) | z == x | (y | z)) by (bit_vector);
    assert(x | x == x) by (bit_vector);
    assert(x | 0 == x) by (bit_vector);
}

/// A union of flags holds each of its parts.
pub proof fn union_holds_both(a: Flags, b: Flags, u: Flags)
    requires
        u.raw() == a.raw() | b.raw(),
    ensures
        u.holds(a),
        u.holds(b),
{
    let x = a.raw();
    let y = b.raw();
    assert((x | y) & x == x) by (bit_vector);
    assert((x | y) & y == y) by (bit_vector);
}

} // verus!
