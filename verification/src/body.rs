use vstd::prelude::*;
use crate::codes::{
    SEFLG_JPLEPH, SEFLG_MOSEPH, SE_CERES, SE_CHIRON, SE_EARTH, SE_JUNO, SE_JUPITER, SE_MARS,
    SE_MEAN_APOG, SE_MEAN_NODE, SE_MERCURY, SE_MOON, SE_NEPTUNE, SE_OSCU_APOG, SE_PALLAS,
    SE_PHOLUS, SE_PLUTO, SE_SATURN, SE_SUN, SE_TRUE_NODE, SE_URANUS, SE_VENUS, SE_VESTA,
};

verus! {

/// The ephemeris source actually used for a computation.
#[derive(Debug, Clone, Copy, PartialEq, Eq, Hash, Structural)]
pub enum Ephemeris {
    /// Swiss Ephemeris data files.
    Swiss,
    /// Built-in Moshier analytical ephemeris (used when requested, or as the
    /// silent fallback when data files are missing).
    Moshier,
    /// JPL ephemeris file.
    Jpl,
}

/// The source that the `iflag` value returned by `swe_calc_ut` reports.
pub open spec fn ephemeris_of(iflag: i32) -> Ephemeris {
    if iflag & SEFLG_MOSEPH != 0 {
        Ephemeris::Moshier
    } else if iflag & SEFLG_JPLEPH != 0 {
        Ephemeris::Jpl
    } else {
        Ephemeris::Swiss
    }
}

impl Ephemeris {
    /// Decode the source bits from the `iflag` value `swe_calc_ut` returns,
    /// which reflects the ephemeris it actually used. The Moshier bit wins
    /// over the JPL bit; with neither, the source is the Swiss Ephemeris.
    pub fn from_iflag(iflag: i32) -> (e: Ephemeris)
        ensures
            e == ephemeris_of(iflag),
    {
        if iflag & SEFLG_MOSEPH != 0 {
            Ephemeris::Moshier
        } else if iflag & SEFLG_JPLEPH != 0 {
            Ephemeris::Jpl
        } else {
            Ephemeris::Swiss
        }
    }
}

/// A celestial body known to the Swiss Ephemeris.
///
/// Chiron, Pholus, and the asteroids require the corresponding data files;
/// the planets, nodes, and apogees work with the Moshier fallback too.
#[derive(Debug, Clone, Copy, PartialEq, Eq, Hash, Structural)]
pub enum Body {
    Sun,
    Moon,
    Mercury,
    Venus,
    Mars,
    Jupiter,
    Saturn,
    Uranus,
    Neptune,
    Pluto,
    MeanNode,
    TrueNode,
    /// Mean lunar apogee ("Lilith" / "Black Moon").
    MeanApogee,
    /// Osculating lunar apogee.
    OsculatingApogee,
    /// Only meaningful with heliocentric or barycentric flags.
    Earth,
    Chiron,
    Pholus,
    Ceres,
    Pallas,
    Juno,
    Vesta,
}

impl Body {
    /// The body number (`ipl`) of the C interface.
    pub open spec fn code(self) -> i32 {
        match self {
            Body::Sun => SE_SUN,
            Body::Moon => SE_MOON,
            Body::Mercury => SE_MERCURY,
            Body::Venus => SE_VENUS,
            Body::Mars => SE_MARS,
            Body::Jupiter => SE_JUPITER,
            Body::Saturn => SE_SATURN,
            Body::Uranus => SE_URANUS,
            Body::Neptune => SE_NEPTUNE,
            Body::Pluto => SE_PLUTO,
            Body::MeanNode => SE_MEAN_NODE,
            Body::TrueNode => SE_TRUE_NODE,
            Body::MeanApogee => SE_MEAN_APOG,
            Body::OsculatingApogee => SE_OSCU_APOG,
            Body::Earth => SE_EARTH,
            Body::Chiron => SE_CHIRON,
            Body::Pholus => SE_PHOLUS,
            Body::Ceres => SE_CERES,
            Body::Pallas => SE_PALLAS,
            Body::Juno => SE_JUNO,
            Body::Vesta => SE_VESTA,
        }
    }

    /// The bodies the Moshier analytical ephemeris has no model for: the C
    /// library computes them from Swiss data files whatever source was
    /// requested.
    pub open spec fn is_file_only(self) -> bool {
        self is Chiron || self is Pholus || self is Ceres || self is Pallas || self is Juno
            || self is Vesta
    }

    /// The display name.
    pub open spec fn name_text(self) -> Seq<char> {
        match self {
            Body::Sun => "Sun"@,
            Body::Moon => "Moon"@,
            Body::Mercury => "Mercury"@,
            Body::Venus => "Venus"@,
            Body::Mars => "Mars"@,
            Body::Jupiter => "Jupiter"@,
            Body::Saturn => "Saturn"@,
            Body::Uranus => "Uranus"@,
            Body::Neptune => "Neptune"@,
            Body::Pluto => "Pluto"@,
            Body::MeanNode => "Mean Node"@,
            Body::TrueNode => "True Node"@,
            Body::MeanApogee => "Mean Apogee"@,
            Body::OsculatingApogee => "Osculating Apogee"@,
            Body::Earth => "Earth"@,
            Body::Chiron => "Chiron"@,
            Body::Pholus => "Pholus"@,
            Body::Ceres => "Ceres"@,
            Body::Pallas => "Pallas"@,
            Body::Juno => "Juno"@,
            Body::Vesta => "Vesta"@,
        }
    }

    /// The ten classical planets, a common natal set, Sun to Pluto.
    pub fn planets() -> (p: [Body; 10])
        ensures
            p@ == seq![
                Body::Sun,
                Body::Moon,
                Body::Mercury,
                Body::Venus,
                Body::Mars,
                Body::Jupiter,
                Body::Saturn,
                Body::Uranus,
                Body::Neptune,
                Body::Pluto,
            ],
    {
        [
            Body::Sun,
            Body::Moon,
            Body::Mercury,
            Body::Venus,
            Body::Mars,
            Body::Jupiter,
            Body::Saturn,
            Body::Uranus,
            Body::Neptune,
            Body::Pluto,
        ]
    }

    /// Whether the body is computed from Swiss data files only (Chiron,
    /// Pholus, Ceres, Pallas, Juno, Vesta).
    pub fn requires_data_files(self) -> (r: bool)
        ensures
            r == self.is_file_only(),
    {
        matches!(
            self,
            Body::Chiron | Body::Pholus | Body::Ceres | Body::Pallas | Body::Juno | Body::Vesta
        )
    }

    /// The body number (`ipl`) of the C interface.
    pub fn to_swe(self) -> (c: i32)
        ensures
            c == self.code(),
    {
        match self {
            Body::Sun => SE_SUN,
            Body::Moon => SE_MOON,
            Body::Mercury => SE_MERCURY,
            Body::Venus => SE_VENUS,
            Body::Mars => SE_MARS,
            Body::Jupiter => SE_JUPITER,
            Body::Saturn => SE_SATURN,
            Body::Uranus => SE_URANUS,
            Body::Neptune => SE_NEPTUNE,
            Body::Pluto => SE_PLUTO,
            Body::MeanNode => SE_MEAN_NODE,
            Body::TrueNode => SE_TRUE_NODE,
            Body::MeanApogee => SE_MEAN_APOG,
            Body::OsculatingApogee => SE_OSCU_APOG,
            Body::Earth => SE_EARTH,
            Body::Chiron => SE_CHIRON,
            Body::Pholus => SE_PHOLUS,
            Body::Ceres => SE_CERES,
            Body::Pallas => SE_PALLAS,
            Body::Juno => SE_JUNO,
            Body::Vesta => SE_VESTA,
        }
    }

    /// The display name, e.g. `"Mean Node"`.
    pub fn name(self) -> (n: &'static str)
        ensures
            n@ == self.name_text(),
    {
        match self {
            Body::Sun => "Sun",
            Body::Moon => "Moon",
            Body::Mercury => "Mercury",
            Body::Venus => "Venus",
            Body::Mars => "Mars",
            Body::Jupiter => "Jupiter",
            Body::Saturn => "Saturn",
            Body::Uranus => "Uranus",
            Body::Neptune => "Neptune",
            Body::Pluto => "Pluto",
            Body::MeanNode => "Mean Node",
            Body::TrueNode => "True Node",
            Body::MeanApogee => "Mean Apogee",
            Body::OsculatingApogee => "Osculating Apogee",
            Body::Earth => "Earth",
            Body::Chiron => "Chiron",
            Body::Pholus => "Pholus",
            Body::Ceres => "Ceres",
            Body::Pallas => "Pallas",
            Body::Juno => "Juno",
            Body::Vesta => "Vesta",
        }
    }
}

/// The decoded ephemeris source depends on the source bits alone: the
/// Moshier bit means Moshier whatever else is set, the JPL bit without the
/// Moshier bit means JPL, and with neither the source is the Swiss
/// Ephemeris.
pub proof fn ephemeris_follows_source_bits(iflag: i32)
    ensures
        iflag & 4 != 0 ==> ephemeris_of(iflag) == Ephemeris::Moshier,
        iflag & 4 == 0 && iflag & 1 != 0 ==> ephemeris_of(iflag) == Ephemeris::Jpl,
        iflag & 5 == 0 ==> ephemeris_of(iflag) == Ephemeris::Swiss,
        ephemeris_of(iflag) == ephemeris_of(iflag & 7),
{
    assert((iflag & 7) & 4 == iflag & 4) by (bit_vector);
    assert((iflag & 7) & 1 == iflag & 1) by (bit_vector);
    assert(iflag & 5 == 0 ==> iflag & 4 == 0 && iflag & 1 == 0) by (bit_vector);
}

/// Each body is passed the body number of the Swiss Ephemeris interface:
/// Sun 0 to Pluto 9, mean node 10, true node 11, mean apogee 12,
/// osculating apogee 13, Earth 14, Chiron 15, Pholus 16, Ceres 17,
/// Pallas 18, Juno 19, Vesta 20; distinct bodies get distinct numbers.
pub proof fn body_numbers(a: Body, b: Body)
    ensures
        Body::Sun.code() == 0 && Body::Moon.code() == 1 && Body::Mercury.code() == 2
            && Body::Venus.code() == 3 && Body::Mars.code() == 4 && Body::Jupiter.code() == 5
            && Body::Saturn.code() == 6 && Body::Uranus.code() == 7 && Body::Neptune.code() == 8
            && Body::Pluto.code() == 9,
        Body::MeanNode.code() == 10 && Body::TrueNode.code() == 11 && Body::MeanApogee.code() == 12
            && Body::OsculatingApogee.code() == 13 && Body::Earth.code() == 14,
        Body::Chiron.code() == 15 && Body::Pholus.code() == 16 && Body::Ceres.code() == 17
            && Body::Pallas.code() == 18 && Body::Juno.code() == 19 && Body::Vesta.code() == 20,
        0 <= a.code() <= 20,
        a != b ==> a.code() != b.code(),
{
}

/// A sign of the tropical (or sidereal, per flags) zodiac.
#[derive(Debug, Clone, Copy, PartialEq, Eq, Hash, Structural)]
pub enum Sign {
    Aries,
    Taurus,
    Gemini,
    Cancer,
    Leo,
    Virgo,
    Libra,
    Scorpio,
    Sagittarius,
    Capricorn,
    Aquarius,
    Pisces,
}

/// The sign at position `index` (0 to 11) of the zodiac, Aries first.
pub open spec fn sign_at(index: int) -> Sign {
    if index == 0 {
        Sign::Aries
    } else if index == 1 {
        Sign::Taurus
    } else if index == 2 {
        Sign::Gemini
    } else if index == 3 {
        Sign::Cancer
    } else if index == 4 {
        Sign::Leo
    } else if index == 5 {
        Sign::Virgo
    } else if index == 6 {
        Sign::Libra
    } else if index == 7 {
        Sign::Scorpio
    } else if index == 8 {
        Sign::Sagittarius
    } else if index == 9 {
        Sign::Capricorn
    } else if index == 10 {
        Sign::Aquarius
    } else {
        Sign::Pisces
    }
}

/// Moshier has no model for exactly the bodies numbered from 15 on:
/// Chiron, Pholus and the four main asteroids.
pub proof fn file_only_bodies_are_numbered_from_15(b: Body)
    ensures
        b.is_file_only() <==> b.code() >= 15,
        b.is_file_only() ==> !(b is Earth),
{
}

/// The display names of the bodies.
pub proof fn body_names()
    ensures
        Body::Sun.name_text() == "Sun"@ && Body::Moon.name_text() == "Moon"@
            && Body::Mercury.name_text() == "Mercury"@ && Body::Venus.name_text() == "Venus"@
            && Body::Mars.name_text() == "Mars"@ && Body::Jupiter.name_text() == "Jupiter"@
            && Body::Saturn.name_text() == "Saturn"@ && Body::Uranus.name_text() == "Uranus"@
            && Body::Neptune.name_text() == "Neptune"@ && Body::Pluto.name_text() == "Pluto"@,
        Body::MeanNode.name_text() == "Mean Node"@ && Body::TrueNode.name_text() == "True Node"@
            && Body::MeanApogee.name_text() == "Mean Apogee"@
            && Body::OsculatingApogee.name_text() == "Osculating Apogee"@
            && Body::Earth.name_text() == "Earth"@,
        Body::Chiron.name_text() == "Chiron"@ && Body::Pholus.name_text() == "Pholus"@
            && Body::Ceres.name_text() == "Ceres"@ && Body::Pallas.name_text() == "Pallas"@
            && Body::Juno.name_text() == "Juno"@ && Body::Vesta.name_text() == "Vesta"@,
{
}

/// The signs follow the zodiac: sector `i` of 30 degrees (counted from 0
/// degrees of Aries) is Aries, Taurus, Gemini, Cancer, Leo, Virgo, Libra,
/// Scorpio, Sagittarius, Capricorn, Aquarius, Pisces for `i` = 0 to 11,
/// each sign in exactly one sector, and the signs repeat every twelve
/// sectors.
pub proof fn signs_follow_the_zodiac(i: int, j: int)
    ensures
        sign_at(0) == Sign::Aries && sign_at(1) == Sign::Taurus && sign_at(2) == Sign::Gemini
            && sign_at(3) == Sign::Cancer,
        sign_at(4) == Sign::Leo && sign_at(5) == Sign::Virgo && sign_at(6) == Sign::Libra
            && sign_at(7) == Sign::Scorpio,
        sign_at(8) == Sign::Sagittarius && sign_at(9) == Sign::Capricorn && sign_at(10)
            == Sign::Aquarius && sign_at(11) == Sign::Pisces,
        0 <= i < 12 && 0 <= j < 12 && i != j ==> sign_at(i) != sign_at(j),
        i % 12 == j % 12 ==> sign_at(i % 12) == sign_at(j % 12),
{
}

/// The display names of the signs, in zodiac order.
pub proof fn sign_names()
    ensures
        sign_at(0).name_text() == "Aries"@ && sign_at(1).name_text() == "Taurus"@
            && sign_at(2).name_text() == "Gemini"@ && sign_at(3).name_text() == "Cancer"@,
        sign_at(4).name_text() == "Leo"@ && sign_at(5).name_text() == "Virgo"@
            && sign_at(6).name_text() == "Libra"@ && sign_at(7).name_text() == "Scorpio"@,
        sign_at(8).name_text() == "Sagittarius"@ && sign_at(9).name_text() == "Capricorn"@
            && sign_at(10).name_text() == "Aquarius"@ && sign_at(11).name_text() == "Pisces"@,
{
}

impl Sign {
    /// The display name.
    pub open spec fn name_text(self) -> Seq<char> {
        match self {
            Sign::Aries => "Aries"@,
            Sign::Taurus => "Taurus"@,
            Sign::Gemini => "Gemini"@,
            Sign::Cancer => "Cancer"@,
            Sign::Leo => "Leo"@,
            Sign::Virgo => "Virgo"@,
            Sign::Libra => "Libra"@,
            Sign::Scorpio => "Scorpio"@,
            Sign::Sagittarius => "Sagittarius"@,
            Sign::Capricorn => "Capricorn"@,
            Sign::Aquarius => "Aquarius"@,
            Sign::Pisces => "Pisces"@,
        }
    }

    /// The twelve signs in zodiac order, Aries first.
    pub fn all() -> (signs: [Sign; 12])
        ensures
            signs@.len() == 12,
            forall|i: int| 0 <= i < 12 ==> #[trigger] signs@[i] == sign_at(i),
    {
        [
            Sign::Aries,
            Sign::Taurus,
            Sign::Gemini,
            Sign::Cancer,
            Sign::Leo,
            Sign::Virgo,
            Sign::Libra,
            Sign::Scorpio,
            Sign::Sagittarius,
            Sign::Capricorn,
            Sign::Aquarius,
            Sign::Pisces,
        ]
    }

    /// The sign of the 30-degree sector with number `index`, taken modulo
    /// 12: the last step of finding the sign that contains an ecliptic
    /// longitude, after the longitude has been divided into sectors. Any
    /// index names a sign, including 12, which a longitude rounding up to
    /// exactly 360 degrees produces.
    pub fn from_index(index: usize) -> (s: Sign)
        ensures
            s == sign_at((index % 12) as int),
    {
        let all = Sign::all();
        all[index % 12]
    }

    /// The display name, e.g. `"Sagittarius"`.
    pub fn name(self) -> (n: &'static str)
        ensures
            n@ == self.name_text(),
    {
        match self {
            Sign::Aries => "Aries",
            Sign::Taurus => "Taurus",
            Sign::Gemini => "Gemini",
            Sign::Cancer => "Cancer",
            Sign::Leo => "Leo",
            Sign::Virgo => "Virgo",
            Sign::Libra => "Libra",
            Sign::Scorpio => "Scorpio",
            Sign::Sagittarius => "Sagittarius",
            Sign::Capricorn => "Capricorn",
            Sign::Aquarius => "Aquarius",
            Sign::Pisces => "Pisces",
        }
    }
}

} // verus!
