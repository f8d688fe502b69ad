use sweph::body::{Body, Ephemeris, Sign};
use sweph::eclipse::EclipseKind;
use sweph::houses::HouseSystem;
use sweph::sidereal::{ayanamsha_arguments, Ayanamsha};

#[test]
fn sign_math_survives_rem_euclid_boundary_rounding() {
    // rem_euclid(360.0) rounds to exactly 360.0 for tiny negative inputs;
    // the sign index must stay in range regardless.
    for lon in [-1e-18_f64, -0.0, 0.0, 360.0, -360.0] {
        let sign = Sign::from_index((lon.rem_euclid(360.0) / 30.0) as usize);
        assert_eq!(sign, Sign::Aries, "lon {lon:e}");
    }
}

#[test]
fn signs_by_index() {
    let all = Sign::all();
    for i in 0..30usize {
        assert_eq!(Sign::from_index(i), all[i % 12]);
    }
    assert_eq!(Sign::from_index(9), Sign::Capricorn);
    assert_eq!(Sign::from_index(12), Sign::Aries);
    assert_eq!(Sign::from_index(usize::MAX), all[usize::MAX % 12]);
    assert_eq!(all[11].name(), "Pisces");
    assert_eq!(Sign::Sagittarius.name(), "Sagittarius");
}

#[test]
fn body_codes_and_names() {
    assert_eq!(Body::Sun.to_swe(), 0);
    assert_eq!(Body::Pluto.to_swe(), 9);
    assert_eq!(Body::MeanApogee.to_swe(), 12);
    assert_eq!(Body::Vesta.to_swe(), 20);
    assert_eq!(Body::MeanNode.name(), "Mean Node");
    assert_eq!(Body::OsculatingApogee.name(), "Osculating Apogee");
    let planets = Body::planets();
    assert_eq!(planets.len(), 10);
    assert_eq!(planets[0], Body::Sun);
    assert_eq!(planets[9], Body::Pluto);
    for (i, body) in planets.iter().enumerate() {
        assert_eq!(body.to_swe(), i as i32);
        assert!(!body.requires_data_files());
    }
}

#[test]
fn file_only_bodies() {
    for body in [Body::Chiron, Body::Pholus, Body::Ceres, Body::Pallas, Body::Juno, Body::Vesta] {
        assert!(body.requires_data_files(), "{}", body.name());
    }
    for body in [Body::MeanNode, Body::TrueNode, Body::MeanApogee, Body::OsculatingApogee, Body::Earth] {
        assert!(!body.requires_data_files(), "{}", body.name());
    }
}

#[test]
fn ephemeris_from_returned_flags() {
    assert_eq!(Ephemeris::from_iflag(4 | 256), Ephemeris::Moshier);
    assert_eq!(Ephemeris::from_iflag(2 | 256), Ephemeris::Swiss);
    assert_eq!(Ephemeris::from_iflag(1 | 256), Ephemeris::Jpl);
    assert_eq!(Ephemeris::from_iflag(1 | 4), Ephemeris::Moshier);
    assert_eq!(Ephemeris::from_iflag(0), Ephemeris::Swiss);
}

#[test]
fn house_system_letters_and_names() {
    assert_eq!(HouseSystem::Placidus.to_swe(), 'P' as i32);
    assert_eq!(HouseSystem::Equal.to_swe(), 'A' as i32);
    assert_eq!(HouseSystem::WholeSign.to_swe(), 'W' as i32);
    assert_eq!(HouseSystem::Porphyry.to_swe(), 'O' as i32);
    assert_eq!(HouseSystem::Alcabitius.to_swe(), 'B' as i32);
    assert_eq!(HouseSystem::WholeSign.name(), "Whole Sign");
    assert_eq!(HouseSystem::Vehlow.name(), "Vehlow");
}

#[test]
fn ayanamsha_modes() {
    assert_eq!(Ayanamsha::FaganBradley.to_swe(), 0);
    assert_eq!(Ayanamsha::Lahiri.to_swe(), 1);
    assert_eq!(Ayanamsha::DeLuce.to_swe(), 2);
    assert_eq!(Ayanamsha::Raman.to_swe(), 3);
    assert_eq!(Ayanamsha::Krishnamurti.to_swe(), 5);
}

#[test]
fn eclipse_kind_priority() {
    assert_eq!(EclipseKind::from_retflag(4 | 1), EclipseKind::Total);
    assert_eq!(EclipseKind::from_retflag(32 | 8), EclipseKind::Hybrid);
    assert_eq!(EclipseKind::from_retflag(8 | 2), EclipseKind::Annular);
    assert_eq!(EclipseKind::from_retflag(16), EclipseKind::Partial);
    assert_eq!(EclipseKind::from_retflag(64), EclipseKind::Penumbral);
    assert_eq!(EclipseKind::from_retflag(1), EclipseKind::Unknown);
    assert_eq!(EclipseKind::from_retflag(4 | 16 | 64), EclipseKind::Total);
}

#[test]
fn ayanamsha_queries_name_the_swiss_ephemeris() {
    assert_eq!(ayanamsha_arguments(Ayanamsha::Lahiri), (1, 2));
    assert_eq!(ayanamsha_arguments(Ayanamsha::Krishnamurti), (5, 2));
}
