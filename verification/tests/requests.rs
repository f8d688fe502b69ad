use sweph::body::{Body, Ephemeris};
use sweph::eclipse::{eclipse_arguments, eclipse_outcome, EclipseKind};
use sweph::error::{check_serr_call, Error};
use sweph::flags::Flags;
use sweph::houses::{houses_arguments, houses_outcome, HouseSystem};
use sweph::position::{calc_arguments, calc_outcome};

#[test]
fn conflicting_ephemeris_sources_are_rejected() {
    let err = calc_arguments(Body::Sun, Flags::swiss() | Flags::moshier());
    assert!(err.is_err(), "SWISS|MOSHIER must be rejected");
}

#[test]
fn moshier_is_rejected_for_file_only_bodies() {
    for body in [Body::Chiron, Body::Pholus, Body::Ceres, Body::Pallas, Body::Juno, Body::Vesta] {
        let err = calc_arguments(body, Flags::moshier()).unwrap_err();
        assert!(
            err.message().contains("Moshier"),
            "{}: unexpected message {:?}",
            body.name(),
            err.message()
        );
    }
    // The nodes and apogees have Moshier models and must keep working.
    for body in [Body::MeanNode, Body::TrueNode, Body::MeanApogee, Body::OsculatingApogee] {
        calc_arguments(body, Flags::moshier()).unwrap();
    }
}

#[test]
fn moshier_rejection_message_names_the_body() {
    let err = calc_arguments(Body::Ceres, Flags::moshier() | Flags::sidereal()).unwrap_err();
    assert_eq!(
        err.message(),
        "the Moshier ephemeris has no model for Ceres; it is computed from Swiss data files — use Flags::SWISS and set_ephe_path"
    );
    // With both sources the conflict is reported first.
    let err = calc_arguments(Body::Ceres, Flags::moshier() | Flags::swiss()).unwrap_err();
    assert_eq!(
        err.message(),
        "Flags::SWISS and Flags::MOSHIER are mutually exclusive; pick one ephemeris source"
    );
}

#[test]
fn speed_is_always_requested() {
    assert_eq!(calc_arguments(Body::Sun, Flags::swiss()).unwrap(), (0, 2 | 256));
    assert_eq!(calc_arguments(Body::Moon, Flags::none()).unwrap(), (1, 256));
    assert_eq!(calc_arguments(Body::Mars, Flags::speed()).unwrap(), (4, 256));
    assert_eq!(
        calc_arguments(Body::Chiron, Flags::swiss() | Flags::equatorial()).unwrap(),
        (15, 2 | 2048 | 256)
    );
}

#[test]
fn position_outcome_reports_the_source_used() {
    assert_eq!(calc_outcome(4 | 256, String::new()).unwrap(), Ephemeris::Moshier);
    assert_eq!(calc_outcome(2 | 256, String::new()).unwrap(), Ephemeris::Swiss);
    let err = calc_outcome(-1, "file not found".to_string()).unwrap_err();
    assert_eq!(err.message(), "file not found");
}

#[test]
fn serr_calls_fail_on_negative_codes() {
    assert_eq!(check_serr_call(0, String::new()).unwrap(), 0);
    assert_eq!(check_serr_call(7, "ignored".to_string()).unwrap(), 7);
    assert_eq!(check_serr_call(-1, "bad date".to_string()).unwrap_err().message(), "bad date");
}

#[test]
fn flags_combine_and_default_to_swiss() {
    let f = Flags::swiss() | Flags::sidereal();
    assert!(f.contains(Flags::swiss()));
    assert!(f.contains(Flags::sidereal()));
    assert!(!f.contains(Flags::moshier()));
    assert_eq!(f.bits(), 2 | 65536);
    let mut g = Flags::none();
    g |= Flags::topocentric();
    g |= Flags::j2000();
    assert_eq!(g.bits(), 32768 | 32);
    assert_eq!(Flags::default(), Flags::swiss());
    assert_eq!(Flags::astrometric().bits(), 1536);
    assert!(Flags::astrometric().contains(Flags::none()));
}

#[test]
fn validate_source_rejects_only_both_sources() {
    assert!(Flags::swiss().validate_source().is_ok());
    assert!(Flags::moshier().validate_source().is_ok());
    assert!(Flags::none().validate_source().is_ok());
    assert!((Flags::swiss() | Flags::moshier() | Flags::speed()).validate_source().is_err());
}

#[test]
fn houses_requests() {
    assert_eq!(
        houses_arguments(HouseSystem::Placidus, Flags::none()).unwrap(),
        (0, 'P' as i32)
    );
    assert_eq!(
        houses_arguments(HouseSystem::WholeSign, Flags::sidereal()).unwrap(),
        (65536, 'W' as i32)
    );
    assert!(houses_arguments(HouseSystem::Koch, Flags::swiss() | Flags::moshier()).is_err());
    assert!(houses_outcome(HouseSystem::Placidus, 0, "40.7128").is_ok());
    let err = houses_outcome(HouseSystem::Placidus, -1, "89.9").unwrap_err();
    assert_eq!(err.message(), "Placidus houses could not be computed at latitude 89.9 (polar region?)");
}

#[test]
fn eclipse_requests_keep_only_source_bits() {
    assert_eq!(eclipse_arguments(Flags::default()).unwrap(), 2);
    assert_eq!(eclipse_arguments(Flags::moshier() | Flags::speed() | Flags::sidereal()).unwrap(), 4);
    assert!(eclipse_arguments(Flags::swiss() | Flags::moshier()).is_err());
}

#[test]
fn eclipse_outcomes() {
    assert_eq!(eclipse_outcome(4 | 1, String::new()).unwrap(), EclipseKind::Total);
    assert_eq!(eclipse_outcome(16 | 2, String::new()).unwrap(), EclipseKind::Partial);
    let none = eclipse_outcome(0, String::new()).unwrap_err();
    assert_eq!(none.message(), "eclipse search returned no result (unexpected)");
    let failed = eclipse_outcome(-1, "ephemeris file missing".to_string()).unwrap_err();
    assert_eq!(failed.message(), "ephemeris file missing");
}

#[test]
fn errors_display_with_a_prefix() {
    let e = Error::new("bad input");
    assert_eq!(e.message(), "bad input");
    assert_eq!(e.to_string(), "swiss ephemeris: bad input");
    assert_eq!(Error::from_string("x".to_string()), Error::new("x"));
}

#[test]
fn union_laws_on_values() {
    let a = Flags::swiss();
    let b = Flags::sidereal();
    let c = Flags::no_nutation();
    assert_eq!(a | b, b | a);
    assert_eq!((a | b) | c, a | (b | c));
    assert_eq!(a | a, a);
    assert_eq!(a | Flags::none(), a);
    assert_eq!(Flags::default(), Flags::swiss());
}
