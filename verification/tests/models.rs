use salah::adjustments::{Adjustment, TimeAdjustment};
use salah::angle::{Angle, Coordinates};
use salah::event::{Event, Prayer as EventPrayer};
use salah::high_altitude_rule::HighLatitudeRule;
use salah::madhab::Madhab;
use salah::method::Method;
use salah::parameters::{Configuration, Parameters, Portion};
use salah::prayer::Prayer;

#[test]
fn prayer_correct_prayer_name_for_friday_prayer() {
    assert_eq!("Jumu'ah", Prayer::Dhuhr.friday_name());
}

#[test]
fn event_correct_prayer_name_for_friday_prayer() {
    assert_eq!("Jumu'ah", Event::Prayer(EventPrayer::Dhuhr).friday_name());
}

#[test]
fn correct_prayer_name() {
    assert_eq!(Event::Prayer(EventPrayer::Fajr).name(), "Fajr");
    assert_eq!(Event::Prayer(EventPrayer::Dhuhr).name(), "Dhuhr");
    assert_eq!(Event::Prayer(EventPrayer::Asr).name(), "Asr");
    assert_eq!(Event::Prayer(EventPrayer::Maghrib).name(), "Maghrib");
    assert_eq!(Event::Prayer(EventPrayer::Isha).name(), "Isha");
    assert_eq!(Event::Qiyam.name(), "Qiyam");
    assert_eq!(Prayer::Fajr.name(), "Fajr");
    assert_eq!(Prayer::Dhuhr.name(), "Dhuhr");
    assert_eq!(Prayer::Asr.name(), "Asr");
    assert_eq!(Prayer::Maghrib.name(), "Maghrib");
    assert_eq!(Prayer::Isha.name(), "Isha");
    assert_eq!(Prayer::Qiyam.name(), "Qiyam");
}

#[test]
fn event_is_daily() {
    assert!(Event::Prayer(EventPrayer::Fajr).is_daily());
    assert!(Event::Prayer(EventPrayer::Isha).is_daily());
    assert!(!Event::Sunrise.is_daily());
    assert!(!Event::Qiyam.is_daily());
}

#[test]
fn test_shadow_length() {
    assert_eq!(Madhab::Shafi.shadow(), 1);
    assert_eq!(Madhab::Hanafi.shadow(), 2);
}

#[test]
fn test_recommended_rule_for_position() {
    let normal = Coordinates::new(45_983_226, -3_216_649);
    let high = Coordinates::new(48_983_226, -3_216_649);
    assert_eq!(HighLatitudeRule::recommended(&normal), HighLatitudeRule::MiddleOfTheNight);
    assert_eq!(HighLatitudeRule::recommended(&high), HighLatitudeRule::SeventhOfTheNight);
}

#[test]
fn calculate_parameters_with_fajr_and_isha_angles() {
    // Angles of 18 degrees, held in microdegrees.
    let params = Configuration::new()
        .fajr_angle(Angle::new(18_000_000))
        .isha_angle(Angle::new(18_000_000))
        .build();

    assert_eq!(params.fajr_angle, Angle::new(18_000_000));
    assert_eq!(params.isha_angle, Angle::new(18_000_000));
    assert_eq!(params.isha_interval, 0);
}

#[test]
fn calculated_night_portions_middle_of_the_night() {
    let params = Configuration::new()
        .fajr_angle(Angle::new(18_000_000))
        .isha_angle(Angle::new(18_000_000))
        .build();

    let portions = params.night_portions();
    assert_eq!(portions.0, Portion { numerator: 1, denominator: 2 });
    assert_eq!(portions.1, Portion { numerator: 1, denominator: 2 });
}

#[test]
fn calculated_night_portions_seventh_of_the_night() {
    let params = Configuration::new()
        .fajr_angle(Angle::new(18_000_000))
        .isha_angle(Angle::new(18_000_000))
        .high_latitude_rule(HighLatitudeRule::SeventhOfTheNight)
        .build();

    let portions = params.night_portions();
    assert_eq!(portions.0, Portion { numerator: 1, denominator: 7 });
    assert_eq!(portions.1, Portion { numerator: 1, denominator: 7 });
}

#[test]
fn calculated_night_portions_twilight_angle() {
    let params = Configuration::new()
        .fajr_angle(Angle::new(10_000_000))
        .isha_angle(Angle::new(10_000_000))
        .high_latitude_rule(HighLatitudeRule::TwilightAngle)
        .build();

    let portions = params.night_portions();
    // The portion is the angle divided by 60 degrees.
    assert_eq!(portions.0, Portion { numerator: 10_000_000, denominator: 60_000_000 });
    assert_eq!(portions.1, Portion { numerator: 10_000_000, denominator: 60_000_000 });
}

#[test]
fn parameters_using_method_and_madhab() {
    let params = Parameters::from_method(Method::NorthAmerica).with_madhab(Madhab::Hanafi);

    assert_eq!(params.method, Method::NorthAmerica);
    assert_eq!(params.fajr_angle, Angle::new(15_000_000));
    assert_eq!(params.isha_angle, Angle::new(15_000_000));
    assert_eq!(params.isha_interval, 0);
    assert_eq!(params.madhab, Madhab::Hanafi);
}

#[test]
fn test_parameters_from_method() {
    let cases: [(Method, i64, i64, i32); 11] = [
        (Method::MuslimWorldLeague, 18_000_000, 17_000_000, 0),
        (Method::Egyptian, 19_500_000, 17_500_000, 0),
        (Method::Karachi, 18_000_000, 18_000_000, 0),
        (Method::UmmAlQura, 18_500_000, 0, 90),
        (Method::Dubai, 18_200_000, 18_200_000, 0),
        (Method::MoonsightingCommittee, 18_000_000, 18_000_000, 0),
        (Method::NorthAmerica, 15_000_000, 15_000_000, 0),
        (Method::Kuwait, 18_000_000, 17_500_000, 0),
        (Method::Qatar, 18_000_000, 0, 90),
        (Method::Singapore, 20_000_000, 18_000_000, 0),
        (Method::Other, 0, 0, 0),
    ];
    for (method, fajr, isha, interval) in cases {
        let params = method.parameters();
        assert_eq!(params.method, method);
        assert_eq!(params.fajr_angle, Angle::new(fajr));
        assert_eq!(params.isha_angle, Angle::new(isha));
        assert_eq!(params.isha_interval, interval);
    }
}

#[test]
fn adjustment_builder_collects_fields() {
    let built = Adjustment::new().dhuhr(5).maghrib(3).build();
    assert_eq!(built, TimeAdjustment::new(0, 0, 5, 0, 3, 0));
    assert_eq!(TimeAdjustment::default(), TimeAdjustment::new(0, 0, 0, 0, 0, 0));
}
