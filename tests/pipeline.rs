use astro_core::chart::{ChartStage, ChartStep, CoreChart, EngineReply};
use astro_core::engine::julian_day_outcome;
use astro_core::error::AstroError;
use astro_core::sign::Longitude;

const SIGN_NAMES: [&str; 12] = [
    "aries",
    "taurus",
    "gemini",
    "cancer",
    "leo",
    "virgo",
    "libra",
    "scorpio",
    "sagittarius",
    "capricorn",
    "aquarius",
    "pisces",
];

fn lon(millidegrees: i64) -> EngineReply {
    EngineReply::Longitude(Longitude { millidegrees })
}

/// Feeds the replies in order; returns the result and the number of replies used.
fn run(replies: Vec<EngineReply>) -> (Result<CoreChart, AstroError>, usize) {
    let mut stage = ChartStage::start();
    let mut used = 0;
    for reply in replies {
        assert!(stage.accepts(&reply));
        used += 1;
        match stage.advance(reply) {
            ChartStep::Next(next) => stage = next,
            ChartStep::Finished(r) => return (r, used),
        }
    }
    panic!("run did not finish");
}

fn full(sun: i64, moon: i64, asc: i64) -> Vec<EngineReply> {
    vec![EngineReply::Ready, EngineReply::Ready, lon(sun), lon(moon), lon(asc)]
}

#[test]
fn stages_follow_the_pipeline_order() {
    let s = ChartStage::start();
    assert_eq!(s, ChartStage::ApplyPath);
    assert_eq!(s.advance(EngineReply::Ready), ChartStep::Next(ChartStage::JulianDay));
    assert_eq!(
        ChartStage::JulianDay.advance(EngineReply::Ready),
        ChartStep::Next(ChartStage::SunLongitude)
    );
    let sun = Longitude { millidegrees: 10 };
    assert_eq!(
        ChartStage::SunLongitude.advance(EngineReply::Longitude(sun)),
        ChartStep::Next(ChartStage::MoonLongitude { sun })
    );
}

#[test]
fn mid_july_sun_is_cancer() {
    // The Sun's longitude on 1990-07-15 10:30 UTC lies near 112.7 degrees.
    let (r, used) = run(full(112_700, 40_000, 200_500));
    let chart = r.expect("chart should compute");
    assert_eq!(used, 5);
    assert_eq!(chart.sun_sign, "cancer");
    assert_eq!(chart.moon_sign, "taurus");
    assert_eq!(chart.asc_sign, "libra");
}

#[test]
fn smoke_chart_fields_are_sign_names() {
    // 1990-01-01 00:00 UTC at lat 0, lon 0.
    let (r, _) = run(full(280_300, 320_800, 190_100));
    let chart = r.expect("chart should compute");
    assert!(SIGN_NAMES.contains(&chart.sun_sign.as_str()));
    assert!(SIGN_NAMES.contains(&chart.moon_sign.as_str()));
    assert!(SIGN_NAMES.contains(&chart.asc_sign.as_str()));
    assert_eq!(chart.sun_sign, "capricorn");
}

#[test]
fn unreduced_longitudes_map_into_table() {
    let (r, _) = run(full(-10_000, 725_000, 359_999));
    let chart = r.expect("chart should compute");
    assert_eq!(chart.sun_sign, "pisces");
    assert_eq!(chart.moon_sign, "aries");
    assert_eq!(chart.asc_sign, "pisces");
}

#[test]
fn rejected_date_ends_run_with_engine_error() {
    let outcome = julian_day_outcome(-1, b"illegal month 13\0");
    let (r, used) = run(vec![EngineReply::Ready, EngineReply::from_status(outcome)]);
    assert_eq!(used, 2);
    assert_eq!(r, Err(AstroError::EphemerisError("illegal month 13".to_string())));
}

#[test]
fn first_failure_stops_the_run() {
    let fail = |m: &str| EngineReply::Failed(AstroError::EphemerisError(m.to_string()));
    let (r, used) = run(vec![EngineReply::Failed(AstroError::poisoned_path_lock())]);
    assert_eq!(used, 1);
    assert_eq!(r, Err(AstroError::InvalidInput("ephemeris path lock poisoned".to_string())));
    let (r, used) = run(vec![EngineReply::Ready, EngineReply::Ready, fail("sun")]);
    assert_eq!((r, used), (Err(AstroError::EphemerisError("sun".to_string())), 3));
    let (r, used) = run(vec![EngineReply::Ready, EngineReply::Ready, lon(1), fail("moon")]);
    assert_eq!((r, used), (Err(AstroError::EphemerisError("moon".to_string())), 4));
    let (r, used) = run(vec![EngineReply::Ready, EngineReply::Ready, lon(1), lon(2), fail("asc")]);
    assert_eq!((r, used), (Err(AstroError::EphemerisError("asc".to_string())), 5));
}

#[test]
fn same_replies_give_same_chart() {
    let (a, _) = run(full(112_700, 40_000, 200_500));
    let (b, _) = run(full(112_700, 40_000, 200_500));
    assert_eq!(a, b);
}

#[test]
fn replies_of_the_wrong_kind_are_refused() {
    assert!(!ChartStage::ApplyPath.accepts(&lon(1)));
    assert!(!ChartStage::JulianDay.accepts(&lon(1)));
    assert!(!ChartStage::SunLongitude.accepts(&EngineReply::Ready));
    assert!(ChartStage::SunLongitude.accepts(&EngineReply::Failed(AstroError::poisoned_path_lock())));
    assert_eq!(
        EngineReply::from_longitude(Ok(Longitude { millidegrees: 5 })),
        EngineReply::Longitude(Longitude { millidegrees: 5 })
    );
}

#[test]
fn chart_from_longitudes() {
    let c = CoreChart::from_longitudes(
        Longitude { millidegrees: 0 },
        Longitude { millidegrees: 30_000 },
        Longitude { millidegrees: 359_999 },
    );
    assert_eq!(c.sun_sign, "aries");
    assert_eq!(c.moon_sign, "taurus");
    assert_eq!(c.asc_sign, "pisces");
}
