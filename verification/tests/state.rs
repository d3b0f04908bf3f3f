use homeostat::reading::Reading;
use homeostat::state::{
    back_before_horizon, EnergyPeriod, EntityState, HvacMode, Occupancy, Presence, RawInputs,
    Season, ENTITY_AUX_ZONE_OCCUPIED, ENTITY_BACK_DURING_RECOVERY, ENTITY_COMFORT_SETPOINT,
    ENTITY_ENERGY_PERIOD, ENTITY_FORECAST_MAX, ENTITY_INDOOR_MAX, ENTITY_MAIN_MODE_OVERRIDE,
    ENTITY_OCCUPANCY, ENTITY_RECOVERY_HORIZON, ENTITY_RECOVERY_MINUTES, ENTITY_RETURN_ETA,
    ENTITY_RETURN_FLOOR, ENTITY_SEASON, ENTITY_SLEPT_AWAY,
};

fn reading(value: f64) -> Reading {
    Reading::from_bits(value.to_bits())
}

fn number(state: &str) -> Option<Reading> {
    state.parse::<f64>().ok().map(reading)
}

fn ingest(raw: &mut RawInputs, entity_id: &str, state: &str) -> bool {
    raw.ingest(entity_id, state, number(state))
}

fn derive(presence: Presence, eta: f64, floor: f64, recovery: f64) -> Occupancy {
    Occupancy::derive(presence, reading(eta), reading(floor), reading(recovery))
}

fn winter_house() -> RawInputs {
    let mut raw = RawInputs::default();
    ingest(&mut raw, ENTITY_OCCUPANCY, "home");
    ingest(&mut raw, ENTITY_ENERGY_PERIOD, "normal");
    ingest(&mut raw, ENTITY_FORECAST_MAX, "-5");
    ingest(&mut raw, ENTITY_AUX_ZONE_OCCUPIED, "off");
    raw
}

#[test]
fn unavailable_comfort_hold_means_no_hold_and_does_not_suspend() {
    let mut raw = RawInputs::default();
    ingest(&mut raw, ENTITY_OCCUPANCY, "home");
    ingest(&mut raw, ENTITY_ENERGY_PERIOD, "normal");
    ingest(&mut raw, ENTITY_SEASON, "heat");
    ingest(&mut raw, ENTITY_AUX_ZONE_OCCUPIED, "off");
    ingest(&mut raw, ENTITY_COMFORT_SETPOINT, "unavailable");
    let inputs = raw
        .complete()
        .expect("an optional input must not suspend decisions");
    assert_eq!(f64::from_bits(inputs.comfort_setpoint.to_bits()), 0.0);
}

#[test]
fn unknown_occupancy_suspends_decisions() {
    let mut raw = RawInputs::default();
    ingest(&mut raw, ENTITY_OCCUPANCY, "unknown");
    ingest(&mut raw, ENTITY_ENERGY_PERIOD, "normal");
    ingest(&mut raw, ENTITY_SEASON, "heat");
    ingest(&mut raw, ENTITY_AUX_ZONE_OCCUPIED, "off");
    assert!(
        raw.complete().is_none(),
        "garbage in a required input must suspend"
    );
}

#[test]
fn legacy_five_state_occupancy_suspends() {
    let mut raw = RawInputs::default();
    ingest(&mut raw, ENTITY_OCCUPANCY, "away_returning");
    ingest(&mut raw, ENTITY_ENERGY_PERIOD, "normal");
    ingest(&mut raw, ENTITY_SEASON, "heat");
    ingest(&mut raw, ENTITY_AUX_ZONE_OCCUPIED, "off");
    assert!(raw.complete().is_none());
}

#[test]
fn derive_classifies_away_by_time_until_return() {
    // presence at home ignores the return sensors entirely
    assert_eq!(derive(Presence::Home, 30.0, 0.0, 0.0), Occupancy::Home);
    assert_eq!(
        derive(Presence::HomeAsleep, 0.0, 500.0, 0.0),
        Occupancy::HomeAsleep
    );

    // a credible estimate within the comfort pre-start = returning,
    // inclusive at the boundary
    let away = |eta: f64, floor: f64| derive(Presence::Away, eta, floor, 0.0);
    assert_eq!(away(15.0, 0.0), Occupancy::AwayReturning);
    assert_eq!(away(20.0, 0.0), Occupancy::AwayReturning);
    assert_eq!(away(45.0, 0.0), Occupancy::Away);
    assert_eq!(away(240.0, 0.0), Occupancy::AwayFar);

    // no estimate: never returning; plain away unless the physical
    // floor proves the deep setback is safe
    assert_eq!(away(0.0, 0.0), Occupancy::Away);
    assert_eq!(away(0.0, 45.0), Occupancy::Away);
    assert_eq!(away(0.0, 180.0), Occupancy::AwayFar);

    // the floor caps a stale optimistic estimate
    assert_eq!(away(15.0, 180.0), Occupancy::AwayFar);
    assert_eq!(away(15.0, 90.0), Occupancy::Away);
}

#[test]
fn cold_house_stretches_the_returning_lead() {
    let away = |eta: f64, floor: f64, recovery: f64| derive(Presence::Away, eta, floor, recovery);
    assert_eq!(away(180.0, 0.0, 210.0), Occupancy::AwayReturning);
    assert_eq!(away(180.0, 170.0, 210.0), Occupancy::AwayReturning);
    // beyond the stretched lead the normal buckets apply
    assert_eq!(away(240.0, 0.0, 210.0), Occupancy::AwayFar);
    // no estimate: a cold house alone never fakes a return
    assert_eq!(away(0.0, 0.0, 210.0), Occupancy::Away);
    // warm house: the lead is the plain comfort pre-start
    assert_eq!(away(45.0, 0.0, 0.0), Occupancy::Away);
}

#[test]
fn unavailable_return_sensors_mean_no_estimate_and_do_not_suspend() {
    let mut raw = RawInputs::default();
    ingest(&mut raw, ENTITY_OCCUPANCY, "away");
    ingest(&mut raw, ENTITY_ENERGY_PERIOD, "normal");
    ingest(&mut raw, ENTITY_SEASON, "heat");
    ingest(&mut raw, ENTITY_AUX_ZONE_OCCUPIED, "off");
    ingest(&mut raw, ENTITY_RETURN_ETA, "unavailable");
    ingest(&mut raw, ENTITY_RETURN_FLOOR, "unknown");
    ingest(&mut raw, ENTITY_RECOVERY_MINUTES, "unavailable");
    let inputs = raw
        .complete()
        .expect("optional inputs must not suspend decisions");
    assert_eq!(inputs.occupancy, Occupancy::Away, "no data = conservative");
}

#[test]
fn unknown_back_during_recovery_defaults_to_assuming_a_return() {
    let mut raw = RawInputs::default();
    ingest(&mut raw, ENTITY_OCCUPANCY, "away");
    ingest(&mut raw, ENTITY_ENERGY_PERIOD, "preheat");
    ingest(&mut raw, ENTITY_SEASON, "heat");
    ingest(&mut raw, ENTITY_AUX_ZONE_OCCUPIED, "off");
    let inputs = raw.complete().unwrap();
    assert!(
        inputs.back_during_recovery,
        "unknown must fail toward the comfort-safe normal preheat"
    );

    ingest(&mut raw, ENTITY_BACK_DURING_RECOVERY, "off");
    assert!(!raw.complete().unwrap().back_during_recovery);
    ingest(&mut raw, ENTITY_BACK_DURING_RECOVERY, "unavailable");
    assert!(raw.complete().unwrap().back_during_recovery);
}

#[test]
fn vocabularies() {
    assert_eq!(Presence::parse("home"), Some(Presence::Home));
    assert_eq!(Presence::parse("home_asleep"), Some(Presence::HomeAsleep));
    assert_eq!(Presence::parse("away"), Some(Presence::Away));
    assert_eq!(Presence::parse("Home"), None);
    assert_eq!(EnergyPeriod::parse("normal"), Some(EnergyPeriod::Normal));
    assert_eq!(EnergyPeriod::parse("preheat"), Some(EnergyPeriod::Preheat));
    assert_eq!(EnergyPeriod::parse("peak"), Some(EnergyPeriod::Peak));
    assert_eq!(EnergyPeriod::parse(""), None);
    assert_eq!(Season::parse("heat"), Some(Season::Heat));
    assert_eq!(Season::parse("fan"), Some(Season::Fan));
    assert_eq!(Season::parse("cool"), Some(Season::Cool));
    assert_eq!(Season::parse("off"), None);
    assert_eq!(HvacMode::parse("auto"), None);
    assert_eq!(HvacMode::parse("circulate"), None);
    for mode in [HvacMode::Heat, HvacMode::Cool, HvacMode::Off] {
        assert_eq!(HvacMode::parse(mode.as_str()), Some(mode));
    }
    assert_eq!(HvacMode::Circulate.as_str(), "circulate");
}

#[test]
fn only_the_two_home_states_are_home() {
    assert!(Occupancy::Home.is_home());
    assert!(Occupancy::HomeAsleep.is_home());
    assert!(!Occupancy::AwayReturning.is_home());
    assert!(!Occupancy::Away.is_home());
    assert!(!Occupancy::AwayFar.is_home());
}

#[test]
fn each_required_fact_suspends_when_it_goes_away() {
    for entity in [
        ENTITY_OCCUPANCY,
        ENTITY_ENERGY_PERIOD,
        ENTITY_FORECAST_MAX,
        ENTITY_AUX_ZONE_OCCUPIED,
    ] {
        for word in ["unknown", "unavailable"] {
            let mut raw = winter_house();
            assert!(raw.complete().is_some());
            assert!(ingest(&mut raw, entity, word));
            assert!(raw.complete().is_none(), "{entity} = {word}");
        }
    }
}

#[test]
fn optional_facts_never_suspend() {
    for entity in [
        ENTITY_SEASON,
        ENTITY_INDOOR_MAX,
        ENTITY_MAIN_MODE_OVERRIDE,
        ENTITY_COMFORT_SETPOINT,
        ENTITY_RETURN_ETA,
        ENTITY_RETURN_FLOOR,
        ENTITY_RECOVERY_MINUTES,
        ENTITY_RECOVERY_HORIZON,
        ENTITY_SLEPT_AWAY,
        ENTITY_BACK_DURING_RECOVERY,
    ] {
        let mut raw = winter_house();
        ingest(&mut raw, entity, "unavailable");
        assert!(raw.complete().is_some(), "{entity}");
    }
}

#[test]
fn the_forecast_outranks_the_season_and_the_knob_outranks_both() {
    let mut raw = winter_house();
    ingest(&mut raw, ENTITY_SEASON, "cool");
    assert_eq!(raw.complete().unwrap().main_mode, HvacMode::Heat);
    ingest(&mut raw, ENTITY_FORECAST_MAX, "unavailable");
    assert_eq!(raw.complete().unwrap().main_mode, HvacMode::Cool);
    ingest(&mut raw, ENTITY_SEASON, "fan");
    assert_eq!(raw.complete().unwrap().main_mode, HvacMode::Circulate);
    ingest(&mut raw, ENTITY_SEASON, "heat");
    assert_eq!(raw.complete().unwrap().main_mode, HvacMode::Heat);
    ingest(&mut raw, ENTITY_MAIN_MODE_OVERRIDE, "off");
    assert_eq!(raw.complete().unwrap().main_mode, HvacMode::Off);
    ingest(&mut raw, ENTITY_FORECAST_MAX, "30");
    assert_eq!(raw.complete().unwrap().main_mode, HvacMode::Off);
    ingest(&mut raw, ENTITY_MAIN_MODE_OVERRIDE, "auto");
    assert_eq!(raw.complete().unwrap().main_mode, HvacMode::Cool);
}

#[test]
fn the_indoor_maximum_reaches_the_mode() {
    let mut raw = winter_house();
    ingest(&mut raw, ENTITY_FORECAST_MAX, "20.5");
    assert_eq!(raw.complete().unwrap().main_mode, HvacMode::Circulate);
    ingest(&mut raw, ENTITY_INDOOR_MAX, "27.2");
    assert_eq!(raw.complete().unwrap().main_mode, HvacMode::Cool);
}

#[test]
fn a_hold_is_carried_as_reported() {
    let mut raw = winter_house();
    assert!(ingest(&mut raw, ENTITY_COMFORT_SETPOINT, "21.5"));
    let inputs = raw.complete().unwrap();
    assert_eq!(f64::from_bits(inputs.comfort_setpoint.to_bits()), 21.5);
}

#[test]
fn a_repeated_report_is_no_news() {
    let mut raw = RawInputs::default();
    assert!(ingest(&mut raw, ENTITY_OCCUPANCY, "home"));
    assert!(!ingest(&mut raw, ENTITY_OCCUPANCY, "home"));
    assert!(ingest(&mut raw, ENTITY_RETURN_ETA, "15"));
    assert!(!ingest(&mut raw, ENTITY_RETURN_ETA, "15.0"));
    assert!(ingest(&mut raw, ENTITY_FORECAST_MAX, "21"));
    assert!(!ingest(&mut raw, ENTITY_FORECAST_MAX, "21"));
    // a zero is a zero, with or without a sign, and so is nothing at all
    assert!(!ingest(&mut raw, ENTITY_RETURN_FLOOR, "-0"));
    assert!(!ingest(&mut raw, ENTITY_RETURN_FLOOR, "unavailable"));
    // what is no number is news once, and stays what it is
    assert!(ingest(&mut raw, ENTITY_RETURN_FLOOR, "nan"));
    assert!(!ingest(&mut raw, ENTITY_RETURN_FLOOR, "nan"));
    assert!(f64::from_bits(raw.return_floor_min.to_bits()).is_nan());
    assert!(ingest(&mut raw, ENTITY_RETURN_FLOOR, "30"));
    assert!(ingest(&mut raw, ENTITY_RETURN_FLOOR, "nan"));
    assert!(ingest(&mut raw, ENTITY_RETURN_FLOOR, "0"));
}

#[test]
fn a_forecast_that_is_no_number_suspends() {
    let mut raw = winter_house();
    assert!(raw.complete().is_some());
    assert!(ingest(&mut raw, ENTITY_FORECAST_MAX, "nan"));
    assert!(raw.forecast_max.is_none());
    assert!(raw.complete().is_none());
    assert!(!ingest(&mut raw, ENTITY_FORECAST_MAX, "nan"));
    assert!(!ingest(&mut raw, ENTITY_FORECAST_MAX, "unavailable"));
    assert!(ingest(&mut raw, ENTITY_FORECAST_MAX, "30"));
    assert_eq!(raw.complete().unwrap().main_mode, HvacMode::Cool);
    // the season still speaks where the forecast does not
    ingest(&mut raw, ENTITY_FORECAST_MAX, "nan");
    ingest(&mut raw, ENTITY_SEASON, "heat");
    assert_eq!(raw.complete().unwrap().main_mode, HvacMode::Heat);
}

#[test]
fn foreign_entities_are_ignored() {
    let mut raw = winter_house();
    let before = raw.complete();
    assert!(!ingest(&mut raw, "sensor.kitchen_temperature", "31"));
    assert!(!ingest(&mut raw, "sensor.homeostat_main_mode", "cool"));
    assert_eq!(raw.complete(), before);
}

#[test]
fn reports_on_different_entities_commute() {
    let mut a = winter_house();
    ingest(&mut a, ENTITY_OCCUPANCY, "away");
    ingest(&mut a, ENTITY_RETURN_ETA, "10");
    let mut b = winter_house();
    ingest(&mut b, ENTITY_RETURN_ETA, "10");
    ingest(&mut b, ENTITY_OCCUPANCY, "away");
    assert_eq!(a.complete(), b.complete());
    assert_eq!(a.complete().unwrap().occupancy, Occupancy::AwayReturning);
}

#[test]
fn seeding_takes_states_in_order() {
    let entity = |id: &str, state: &str| EntityState {
        entity_id: id.to_string(),
        state: state.to_string(),
        number: number(state),
    };
    let mut raw = RawInputs::default();
    raw.seed(&vec![
        entity(ENTITY_OCCUPANCY, "home"),
        entity("light.porch", "on"),
        entity(ENTITY_ENERGY_PERIOD, "peak"),
        entity(ENTITY_FORECAST_MAX, "30"),
        entity(ENTITY_AUX_ZONE_OCCUPIED, "on"),
        entity(ENTITY_OCCUPANCY, "home_asleep"),
    ]);
    let inputs = raw.complete().unwrap();
    assert_eq!(inputs.occupancy, Occupancy::HomeAsleep);
    assert_eq!(inputs.energy_period, EnergyPeriod::Peak);
    assert_eq!(inputs.main_mode, HvacMode::Cool);
    assert!(inputs.aux_zone_occupied);
}

#[test]
fn absence_takes_evidence() {
    let back = |eta: f64, floor: f64, horizon: f64, slept_away: bool| {
        back_before_horizon(reading(eta), reading(floor), reading(horizon), slept_away)
    };
    // no event
    assert!(back(0.0, 3600.0, 0.0, true));
    assert!(back(0.0, 3600.0, f64::NAN, true));
    // an arrival at the horizon counts, one after it does not
    assert!(back(0.0, 180.0, 180.0, false));
    assert!(!back(0.0, 180.5, 180.0, false));
    assert!(!back(200.0, 0.0, 180.0, false));
    // a night away needs a sign of return
    assert!(!back(0.0, 30.0, 540.0, true));
    assert!(back(30.0, 30.0, 540.0, true));
    assert!(back(0.0, 30.0, 540.0, false));
    // in doubt, someone is back
    assert!(back(f64::NAN, f64::NAN, 540.0, false));
}

#[test]
fn boundaries_of_the_away_buckets() {
    let away = |eta: f64, floor: f64, recovery: f64| derive(Presence::Away, eta, floor, recovery);
    assert_eq!(away(20.001, 0.0, 0.0), Occupancy::Away);
    assert_eq!(away(0.0, 119.999, 0.0), Occupancy::Away);
    assert_eq!(away(0.0, 120.0, 0.0), Occupancy::AwayFar);
    assert_eq!(away(210.0, 210.0, 210.0), Occupancy::AwayReturning);
    assert_eq!(away(-5.0, 10.0, 0.0), Occupancy::Away);
    // a sensor that is no number gives way to the other
    assert_eq!(away(15.0, f64::NAN, 0.0), Occupancy::AwayReturning);
    assert_eq!(away(f64::NAN, 130.0, 0.0), Occupancy::AwayFar);
    assert_eq!(away(15.0, 0.0, f64::NAN), Occupancy::AwayReturning);
}

#[test]
fn readings_compare_as_the_numbers_do() {
    let samples = [
        f64::NEG_INFINITY,
        -120.5,
        -1.0,
        -f64::MIN_POSITIVE,
        -0.0,
        0.0,
        f64::from_bits(1),
        0.1,
        1.0,
        19.999999999999996,
        20.0,
        120.0,
        1e300,
        f64::INFINITY,
        f64::NAN,
        -f64::NAN,
    ];
    for a in samples {
        for b in samples {
            assert_eq!(reading(a).above(reading(b)), a > b, "{a} > {b}");
            assert_eq!(reading(a).within(reading(b)), a <= b, "{a} <= {b}");
            assert_eq!(reading(a) == reading(b), a == b, "{a} == {b}");
            let larger = f64::from_bits(reading(a).max(reading(b)).to_bits());
            assert!(larger == a.max(b) || (a.is_nan() && b.is_nan() && larger.is_nan()));
        }
        assert_eq!(reading(a).at_least(20), a >= 20.0);
        assert_eq!(reading(a).at_most(20), a <= 20.0);
        assert_eq!(reading(a).positive(), a > 0.0);
    }
}

#[test]
fn whole_numbers_are_written_exactly() {
    for n in [0u32, 1, 2, 3, 16, 20, 25, 27, 120, 65535, 4294967295] {
        assert_eq!(f64::from_bits(Reading::whole(n).to_bits()), n as f64);
    }
}

#[test]
fn an_away_house_without_return_sensors_is_plainly_away() {
    let mut raw = winter_house();
    ingest(&mut raw, ENTITY_OCCUPANCY, "away");
    ingest(&mut raw, ENTITY_RECOVERY_MINUTES, "90");
    ingest(&mut raw, ENTITY_SLEPT_AWAY, "on");
    let inputs = raw.complete().unwrap();
    assert_eq!(inputs.occupancy, Occupancy::Away);
    assert!(inputs.back_during_recovery);
}
