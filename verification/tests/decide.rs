use homeostat::decide::{
    decide, demanded_mode, FanMode, AUX_FROST_FLOOR, CIRCULATE_SETPOINT, COOL_AT_OR_ABOVE,
    HEAT_AT_OR_BELOW, MAX_INTRADAY_FORECAST_REVISION, RESCUE_COOL_AT_OR_ABOVE,
};
use homeostat::reading::Reading;
use homeostat::state::{
    EnergyPeriod, HvacMode, Inputs, Occupancy, RawInputs, ENTITY_AUX_ZONE_OCCUPIED,
    ENTITY_ENERGY_PERIOD, ENTITY_FORECAST_MAX, ENTITY_OCCUPANCY, ENTITY_RECOVERY_HORIZON,
    ENTITY_RECOVERY_MINUTES, ENTITY_RETURN_ETA, ENTITY_RETURN_FLOOR, ENTITY_SLEPT_AWAY,
};

fn reading(value: f64) -> Reading {
    Reading::from_bits(value.to_bits())
}

fn degrees(tenths: u32) -> f64 {
    tenths as f64 / 10.0
}

fn ingest(raw: &mut RawInputs, entity_id: &str, state: &str) -> bool {
    raw.ingest(entity_id, state, state.parse::<f64>().ok().map(reading))
}

fn inputs(occupancy: Occupancy, energy_period: EnergyPeriod, main_mode: HvacMode) -> Inputs {
    Inputs {
        occupancy,
        energy_period,
        main_mode,
        aux_zone_occupied: false,
        comfort_setpoint: reading(0.0),
        back_during_recovery: true,
    }
}

const OCCUPANCIES: [Occupancy; 5] = [
    Occupancy::Home,
    Occupancy::HomeAsleep,
    Occupancy::AwayReturning,
    Occupancy::Away,
    Occupancy::AwayFar,
];

const PERIODS: [EnergyPeriod; 3] = [
    EnergyPeriod::Normal,
    EnergyPeriod::Preheat,
    EnergyPeriod::Peak,
];

/// Every picture with one of the given modes.
fn pictures(modes: &[HvacMode]) -> Vec<Inputs> {
    let mut all = Vec::new();
    for main_mode in modes {
        for energy_period in PERIODS {
            for occupancy in OCCUPANCIES {
                for back_during_recovery in [true, false] {
                    for aux_zone_occupied in [true, false] {
                        all.push(Inputs {
                            occupancy,
                            energy_period,
                            main_mode: *main_mode,
                            aux_zone_occupied,
                            comfort_setpoint: reading(0.0),
                            back_during_recovery,
                        });
                    }
                }
            }
        }
    }
    all
}

#[test]
fn the_dead_band_makes_a_same_day_reversal_unreachable() {
    let dead_band = COOL_AT_OR_ABOVE - HEAT_AT_OR_BELOW;
    assert!(
        dead_band >= MAX_INTRADAY_FORECAST_REVISION,
        "dead band is {dead_band}C, narrower than a reachable intraday \
         forecast revision ({MAX_INTRADAY_FORECAST_REVISION}C): one \
         calendar day could then demand heating and cooling in turn"
    );
}

#[test]
fn demanded_mode_reads_the_forecast_and_yields_to_the_drill_knob() {
    let demanded = |forecast: f64, indoor: f64, forced: Option<HvacMode>| {
        demanded_mode(reading(forecast), reading(indoor), forced)
    };
    assert_eq!(demanded(25.0, 0.0, None), HvacMode::Cool, "cool is inclusive");
    assert_eq!(demanded(24.9, 0.0, None), HvacMode::Circulate);
    assert_eq!(demanded(16.0, 0.0, None), HvacMode::Heat, "heat is inclusive");
    assert_eq!(demanded(16.1, 0.0, None), HvacMode::Circulate);
    assert_eq!(
        demanded(20.0, 0.0, None),
        HvacMode::Circulate,
        "dead band circulates"
    );

    assert_eq!(
        demanded(30.0, 0.0, Some(HvacMode::Heat)),
        HvacMode::Heat,
        "drill wins"
    );
    assert_eq!(demanded(-20.0, 0.0, Some(HvacMode::Cool)), HvacMode::Cool);
    assert_eq!(demanded(30.0, 0.0, Some(HvacMode::Off)), HvacMode::Off);
}

#[test]
fn the_indoor_rescue_promotes_circulation_but_never_reaches_a_heat_day() {
    let demanded = |forecast: f64, indoor: f64, forced: Option<HvacMode>| {
        demanded_mode(reading(forecast), reading(indoor), forced)
    };
    assert_eq!(demanded(20.0, 0.0, None), HvacMode::Circulate, "mild, fine");
    assert_eq!(
        demanded(20.0, RESCUE_COOL_AT_OR_ABOVE as f64, None),
        HvacMode::Cool,
        "mild, overheated"
    );

    let mut forecast = -30.0;
    while forecast <= HEAT_AT_OR_BELOW as f64 {
        assert_eq!(
            demanded(forecast, 40.0, None),
            HvacMode::Heat,
            "an overheated room must not command cooling on a {forecast}C heating day"
        );
        forecast += 0.5;
    }

    assert_eq!(demanded(20.0, 40.0, Some(HvacMode::Off)), HvacMode::Off);
}

#[test]
fn no_decision_ever_commands_anywhere_near_freezing() {
    for i in pictures(&[HvacMode::Heat, HvacMode::Off, HvacMode::Cool]) {
        let d = decide(&i);
        if i.main_mode != HvacMode::Cool {
            assert!(
                degrees(d.main_setpoint) >= 10.0,
                "main-zone freeze floor violated: {i:?} -> {d:?}"
            );
        }
        assert!(
            d.aux_zone_setpoint >= AUX_FROST_FLOOR,
            "aux-zone freeze floor violated: {i:?} -> {d:?}"
        );
    }
}

#[test]
fn cool_mode_never_carries_a_heating_grade_setpoint() {
    for i in pictures(&[HvacMode::Heat, HvacMode::Off, HvacMode::Cool]) {
        let d = decide(&i);
        if d.main_mode == HvacMode::Cool {
            assert!(
                degrees(d.main_setpoint) >= 20.0,
                "heating-grade setpoint under cool mode: {i:?} -> {d:?}"
            );
        }
    }
}

#[test]
fn july_7_away_in_summer_never_cools_below_conservative() {
    let i = inputs(Occupancy::Away, EnergyPeriod::Normal, HvacMode::Cool);
    let d = decide(&i);

    assert_eq!(d.main_mode, HvacMode::Cool);
    assert_eq!(degrees(d.main_setpoint), 28.0);
    assert!(
        degrees(d.main_setpoint) >= 26.0,
        "away cool setpoint must be conservative"
    );
}

#[test]
fn peak_sheds_all_loads() {
    let i = inputs(Occupancy::Home, EnergyPeriod::Peak, HvacMode::Heat);
    let d = decide(&i);
    assert!(d.shed_loads);
    assert_eq!(degrees(d.main_setpoint), 16.0);
    assert_eq!(d.aux_zone_setpoint, AUX_FROST_FLOOR);
    assert_eq!(degrees(AUX_FROST_FLOOR), 5.0);

    // shedding is a peak thing only - preheat and normal keep loads on
    for period in [EnergyPeriod::Normal, EnergyPeriod::Preheat] {
        let d = decide(&inputs(Occupancy::Home, period, HvacMode::Heat));
        assert!(!d.shed_loads);
    }
}

#[test]
fn returning_gets_milder_peak_and_richer_preheat_than_away() {
    let away_peak = decide(&inputs(Occupancy::Away, EnergyPeriod::Peak, HvacMode::Heat));
    let ret_peak = decide(&inputs(
        Occupancy::AwayReturning,
        EnergyPeriod::Peak,
        HvacMode::Heat,
    ));
    assert!(ret_peak.main_setpoint > away_peak.main_setpoint);

    let away_pre = decide(&inputs(
        Occupancy::Away,
        EnergyPeriod::Preheat,
        HvacMode::Heat,
    ));
    let ret_pre = decide(&inputs(
        Occupancy::AwayReturning,
        EnergyPeriod::Preheat,
        HvacMode::Heat,
    ));
    assert!(ret_pre.main_setpoint > away_pre.main_setpoint);
}

#[test]
fn bare_preheat_when_provably_absent_past_the_recovery_horizon() {
    let mut i = inputs(Occupancy::Away, EnergyPeriod::Preheat, HvacMode::Heat);
    assert_eq!(degrees(decide(&i).main_setpoint), 23.0, "assume back = boost");
    i.back_during_recovery = false;
    assert_eq!(
        degrees(decide(&i).main_setpoint),
        19.0,
        "absent = hold the normal away baseline, no boost"
    );

    i.occupancy = Occupancy::AwayFar;
    assert_eq!(degrees(decide(&i).main_setpoint), 17.0);

    // only the away preheat cells listen to it
    i.occupancy = Occupancy::Home;
    assert_eq!(degrees(decide(&i).main_setpoint), 25.0);
    i.occupancy = Occupancy::AwayReturning;
    assert_eq!(degrees(decide(&i).main_setpoint), 25.0);
    i.occupancy = Occupancy::Away;
    i.energy_period = EnergyPeriod::Peak;
    assert_eq!(degrees(decide(&i).main_setpoint), 12.0, "peak cells unchanged");
}

#[test]
fn a_mild_day_at_home_circulates_rather_than_going_off() {
    let d = decide(&inputs(
        Occupancy::Home,
        EnergyPeriod::Normal,
        HvacMode::Circulate,
    ));
    assert_eq!(d.main_mode, HvacMode::Circulate);
    assert_eq!(d.fan_mode, FanMode::On);
    assert_eq!(
        d.main_setpoint, CIRCULATE_SETPOINT,
        "circulation is expressed as cooling that cannot engage"
    );
    assert_eq!(degrees(CIRCULATE_SETPOINT), 30.0);
}

#[test]
fn circulation_and_the_fan_stand_down_when_away_or_during_a_peak() {
    for occupancy in [Occupancy::Away, Occupancy::AwayFar] {
        let d = decide(&inputs(occupancy, EnergyPeriod::Normal, HvacMode::Circulate));
        assert_eq!(d.main_mode, HvacMode::Off, "empty house: truly off");
        assert_eq!(d.fan_mode, FanMode::Auto);
    }

    let d = decide(&inputs(Occupancy::Home, EnergyPeriod::Peak, HvacMode::Circulate));
    assert_eq!(d.main_mode, HvacMode::Off, "grid peak: shed the blower");
    assert_eq!(d.fan_mode, FanMode::Auto);

    // Returning is the deliberate exception - be pleasant on arrival,
    // not starting to be, exactly like its setpoint cell.
    let d = decide(&inputs(
        Occupancy::AwayReturning,
        EnergyPeriod::Normal,
        HvacMode::Circulate,
    ));
    assert_eq!(d.main_mode, HvacMode::Circulate);

    // Asleep is home: still circulating, still moving air.
    let d = decide(&inputs(
        Occupancy::HomeAsleep,
        EnergyPeriod::Normal,
        HvacMode::Circulate,
    ));
    assert_eq!(d.main_mode, HvacMode::Circulate);
    assert_eq!(d.fan_mode, FanMode::On);
}

#[test]
fn aux_zone_follows_occupancy_and_cool_days_turn_it_off() {
    let mut i = inputs(Occupancy::Home, EnergyPeriod::Normal, HvacMode::Heat);
    assert_eq!(degrees(decide(&i).aux_zone_setpoint), 16.0);
    i.aux_zone_occupied = true;
    assert_eq!(degrees(decide(&i).aux_zone_setpoint), 19.0);
    i.main_mode = HvacMode::Cool;
    assert_eq!(decide(&i).aux_zone_setpoint, AUX_FROST_FLOOR);
}

#[test]
fn returning_home_scenarios() {
    /// Representative forecast highs either side of the dead band, so
    /// these scenarios read as seasons rather than as numbers.
    const WINTER_DAY: f64 = -5.0;
    const SUMMER_DAY: f64 = 30.0;

    // occupancy, period, forecast high, return_eta, return_floor,
    // recovery, recovery_horizon (minutes), slept_away -> decided Inputs
    #[allow(clippy::too_many_arguments)]
    fn perceive(
        occ: &str,
        period: &str,
        forecast_max: f64,
        eta: f64,
        floor: f64,
        recovery: f64,
        horizon: f64,
        slept_away: &str,
    ) -> Inputs {
        let mut raw = RawInputs::default();
        ingest(&mut raw, ENTITY_OCCUPANCY, occ);
        ingest(&mut raw, ENTITY_ENERGY_PERIOD, period);
        ingest(&mut raw, ENTITY_FORECAST_MAX, &forecast_max.to_string());
        ingest(&mut raw, ENTITY_AUX_ZONE_OCCUPIED, "off");
        ingest(&mut raw, ENTITY_RETURN_ETA, &eta.to_string());
        ingest(&mut raw, ENTITY_RETURN_FLOOR, &floor.to_string());
        ingest(&mut raw, ENTITY_RECOVERY_MINUTES, &recovery.to_string());
        ingest(&mut raw, ENTITY_RECOVERY_HORIZON, &horizon.to_string());
        ingest(&mut raw, ENTITY_SLEPT_AWAY, slept_away);
        raw.complete().expect("optional inputs never suspend")
    }

    // Winter, heading home, no peak: the comfort pre-start gets the full home
    // target early, not the away setback.
    let i = perceive("away", "normal", WINTER_DAY, 20.0, 20.0, 0.0, 0.0, "off");
    assert_eq!(i.occupancy, Occupancy::AwayReturning);
    assert_eq!(degrees(decide(&i).main_setpoint), 22.5, "winter returning, no peak");

    // Summer, heading home: at comfort on arrival, never the deep setback.
    let i = perceive("away", "normal", SUMMER_DAY, 20.0, 20.0, 0.0, 0.0, "off");
    assert_eq!(i.occupancy, Occupancy::AwayReturning);
    let d = decide(&i);
    assert_eq!(d.main_mode, HvacMode::Cool);
    assert_eq!(degrees(d.main_setpoint), 25.0, "summer returning = comfort early");

    // Evening peak: at work, slept home, someone is credibly back before the
    // house recovers.
    let i = perceive("away", "preheat", WINTER_DAY, 45.0, 45.0, 0.0, 540.0, "off");
    assert!(i.back_during_recovery, "back before horizon -> boost");
    assert_eq!(degrees(decide(&i).main_setpoint), 23.0, "evening peak preheats");

    // Provably absent past the horizon.
    let i = perceive("away", "preheat", WINTER_DAY, 0.0, 240.0, 0.0, 180.0, "off");
    assert!(!i.back_during_recovery, "provably absent -> no boost");
    assert_eq!(i.occupancy, Occupancy::AwayFar);
    assert_eq!(degrees(decide(&i).main_setpoint), 17.0, "bare preheat, far & absent");

    // Morning peak, slept two hours away, no sign of a return.
    let i = perceive("away", "preheat", WINTER_DAY, 0.0, 120.0, 0.0, 540.0, "on");
    assert!(!i.back_during_recovery, "slept away, no evidence -> skip");
    assert_eq!(i.occupancy, Occupancy::AwayFar);
    assert_eq!(degrees(decide(&i).main_setpoint), 17.0, "morning slept-away skips");

    // Slept away, but actually heading home.
    let i = perceive("away", "preheat", WINTER_DAY, 60.0, 60.0, 0.0, 540.0, "on");
    assert!(
        i.back_during_recovery,
        "evidence of return beats slept_away"
    );
    assert_eq!(degrees(decide(&i).main_setpoint), 23.0, "driving home = boost");
}

#[test]
fn aux_zone_holds_only_the_frost_floor_without_heat_demand() {
    for i in pictures(&[HvacMode::Off, HvacMode::Cool, HvacMode::Circulate]) {
        let d = decide(&i);
        assert_eq!(
            d.aux_zone_setpoint, AUX_FROST_FLOOR,
            "aux zone must hold exactly the frost floor without heat demand: {i:?} -> {d:?}"
        );
    }
}

#[test]
fn heating_matrix_cell_by_cell() {
    let expected = [
        (EnergyPeriod::Normal, [22.5, 22.5, 22.5, 19.0, 17.0]),
        (EnergyPeriod::Preheat, [25.0, 24.0, 25.0, 23.0, 21.0]),
        (EnergyPeriod::Peak, [16.0, 16.0, 13.0, 12.0, 10.0]),
    ];
    for (period, row) in expected {
        for (occupancy, setpoint) in OCCUPANCIES.into_iter().zip(row) {
            for mode in [HvacMode::Heat, HvacMode::Off] {
                let d = decide(&inputs(occupancy, period, mode));
                assert_eq!(d.main_mode, mode);
                assert_eq!(degrees(d.main_setpoint), setpoint, "{period:?} {occupancy:?}");
            }
        }
    }
}

#[test]
fn cooling_column_is_the_same_in_every_period() {
    for period in PERIODS {
        for (occupancy, setpoint) in OCCUPANCIES.into_iter().zip([25.0, 24.0, 25.0, 28.0, 28.0]) {
            let d = decide(&inputs(occupancy, period, HvacMode::Cool));
            assert_eq!(degrees(d.main_setpoint), setpoint);
        }
    }
}

#[test]
fn aux_zone_is_boosted_before_a_peak() {
    let d = decide(&inputs(Occupancy::Home, EnergyPeriod::Preheat, HvacMode::Heat));
    assert_eq!(degrees(d.aux_zone_setpoint), 26.0);
}

#[test]
fn the_latch_holds_as_the_indoor_maximum_climbs() {
    assert_eq!(
        demanded_mode(reading(20.0), reading(26.9), None),
        HvacMode::Circulate
    );
    for indoor in [27.0, 27.1, 31.5] {
        assert_eq!(
            demanded_mode(reading(20.0), reading(indoor), None),
            HvacMode::Cool
        );
    }
}

#[test]
fn a_forecast_revision_below_the_dead_band_does_not_reverse_the_day() {
    assert_eq!(demanded_mode(reading(16.0), reading(0.0), None), HvacMode::Heat);
    assert_eq!(
        demanded_mode(reading(24.999), reading(0.0), None),
        HvacMode::Circulate
    );
    // the widest revision crosses both thresholds
    assert_eq!(demanded_mode(reading(25.0), reading(0.0), None), HvacMode::Cool);
}

#[test]
fn thresholds_are_exact_to_the_last_bit() {
    let below = Reading::from_bits(25.0f64.to_bits() - 1);
    assert_eq!(demanded_mode(below, reading(0.0), None), HvacMode::Circulate);
    let above = Reading::from_bits(16.0f64.to_bits() + 1);
    assert_eq!(demanded_mode(above, reading(0.0), None), HvacMode::Circulate);
}

#[test]
fn a_forecast_that_is_no_number_demands_nothing_of_its_own() {
    assert_eq!(
        demanded_mode(reading(f64::NAN), reading(0.0), None),
        HvacMode::Circulate
    );
    assert_eq!(
        demanded_mode(reading(f64::NAN), reading(28.0), None),
        HvacMode::Cool
    );
    assert_eq!(
        demanded_mode(reading(f64::INFINITY), reading(0.0), None),
        HvacMode::Cool
    );
    assert_eq!(
        demanded_mode(reading(f64::NEG_INFINITY), reading(40.0), None),
        HvacMode::Heat
    );
}

#[test]
fn a_manual_hold_changes_no_decision() {
    for mut i in pictures(&[HvacMode::Heat, HvacMode::Cool, HvacMode::Circulate]) {
        let before = decide(&i);
        i.comfort_setpoint = reading(23.5);
        assert_eq!(decide(&i), before);
    }
}

#[test]
fn a_peak_asks_for_less_heat_than_an_ordinary_hour() {
    for occupancy in OCCUPANCIES {
        let peak = decide(&inputs(occupancy, EnergyPeriod::Peak, HvacMode::Heat));
        let normal = decide(&inputs(occupancy, EnergyPeriod::Normal, HvacMode::Heat));
        assert!(peak.main_setpoint < normal.main_setpoint);
    }
}

#[test]
fn returning_gets_the_home_target_outside_a_peak() {
    for mode in [HvacMode::Heat, HvacMode::Cool, HvacMode::Circulate] {
        for period in [EnergyPeriod::Normal, EnergyPeriod::Preheat] {
            let home = decide(&inputs(Occupancy::Home, period, mode));
            let returning = decide(&inputs(Occupancy::AwayReturning, period, mode));
            assert_eq!(returning.main_setpoint, home.main_setpoint);
            assert_eq!(returning.main_mode, home.main_mode);
        }
    }
}

#[test]
fn fan_mode_words() {
    assert_eq!(FanMode::On.as_str(), "on");
    assert_eq!(FanMode::Auto.as_str(), "auto");
}
