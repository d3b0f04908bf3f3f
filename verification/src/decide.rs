//! The decision matrix as a pure function. Every temperature in the system
//! lives in this file: the setpoint matrix, and the thresholds that choose the
//! mode. Perception hands over facts only; nothing outside this file chooses a
//! number. Setpoints are whole tenths of a degree Celsius.
use crate::reading::{one, Reading};
use crate::state::{EnergyPeriod, HvacMode, Inputs, Occupancy};
use vstd::prelude::*;

verus! {

/// The aux zone is never commanded off, only down to this frost floor: a
/// setpoint persisted in the device keeps defending the house even if the
/// daemon, Home Assistant and the network all die. In tenths of a degree.
pub const AUX_FROST_FLOOR: u32 = 50;

/// The lowest setpoint that the main zone is ever given, in tenths of a degree.
pub const MAIN_FREEZE_FLOOR: u32 = 100;

/// Below this many tenths of a degree a setpoint is a heating one, and has no
/// place under cool mode.
pub const COOLING_GRADE: u32 = 200;

/// Today's forecast high, in degrees Celsius, at or below which the day demands
/// heating.
pub const HEAT_AT_OR_BELOW: u32 = 16;

/// Today's forecast high, in degrees Celsius, at or above which the day demands
/// cooling. Strictly between the two the house is conditioned in neither
/// direction, only circulated, unless it overheats anyway.
pub const COOL_AT_OR_ABOVE: u32 = 25;

/// Today's running indoor maximum, in degrees Celsius, at or above which a mild
/// day starts cooling anyway. Only consulted strictly between the two thresholds
/// above.
pub const RESCUE_COOL_AT_OR_ABOVE: u32 = 27;

/// The setpoint that expresses circulation on equipment with no fan-only mode:
/// cooling asked for at a temperature that the house will not reach, so that
/// the compressor stays idle while the air handler runs. In tenths of a degree.
pub const CIRCULATE_SETPOINT: u32 = 300;

/// The widest revision of today's forecast high, in degrees, that can happen
/// while the day is running. It describes the weather, not the house: it only
/// has to be no wider than the gap between the heating and the cooling
/// threshold (see [`law_no_same_day_reversal`]).
pub const MAX_INTRADAY_FORECAST_REVISION: u32 = 9;

/// What the day demands of the main zone.
pub open spec fn demanded(
    forecast_max: Reading,
    indoor_max_today: Reading,
    forced: Option<HvacMode>,
) -> HvacMode {
    match forced {
        Some(mode) => mode,
        None => if forecast_max.reaches(COOL_AT_OR_ABOVE as int) {
            HvacMode::Cool
        } else if forecast_max.stays_at(HEAT_AT_OR_BELOW as int) {
            HvacMode::Heat
        } else if indoor_max_today.reaches(RESCUE_COOL_AT_OR_ABOVE as int) {
            HvacMode::Cool
        } else {
            HvacMode::Circulate
        },
    }
}

/// What the day demands of the main zone, from today's forecast high.
///
/// `forced` is the drill knob. It wins outright, which is what makes the matrix
/// exercisable out of season.
///
/// `indoor_max_today` drives the mild-day rescue. It is a running maximum, not
/// the current reading, and that is the whole hysteresis: a maximum only climbs
/// until midnight, so a house that has been too hot stays too hot and the
/// cooling runs to its setpoint. The heating arm comes before the rescue, so no
/// indoor reading produces cooling on a day that the forecast calls cold.
pub fn demanded_mode(
    forecast_max: Reading,
    indoor_max_today: Reading,
    forced: Option<HvacMode>,
) -> (mode: HvacMode)
    ensures
        mode == demanded(forecast_max, indoor_max_today, forced),
{
    if let Some(mode) = forced {
        return mode;
    }
    if forecast_max.at_least(COOL_AT_OR_ABOVE) {
        HvacMode::Cool
    } else if forecast_max.at_most(HEAT_AT_OR_BELOW) {
        HvacMode::Heat
    } else if indoor_max_today.at_least(RESCUE_COOL_AT_OR_ABOVE) {
        HvacMode::Cool
    } else {
        HvacMode::Circulate
    }
}

#[derive(Clone, Copy, Debug, PartialEq, Eq, Structural)]
pub enum FanMode {
    On,
    Auto,
}

impl FanMode {
    /// The word for the mode.
    pub open spec fn word(self) -> Seq<char> {
        match self {
            FanMode::On => "on"@,
            FanMode::Auto => "auto"@,
        }
    }

    pub fn as_str(self) -> (word: &'static str)
        ensures
            word@ == self.word(),
    {
        match self {
            FanMode::On => "on",
            FanMode::Auto => "auto",
        }
    }
}

/// What the house should be doing.
#[derive(Clone, Copy, Debug, Eq)]
pub struct Desired {
    pub main_mode: HvacMode,
    /// In tenths of a degree Celsius.
    pub main_setpoint: u32,
    pub fan_mode: FanMode,
    /// In tenths of a degree Celsius. Always a real setpoint: the frost floor
    /// where the zone has no comfort duty, never off.
    pub aux_zone_setpoint: u32,
    /// Shed deferrable loads now. Policy, not a device: the wires decide what
    /// hangs off it.
    pub shed_loads: bool,
}

impl vstd::std_specs::cmp::PartialEqSpecImpl for Desired {
    open spec fn obeys_eq_spec() -> bool {
        true
    }

    open spec fn eq_spec(&self, other: &Self) -> bool {
        *self == *other
    }
}

impl PartialEq for Desired {
    fn eq(&self, other: &Self) -> (same: bool) {
        self.main_mode == other.main_mode && self.main_setpoint == other.main_setpoint
            && self.fan_mode == other.fan_mode && self.aux_zone_setpoint == other.aux_zone_setpoint
            && self.shed_loads == other.shed_loads
    }
}

/// The house is empty, and nobody is about to arrive.
pub open spec fn deserted(occupancy: Occupancy) -> bool {
    occupancy == Occupancy::Away || occupancy == Occupancy::AwayFar
}

/// The mode that is commanded. Circulation is a comfort service for people who
/// are in the house or about to be: an empty house and a grid peak go truly off.
pub open spec fn commanded_mode(i: Inputs) -> HvacMode {
    if i.main_mode == HvacMode::Circulate && (i.energy_period == EnergyPeriod::Peak || deserted(
        i.occupancy,
    )) {
        HvacMode::Off
    } else {
        i.main_mode
    }
}

/// The cooling column of the matrix, in tenths of a degree.
pub open spec fn cooling_setpoint(occupancy: Occupancy) -> u32 {
    match occupancy {
        Occupancy::Home => 250,
        Occupancy::HomeAsleep => 240,
        Occupancy::AwayReturning => 250,
        Occupancy::Away => 280,
        Occupancy::AwayFar => 280,
    }
}

/// The heating part of the matrix, in tenths of a degree. Only the two cells of
/// an empty house before a peak depend on whether someone will be back.
pub open spec fn heating_setpoint(period: EnergyPeriod, occupancy: Occupancy, back: bool) -> u32 {
    match (period, occupancy) {
        (EnergyPeriod::Normal, Occupancy::Home) => 225,
        (EnergyPeriod::Normal, Occupancy::HomeAsleep) => 225,
        (EnergyPeriod::Normal, Occupancy::AwayReturning) => 225,
        (EnergyPeriod::Normal, Occupancy::Away) => 190,
        (EnergyPeriod::Normal, Occupancy::AwayFar) => 170,
        (EnergyPeriod::Preheat, Occupancy::Home) => 250,
        (EnergyPeriod::Preheat, Occupancy::HomeAsleep) => 240,
        (EnergyPeriod::Preheat, Occupancy::AwayReturning) => 250,
        (EnergyPeriod::Preheat, Occupancy::Away) => if back {
            230
        } else {
            190
        },
        (EnergyPeriod::Preheat, Occupancy::AwayFar) => if back {
            210
        } else {
            170
        },
        (EnergyPeriod::Peak, Occupancy::Home) => 160,
        (EnergyPeriod::Peak, Occupancy::HomeAsleep) => 160,
        (EnergyPeriod::Peak, Occupancy::AwayReturning) => 130,
        (EnergyPeriod::Peak, Occupancy::Away) => 120,
        (EnergyPeriod::Peak, Occupancy::AwayFar) => 100,
    }
}

/// The aux zone's setpoint, in tenths of a degree: comfort only where the day
/// demands heating outside a peak, the frost floor everywhere else.
pub open spec fn aux_setpoint(mode: HvacMode, period: EnergyPeriod, occupied: bool) -> u32 {
    if mode != HvacMode::Heat || period == EnergyPeriod::Peak {
        AUX_FROST_FLOOR
    } else if period == EnergyPeriod::Preheat {
        260
    } else if occupied {
        190
    } else {
        160
    }
}

/// The decision for a picture of the house.
pub open spec fn decision(i: Inputs) -> Desired {
    Desired {
        main_mode: commanded_mode(i),
        main_setpoint: match commanded_mode(i) {
            HvacMode::Circulate => CIRCULATE_SETPOINT,
            HvacMode::Cool => cooling_setpoint(i.occupancy),
            _ => heating_setpoint(i.energy_period, i.occupancy, i.back_during_recovery),
        },
        fan_mode: if (i.occupancy == Occupancy::Home || i.occupancy == Occupancy::HomeAsleep)
            && i.energy_period != EnergyPeriod::Peak {
            FanMode::On
        } else {
            FanMode::Auto
        },
        aux_zone_setpoint: aux_setpoint(commanded_mode(i), i.energy_period, i.aux_zone_occupied),
        shed_loads: i.energy_period == EnergyPeriod::Peak,
    }
}

/// Decides what the house should be doing.
pub fn decide(i: &Inputs) -> (desired: Desired)
    ensures
        desired == decision(*i),
        desired.main_setpoint >= MAIN_FREEZE_FLOOR,
        desired.aux_zone_setpoint >= AUX_FROST_FLOOR,
{
    // An empty house does not need moving air, and during a grid peak the
    // blower is exactly the kind of load to avoid. Someone on the way back keeps
    // it: the house should already be pleasant on arrival.
    let main_mode = match (i.main_mode, i.occupancy, i.energy_period) {
        (HvacMode::Circulate, _, EnergyPeriod::Peak) => HvacMode::Off,
        (HvacMode::Circulate, Occupancy::Away | Occupancy::AwayFar, _) => HvacMode::Off,
        (mode, _, _) => mode,
    };

    let main_setpoint: u32 = match main_mode {
        // Not a comfort target: the unreachable setpoint is the mechanism.
        HvacMode::Circulate => CIRCULATE_SETPOINT,
        HvacMode::Cool => match i.occupancy {
            Occupancy::Home => 250,
            Occupancy::HomeAsleep => 240,
            // The home target, early: the house is at comfort on arrival, not
            // approaching it.
            Occupancy::AwayReturning => 250,
            Occupancy::Away | Occupancy::AwayFar => 280,
        },
        // On an off day the setpoint is not applied, but is computed so that
        // the published decision stays meaningful in history.
        HvacMode::Heat | HvacMode::Off => match (i.energy_period, i.occupancy) {
            (EnergyPeriod::Normal, Occupancy::Home) => 225,
            (EnergyPeriod::Normal, Occupancy::HomeAsleep) => 225,
            (EnergyPeriod::Normal, Occupancy::AwayReturning) => 225,
            (EnergyPeriod::Normal, Occupancy::Away) => 190,
            (EnergyPeriod::Normal, Occupancy::AwayFar) => 170,
            (EnergyPeriod::Preheat, Occupancy::Home) => 250,
            (EnergyPeriod::Preheat, Occupancy::HomeAsleep) => 240,
            (EnergyPeriod::Preheat, Occupancy::AwayReturning) => 250,
            // The boost only pays if someone is home during the peak or before
            // the house recovers on its own afterwards. Provably absent past
            // that horizon, the house holds its ordinary away baseline.
            (EnergyPeriod::Preheat, Occupancy::Away) => if i.back_during_recovery {
                230
            } else {
                190
            },
            (EnergyPeriod::Preheat, Occupancy::AwayFar) => if i.back_during_recovery {
                210
            } else {
                170
            },
            (EnergyPeriod::Peak, Occupancy::Home) => 160,
            (EnergyPeriod::Peak, Occupancy::HomeAsleep) => 160,
            (EnergyPeriod::Peak, Occupancy::AwayReturning) => 130,
            (EnergyPeriod::Peak, Occupancy::Away) => 120,
            (EnergyPeriod::Peak, Occupancy::AwayFar) => 100,
        },
    };

    let peak = matches!(i.energy_period, EnergyPeriod::Peak);

    // Always on while home, on demand during a peak or while away.
    let fan_mode = if i.occupancy.is_home() && !peak {
        FanMode::On
    } else {
        FanMode::Auto
    };

    // The aux zone is heat-only equipment: it heats for comfort only when the
    // day demands heating.
    let aux_zone_setpoint: u32 = match (main_mode, i.energy_period) {
        (HvacMode::Cool | HvacMode::Circulate | HvacMode::Off, _) => AUX_FROST_FLOOR,
        (HvacMode::Heat, EnergyPeriod::Peak) => AUX_FROST_FLOOR,
        (HvacMode::Heat, EnergyPeriod::Preheat) => 260,
        (HvacMode::Heat, EnergyPeriod::Normal) => if i.aux_zone_occupied {
            190
        } else {
            160
        },
    };

    Desired { main_mode, main_setpoint, fan_mode, aux_zone_setpoint, shed_loads: peak }
}

/// The forecast alone demands cooling.
pub open spec fn forecast_demands_cooling(forecast_max: Reading) -> bool {
    forecast_max.reaches(COOL_AT_OR_ABOVE as int)
}

/// The same-day interlock, as a property of the thresholds. While today's
/// forecast high moves by less than the widest revision that a day can bring,
/// no forecast of the day demands heating while another demands cooling: where
/// the day asks for both, one of the two demands came from a house that
/// overheated on its own under a mild forecast. A revision of exactly the widest
/// width can cross from one threshold to the other.
pub proof fn law_no_same_day_reversal(
    morning: Reading,
    evening: Reading,
    indoor_morning: Reading,
    indoor_evening: Reading,
)
    requires
        !morning.is_nan() && !evening.is_nan() ==> {
            &&& evening.worth() - morning.worth() < MAX_INTRADAY_FORECAST_REVISION * one()
            &&& morning.worth() - evening.worth() < MAX_INTRADAY_FORECAST_REVISION * one()
        },
    ensures
        COOL_AT_OR_ABOVE - HEAT_AT_OR_BELOW >= MAX_INTRADAY_FORECAST_REVISION,
        demanded(morning, indoor_morning, None) == HvacMode::Heat && demanded(
            evening,
            indoor_evening,
            None,
        ) == HvacMode::Cool ==> !forecast_demands_cooling(evening) && indoor_evening.reaches(
            RESCUE_COOL_AT_OR_ABOVE as int,
        ),
        demanded(morning, indoor_morning, None) == HvacMode::Cool && demanded(
            evening,
            indoor_evening,
            None,
        ) == HvacMode::Heat ==> !forecast_demands_cooling(morning) && indoor_morning.reaches(
            RESCUE_COOL_AT_OR_ABOVE as int,
        ),
{
    assert((COOL_AT_OR_ABOVE - HEAT_AT_OR_BELOW) * one() == COOL_AT_OR_ABOVE * one()
        - HEAT_AT_OR_BELOW * one()) by (nonlinear_arith);
}

/// On a day cold enough to demand heat, no indoor reading whatsoever produces
/// anything but heating.
pub proof fn law_rescue_never_reaches_a_heat_day(forecast_max: Reading, indoor_max_today: Reading)
    requires
        forecast_max.stays_at(HEAT_AT_OR_BELOW as int),
    ensures
        demanded(forecast_max, indoor_max_today, None) == HvacMode::Heat,
{
    lemma_thresholds_apart();
}

/// A mild day circulates until the house has been too hot, and cools from then
/// on.
pub proof fn law_rescue_promotes_a_mild_day(forecast_max: Reading, indoor_max_today: Reading)
    requires
        !forecast_max.stays_at(HEAT_AT_OR_BELOW as int),
        !forecast_max.reaches(COOL_AT_OR_ABOVE as int),
    ensures
        demanded(forecast_max, indoor_max_today, None) == (if indoor_max_today.reaches(
            RESCUE_COOL_AT_OR_ABOVE as int,
        ) {
            HvacMode::Cool
        } else {
            HvacMode::Circulate
        }),
{
}

/// Once a day cools it goes on cooling: a running maximum that climbs never
/// takes the demand for cooling back.
pub proof fn law_rescue_latches(forecast_max: Reading, earlier: Reading, later: Reading)
    requires
        earlier.is_within(later),
        demanded(forecast_max, earlier, None) == HvacMode::Cool,
    ensures
        demanded(forecast_max, later, None) == HvacMode::Cool,
{
}

/// The drill knob outranks the forecast and the indoor reading.
pub proof fn law_drill_knob_wins(forecast_max: Reading, indoor_max_today: Reading, mode: HvacMode)
    ensures
        demanded(forecast_max, indoor_max_today, Some(mode)) == mode,
{
}

proof fn lemma_thresholds_apart()
    ensures
        HEAT_AT_OR_BELOW * one() < COOL_AT_OR_ABOVE * one(),
{
    vstd::arithmetic::power2::lemma_pow2_pos(1074);
    assert(HEAT_AT_OR_BELOW * one() < COOL_AT_OR_ABOVE * one()) by (nonlinear_arith)
        requires
            one() > 0,
    ;
}

/// However aggressive the shed, every decision commands a setpoint that the
/// thermostats will defend: the main zone never goes below its freeze floor, nor
/// the aux zone below its frost floor.
pub proof fn law_never_near_freezing(i: Inputs)
    ensures
        decision(i).main_setpoint >= MAIN_FREEZE_FLOOR,
        decision(i).aux_zone_setpoint >= AUX_FROST_FLOOR,
{
}

/// Cool mode never carries a heating-grade setpoint.
pub proof fn law_cool_never_carries_a_heating_setpoint(i: Inputs)
    ensures
        decision(i).main_mode == HvacMode::Cool ==> decision(i).main_setpoint >= COOLING_GRADE,
{
}

/// Deferrable loads are shed during a peak, and only then.
pub proof fn law_shedding_is_for_peaks(i: Inputs)
    ensures
        decision(i).shed_loads <==> i.energy_period == EnergyPeriod::Peak,
{
}

/// A day that demands heating, cooling or nothing is commanded just that;
/// circulation alone can be stood down, and only to off.
pub proof fn law_demanded_mode_is_commanded(i: Inputs)
    ensures
        i.main_mode != HvacMode::Circulate ==> decision(i).main_mode == i.main_mode,
        i.main_mode == HvacMode::Circulate ==> decision(i).main_mode == HvacMode::Circulate
            || decision(i).main_mode == HvacMode::Off,
{
}

/// A mild day at home outside a peak circulates, with the fan running, at the
/// setpoint that the house will not reach; it never goes off.
pub proof fn law_mild_day_at_home_circulates(i: Inputs)
    requires
        i.main_mode == HvacMode::Circulate,
        i.occupancy == Occupancy::Home || i.occupancy == Occupancy::HomeAsleep,
        i.energy_period != EnergyPeriod::Peak,
    ensures
        decision(i).main_mode == HvacMode::Circulate,
        decision(i).fan_mode == FanMode::On,
        decision(i).main_setpoint == CIRCULATE_SETPOINT,
{
}

/// Circulation and the fan stand down in an empty house and during a peak:
/// there is no decision to circulate there, and the fan is left on demand.
pub proof fn law_circulation_stands_down(i: Inputs)
    requires
        i.energy_period == EnergyPeriod::Peak || deserted(i.occupancy),
    ensures
        decision(i).main_mode != HvacMode::Circulate,
        decision(i).fan_mode == FanMode::Auto,
{
}

/// Someone on the way back keeps the air moving, outside a peak.
pub proof fn law_returning_keeps_circulating(i: Inputs)
    requires
        i.main_mode == HvacMode::Circulate,
        i.occupancy == Occupancy::AwayReturning,
        i.energy_period != EnergyPeriod::Peak,
    ensures
        decision(i).main_mode == HvacMode::Circulate,
{
}

/// Without heat demand the aux zone holds exactly the frost floor.
pub proof fn law_aux_zone_holds_the_frost_floor_without_heat_demand(i: Inputs)
    requires
        i.main_mode != HvacMode::Heat,
    ensures
        decision(i).aux_zone_setpoint == AUX_FROST_FLOOR,
{
}

/// While heating, someone on the way back gets a milder peak and a richer
/// preheat than an empty house, whatever is known of the recovery.
pub proof fn law_returning_is_treated_better_than_away(away: Inputs, returning: Inputs)
    requires
        deserted(away.occupancy),
        returning.occupancy == Occupancy::AwayReturning,
        away.energy_period == returning.energy_period,
        away.main_mode == HvacMode::Heat,
        returning.main_mode == HvacMode::Heat,
    ensures
        decision(returning).main_setpoint > decision(away).main_setpoint,
{
}

/// Outside a peak, someone on the way back gets the target of someone at home.
pub proof fn law_returning_gets_the_home_target_early(i: Inputs)
    requires
        i.occupancy == Occupancy::AwayReturning,
        i.energy_period != EnergyPeriod::Peak,
    ensures
        decision(i).main_mode == decision((Inputs { occupancy: Occupancy::Home, ..i })).main_mode,
        decision(i).main_setpoint == decision(
            (Inputs { occupancy: Occupancy::Home, ..i }),
        ).main_setpoint,
{
}

/// A house that is provably absent past the recovery horizon holds its ordinary
/// away baseline through the preheat: no boost.
pub proof fn law_bare_preheat_is_the_away_baseline(i: Inputs)
    requires
        deserted(i.occupancy),
        i.energy_period == EnergyPeriod::Preheat,
        !i.back_during_recovery,
    ensures
        decision(i).main_setpoint == decision(
            (Inputs { energy_period: EnergyPeriod::Normal, ..i }),
        ).main_setpoint,
{
}

/// Whether someone will be back matters to an empty house before a peak, and to
/// nothing else.
pub proof fn law_only_away_preheat_listens_to_the_return(i: Inputs, back: bool)
    requires
        !(deserted(i.occupancy) && i.energy_period == EnergyPeriod::Preheat),
    ensures
        decision((Inputs { back_during_recovery: back, ..i })) == decision(i),
{
}

/// A manual hold changes no decision.
pub proof fn law_holds_do_not_reach_the_matrix(i: Inputs, hold: Reading)
    ensures
        decision((Inputs { comfort_setpoint: hold, ..i })) == decision(i),
{
}

/// A grid peak never asks the main zone for more heat than an ordinary hour
/// does, in the same house on the same heating day.
pub proof fn law_peak_asks_for_less_heat(i: Inputs)
    requires
        i.main_mode == HvacMode::Heat,
        i.energy_period == EnergyPeriod::Peak,
    ensures
        decision(i).main_setpoint < decision(
            (Inputs { energy_period: EnergyPeriod::Normal, ..i }),
        ).main_setpoint,
{
}

/// The fan runs all the time while someone is home outside a peak, and on demand
/// otherwise, whatever the day demands of the main zone.
pub proof fn law_fan_runs_exactly_while_home_outside_a_peak(i: Inputs)
    ensures
        decision(i).fan_mode == FanMode::On <==> (i.occupancy == Occupancy::Home || i.occupancy
            == Occupancy::HomeAsleep) && i.energy_period != EnergyPeriod::Peak,
{
}

/// What the forecast alone demands, in degrees: heating up to 16, cooling from 25
/// on. In between the running indoor maximum decides, with cooling from 27 on. A
/// number that is missing on either side reaches no threshold.
pub proof fn law_forecast_decides_the_mode(forecast_max: Reading, indoor_max_today: Reading)
    ensures
        demanded(forecast_max, indoor_max_today, None) == HvacMode::Heat <==> !forecast_max.is_nan()
            && forecast_max.worth() <= 16 * one(),
        demanded(forecast_max, indoor_max_today, None) == HvacMode::Cool <==> {
            let mild = forecast_max.is_nan() || 16 * one() < forecast_max.worth() < 25 * one();
            ||| !forecast_max.is_nan() && forecast_max.worth() >= 25 * one()
            ||| mild && !indoor_max_today.is_nan() && indoor_max_today.worth() >= 27 * one()
        },
        demanded(forecast_max, indoor_max_today, None) != HvacMode::Off,
{
    lemma_thresholds_apart();
}

/// A warmer forecast never moves a day towards heating, nor a hotter house.
pub proof fn law_warmer_never_asks_for_more_heat(
    forecast: Reading,
    warmer: Reading,
    indoor: Reading,
    hotter: Reading,
)
    requires
        !forecast.is_nan() && !warmer.is_nan() && forecast.worth() <= warmer.worth(),
        !indoor.is_nan() && !hotter.is_nan() && indoor.worth() <= hotter.worth(),
    ensures
        demanded(warmer, hotter, None) == HvacMode::Heat ==> demanded(forecast, indoor, None)
            == HvacMode::Heat,
        demanded(forecast, hotter, None) == HvacMode::Circulate ==> demanded(forecast, indoor, None)
            == HvacMode::Circulate,
        demanded(warmer, indoor, None) == HvacMode::Circulate ==> demanded(forecast, indoor, None)
            == HvacMode::Circulate || demanded(forecast, indoor, None) == HvacMode::Heat,
        demanded(forecast, indoor, None) == HvacMode::Cool ==> demanded(warmer, hotter, None)
            == HvacMode::Cool,
{
    lemma_thresholds_apart();
}

/// The commanded mode is the demanded one, except that circulation goes off in a
/// house that nobody is in or about to reach, and during a peak.
pub proof fn law_only_circulation_is_ever_stood_down(i: Inputs)
    ensures
        decision(i).main_mode != i.main_mode <==> i.main_mode == HvacMode::Circulate && (
        i.energy_period == EnergyPeriod::Peak || i.occupancy == Occupancy::Away || i.occupancy
            == Occupancy::AwayFar),
        decision(i).main_mode != i.main_mode ==> decision(i).main_mode == HvacMode::Off,
{
}

/// Cooling targets, in tenths of a degree: comfort for someone awake or on the
/// way, a degree less for someone asleep, three degrees more for nobody, and the
/// same in every hour.
pub proof fn law_cooling_targets(i: Inputs)
    requires
        i.main_mode == HvacMode::Cool,
    ensures
        i.occupancy == Occupancy::Home || i.occupancy == Occupancy::AwayReturning ==> decision(
            i,
        ).main_setpoint == 250,
        i.occupancy == Occupancy::HomeAsleep ==> decision(i).main_setpoint == 250 - 10,
        i.occupancy == Occupancy::Away || i.occupancy == Occupancy::AwayFar ==> decision(
            i,
        ).main_setpoint == 250 + 30,
{
}

/// Circulation is expressed as cooling at thirty degrees, in whatever house.
pub proof fn law_circulation_target(i: Inputs)
    requires
        decision(i).main_mode == HvacMode::Circulate,
    ensures
        decision(i).main_setpoint == 300,
{
}

/// Heating targets of an ordinary hour, in tenths of a degree: 22.5 with someone
/// in the house or about to be, 3.5 degrees less while away, two more less when
/// far. They are computed on an off day too.
pub proof fn law_ordinary_heating_targets(i: Inputs)
    requires
        decision(i).main_mode == HvacMode::Heat || decision(i).main_mode == HvacMode::Off,
        i.energy_period == EnergyPeriod::Normal,
    ensures
        i.occupancy == Occupancy::Home || i.occupancy == Occupancy::HomeAsleep || i.occupancy
            == Occupancy::AwayReturning ==> decision(i).main_setpoint == 225,
        i.occupancy == Occupancy::Away ==> decision(i).main_setpoint == 225 - 35,
        i.occupancy == Occupancy::AwayFar ==> decision(i).main_setpoint == 225 - 55,
{
}

/// The preheat adds to the ordinary target of the same house, in tenths of a
/// degree: 2.5 degrees for someone awake or on the way, 1.5 for someone asleep,
/// four for a house that will be returned to in time, nothing for one that will
/// not.
pub proof fn law_preheat_boosts_the_ordinary_target(i: Inputs)
    requires
        decision(i).main_mode == HvacMode::Heat || decision(i).main_mode == HvacMode::Off,
        i.energy_period == EnergyPeriod::Preheat,
        i.main_mode != HvacMode::Circulate,
    ensures
        ({
            let ordinary = decision((Inputs { energy_period: EnergyPeriod::Normal, ..i }));
            let boost = decision(i).main_setpoint - ordinary.main_setpoint;
            &&& i.occupancy == Occupancy::Home || i.occupancy == Occupancy::AwayReturning ==> boost
                == 25
            &&& i.occupancy == Occupancy::HomeAsleep ==> boost == 15
            &&& i.occupancy == Occupancy::Away || i.occupancy == Occupancy::AwayFar ==> boost == (
            if i.back_during_recovery {
                40int
            } else {
                0int
            })
        }),
{
}

/// Heating targets of a peak, in tenths of a degree: 16 with someone home, 13 for
/// someone on the way, 12 while away, 10 when far.
pub proof fn law_peak_heating_targets(i: Inputs)
    requires
        decision(i).main_mode == HvacMode::Heat || decision(i).main_mode == HvacMode::Off,
        i.energy_period == EnergyPeriod::Peak,
    ensures
        i.occupancy == Occupancy::Home || i.occupancy == Occupancy::HomeAsleep ==> decision(
            i,
        ).main_setpoint == 160,
        i.occupancy == Occupancy::AwayReturning ==> decision(i).main_setpoint == 130,
        i.occupancy == Occupancy::Away ==> decision(i).main_setpoint == 120,
        i.occupancy == Occupancy::AwayFar ==> decision(i).main_setpoint == 100,
{
}

/// A mild day that is stood down keeps the heating target of its house in the
/// published decision.
pub proof fn law_stood_down_house_keeps_its_heating_target(i: Inputs)
    requires
        i.main_mode == HvacMode::Circulate,
        decision(i).main_mode == HvacMode::Off,
    ensures
        decision(i).main_setpoint == decision(
            (Inputs { main_mode: HvacMode::Heat, ..i }),
        ).main_setpoint,
{
}

/// The aux zone is heated for comfort on heating days alone, in tenths of a
/// degree: 26 before a peak, otherwise 19 while in use and 16 while not. During a
/// peak, and on every other day, it holds five degrees.
pub proof fn law_aux_zone_targets(i: Inputs)
    ensures
        decision(i).aux_zone_setpoint == 50 <==> i.main_mode != HvacMode::Heat || i.energy_period
            == EnergyPeriod::Peak,
        i.main_mode == HvacMode::Heat && i.energy_period == EnergyPeriod::Preheat ==> decision(
            i,
        ).aux_zone_setpoint == 260,
        i.main_mode == HvacMode::Heat && i.energy_period == EnergyPeriod::Normal ==> decision(
            i,
        ).aux_zone_setpoint == (if i.aux_zone_occupied {
            190int
        } else {
            160int
        }),
{
}

/// The aux zone's use matters to the aux zone alone, and only in an ordinary hour
/// of a heating day.
pub proof fn law_aux_zone_use_reaches_the_aux_zone_alone(i: Inputs, occupied: bool)
    ensures
        ({
            let (d, other) = (decision(i), decision((Inputs { aux_zone_occupied: occupied, ..i })));
            &&& d.main_mode == other.main_mode
            &&& d.main_setpoint == other.main_setpoint
            &&& d.fan_mode == other.fan_mode
            &&& d.shed_loads == other.shed_loads
            &&& d.aux_zone_setpoint != other.aux_zone_setpoint ==> i.main_mode == HvacMode::Heat
                && i.energy_period == EnergyPeriod::Normal
        }),
{
}

/// The fan has two words.
pub proof fn law_fan_words(mode: FanMode)
    ensures
        mode.word() == "on"@ <==> mode == FanMode::On,
        mode.word() == "auto"@ <==> mode == FanMode::Auto,
{
    reveal_strlit("on");
    reveal_strlit("auto");
    assert("on"@.len() != "auto"@.len());
}

} // verus!
