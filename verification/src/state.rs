//! Perception: the facts that Home Assistant reports, and the house they
//! describe. States are read into real types at this boundary. A required fact
//! that is unknown or unavailable leaves its slot empty and suspends decisions
//! instead of letting the daemon act on junk; an optional one falls back to a
//! harmless value.
use crate::decide::{demanded, demanded_mode};
use crate::reading::{one, Reading};
use crate::text::same;
use vstd::prelude::*;
use vstd::std_specs::cmp::PartialEqSpec;

verus! {

// The entities that the daemon follows.
pub const ENTITY_OCCUPANCY: &'static str = "sensor.homeostat_occupancy";
pub const ENTITY_ENERGY_PERIOD: &'static str = "sensor.homeostat_energy_period";
pub const ENTITY_FORECAST_MAX: &'static str = "sensor.homeostat_forecast_max_today";
pub const ENTITY_INDOOR_MAX: &'static str = "sensor.homeostat_indoor_max_today";
pub const ENTITY_MAIN_MODE_OVERRIDE: &'static str = "sensor.homeostat_main_mode_override";
pub const ENTITY_SEASON: &'static str = "sensor.homeostat_season";
pub const ENTITY_AUX_ZONE_OCCUPIED: &'static str = "binary_sensor.homeostat_aux_zone_occupied";
pub const ENTITY_COMFORT_SETPOINT: &'static str = "input_number.homeostat_comfort_setpoint";
pub const ENTITY_RETURN_ETA: &'static str = "sensor.homeostat_return_eta";
pub const ENTITY_RETURN_FLOOR: &'static str = "sensor.homeostat_return_floor";
pub const ENTITY_RECOVERY_MINUTES: &'static str = "sensor.homeostat_recovery_minutes";
pub const ENTITY_RECOVERY_HORIZON: &'static str = "sensor.homeostat_recovery_horizon_minutes";
pub const ENTITY_SLEPT_AWAY: &'static str = "binary_sensor.homeostat_slept_away";
pub const ENTITY_BACK_DURING_RECOVERY: &'static str = "binary_sensor.homeostat_back_during_recovery";

/// Minutes until return up to which an away house is treated as "returning".
/// This is the comfort pre-start: the equipment comes on about this long before
/// arrival, and finishing the warm-up while home is acceptable. From a cold
/// house the recovery estimate stretches it (see [`Occupancy::derive`]).
pub const RETURNING_LEAD_MIN: u32 = 20;

/// Minutes until return from which the deep setback applies: nobody can be back
/// within a couple of hours.
pub const FAR_MIN: u32 = 120;

/// What the occupancy sensor publishes: presence facts only. Whether someone who
/// is away is on the way back is derived here, from the expected-return sensors
/// (see [`Occupancy::derive`]).
#[derive(Clone, Copy, Debug, Eq)]
pub enum Presence {
    Home,
    HomeAsleep,
    Away,
}

impl vstd::std_specs::cmp::PartialEqSpecImpl for Presence {
    open spec fn obeys_eq_spec() -> bool {
        true
    }

    open spec fn eq_spec(&self, other: &Self) -> bool {
        *self == *other
    }
}

impl PartialEq for Presence {
    fn eq(&self, other: &Self) -> (same: bool) {
        match (*self, *other) {
            (Presence::Home, Presence::Home) => true,
            (Presence::HomeAsleep, Presence::HomeAsleep) => true,
            (Presence::Away, Presence::Away) => true,
            _ => false,
        }
    }
}

impl Presence {
    /// The value that a state word stands for.
    pub open spec fn named(s: Seq<char>) -> Option<Presence> {
        if s == "home"@ {
            Some(Presence::Home)
        } else if s == "home_asleep"@ {
            Some(Presence::HomeAsleep)
        } else if s == "away"@ {
            Some(Presence::Away)
        } else {
            None
        }
    }

    /// Reads a state word. Any other word is no value.
    pub fn parse(s: &str) -> (value: Option<Self>)
        ensures
            value == Self::named(s@),
    {
        if same(s, "home") {
            Some(Presence::Home)
        } else if same(s, "home_asleep") {
            Some(Presence::HomeAsleep)
        } else if same(s, "away") {
            Some(Presence::Away)
        } else {
            None
        }
    }
}

/// The phase of the demand-response program.
#[derive(Clone, Copy, Debug, Eq)]
pub enum EnergyPeriod {
    Normal,
    Preheat,
    Peak,
}

impl vstd::std_specs::cmp::PartialEqSpecImpl for EnergyPeriod {
    open spec fn obeys_eq_spec() -> bool {
        true
    }

    open spec fn eq_spec(&self, other: &Self) -> bool {
        *self == *other
    }
}

impl PartialEq for EnergyPeriod {
    fn eq(&self, other: &Self) -> (same: bool) {
        match (*self, *other) {
            (EnergyPeriod::Normal, EnergyPeriod::Normal) => true,
            (EnergyPeriod::Preheat, EnergyPeriod::Preheat) => true,
            (EnergyPeriod::Peak, EnergyPeriod::Peak) => true,
            _ => false,
        }
    }
}

impl EnergyPeriod {
    /// The value that a state word stands for.
    pub open spec fn named(s: Seq<char>) -> Option<EnergyPeriod> {
        if s == "normal"@ {
            Some(EnergyPeriod::Normal)
        } else if s == "preheat"@ {
            Some(EnergyPeriod::Preheat)
        } else if s == "peak"@ {
            Some(EnergyPeriod::Peak)
        } else {
            None
        }
    }

    /// Reads a state word. Any other word is no value.
    pub fn parse(s: &str) -> (value: Option<Self>)
        ensures
            value == Self::named(s@),
    {
        if same(s, "normal") {
            Some(EnergyPeriod::Normal)
        } else if same(s, "preheat") {
            Some(EnergyPeriod::Preheat)
        } else if same(s, "peak") {
            Some(EnergyPeriod::Peak)
        } else {
            None
        }
    }
}

/// A conditioning verdict made by perception itself. Consulted only where no
/// forecast is reported.
#[derive(Clone, Copy, Debug, Eq)]
pub enum Season {
    Heat,
    Fan,
    Cool,
}

impl vstd::std_specs::cmp::PartialEqSpecImpl for Season {
    open spec fn obeys_eq_spec() -> bool {
        true
    }

    open spec fn eq_spec(&self, other: &Self) -> bool {
        *self == *other
    }
}

impl PartialEq for Season {
    fn eq(&self, other: &Self) -> (same: bool) {
        match (*self, *other) {
            (Season::Heat, Season::Heat) => true,
            (Season::Fan, Season::Fan) => true,
            (Season::Cool, Season::Cool) => true,
            _ => false,
        }
    }
}

impl Season {
    /// The value that a state word stands for.
    pub open spec fn named(s: Seq<char>) -> Option<Season> {
        if s == "heat"@ {
            Some(Season::Heat)
        } else if s == "fan"@ {
            Some(Season::Fan)
        } else if s == "cool"@ {
            Some(Season::Cool)
        } else {
            None
        }
    }

    /// Reads a state word. Any other word is no value.
    pub fn parse(s: &str) -> (value: Option<Self>)
        ensures
            value == Self::named(s@),
    {
        if same(s, "heat") {
            Some(Season::Heat)
        } else if same(s, "fan") {
            Some(Season::Fan)
        } else if same(s, "cool") {
            Some(Season::Cool)
        } else {
            None
        }
    }
}

/// What is asked of the main zone.
#[derive(Clone, Copy, Debug, Eq)]
pub enum HvacMode {
    Heat,
    Cool,
    /// Move air without conditioning it.
    Circulate,
    Off,
}

impl vstd::std_specs::cmp::PartialEqSpecImpl for HvacMode {
    open spec fn obeys_eq_spec() -> bool {
        true
    }

    open spec fn eq_spec(&self, other: &Self) -> bool {
        *self == *other
    }
}

impl PartialEq for HvacMode {
    fn eq(&self, other: &Self) -> (same: bool) {
        match (*self, *other) {
            (HvacMode::Heat, HvacMode::Heat) => true,
            (HvacMode::Cool, HvacMode::Cool) => true,
            (HvacMode::Circulate, HvacMode::Circulate) => true,
            (HvacMode::Off, HvacMode::Off) => true,
            _ => false,
        }
    }
}

impl HvacMode {
    /// The word for the mode.
    pub open spec fn word(self) -> Seq<char> {
        match self {
            HvacMode::Heat => "heat"@,
            HvacMode::Cool => "cool"@,
            HvacMode::Circulate => "circulate"@,
            HvacMode::Off => "off"@,
        }
    }

    /// The mode that a setting of the drill knob forces. Any other setting,
    /// `auto` among them, forces nothing.
    pub open spec fn named(s: Seq<char>) -> Option<HvacMode> {
        if s == "heat"@ {
            Some(HvacMode::Heat)
        } else if s == "cool"@ {
            Some(HvacMode::Cool)
        } else if s == "off"@ {
            Some(HvacMode::Off)
        } else {
            None
        }
    }

    /// Reads a setting of the drill knob.
    pub fn parse(s: &str) -> (value: Option<Self>)
        ensures
            value == Self::named(s@),
    {
        if same(s, "heat") {
            Some(HvacMode::Heat)
        } else if same(s, "cool") {
            Some(HvacMode::Cool)
        } else if same(s, "off") {
            Some(HvacMode::Off)
        } else {
            None
        }
    }

    pub fn as_str(self) -> (word: &'static str)
        ensures
            word@ == self.word(),
    {
        match self {
            HvacMode::Heat => "heat",
            HvacMode::Cool => "cool",
            HvacMode::Circulate => "circulate",
            HvacMode::Off => "off",
        }
    }
}

/// The mode that a season verdict asks for. A season of moving air alone is
/// circulation.
pub open spec fn season_mode(season: Season) -> HvacMode {
    match season {
        Season::Heat => HvacMode::Heat,
        Season::Fan => HvacMode::Circulate,
        Season::Cool => HvacMode::Cool,
    }
}

/// Where the household is, as policy distinguishes it.
#[derive(Clone, Copy, Debug, PartialEq, Eq, Structural)]
pub enum Occupancy {
    Home,
    HomeAsleep,
    AwayReturning,
    Away,
    AwayFar,
}

impl Occupancy {
    /// Someone is on the way and due within the lead: the comfort pre-start, or
    /// the time that the house needs to recover where that is longer.
    pub open spec fn returning(eta: Reading, floor: Reading, recovery: Reading) -> bool {
        let expected = eta.larger_of(floor);
        &&& eta.is_positive()
        &&& expected.stays_at(RETURNING_LEAD_MIN as int) || expected.is_within(recovery)
    }

    /// The occupancy that the return sensors describe.
    pub open spec fn described(
        presence: Presence,
        eta: Reading,
        floor: Reading,
        recovery: Reading,
    ) -> Occupancy {
        match presence {
            Presence::Home => Occupancy::Home,
            Presence::HomeAsleep => Occupancy::HomeAsleep,
            Presence::Away => if Self::returning(eta, floor, recovery) {
                Occupancy::AwayReturning
            } else if eta.larger_of(floor).reaches(FAR_MIN as int) {
                Occupancy::AwayFar
            } else {
                Occupancy::Away
            },
        }
    }

    /// Classifies away-ness from the time until return.
    ///
    /// - `return_eta_min` is a credible estimate; zero is no estimate.
    ///   Perception gives one only when a return is confirmed or announced.
    /// - `return_floor_min` is the earliest possible arrival; zero is no bound.
    /// - `recovery_min` is how long the house needs to become livable again;
    ///   zero is warm enough or unknown.
    ///
    /// The floor caps optimism: an estimate that contradicts it is stale.
    /// Returning takes a positive estimate, since a small floor only means that
    /// someone could be nearby. The returning check comes before the far one:
    /// arriving anywhere inside the recovery time is arriving in a cold house.
    pub fn derive(
        presence: Presence,
        return_eta_min: Reading,
        return_floor_min: Reading,
        recovery_min: Reading,
    ) -> (occupancy: Self)
        ensures
            occupancy == Self::described(presence, return_eta_min, return_floor_min, recovery_min),
    {
        match presence {
            Presence::Home => Occupancy::Home,
            Presence::HomeAsleep => Occupancy::HomeAsleep,
            Presence::Away => {
                let expected = return_eta_min.max(return_floor_min);
                let due = expected.at_most(RETURNING_LEAD_MIN) || expected.within(recovery_min);
                if return_eta_min.positive() && due {
                    Occupancy::AwayReturning
                } else if expected.at_least(FAR_MIN) {
                    Occupancy::AwayFar
                } else {
                    Occupancy::Away
                }
            },
        }
    }

    pub fn is_home(self) -> (home: bool)
        ensures
            home == (self == Occupancy::Home || self == Occupancy::HomeAsleep),
    {
        matches!(self, Occupancy::Home | Occupancy::HomeAsleep)
    }
}

/// Whether someone is credibly back before the house recovers from a grid
/// event. Without an event there is nothing to be absent from. In doubt the
/// answer is yes, which keeps the ordinary preheat: it takes positive evidence
/// of absence to say no, either an arrival that cannot come before the horizon,
/// or a night spent away with no sign of a return.
pub open spec fn credibly_back(
    eta: Reading,
    floor: Reading,
    horizon: Reading,
    slept_away: bool,
) -> bool {
    ||| !horizon.is_positive()
    ||| (slept_away ==> eta.is_positive()) && !eta.larger_of(floor).is_above(horizon)
}

/// Compares the expected return with the recovery horizon, the minutes until
/// the end of the grid event plus the recovery window.
pub fn back_before_horizon(
    return_eta_min: Reading,
    return_floor_min: Reading,
    recovery_horizon_min: Reading,
    slept_away: bool,
) -> (back: bool)
    ensures
        back == credibly_back(return_eta_min, return_floor_min, recovery_horizon_min, slept_away),
{
    if !recovery_horizon_min.positive() {
        true
    } else if slept_away && !return_eta_min.positive() {
        false
    } else {
        !return_eta_min.max(return_floor_min).above(recovery_horizon_min)
    }
}

/// What an entity of the perception layer reports.
#[derive(Clone, Copy, Debug, PartialEq, Eq, Structural)]
pub enum Slot {
    Occupancy,
    EnergyPeriod,
    ForecastMax,
    IndoorMax,
    MainModeOverride,
    Season,
    AuxZoneOccupied,
    ComfortSetpoint,
    ReturnEta,
    ReturnFloor,
    RecoveryMinutes,
    RecoveryHorizon,
    SleptAway,
    BackDuringRecovery,
}

impl Slot {
    /// The identifier of the entity that fills the slot.
    pub open spec fn entity(self) -> Seq<char> {
        match self {
            Slot::Occupancy => ENTITY_OCCUPANCY@,
            Slot::EnergyPeriod => ENTITY_ENERGY_PERIOD@,
            Slot::ForecastMax => ENTITY_FORECAST_MAX@,
            Slot::IndoorMax => ENTITY_INDOOR_MAX@,
            Slot::MainModeOverride => ENTITY_MAIN_MODE_OVERRIDE@,
            Slot::Season => ENTITY_SEASON@,
            Slot::AuxZoneOccupied => ENTITY_AUX_ZONE_OCCUPIED@,
            Slot::ComfortSetpoint => ENTITY_COMFORT_SETPOINT@,
            Slot::ReturnEta => ENTITY_RETURN_ETA@,
            Slot::ReturnFloor => ENTITY_RETURN_FLOOR@,
            Slot::RecoveryMinutes => ENTITY_RECOVERY_MINUTES@,
            Slot::RecoveryHorizon => ENTITY_RECOVERY_HORIZON@,
            Slot::SleptAway => ENTITY_SLEPT_AWAY@,
            Slot::BackDuringRecovery => ENTITY_BACK_DURING_RECOVERY@,
        }
    }

    /// The slot that an entity fills, where it is one of perception's.
    pub open spec fn named(id: Seq<char>) -> Option<Slot> {
        if id == ENTITY_OCCUPANCY@ {
            Some(Slot::Occupancy)
        } else if id == ENTITY_ENERGY_PERIOD@ {
            Some(Slot::EnergyPeriod)
        } else if id == ENTITY_FORECAST_MAX@ {
            Some(Slot::ForecastMax)
        } else if id == ENTITY_INDOOR_MAX@ {
            Some(Slot::IndoorMax)
        } else if id == ENTITY_MAIN_MODE_OVERRIDE@ {
            Some(Slot::MainModeOverride)
        } else if id == ENTITY_SEASON@ {
            Some(Slot::Season)
        } else if id == ENTITY_AUX_ZONE_OCCUPIED@ {
            Some(Slot::AuxZoneOccupied)
        } else if id == ENTITY_COMFORT_SETPOINT@ {
            Some(Slot::ComfortSetpoint)
        } else if id == ENTITY_RETURN_ETA@ {
            Some(Slot::ReturnEta)
        } else if id == ENTITY_RETURN_FLOOR@ {
            Some(Slot::ReturnFloor)
        } else if id == ENTITY_RECOVERY_MINUTES@ {
            Some(Slot::RecoveryMinutes)
        } else if id == ENTITY_RECOVERY_HORIZON@ {
            Some(Slot::RecoveryHorizon)
        } else if id == ENTITY_SLEPT_AWAY@ {
            Some(Slot::SleptAway)
        } else if id == ENTITY_BACK_DURING_RECOVERY@ {
            Some(Slot::BackDuringRecovery)
        } else {
            None
        }
    }

    fn of(entity_id: &str) -> (slot: Option<Slot>)
        ensures
            slot == Slot::named(entity_id@),
    {
        if same(entity_id, ENTITY_OCCUPANCY) {
            Some(Slot::Occupancy)
        } else if same(entity_id, ENTITY_ENERGY_PERIOD) {
            Some(Slot::EnergyPeriod)
        } else if same(entity_id, ENTITY_FORECAST_MAX) {
            Some(Slot::ForecastMax)
        } else if same(entity_id, ENTITY_INDOOR_MAX) {
            Some(Slot::IndoorMax)
        } else if same(entity_id, ENTITY_MAIN_MODE_OVERRIDE) {
            Some(Slot::MainModeOverride)
        } else if same(entity_id, ENTITY_SEASON) {
            Some(Slot::Season)
        } else if same(entity_id, ENTITY_AUX_ZONE_OCCUPIED) {
            Some(Slot::AuxZoneOccupied)
        } else if same(entity_id, ENTITY_COMFORT_SETPOINT) {
            Some(Slot::ComfortSetpoint)
        } else if same(entity_id, ENTITY_RETURN_ETA) {
            Some(Slot::ReturnEta)
        } else if same(entity_id, ENTITY_RETURN_FLOOR) {
            Some(Slot::ReturnFloor)
        } else if same(entity_id, ENTITY_RECOVERY_MINUTES) {
            Some(Slot::RecoveryMinutes)
        } else if same(entity_id, ENTITY_RECOVERY_HORIZON) {
            Some(Slot::RecoveryHorizon)
        } else if same(entity_id, ENTITY_SLEPT_AWAY) {
            Some(Slot::SleptAway)
        } else if same(entity_id, ENTITY_BACK_DURING_RECOVERY) {
            Some(Slot::BackDuringRecovery)
        } else {
            None
        }
    }
}

/// The setting of an on/off entity.
pub open spec fn switch_named(s: Seq<char>) -> Option<bool> {
    if s == "on"@ {
        Some(true)
    } else if s == "off"@ {
        Some(false)
    } else {
        None
    }
}

fn parse_switch(s: &str) -> (value: Option<bool>)
    ensures
        value == switch_named(s@),
{
    if same(s, "on") {
        Some(true)
    } else if same(s, "off") {
        Some(false)
    } else {
        None
    }
}

/// The state of one entity: its text, and the number that the text spells where
/// it spells one.
#[derive(Debug)]
pub struct EntityState {
    pub entity_id: String,
    pub state: String,
    pub number: Option<Reading>,
}

/// A complete, validated picture of the house.
#[derive(Clone, Copy, Debug, PartialEq)]
pub struct Inputs {
    pub occupancy: Occupancy,
    pub energy_period: EnergyPeriod,
    /// What the day demands of the main zone.
    pub main_mode: HvacMode,
    pub aux_zone_occupied: bool,
    /// Manual hold in degrees Celsius; zero is none. A record only: holds are
    /// enforced where they are made, and no decision reads this.
    pub comfort_setpoint: Reading,
    /// Someone is expected home during the grid event or within the recovery
    /// window after it.
    pub back_during_recovery: bool,
}

/// Accumulates entity states as they arrive; yields [`Inputs`] only once every
/// required slot holds a valid value.
#[derive(Debug)]
pub struct RawInputs {
    pub presence: Option<Presence>,
    pub energy_period: Option<EnergyPeriod>,
    /// Today's forecast high in degrees Celsius.
    pub forecast_max: Option<Reading>,
    pub season: Option<Season>,
    pub aux_zone_occupied: Option<bool>,
    /// The drill knob: forces a mode out of season.
    pub main_mode_override: Option<HvacMode>,
    /// Today's running indoor maximum in degrees Celsius; zero is unknown.
    pub indoor_max: Reading,
    pub comfort_setpoint: Reading,
    pub return_eta_min: Reading,
    pub return_floor_min: Reading,
    pub recovery_min: Reading,
    pub recovery_horizon_min: Reading,
    /// Nobody was home overnight. Unknown reads as slept home.
    pub slept_away: Option<bool>,
    /// Perception's own word on whether someone will be back. Unknown leaves
    /// the question to the return sensors.
    pub back_during_recovery: Option<bool>,
}

/// A report of `value` tells a slot nothing new: they are equal numbers, or
/// neither is a number at all.
pub open spec fn unchanged(slot: Reading, value: Reading) -> bool {
    slot.is_level(value) || (slot.is_nan() && value.is_nan())
}

/// The value of a numeric slot after a report of `number`: a report that tells
/// the slot nothing new leaves it alone, and a text that spells nothing reads as
/// zero.
pub open spec fn refreshed(slot: Reading, number: Option<Reading>) -> Reading {
    if unchanged(slot, reported(number)) {
        slot
    } else {
        reported(number)
    }
}

/// The forecast that a report gives. A pattern that stands for no number is as
/// good as no forecast.
pub open spec fn usable_forecast(number: Option<Reading>) -> Option<Reading> {
    match number {
        Some(reading) => if reading.is_nan() {
            None
        } else {
            Some(reading)
        },
        None => None,
    }
}

/// Two forecasts agree: both missing, or one that tells nothing new of the other.
pub open spec fn same_forecast(a: Option<Reading>, b: Option<Reading>) -> bool {
    match (a, b) {
        (Some(x), Some(y)) => unchanged(x, y),
        (None, None) => true,
        _ => false,
    }
}

/// What an optional measurement reports.
pub open spec fn reported(number: Option<Reading>) -> Reading {
    match number {
        Some(reading) => reading,
        None => Reading::zero(),
    }
}

impl RawInputs {
    /// Nothing reported yet.
    pub open spec fn blank() -> RawInputs {
        RawInputs {
            presence: None,
            energy_period: None,
            forecast_max: None,
            season: None,
            aux_zone_occupied: None,
            main_mode_override: None,
            indoor_max: Reading::zero(),
            comfort_setpoint: Reading::zero(),
            return_eta_min: Reading::zero(),
            return_floor_min: Reading::zero(),
            recovery_min: Reading::zero(),
            recovery_horizon_min: Reading::zero(),
            slept_away: None,
            back_during_recovery: None,
        }
    }

    /// The snapshot after a slot's entity reports `state`, spelling `number`.
    pub open spec fn with(self, slot: Slot, state: Seq<char>, number: Option<Reading>) -> RawInputs {
        match slot {
            Slot::Occupancy => RawInputs { presence: Presence::named(state), ..self },
            Slot::EnergyPeriod => RawInputs { energy_period: EnergyPeriod::named(state), ..self },
            Slot::ForecastMax => RawInputs {
                forecast_max: if same_forecast(self.forecast_max, usable_forecast(number)) {
                    self.forecast_max
                } else {
                    usable_forecast(number)
                },
                ..self
            },
            Slot::IndoorMax => RawInputs {
                indoor_max: refreshed(self.indoor_max, number),
                ..self
            },
            Slot::MainModeOverride => RawInputs {
                main_mode_override: HvacMode::named(state),
                ..self
            },
            Slot::Season => RawInputs { season: Season::named(state), ..self },
            Slot::AuxZoneOccupied => RawInputs { aux_zone_occupied: switch_named(state), ..self },
            Slot::ComfortSetpoint => RawInputs {
                comfort_setpoint: refreshed(self.comfort_setpoint, number),
                ..self
            },
            Slot::ReturnEta => RawInputs {
                return_eta_min: refreshed(self.return_eta_min, number),
                ..self
            },
            Slot::ReturnFloor => RawInputs {
                return_floor_min: refreshed(self.return_floor_min, number),
                ..self
            },
            Slot::RecoveryMinutes => RawInputs {
                recovery_min: refreshed(self.recovery_min, number),
                ..self
            },
            Slot::RecoveryHorizon => RawInputs {
                recovery_horizon_min: refreshed(self.recovery_horizon_min, number),
                ..self
            },
            Slot::SleptAway => RawInputs { slept_away: switch_named(state), ..self },
            Slot::BackDuringRecovery => RawInputs {
                back_during_recovery: switch_named(state),
                ..self
            },
        }
    }

    /// Whether that report says anything that the slot does not hold already.
    pub open spec fn news(self, slot: Slot, state: Seq<char>, number: Option<Reading>) -> bool {
        match slot {
            Slot::Occupancy => self.presence != Presence::named(state),
            Slot::EnergyPeriod => self.energy_period != EnergyPeriod::named(state),
            Slot::ForecastMax => !same_forecast(self.forecast_max, usable_forecast(number)),
            Slot::IndoorMax => !unchanged(self.indoor_max, reported(number)),
            Slot::MainModeOverride => self.main_mode_override != HvacMode::named(state),
            Slot::Season => self.season != Season::named(state),
            Slot::AuxZoneOccupied => self.aux_zone_occupied != switch_named(state),
            Slot::ComfortSetpoint => !unchanged(self.comfort_setpoint, reported(number)),
            Slot::ReturnEta => !unchanged(self.return_eta_min, reported(number)),
            Slot::ReturnFloor => !unchanged(self.return_floor_min, reported(number)),
            Slot::RecoveryMinutes => !unchanged(self.recovery_min, reported(number)),
            Slot::RecoveryHorizon => !unchanged(self.recovery_horizon_min, reported(number)),
            Slot::SleptAway => self.slept_away != switch_named(state),
            Slot::BackDuringRecovery => self.back_during_recovery != switch_named(state),
        }
    }

    /// The snapshot after an entity reports. Entities that are none of
    /// perception's leave it as it is.
    pub open spec fn updated(
        self,
        entity_id: Seq<char>,
        state: Seq<char>,
        number: Option<Reading>,
    ) -> RawInputs {
        match Slot::named(entity_id) {
            Some(slot) => self.with(slot, state, number),
            None => self,
        }
    }

    /// Whether a report is for an entity of perception and changes its slot.
    pub open spec fn changed_by(
        self,
        entity_id: Seq<char>,
        state: Seq<char>,
        number: Option<Reading>,
    ) -> bool {
        match Slot::named(entity_id) {
            Some(slot) => self.news(slot, state, number),
            None => false,
        }
    }

    /// The snapshot after a whole list of states, in order.
    pub open spec fn seeded(self, states: Seq<EntityState>) -> RawInputs
        decreases states.len(),
    {
        if states.len() == 0 {
            self
        } else {
            let last = states.last();
            self.seeded(states.drop_last()).updated(last.entity_id@, last.state@, last.number)
        }
    }

    /// What the day demands of the main zone. The forecast decides where there
    /// is one, and the season verdict where there is none; the drill knob wins
    /// over both. Without either there is nothing to go by.
    pub open spec fn main_mode(self) -> Option<HvacMode> {
        match (self.forecast_max, self.season) {
            (Some(forecast), _) => Some(
                demanded(forecast, self.indoor_max, self.main_mode_override),
            ),
            (None, Some(season)) => match self.main_mode_override {
                Some(mode) => Some(mode),
                None => Some(season_mode(season)),
            },
            (None, None) => None,
        }
    }

    /// Whether someone is expected back, by perception's word or by the return
    /// sensors.
    pub open spec fn expects_return(self) -> bool {
        match self.back_during_recovery {
            Some(back) => back,
            None => credibly_back(
                self.return_eta_min,
                self.return_floor_min,
                self.recovery_horizon_min,
                self.slept_away == Some(true),
            ),
        }
    }

    /// The picture that the snapshot gives, where nothing required is missing.
    pub open spec fn picture(self) -> Option<Inputs> {
        match (self.presence, self.energy_period, self.main_mode(), self.aux_zone_occupied) {
            (Some(presence), Some(energy_period), Some(main_mode), Some(aux_zone_occupied)) => Some(
                Inputs {
                    occupancy: Occupancy::described(
                        presence,
                        self.return_eta_min,
                        self.return_floor_min,
                        self.recovery_min,
                    ),
                    energy_period,
                    main_mode,
                    aux_zone_occupied,
                    comfort_setpoint: self.comfort_setpoint,
                    back_during_recovery: self.expects_return(),
                },
            ),
            _ => None,
        }
    }

    /// Takes in a state update. Returns true if the update was for an entity of
    /// perception and changed its slot.
    pub fn ingest(
        &mut self,
        entity_id: &str,
        state: &str,
        number: Option<Reading>,
    ) -> (changed: bool)
        ensures
            *final(self) == old(self).updated(entity_id@, state@, number),
            changed == old(self).changed_by(entity_id@, state@, number),
    {
        match Slot::of(entity_id) {
            None => false,
            Some(Slot::Occupancy) => Self::set(&mut self.presence, Presence::parse(state)),
            Some(Slot::EnergyPeriod) => Self::set(
                &mut self.energy_period,
                EnergyPeriod::parse(state),
            ),
            Some(Slot::ForecastMax) => Self::set_forecast(&mut self.forecast_max, number),
            Some(Slot::IndoorMax) => Self::set_number(&mut self.indoor_max, number),
            Some(Slot::MainModeOverride) => Self::set(
                &mut self.main_mode_override,
                HvacMode::parse(state),
            ),
            Some(Slot::Season) => Self::set(&mut self.season, Season::parse(state)),
            Some(Slot::AuxZoneOccupied) => Self::set(
                &mut self.aux_zone_occupied,
                parse_switch(state),
            ),
            Some(Slot::ComfortSetpoint) => Self::set_number(&mut self.comfort_setpoint, number),
            Some(Slot::ReturnEta) => Self::set_number(&mut self.return_eta_min, number),
            Some(Slot::ReturnFloor) => Self::set_number(&mut self.return_floor_min, number),
            Some(Slot::RecoveryMinutes) => Self::set_number(&mut self.recovery_min, number),
            Some(Slot::RecoveryHorizon) => Self::set_number(
                &mut self.recovery_horizon_min,
                number,
            ),
            Some(Slot::SleptAway) => Self::set(&mut self.slept_away, parse_switch(state)),
            Some(Slot::BackDuringRecovery) => Self::set(
                &mut self.back_during_recovery,
                parse_switch(state),
            ),
        }
    }

    /// Takes in a whole list of states, in order.
    pub fn seed(&mut self, states: &Vec<EntityState>)
        ensures
            *final(self) == old(self).seeded(states@),
    {
        let mut i: usize = 0;
        assert(states@.take(0) =~= Seq::<EntityState>::empty());
        while i < states.len()
            invariant
                i <= states.len(),
                *self == old(self).seeded(states@.take(i as int)),
            decreases states.len() - i,
        {
            let entity = &states[i];
            self.ingest(entity.entity_id.as_str(), entity.state.as_str(), entity.number);
            i = i + 1;
            assert(states@.take(i as int).drop_last() =~= states@.take(i - 1));
            assert(states@.take(i as int).last() == states@[i - 1]);
        }
        assert(states@.take(i as int) =~= states@);
    }

    fn set<T: PartialEq>(slot: &mut Option<T>, value: Option<T>) -> (changed: bool)
        requires
            T::obeys_eq_spec(),
        ensures
            changed == !(*old(slot)).eq_spec(&value),
            *final(slot) == (if changed {
                value
            } else {
                *old(slot)
            }),
    {
        if *slot == value {
            false
        } else {
            *slot = value;
            true
        }
    }

    fn set_forecast(slot: &mut Option<Reading>, number: Option<Reading>) -> (changed: bool)
        ensures
            changed == !same_forecast(*old(slot), usable_forecast(number)),
            *final(slot) == (if changed {
                usable_forecast(number)
            } else {
                *old(slot)
            }),
    {
        let value = match number {
            Some(reading) => if reading.not_a_number() {
                None
            } else {
                Some(reading)
            },
            None => None,
        };
        let same = match (*slot, value) {
            (Some(held), Some(reading)) => held == reading,
            (None, None) => true,
            _ => false,
        };
        if !same {
            *slot = value;
        }
        !same
    }

    fn set_number(slot: &mut Reading, number: Option<Reading>) -> (changed: bool)
        ensures
            changed == !unchanged(*old(slot), reported(number)),
            *final(slot) == refreshed(*old(slot), number),
    {
        let value = match number {
            Some(reading) => reading,
            None => Reading::from_bits(0),
        };
        if *slot == value || (slot.not_a_number() && value.not_a_number()) {
            false
        } else {
            *slot = value;
            true
        }
    }

    /// The picture of the house, or nothing while a required fact is missing.
    pub fn complete(&self) -> (inputs: Option<Inputs>)
        ensures
            inputs == self.picture(),
    {
        let main_mode = match (self.forecast_max, self.season) {
            (Some(forecast), _) => demanded_mode(
                forecast,
                self.indoor_max,
                self.main_mode_override,
            ),
            (None, Some(season)) => match (self.main_mode_override, season) {
                (Some(mode), _) => mode,
                (None, Season::Heat) => HvacMode::Heat,
                (None, Season::Fan) => HvacMode::Circulate,
                (None, Season::Cool) => HvacMode::Cool,
            },
            (None, None) => return None,
        };
        let back_during_recovery = match self.back_during_recovery {
            Some(back) => back,
            None => back_before_horizon(
                self.return_eta_min,
                self.return_floor_min,
                self.recovery_horizon_min,
                matches!(self.slept_away, Some(true)),
            ),
        };
        Some(
            Inputs {
                occupancy: Occupancy::derive(
                    self.presence?,
                    self.return_eta_min,
                    self.return_floor_min,
                    self.recovery_min,
                ),
                energy_period: self.energy_period?,
                main_mode,
                aux_zone_occupied: self.aux_zone_occupied?,
                comfort_setpoint: self.comfort_setpoint,
                back_during_recovery,
            },
        )
    }
}

impl Default for RawInputs {
    fn default() -> (raw: Self)
        ensures
            raw == RawInputs::blank(),
    {
        RawInputs {
            presence: None,
            energy_period: None,
            forecast_max: None,
            season: None,
            aux_zone_occupied: None,
            main_mode_override: None,
            indoor_max: Reading::from_bits(0),
            comfort_setpoint: Reading::from_bits(0),
            return_eta_min: Reading::from_bits(0),
            return_floor_min: Reading::from_bits(0),
            recovery_min: Reading::from_bits(0),
            recovery_horizon_min: Reading::from_bits(0),
            slept_away: None,
            back_during_recovery: None,
        }
    }
}

/// Every slot has an entity of its own.
pub proof fn law_each_entity_fills_its_own_slot(slot: Slot)
    ensures
        Slot::named(slot.entity()) == Some(slot),
{
    reveal_strlit("sensor.homeostat_occupancy");
    reveal_strlit("sensor.homeostat_energy_period");
    reveal_strlit("sensor.homeostat_forecast_max_today");
    reveal_strlit("sensor.homeostat_indoor_max_today");
    reveal_strlit("sensor.homeostat_main_mode_override");
    reveal_strlit("sensor.homeostat_season");
    reveal_strlit("binary_sensor.homeostat_aux_zone_occupied");
    reveal_strlit("input_number.homeostat_comfort_setpoint");
    reveal_strlit("sensor.homeostat_return_eta");
    reveal_strlit("sensor.homeostat_return_floor");
    reveal_strlit("sensor.homeostat_recovery_minutes");
    reveal_strlit("sensor.homeostat_recovery_horizon_minutes");
    reveal_strlit("binary_sensor.homeostat_slept_away");
    reveal_strlit("binary_sensor.homeostat_back_during_recovery");
    assert(ENTITY_OCCUPANCY@.len() == 26);
    assert(ENTITY_ENERGY_PERIOD@.len() == 30);
    assert(ENTITY_FORECAST_MAX@.len() == 35);
    assert(ENTITY_INDOOR_MAX@.len() == 33);
    assert(ENTITY_MAIN_MODE_OVERRIDE@.len() == 35);
    assert(ENTITY_SEASON@.len() == 23);
    assert(ENTITY_AUX_ZONE_OCCUPIED@.len() == 41);
    assert(ENTITY_COMFORT_SETPOINT@.len() == 39);
    assert(ENTITY_RETURN_ETA@.len() == 27);
    assert(ENTITY_RETURN_FLOOR@.len() == 29);
    assert(ENTITY_RECOVERY_MINUTES@.len() == 33);
    assert(ENTITY_RECOVERY_HORIZON@.len() == 41);
    assert(ENTITY_SLEPT_AWAY@.len() == 34);
    assert(ENTITY_BACK_DURING_RECOVERY@.len() == 44);
    assert(ENTITY_INDOOR_MAX@[17] != ENTITY_RECOVERY_MINUTES@[17]);
    assert(ENTITY_FORECAST_MAX@[17] != ENTITY_MAIN_MODE_OVERRIDE@[17]);
    assert(ENTITY_AUX_ZONE_OCCUPIED@[0] != ENTITY_RECOVERY_HORIZON@[0]);
}

/// An empty house, an ordinary one and a sleeping one are told apart by presence
/// alone: the return sensors say nothing of a house that has someone in it.
pub proof fn law_presence_at_home_ignores_the_return_sensors(
    presence: Presence,
    eta: Reading,
    floor: Reading,
    recovery: Reading,
)
    ensures
        presence == Presence::Home <==> Occupancy::described(presence, eta, floor, recovery)
            == Occupancy::Home,
        presence == Presence::HomeAsleep <==> Occupancy::described(presence, eta, floor, recovery)
            == Occupancy::HomeAsleep,
{
}

/// Without an estimate nobody is returning: a small floor only means that
/// someone could be nearby, and a cold house alone never fakes a return.
pub proof fn law_no_estimate_is_no_return(
    presence: Presence,
    eta: Reading,
    floor: Reading,
    recovery: Reading,
)
    requires
        !eta.is_positive(),
    ensures
        Occupancy::described(presence, eta, floor, recovery) != Occupancy::AwayReturning,
{
}

/// The floor caps optimism: someone who cannot be back before the lead is not
/// returning, whatever the estimate says.
pub proof fn law_floor_caps_optimism(
    presence: Presence,
    eta: Reading,
    floor: Reading,
    recovery: Reading,
)
    requires
        !floor.is_nan(),
        !floor.stays_at(RETURNING_LEAD_MIN as int),
        !floor.is_within(recovery),
    ensures
        Occupancy::described(presence, eta, floor, recovery) != Occupancy::AwayReturning,
{
}

/// Raising the floor never turns a house that is not being returned to into one
/// that is.
pub proof fn law_higher_floor_returns_no_sooner(
    presence: Presence,
    eta: Reading,
    lower: Reading,
    higher: Reading,
    recovery: Reading,
)
    requires
        lower.is_within(higher),
        Occupancy::described(presence, eta, higher, recovery) == Occupancy::AwayReturning,
    ensures
        Occupancy::described(presence, eta, lower, recovery) == Occupancy::AwayReturning,
{
}

/// The colder the house, the earlier the return counts: a longer recovery never
/// takes a return back.
pub proof fn law_cold_house_stretches_the_lead(
    presence: Presence,
    eta: Reading,
    floor: Reading,
    shorter: Reading,
    longer: Reading,
)
    requires
        shorter.is_within(longer),
        Occupancy::described(presence, eta, floor, shorter) == Occupancy::AwayReturning,
    ensures
        Occupancy::described(presence, eta, floor, longer) == Occupancy::AwayReturning,
{
}

/// Recovery outranks distance: an arrival that is announced inside the recovery
/// time is a return, even from far.
pub proof fn law_recovery_outranks_far(eta: Reading, floor: Reading, recovery: Reading)
    requires
        eta.is_positive(),
        eta.larger_of(floor).is_within(recovery),
    ensures
        Occupancy::described(Presence::Away, eta, floor, recovery) == Occupancy::AwayReturning,
{
}

/// With no estimate at all, the floor alone proves the deep setback safe.
pub proof fn law_floor_alone_proves_far(eta: Reading, floor: Reading, recovery: Reading)
    requires
        !eta.is_nan(),
        !eta.is_positive(),
    ensures
        Occupancy::described(Presence::Away, eta, floor, recovery) == Occupancy::AwayFar
            <==> floor.reaches(FAR_MIN as int),
{
    lemma_far_is_positive();
}

/// Absence takes positive evidence: a grid event, and either an arrival that
/// comes after the horizon or a night away with no sign of a return.
pub proof fn law_absence_takes_evidence(
    eta: Reading,
    floor: Reading,
    horizon: Reading,
    slept_away: bool,
)
    requires
        !credibly_back(eta, floor, horizon, slept_away),
    ensures
        horizon.is_positive(),
        eta.larger_of(floor).is_above(horizon) || (slept_away && !eta.is_positive()),
{
}

/// Evidence of a return outranks the night spent away.
pub proof fn law_return_evidence_beats_a_night_away(
    eta: Reading,
    floor: Reading,
    horizon: Reading,
    slept_away: bool,
)
    requires
        eta.is_positive(),
        eta.larger_of(floor).is_within(horizon),
    ensures
        credibly_back(eta, floor, horizon, slept_away),
{
}

/// Decisions are suspended exactly while presence, the energy period, the aux
/// zone's occupancy, or both the forecast and the season are missing.
pub proof fn law_suspended_exactly_while_a_required_fact_is_missing(raw: RawInputs)
    ensures
        raw.picture() is None <==> raw.presence is None || raw.energy_period is None
            || raw.aux_zone_occupied is None || (raw.forecast_max is None && raw.season is None),
{
}

/// A required entity that turns unknown or unavailable suspends decisions, in
/// whatever state the snapshot was.
pub proof fn law_unavailable_required_fact_suspends(
    raw: RawInputs,
    state: Seq<char>,
    number: Option<Reading>,
)
    requires
        state == "unknown"@ || state == "unavailable"@,
    ensures
        raw.updated(ENTITY_OCCUPANCY@, state, number).picture() is None,
        raw.updated(ENTITY_ENERGY_PERIOD@, state, number).picture() is None,
        raw.updated(ENTITY_AUX_ZONE_OCCUPIED@, state, number).picture() is None,
        raw.season is None ==> raw.updated(ENTITY_FORECAST_MAX@, state, None).picture() is None,
        raw.forecast_max is None ==> raw.updated(ENTITY_SEASON@, state, number).picture() is None,
{
    law_each_entity_fills_its_own_slot(Slot::Occupancy);
    law_each_entity_fills_its_own_slot(Slot::EnergyPeriod);
    law_each_entity_fills_its_own_slot(Slot::AuxZoneOccupied);
    law_each_entity_fills_its_own_slot(Slot::ForecastMax);
    law_each_entity_fills_its_own_slot(Slot::Season);
    lemma_unavailable_is_no_value(state);
}

/// Garbage for a required fact suspends decisions: a word outside the vocabulary,
/// or a forecast that spells no number where nothing else says what the day
/// demands.
pub proof fn law_garbage_suspends(raw: RawInputs, state: Seq<char>, number: Option<Reading>)
    ensures
        Presence::named(state) is None ==> raw.updated(
            ENTITY_OCCUPANCY@,
            state,
            number,
        ).picture() is None,
        EnergyPeriod::named(state) is None ==> raw.updated(
            ENTITY_ENERGY_PERIOD@,
            state,
            number,
        ).picture() is None,
        switch_named(state) is None ==> raw.updated(
            ENTITY_AUX_ZONE_OCCUPIED@,
            state,
            number,
        ).picture() is None,
        raw.season is None && usable_forecast(number) is None ==> raw.updated(
            ENTITY_FORECAST_MAX@,
            state,
            number,
        ).picture() is None,
        raw.forecast_max is None && Season::named(state) is None ==> raw.updated(
            ENTITY_SEASON@,
            state,
            number,
        ).picture() is None,
{
    law_each_entity_fills_its_own_slot(Slot::Occupancy);
    law_each_entity_fills_its_own_slot(Slot::EnergyPeriod);
    law_each_entity_fills_its_own_slot(Slot::AuxZoneOccupied);
    law_each_entity_fills_its_own_slot(Slot::ForecastMax);
    law_each_entity_fills_its_own_slot(Slot::Season);
}

/// No series of reports leaves a forecast that is no number in a snapshot.
pub proof fn law_forecast_is_always_a_number(raw: RawInputs, states: Seq<EntityState>)
    requires
        raw.forecast_max matches Some(forecast) ==> !forecast.is_nan(),
    ensures
        raw.seeded(states).forecast_max matches Some(forecast) ==> !forecast.is_nan(),
    decreases states.len(),
{
    if states.len() > 0 {
        law_forecast_is_always_a_number(raw, states.drop_last());
    }
}

/// An optional entity never suspends decisions, nor resumes them, whatever it
/// reports.
pub proof fn law_optional_facts_never_suspend(
    raw: RawInputs,
    slot: Slot,
    state: Seq<char>,
    number: Option<Reading>,
)
    requires
        slot != Slot::Occupancy,
        slot != Slot::EnergyPeriod,
        slot != Slot::AuxZoneOccupied,
        slot != Slot::ForecastMax,
        slot != Slot::Season,
    ensures
        raw.updated(slot.entity(), state, number).picture() is Some <==> raw.picture() is Some,
{
    law_each_entity_fills_its_own_slot(slot);
}

/// Optional facts that are unavailable read as none: no hold, no estimate, no
/// bound, no event, slept home, nothing forced.
pub proof fn law_unavailable_optional_fact_reads_as_none(
    raw: RawInputs,
    slot: Slot,
    state: Seq<char>,
)
    requires
        state == "unknown"@ || state == "unavailable"@,
    ensures
        ({
            let after = raw.updated(slot.entity(), state, None);
            &&& slot == Slot::ComfortSetpoint ==> after.comfort_setpoint.is_level(Reading::zero())
            &&& slot == Slot::ReturnEta ==> after.return_eta_min.is_level(Reading::zero())
            &&& slot == Slot::ReturnFloor ==> after.return_floor_min.is_level(Reading::zero())
            &&& slot == Slot::RecoveryMinutes ==> after.recovery_min.is_level(Reading::zero())
            &&& slot == Slot::RecoveryHorizon ==> after.recovery_horizon_min.is_level(
                Reading::zero(),
            )
            &&& slot == Slot::IndoorMax ==> after.indoor_max.is_level(Reading::zero())
            &&& slot == Slot::SleptAway ==> after.slept_away is None
            &&& slot == Slot::BackDuringRecovery ==> after.back_during_recovery is None
            &&& slot == Slot::MainModeOverride ==> after.main_mode_override is None
        }),
{
    law_each_entity_fills_its_own_slot(slot);
    lemma_unavailable_is_no_value(state);
}

/// Without the return sensors an away house is plainly away, and is assumed to be
/// returned to.
pub proof fn law_no_return_sensors_is_plain_away(raw: RawInputs)
    requires
        raw.presence == Some(Presence::Away),
        raw.return_eta_min.is_level(Reading::zero()),
        raw.return_floor_min.is_level(Reading::zero()),
        raw.recovery_horizon_min.is_level(Reading::zero()),
        raw.back_during_recovery is None,
    ensures
        raw.picture() matches Some(inputs) ==> inputs.occupancy == Occupancy::Away
            && inputs.back_during_recovery,
{
    lemma_far_is_positive();
}

/// The far threshold is above zero.
proof fn lemma_far_is_positive()
    ensures
        FAR_MIN * one() > 0,
{
    vstd::arithmetic::power2::lemma_pow2_pos(1074);
    assert(FAR_MIN * one() > 0) by (nonlinear_arith)
        requires
            one() > 0,
    ;
}

/// An entity that is none of perception's changes nothing.
pub proof fn law_foreign_entities_are_ignored(
    raw: RawInputs,
    entity_id: Seq<char>,
    state: Seq<char>,
    number: Option<Reading>,
)
    requires
        forall|slot: Slot| entity_id != #[trigger] slot.entity(),
    ensures
        raw.updated(entity_id, state, number) == raw,
        !raw.changed_by(entity_id, state, number),
{
    match Slot::named(entity_id) {
        Some(slot) => {
            assert(slot.entity() == entity_id);
        },
        None => {},
    }
}

/// A report that is no news leaves the snapshot as it is.
pub proof fn law_no_news_is_no_change(
    raw: RawInputs,
    entity_id: Seq<char>,
    state: Seq<char>,
    number: Option<Reading>,
)
    requires
        !raw.changed_by(entity_id, state, number),
    ensures
        raw.updated(entity_id, state, number) == raw,
{
}

/// The same report twice is news at most once.
pub proof fn law_repeated_report_is_no_news(
    raw: RawInputs,
    entity_id: Seq<char>,
    state: Seq<char>,
    number: Option<Reading>,
)
    ensures
        !raw.updated(entity_id, state, number).changed_by(entity_id, state, number),
{
}

/// Reports on different entities can arrive in either order.
pub proof fn law_reports_on_different_entities_commute(
    raw: RawInputs,
    a: EntityState,
    b: EntityState,
)
    requires
        a.entity_id@ != b.entity_id@,
    ensures
        raw.updated(a.entity_id@, a.state@, a.number).updated(b.entity_id@, b.state@, b.number)
            == raw.updated(b.entity_id@, b.state@, b.number).updated(
            a.entity_id@,
            a.state@,
            a.number,
        ),
{
    match (Slot::named(a.entity_id@), Slot::named(b.entity_id@)) {
        (Some(first), Some(second)) => {
            assert(first.entity() == a.entity_id@);
            assert(second.entity() == b.entity_id@);
            lemma_different_slots_commute(raw, first, a.state@, a.number, second, b.state@, b.number);
        },
        _ => {},
    }
}

/// Reports that fill different slots can be taken in either order.
proof fn lemma_different_slots_commute(
    raw: RawInputs,
    first: Slot,
    state1: Seq<char>,
    number1: Option<Reading>,
    second: Slot,
    state2: Seq<char>,
    number2: Option<Reading>,
)
    requires
        first != second,
    ensures
        raw.with(first, state1, number1).with(second, state2, number2) == raw.with(
            second,
            state2,
            number2,
        ).with(first, state1, number1),
{
    match first {
        Slot::Occupancy => {},
        Slot::EnergyPeriod => {},
        Slot::ForecastMax => {},
        Slot::IndoorMax => {},
        Slot::MainModeOverride => {},
        Slot::Season => {},
        Slot::AuxZoneOccupied => {},
        Slot::ComfortSetpoint => {},
        Slot::ReturnEta => {},
        Slot::ReturnFloor => {},
        Slot::RecoveryMinutes => {},
        Slot::RecoveryHorizon => {},
        Slot::SleptAway => {},
        Slot::BackDuringRecovery => {},
    }
}

/// The word of a mode that the drill knob can force is the setting that forces
/// it.
pub proof fn law_mode_word_reads_back(mode: HvacMode)
    requires
        mode != HvacMode::Circulate,
    ensures
        HvacMode::named(mode.word()) == Some(mode),
{
    reveal_strlit("heat");
    reveal_strlit("cool");
    reveal_strlit("off");
    assert("heat"@[0] != "cool"@[0]);
}

/// Neither word for missing data is a value of any vocabulary.
proof fn lemma_unavailable_is_no_value(state: Seq<char>)
    requires
        state == "unknown"@ || state == "unavailable"@,
    ensures
        Presence::named(state) is None,
        EnergyPeriod::named(state) is None,
        Season::named(state) is None,
        HvacMode::named(state) is None,
        switch_named(state) is None,
{
    reveal_strlit("unknown");
    reveal_strlit("unavailable");
    reveal_strlit("home");
    reveal_strlit("home_asleep");
    reveal_strlit("away");
    reveal_strlit("normal");
    reveal_strlit("preheat");
    reveal_strlit("peak");
    reveal_strlit("heat");
    reveal_strlit("fan");
    reveal_strlit("cool");
    reveal_strlit("on");
    reveal_strlit("off");
    assert("unavailable"@[0] != "home_asleep"@[0]);
    assert("unknown"@[0] != "preheat"@[0]);
}

/// An away house is being returned to exactly where there is a positive estimate
/// and neither the estimate nor the floor is beyond the lead: twenty minutes, or
/// the time that the house needs to recover where that is longer.
pub proof fn law_returning_exactly_when_due_within_the_lead(
    eta: Reading,
    floor: Reading,
    recovery: Reading,
)
    ensures
        Occupancy::described(Presence::Away, eta, floor, recovery) == Occupancy::AwayReturning <==> {
            let prestart = eta.worth() <= 20 * one() && (floor.is_nan() || floor.worth() <= 20
                * one());
            let recovering = !recovery.is_nan() && eta.worth() <= recovery.worth() && (
            floor.is_nan() || floor.worth() <= recovery.worth());
            !eta.is_nan() && eta.worth() > 0 && (prestart || recovering)
        },
{
}

/// An away house that is not being returned to is far exactly where the estimate
/// or the floor is two hours or more.
pub proof fn law_far_exactly_from_two_hours_on(eta: Reading, floor: Reading, recovery: Reading)
    ensures
        ({
            let occupancy = Occupancy::described(Presence::Away, eta, floor, recovery);
            &&& occupancy == Occupancy::AwayReturning || occupancy == Occupancy::Away || occupancy
                == Occupancy::AwayFar
            &&& occupancy != Occupancy::AwayReturning ==> (occupancy == Occupancy::AwayFar <==> (
            !eta.is_nan() && eta.worth() >= 120 * one()) || (!floor.is_nan() && floor.worth() >= 120
                * one()))
        }),
{
}

/// Someone is credibly back unless there is a grid event and either the estimate
/// or the floor is beyond its horizon, or the night was spent away and there is
/// no positive estimate.
pub proof fn law_back_unless_beyond_the_horizon(
    eta: Reading,
    floor: Reading,
    horizon: Reading,
    slept_away: bool,
)
    ensures
        credibly_back(eta, floor, horizon, slept_away) <==> {
            ||| horizon.is_nan() || horizon.worth() <= 0
            ||| {
                &&& eta.is_nan() || eta.worth() <= horizon.worth()
                &&& floor.is_nan() || floor.worth() <= horizon.worth()
                &&& slept_away ==> !eta.is_nan() && eta.worth() > 0
            }
        },
{
}

/// After a report of a number the slot holds that number, whatever it held
/// before; a pattern that stands for no number is held as such.
pub proof fn law_reported_number_is_held(
    raw: RawInputs,
    entity_id: Seq<char>,
    state: Seq<char>,
    number: Reading,
)
    ensures
        ({
            let after = raw.updated(entity_id, state, Some(number));
            &&& entity_id == "sensor.homeostat_indoor_max_today"@
                ==> after.indoor_max.is_nan() == number.is_nan() && (
            !number.is_nan() ==> after.indoor_max.worth() == number.worth())
            &&& entity_id == "input_number.homeostat_comfort_setpoint"@
                ==> after.comfort_setpoint.is_nan() == number.is_nan() && (
            !number.is_nan() ==> after.comfort_setpoint.worth() == number.worth())
            &&& entity_id == "sensor.homeostat_return_eta"@
                ==> after.return_eta_min.is_nan() == number.is_nan() && (
            !number.is_nan() ==> after.return_eta_min.worth() == number.worth())
            &&& entity_id == "sensor.homeostat_return_floor"@
                ==> after.return_floor_min.is_nan() == number.is_nan() && (
            !number.is_nan() ==> after.return_floor_min.worth() == number.worth())
            &&& entity_id == "sensor.homeostat_recovery_minutes"@
                ==> after.recovery_min.is_nan() == number.is_nan() && (
            !number.is_nan() ==> after.recovery_min.worth() == number.worth())
            &&& entity_id == "sensor.homeostat_recovery_horizon_minutes"@
                ==> after.recovery_horizon_min.is_nan() == number.is_nan() && (
            !number.is_nan() ==> after.recovery_horizon_min.worth() == number.worth())
        }),
{
    law_entities_by_name(entity_id);
}

/// A report of a number counts as a change exactly where the slot did not hold
/// that number.
pub proof fn law_number_is_news_exactly_when_it_differs(
    raw: RawInputs,
    entity_id: Seq<char>,
    state: Seq<char>,
    number: Reading,
)
    ensures
        entity_id == "sensor.homeostat_indoor_max_today"@ ==> (raw.changed_by(
            entity_id,
            state,
            Some(number),
        ) <==> raw.indoor_max.is_nan() != number.is_nan() || (!number.is_nan()
            && raw.indoor_max.worth() != number.worth())),
        entity_id == "input_number.homeostat_comfort_setpoint"@ ==> (raw.changed_by(
            entity_id,
            state,
            Some(number),
        ) <==> raw.comfort_setpoint.is_nan() != number.is_nan() || (!number.is_nan()
            && raw.comfort_setpoint.worth() != number.worth())),
        entity_id == "sensor.homeostat_return_eta"@ ==> (raw.changed_by(
            entity_id,
            state,
            Some(number),
        ) <==> raw.return_eta_min.is_nan() != number.is_nan() || (!number.is_nan()
            && raw.return_eta_min.worth() != number.worth())),
        entity_id == "sensor.homeostat_return_floor"@ ==> (raw.changed_by(
            entity_id,
            state,
            Some(number),
        ) <==> raw.return_floor_min.is_nan() != number.is_nan() || (!number.is_nan()
            && raw.return_floor_min.worth() != number.worth())),
        entity_id == "sensor.homeostat_recovery_minutes"@ ==> (raw.changed_by(
            entity_id,
            state,
            Some(number),
        ) <==> raw.recovery_min.is_nan() != number.is_nan() || (!number.is_nan()
            && raw.recovery_min.worth() != number.worth())),
        entity_id == "sensor.homeostat_recovery_horizon_minutes"@ ==> (raw.changed_by(
            entity_id,
            state,
            Some(number),
        ) <==> raw.recovery_horizon_min.is_nan() != number.is_nan() || (!number.is_nan()
            && raw.recovery_horizon_min.worth() != number.worth())),
{
    law_entities_by_name(entity_id);
}

/// A numeric entity whose text spells no number reads as zero, and that is a
/// change exactly where the slot did not hold zero.
pub proof fn law_no_number_reads_as_zero(raw: RawInputs, entity_id: Seq<char>, state: Seq<char>)
    ensures
        ({
            let after = raw.updated(entity_id, state, None);
            let changed = raw.changed_by(entity_id, state, None);
            &&& entity_id == "sensor.homeostat_indoor_max_today"@ ==> {
                &&& !after.indoor_max.is_nan() && after.indoor_max.worth() == 0
                &&& changed <==> raw.indoor_max.is_nan() || raw.indoor_max.worth() != 0
            }
            &&& entity_id == "input_number.homeostat_comfort_setpoint"@ ==> {
                &&& !after.comfort_setpoint.is_nan() && after.comfort_setpoint.worth() == 0
                &&& changed <==> raw.comfort_setpoint.is_nan() || raw.comfort_setpoint.worth() != 0
            }
            &&& entity_id == "sensor.homeostat_return_eta"@ ==> {
                &&& !after.return_eta_min.is_nan() && after.return_eta_min.worth() == 0
                &&& changed <==> raw.return_eta_min.is_nan() || raw.return_eta_min.worth() != 0
            }
            &&& entity_id == "sensor.homeostat_return_floor"@ ==> {
                &&& !after.return_floor_min.is_nan() && after.return_floor_min.worth() == 0
                &&& changed <==> raw.return_floor_min.is_nan() || raw.return_floor_min.worth() != 0
            }
            &&& entity_id == "sensor.homeostat_recovery_minutes"@ ==> {
                &&& !after.recovery_min.is_nan() && after.recovery_min.worth() == 0
                &&& changed <==> raw.recovery_min.is_nan() || raw.recovery_min.worth() != 0
            }
            &&& entity_id == "sensor.homeostat_recovery_horizon_minutes"@ ==> {
                &&& !after.recovery_horizon_min.is_nan() && after.recovery_horizon_min.worth() == 0
                &&& changed <==> raw.recovery_horizon_min.is_nan() || raw.recovery_horizon_min.worth() != 0
            }
        }),
{
    law_entities_by_name(entity_id);
}

/// After a report on the forecast the slot holds the number reported, and nothing
/// where none was; that is a change exactly where the slot held something else.
pub proof fn law_reported_forecast_is_held(
    raw: RawInputs,
    state: Seq<char>,
    number: Option<Reading>,
)
    ensures
        ({
            let after = raw.updated("sensor.homeostat_forecast_max_today"@, state, number).forecast_max;
            let changed = raw.changed_by("sensor.homeostat_forecast_max_today"@, state, number);
            if number is Some && !number->0.is_nan() {
                &&& after is Some && !after->0.is_nan() && after->0.worth() == number->0.worth()
                &&& changed <==> raw.forecast_max is None || raw.forecast_max->0.is_nan()
                    || raw.forecast_max->0.worth() != number->0.worth()
            } else {
                &&& after is None
                &&& changed <==> raw.forecast_max is Some
            }
        }),
{
    law_entities_by_name("sensor.homeostat_forecast_max_today"@);
}

/// After a report of a word the slot holds what the word says, and nothing where
/// the word says nothing.
pub proof fn law_reported_word_is_held(
    raw: RawInputs,
    entity_id: Seq<char>,
    state: Seq<char>,
    number: Option<Reading>,
)
    ensures
        ({
            let after = raw.updated(entity_id, state, number);
            &&& entity_id == "sensor.homeostat_occupancy"@ ==> {
                &&& after.presence == Some(Presence::Home) <==> state == "home"@
                &&& after.presence == Some(Presence::HomeAsleep) <==> state == "home_asleep"@
                &&& after.presence == Some(Presence::Away) <==> state == "away"@
            }
            &&& entity_id == "sensor.homeostat_energy_period"@ ==> {
                &&& after.energy_period == Some(EnergyPeriod::Normal) <==> state == "normal"@
                &&& after.energy_period == Some(EnergyPeriod::Preheat) <==> state == "preheat"@
                &&& after.energy_period == Some(EnergyPeriod::Peak) <==> state == "peak"@
            }
            &&& entity_id == "sensor.homeostat_season"@ ==> {
                &&& after.season == Some(Season::Heat) <==> state == "heat"@
                &&& after.season == Some(Season::Fan) <==> state == "fan"@
                &&& after.season == Some(Season::Cool) <==> state == "cool"@
            }
            &&& entity_id == "sensor.homeostat_main_mode_override"@ ==> {
                &&& after.main_mode_override == Some(HvacMode::Heat) <==> state == "heat"@
                &&& after.main_mode_override == Some(HvacMode::Cool) <==> state == "cool"@
                &&& after.main_mode_override == Some(HvacMode::Off) <==> state == "off"@
                &&& after.main_mode_override != Some(HvacMode::Circulate)
            }
            &&& entity_id == "binary_sensor.homeostat_aux_zone_occupied"@ ==> {
                &&& after.aux_zone_occupied == Some(true) <==> state == "on"@
                &&& after.aux_zone_occupied == Some(false) <==> state == "off"@
            }
            &&& entity_id == "binary_sensor.homeostat_slept_away"@ ==> {
                &&& after.slept_away == Some(true) <==> state == "on"@
                &&& after.slept_away == Some(false) <==> state == "off"@
            }
            &&& entity_id == "binary_sensor.homeostat_back_during_recovery"@ ==> {
                &&& after.back_during_recovery == Some(true) <==> state == "on"@
                &&& after.back_during_recovery == Some(false) <==> state == "off"@
            }
        }),
{
    law_entities_by_name(entity_id);
    lemma_words_differ();
}

/// A report of a word counts as a change exactly where the slot held something
/// else.
pub proof fn law_word_is_news_exactly_when_the_slot_changes(
    raw: RawInputs,
    entity_id: Seq<char>,
    state: Seq<char>,
    number: Option<Reading>,
)
    ensures
        ({
            let after = raw.updated(entity_id, state, number);
            let changed = raw.changed_by(entity_id, state, number);
            &&& entity_id == "sensor.homeostat_occupancy"@
                ==> (changed <==> after.presence != raw.presence)
            &&& entity_id == "sensor.homeostat_energy_period"@
                ==> (changed <==> after.energy_period != raw.energy_period)
            &&& entity_id == "sensor.homeostat_season"@
                ==> (changed <==> after.season != raw.season)
            &&& entity_id == "sensor.homeostat_main_mode_override"@
                ==> (changed <==> after.main_mode_override != raw.main_mode_override)
            &&& entity_id == "binary_sensor.homeostat_aux_zone_occupied"@
                ==> (changed <==> after.aux_zone_occupied != raw.aux_zone_occupied)
            &&& entity_id == "binary_sensor.homeostat_slept_away"@
                ==> (changed <==> after.slept_away != raw.slept_away)
            &&& entity_id == "binary_sensor.homeostat_back_during_recovery"@
                ==> (changed <==> after.back_during_recovery != raw.back_during_recovery)
        }),
{
    law_entities_by_name(entity_id);
}

/// A report touches the slot of its own entity and no other.
pub proof fn law_report_touches_its_own_slot_alone(
    raw: RawInputs,
    entity_id: Seq<char>,
    state: Seq<char>,
    number: Option<Reading>,
)
    ensures
        ({
            let after = raw.updated(entity_id, state, number);
            &&& entity_id != "sensor.homeostat_occupancy"@ ==> after.presence == raw.presence
            &&& entity_id != "sensor.homeostat_energy_period"@
                ==> after.energy_period == raw.energy_period
            &&& entity_id != "sensor.homeostat_forecast_max_today"@
                ==> after.forecast_max == raw.forecast_max
            &&& entity_id != "sensor.homeostat_indoor_max_today"@
                ==> after.indoor_max == raw.indoor_max
            &&& entity_id != "sensor.homeostat_main_mode_override"@
                ==> after.main_mode_override == raw.main_mode_override
            &&& entity_id != "sensor.homeostat_season"@ ==> after.season == raw.season
            &&& entity_id != "binary_sensor.homeostat_aux_zone_occupied"@
                ==> after.aux_zone_occupied == raw.aux_zone_occupied
            &&& entity_id != "input_number.homeostat_comfort_setpoint"@
                ==> after.comfort_setpoint == raw.comfort_setpoint
            &&& entity_id != "sensor.homeostat_return_eta"@
                ==> after.return_eta_min == raw.return_eta_min
            &&& entity_id != "sensor.homeostat_return_floor"@
                ==> after.return_floor_min == raw.return_floor_min
            &&& entity_id != "sensor.homeostat_recovery_minutes"@
                ==> after.recovery_min == raw.recovery_min
            &&& entity_id != "sensor.homeostat_recovery_horizon_minutes"@
                ==> after.recovery_horizon_min == raw.recovery_horizon_min
            &&& entity_id != "binary_sensor.homeostat_slept_away"@
                ==> after.slept_away == raw.slept_away
            &&& entity_id != "binary_sensor.homeostat_back_during_recovery"@
                ==> after.back_during_recovery == raw.back_during_recovery
        }),
{
    law_entities_by_name(entity_id);
}

/// Each fact is reported by the entity of this name and by no other.
pub proof fn law_entities_by_name(entity_id: Seq<char>)
    ensures
        Slot::named(entity_id) == Some(Slot::Occupancy) <==> entity_id
            == "sensor.homeostat_occupancy"@,
        Slot::named(entity_id) == Some(Slot::EnergyPeriod) <==> entity_id
            == "sensor.homeostat_energy_period"@,
        Slot::named(entity_id) == Some(Slot::ForecastMax) <==> entity_id
            == "sensor.homeostat_forecast_max_today"@,
        Slot::named(entity_id) == Some(Slot::IndoorMax) <==> entity_id
            == "sensor.homeostat_indoor_max_today"@,
        Slot::named(entity_id) == Some(Slot::MainModeOverride) <==> entity_id
            == "sensor.homeostat_main_mode_override"@,
        Slot::named(entity_id) == Some(Slot::Season) <==> entity_id
            == "sensor.homeostat_season"@,
        Slot::named(entity_id) == Some(Slot::AuxZoneOccupied) <==> entity_id
            == "binary_sensor.homeostat_aux_zone_occupied"@,
        Slot::named(entity_id) == Some(Slot::ComfortSetpoint) <==> entity_id
            == "input_number.homeostat_comfort_setpoint"@,
        Slot::named(entity_id) == Some(Slot::ReturnEta) <==> entity_id
            == "sensor.homeostat_return_eta"@,
        Slot::named(entity_id) == Some(Slot::ReturnFloor) <==> entity_id
            == "sensor.homeostat_return_floor"@,
        Slot::named(entity_id) == Some(Slot::RecoveryMinutes) <==> entity_id
            == "sensor.homeostat_recovery_minutes"@,
        Slot::named(entity_id) == Some(Slot::RecoveryHorizon) <==> entity_id
            == "sensor.homeostat_recovery_horizon_minutes"@,
        Slot::named(entity_id) == Some(Slot::SleptAway) <==> entity_id
            == "binary_sensor.homeostat_slept_away"@,
        Slot::named(entity_id) == Some(Slot::BackDuringRecovery) <==> entity_id
            == "binary_sensor.homeostat_back_during_recovery"@,
{
    law_each_entity_fills_its_own_slot(Slot::Occupancy);
    law_each_entity_fills_its_own_slot(Slot::EnergyPeriod);
    law_each_entity_fills_its_own_slot(Slot::ForecastMax);
    law_each_entity_fills_its_own_slot(Slot::IndoorMax);
    law_each_entity_fills_its_own_slot(Slot::MainModeOverride);
    law_each_entity_fills_its_own_slot(Slot::Season);
    law_each_entity_fills_its_own_slot(Slot::AuxZoneOccupied);
    law_each_entity_fills_its_own_slot(Slot::ComfortSetpoint);
    law_each_entity_fills_its_own_slot(Slot::ReturnEta);
    law_each_entity_fills_its_own_slot(Slot::ReturnFloor);
    law_each_entity_fills_its_own_slot(Slot::RecoveryMinutes);
    law_each_entity_fills_its_own_slot(Slot::RecoveryHorizon);
    law_each_entity_fills_its_own_slot(Slot::SleptAway);
    law_each_entity_fills_its_own_slot(Slot::BackDuringRecovery);
}

/// The words of each vocabulary differ.
proof fn lemma_words_differ()
    ensures
        "home"@ != "home_asleep"@,
        "home"@ != "away"@,
        "home_asleep"@ != "away"@,
        "normal"@ != "preheat"@,
        "normal"@ != "peak"@,
        "preheat"@ != "peak"@,
        "heat"@ != "fan"@,
        "heat"@ != "cool"@,
        "fan"@ != "cool"@,
        "heat"@ != "off"@,
        "cool"@ != "off"@,
        "on"@ != "off"@,
        "circulate"@ != "heat"@,
        "circulate"@ != "cool"@,
        "circulate"@ != "off"@,
{
    reveal_strlit("home");
    reveal_strlit("home_asleep");
    reveal_strlit("away");
    reveal_strlit("normal");
    reveal_strlit("preheat");
    reveal_strlit("peak");
    reveal_strlit("heat");
    reveal_strlit("fan");
    reveal_strlit("cool");
    reveal_strlit("off");
    reveal_strlit("on");
    reveal_strlit("circulate");
    assert("home"@.len() == 4 && "home_asleep"@.len() == 11 && "away"@.len() == 4);
    assert("home"@[0] != "away"@[0]);
    assert("normal"@.len() == 6 && "preheat"@.len() == 7 && "peak"@.len() == 4);
    assert("heat"@.len() == 4 && "fan"@.len() == 3 && "cool"@.len() == 4);
    assert("heat"@[0] != "cool"@[0]);
    assert("off"@.len() == 3 && "on"@.len() == 2 && "circulate"@.len() == 9);
}

/// The words that perception reads, each for one value.
pub proof fn law_vocabularies(s: Seq<char>)
    ensures
        Presence::named(s) == Some(Presence::Home) <==> s == "home"@,
        Presence::named(s) == Some(Presence::HomeAsleep) <==> s == "home_asleep"@,
        Presence::named(s) == Some(Presence::Away) <==> s == "away"@,
        EnergyPeriod::named(s) == Some(EnergyPeriod::Normal) <==> s == "normal"@,
        EnergyPeriod::named(s) == Some(EnergyPeriod::Preheat) <==> s == "preheat"@,
        EnergyPeriod::named(s) == Some(EnergyPeriod::Peak) <==> s == "peak"@,
        Season::named(s) == Some(Season::Heat) <==> s == "heat"@,
        Season::named(s) == Some(Season::Fan) <==> s == "fan"@,
        Season::named(s) == Some(Season::Cool) <==> s == "cool"@,
        HvacMode::named(s) == Some(HvacMode::Heat) <==> s == "heat"@,
        HvacMode::named(s) == Some(HvacMode::Cool) <==> s == "cool"@,
        HvacMode::named(s) == Some(HvacMode::Off) <==> s == "off"@,
        HvacMode::named(s) != Some(HvacMode::Circulate),
        switch_named(s) == Some(true) <==> s == "on"@,
        switch_named(s) == Some(false) <==> s == "off"@,
{
    lemma_words_differ();
}

/// The words that modes are published under.
pub proof fn law_mode_words(mode: HvacMode)
    ensures
        mode.word() == "heat"@ <==> mode == HvacMode::Heat,
        mode.word() == "cool"@ <==> mode == HvacMode::Cool,
        mode.word() == "circulate"@ <==> mode == HvacMode::Circulate,
        mode.word() == "off"@ <==> mode == HvacMode::Off,
{
    lemma_words_differ();
}

/// A list of states is taken in one by one, from the front.
pub proof fn law_seeding_is_report_after_report(
    raw: RawInputs,
    first: Seq<EntityState>,
    rest: Seq<EntityState>,
    entity: EntityState,
)
    ensures
        raw.seeded(Seq::empty()) == raw,
        raw.seeded(seq![entity]) == raw.updated(entity.entity_id@, entity.state@, entity.number),
        raw.seeded(first + rest) == raw.seeded(first).seeded(rest),
    decreases rest.len(),
{
    reveal_with_fuel(RawInputs::seeded, 2);
    assert(seq![entity].drop_last() =~= Seq::<EntityState>::empty());
    if rest.len() == 0 {
        assert(first + rest =~= first);
    } else {
        law_seeding_is_report_after_report(raw, first, rest.drop_last(), entity);
        assert((first + rest).drop_last() =~= first + rest.drop_last());
        assert((first + rest).last() == rest.last());
    }
}

/// Before any report every word is unknown and every number zero.
pub proof fn law_nothing_is_known_before_any_report()
    ensures
        ({
            let raw = RawInputs::blank();
            &&& raw.presence is None && raw.energy_period is None && raw.season is None
            &&& raw.forecast_max is None && raw.main_mode_override is None
            &&& raw.aux_zone_occupied is None && raw.slept_away is None
            &&& raw.back_during_recovery is None
            &&& raw.indoor_max.bits == 0 && raw.comfort_setpoint.bits == 0
            &&& raw.return_eta_min.bits == 0 && raw.return_floor_min.bits == 0
            &&& raw.recovery_min.bits == 0 && raw.recovery_horizon_min.bits == 0
        }),
{
}

/// The picture carries the facts as they were reported.
pub proof fn law_picture_carries_the_facts(raw: RawInputs)
    ensures
        raw.picture() matches Some(inputs) ==> {
            &&& Some(inputs.energy_period) == raw.energy_period
            &&& Some(inputs.aux_zone_occupied) == raw.aux_zone_occupied
            &&& inputs.comfort_setpoint == raw.comfort_setpoint
            &&& inputs.occupancy == Occupancy::described(
                raw.presence->0,
                raw.return_eta_min,
                raw.return_floor_min,
                raw.recovery_min,
            )
        },
{
}

/// What the day demands: the drill knob where it is set, else what the forecast
/// demands with today's indoor maximum, else the season.
pub proof fn law_knob_then_forecast_then_season(raw: RawInputs)
    ensures
        raw.picture() matches Some(inputs) ==> {
            &&& raw.main_mode_override matches Some(mode) ==> inputs.main_mode == mode
            &&& raw.main_mode_override is None ==> {
                &&& raw.forecast_max matches Some(forecast) ==> inputs.main_mode == demanded(
                    forecast,
                    raw.indoor_max,
                    None,
                )
                &&& raw.forecast_max is None ==> {
                    &&& inputs.main_mode == HvacMode::Heat <==> raw.season == Some(Season::Heat)
                    &&& inputs.main_mode == HvacMode::Cool <==> raw.season == Some(Season::Cool)
                    &&& inputs.main_mode == HvacMode::Circulate <==> raw.season == Some(Season::Fan)
                }
            }
        },
{
}

/// Perception's own word on the return settles it; without one the return
/// sensors and the grid event do. A night that nothing is known of was spent home.
pub proof fn law_word_on_the_return_settles_it(raw: RawInputs)
    ensures
        raw.picture() matches Some(inputs) ==> {
            &&& raw.back_during_recovery matches Some(back) ==> inputs.back_during_recovery == back
            &&& raw.back_during_recovery is None ==> inputs.back_during_recovery == credibly_back(
                raw.return_eta_min,
                raw.return_floor_min,
                raw.recovery_horizon_min,
                raw.slept_away is Some && raw.slept_away->0,
            )
        },
{
}

} // verus!
