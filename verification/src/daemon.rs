//! The daemon's loop, as decisions: what to do about each event, when a decision
//! is worth publishing, how long to wait before reconnecting, and how the
//! environment configures it all.
use crate::decide::{decide, decision, Desired};
use crate::state::{law_repeated_report_is_no_news, EntityState, Inputs, RawInputs};
use crate::text::{decimal, law_port_reads_back, parse_port, port_number};
use vstd::prelude::*;

verus! {

pub const DEFAULT_HA_URL: &'static str = "ws://127.0.0.1:8123/api/websocket";

pub const DEFAULT_MQTT_HOST: &'static str = "127.0.0.1";

pub const DEFAULT_MQTT_PORT: u16 = 1883;

/// Seconds between heartbeats.
pub const HEARTBEAT_SECS: u64 = 60;

/// Seconds to wait before the first reconnection.
pub const FIRST_BACKOFF_SECS: u64 = 1;

/// Seconds that a wait before a reconnection never exceeds.
pub const MAX_BACKOFF_SECS: u64 = 60;

/// The environment variables that configure the daemon, where they are set.
#[derive(Debug)]
pub struct Environment {
    /// `HOMEOSTAT_HA_URL`
    pub ha_url: Option<String>,
    /// `HOMEOSTAT_HA_TOKEN`
    pub ha_token: Option<String>,
    /// `HOMEOSTAT_MQTT_HOST`
    pub mqtt_host: Option<String>,
    /// `HOMEOSTAT_MQTT_PORT`
    pub mqtt_port: Option<String>,
    /// `HOMEOSTAT_MQTT_USER`
    pub mqtt_user: Option<String>,
    /// `HOMEOSTAT_MQTT_PASS`
    pub mqtt_pass: Option<String>,
}

#[derive(Clone, Copy, Debug, PartialEq, Eq, Structural)]
pub enum ConfigError {
    /// `HOMEOSTAT_HA_TOKEN` is not set.
    TokenRequired,
}

impl ConfigError {
    pub fn message(self) -> (text: &'static str)
        ensures
            text@ == "HOMEOSTAT_HA_TOKEN is required (long-lived access token)"@,
    {
        "HOMEOSTAT_HA_TOKEN is required (long-lived access token)"
    }
}

#[derive(Debug)]
pub struct Config {
    pub ha_url: String,
    pub ha_token: String,
    pub mqtt_host: String,
    pub mqtt_port: u16,
    pub mqtt_credentials: Option<(String, String)>,
}

/// The text of a variable, or its default where it is not set.
pub open spec fn set_or(variable: Option<String>, default: Seq<char>) -> Seq<char> {
    match variable {
        Some(text) => text@,
        None => default,
    }
}

/// The port of the broker: the variable where it is a port number, else the
/// default.
pub open spec fn broker_port(variable: Option<String>) -> u16 {
    match variable {
        Some(text) => match port_number(text@) {
            Some(port) => port,
            None => DEFAULT_MQTT_PORT,
        },
        None => DEFAULT_MQTT_PORT,
    }
}

/// The credentials for the broker: a user with a password, or none.
pub open spec fn broker_credentials(user: Option<String>, pass: Option<String>) -> Option<
    (String, String),
> {
    match (user, pass) {
        (Some(user), Some(pass)) => Some((user, pass)),
        _ => None,
    }
}

fn value_or(variable: Option<String>, default: &str) -> (text: String)
    ensures
        text@ == set_or(variable, default@),
{
    match variable {
        Some(text) => text,
        None => default.to_owned(),
    }
}

impl Config {
    /// Reads the configuration. Only the token is required. A port that is no
    /// port number reads as not set, and credentials take both a user and a
    /// password.
    pub fn from_env(env: Environment) -> (config: Result<Config, ConfigError>)
        ensures
            config is Ok <==> env.ha_token is Some,
            config is Err ==> config->Err_0 == ConfigError::TokenRequired,
            config matches Ok(c) ==> {
                &&& c.ha_url@ == set_or(env.ha_url, DEFAULT_HA_URL@)
                &&& env.ha_url is None ==> c.ha_url@ == "ws://127.0.0.1:8123/api/websocket"@
                &&& c.ha_token == env.ha_token->0
                &&& c.mqtt_host@ == set_or(env.mqtt_host, DEFAULT_MQTT_HOST@)
                &&& env.mqtt_host is None ==> c.mqtt_host@ == "127.0.0.1"@
                &&& env.mqtt_port is None ==> c.mqtt_port == 1883
                &&& c.mqtt_port == broker_port(env.mqtt_port)
                &&& c.mqtt_credentials == broker_credentials(env.mqtt_user, env.mqtt_pass)
            },
    {
        let ha_token = match env.ha_token {
            Some(token) => token,
            None => return Err(ConfigError::TokenRequired),
        };
        let mqtt_port: u16 = match env.mqtt_port {
            Some(text) => match parse_port(text.as_str()) {
                Some(port) => port,
                None => DEFAULT_MQTT_PORT,
            },
            None => DEFAULT_MQTT_PORT,
        };
        let mqtt_credentials = match (env.mqtt_user, env.mqtt_pass) {
            (Some(user), Some(pass)) => Some((user, pass)),
            _ => None,
        };
        Ok(
            Config {
                ha_url: value_or(env.ha_url, DEFAULT_HA_URL),
                ha_token,
                mqtt_host: value_or(env.mqtt_host, DEFAULT_MQTT_HOST),
                mqtt_port,
                mqtt_credentials,
            },
        )
    }
}

/// The wait after a wait of `seconds`: twice as long, up to the cap.
pub open spec fn doubled(seconds: int) -> int {
    if 2 * seconds < MAX_BACKOFF_SECS {
        2 * seconds
    } else {
        MAX_BACKOFF_SECS as int
    }
}

/// How long to wait before the next reconnection.
pub fn next_backoff(seconds: u64) -> (next: u64)
    ensures
        next == doubled(seconds as int),
{
    if seconds < MAX_BACKOFF_SECS / 2 {
        seconds * 2
    } else {
        MAX_BACKOFF_SECS
    }
}

/// What to do about the snapshot as it stands.
#[derive(Clone, Copy, Debug)]
pub enum Step {
    /// Perception is incomplete: decide nothing, and let what was published
    /// last stand.
    Hold,
    /// The decision is the one that was published last.
    Keep,
    /// The decision is new: publish it.
    Publish { desired: Desired, inputs: Inputs },
}

/// What a snapshot calls for, after `published`.
pub open spec fn called_for(raw: RawInputs, published: Option<Desired>) -> Step {
    match raw.picture() {
        None => Step::Hold,
        Some(inputs) => if published == Some(decision(inputs)) {
            Step::Keep
        } else {
            Step::Publish { desired: decision(inputs), inputs }
        },
    }
}

/// Something that happens to the daemon while it is connected.
#[derive(Debug)]
pub enum Event {
    HeartbeatDue,
    Interrupted,
    Changed(EntityState),
}

/// What to do about an event.
#[derive(Clone, Copy, Debug)]
pub enum Action {
    Beat,
    Stop,
    /// Not a fact of perception, or not news.
    Ignore,
    /// A fact changed.
    React(Step),
}

/// One connection's worth of the daemon's memory.
#[derive(Debug)]
pub struct Daemon {
    pub raw: RawInputs,
    pub last_published: Option<Desired>,
}

impl Daemon {
    /// A daemon that has just connected, with the states as they are.
    pub fn connected(states: &Vec<EntityState>) -> (daemon: Daemon)
        ensures
            daemon.raw == RawInputs::blank().seeded(states@),
            daemon.last_published is None,
    {
        let mut raw = RawInputs::default();
        raw.seed(states);
        Daemon { raw, last_published: None }
    }

    /// Decides what to do about the snapshot as it stands.
    pub fn step(&self) -> (step: Step)
        ensures
            step == called_for(self.raw, self.last_published),
    {
        let inputs = match self.raw.complete() {
            None => return Step::Hold,
            Some(inputs) => inputs,
        };
        let desired = decide(&inputs);
        match self.last_published {
            Some(last) => if last == desired {
                Step::Keep
            } else {
                Step::Publish { desired, inputs }
            },
            None => Step::Publish { desired, inputs },
        }
    }

    /// What the daemon is about to do about an event.
    pub open spec fn reaction(self, event: Event) -> Action {
        match event {
            Event::HeartbeatDue => Action::Beat,
            Event::Interrupted => Action::Stop,
            Event::Changed(entity) => if self.raw.changed_by(
                entity.entity_id@,
                entity.state@,
                entity.number,
            ) {
                Action::React(
                    called_for(
                        self.raw.updated(entity.entity_id@, entity.state@, entity.number),
                        self.last_published,
                    ),
                )
            } else {
                Action::Ignore
            },
        }
    }

    /// The snapshot after an event.
    pub open spec fn raw_after(self, event: Event) -> RawInputs {
        match event {
            Event::Changed(entity) => self.raw.updated(
                entity.entity_id@,
                entity.state@,
                entity.number,
            ),
            _ => self.raw,
        }
    }

    /// Takes in an event, and decides what to do about it. A decision counts as
    /// published only once [`Daemon::published`] says so.
    pub fn handle(&mut self, event: &Event) -> (action: Action)
        ensures
            action == old(self).reaction(*event),
            final(self).raw == old(self).raw_after(*event),
            final(self).last_published == old(self).last_published,
    {
        match event {
            Event::HeartbeatDue => Action::Beat,
            Event::Interrupted => Action::Stop,
            Event::Changed(entity) => {
                let changed = self.raw.ingest(
                    entity.entity_id.as_str(),
                    entity.state.as_str(),
                    entity.number,
                );
                if changed {
                    Action::React(self.step())
                } else {
                    Action::Ignore
                }
            },
        }
    }

    /// Records that a decision went out.
    pub fn published(&mut self, desired: Desired)
        ensures
            final(self).last_published == Some(desired),
            final(self).raw == old(self).raw,
    {
        self.last_published = Some(desired);
    }
}

/// Waits grow from one to the next and never exceed the cap.
pub proof fn law_backoff_grows_to_its_cap(seconds: int)
    requires
        0 < seconds <= MAX_BACKOFF_SECS,
    ensures
        seconds <= doubled(seconds) <= MAX_BACKOFF_SECS,
        seconds < MAX_BACKOFF_SECS ==> seconds < doubled(seconds),
{
}

/// While perception is incomplete nothing is published: what went out last
/// stands.
pub proof fn law_incomplete_perception_holds(raw: RawInputs, published: Option<Desired>)
    requires
        raw.picture() is None,
    ensures
        called_for(raw, published) == Step::Hold,
{
}

/// A report that comes again is ignored: once the daemon has taken it in, the
/// same report calls for nothing more.
pub proof fn law_repeated_report_is_ignored(before: Daemon, after: Daemon, entity: EntityState)
    requires
        after.raw == before.raw_after(Event::Changed(entity)),
    ensures
        after.reaction(Event::Changed(entity)) == Action::Ignore,
{
    law_repeated_report_is_no_news(before.raw, entity.entity_id@, entity.state@, entity.number);
}

/// What is published is always the matrix decision on a complete picture, and
/// never what was published last.
pub proof fn law_published_decisions_are_news(raw: RawInputs, published: Option<Desired>)
    ensures
        called_for(raw, published) matches Step::Publish { desired, inputs } ==> {
            &&& raw.picture() == Some(inputs)
            &&& desired == decision(inputs)
            &&& published != Some(desired)
        },
{
}

/// A decision that went out is not published again while it stays the decision.
pub proof fn law_a_decision_goes_out_once(raw: RawInputs, published: Option<Desired>)
    requires
        called_for(raw, published) is Publish,
    ensures
        called_for(raw, Some(called_for(raw, published)->desired)) == Step::Keep,
{
}

/// A fresh connection publishes as soon as the picture is complete, whatever
/// went out over earlier connections.
pub proof fn law_fresh_connection_publishes(raw: RawInputs)
    requires
        raw.picture() is Some,
    ensures
        called_for(raw, None) is Publish,
{
}

/// With a complete picture the daemon keeps quiet exactly where what went out last
/// is the decision in every part: mode, setpoint, fan, aux zone and shedding. Where
/// any of them differs, or nothing went out yet, it publishes.
pub proof fn law_keeps_quiet_exactly_when_nothing_differs(
    raw: RawInputs,
    published: Option<Desired>,
)
    ensures
        raw.picture() matches Some(inputs) ==> {
            let desired = decision(inputs);
            let out = published is Some && {
                let last = published->0;
                &&& last.main_mode == desired.main_mode
                &&& last.main_setpoint == desired.main_setpoint
                &&& last.fan_mode == desired.fan_mode
                &&& last.aux_zone_setpoint == desired.aux_zone_setpoint
                &&& last.shed_loads == desired.shed_loads
            };
            &&& called_for(raw, published) == Step::Keep <==> out
            &&& called_for(raw, published) == (Step::Publish { desired, inputs }) <==> !out
        },
        called_for(raw, published) == Step::Hold <==> raw.picture() is None,
{
}

/// The daemon beats when a heartbeat is due, stops when it is interrupted, and
/// reacts to a report exactly where it is news, with what the new snapshot calls
/// for.
pub proof fn law_reacts_to_news_alone(daemon: Daemon, entity: EntityState)
    ensures
        daemon.reaction(Event::HeartbeatDue) == Action::Beat,
        daemon.reaction(Event::Interrupted) == Action::Stop,
        ({
            let news = daemon.raw.changed_by(entity.entity_id@, entity.state@, entity.number);
            let after = daemon.raw.updated(entity.entity_id@, entity.state@, entity.number);
            &&& daemon.reaction(Event::Changed(entity)) == Action::Ignore <==> !news
            &&& news ==> daemon.reaction(Event::Changed(entity)) == Action::React(
                called_for(after, daemon.last_published),
            )
        }),
{
}

/// A report is taken into the snapshot, news or not; nothing else touches it.
pub proof fn law_only_reports_touch_the_snapshot(daemon: Daemon, entity: EntityState)
    ensures
        daemon.raw_after(Event::HeartbeatDue) == daemon.raw,
        daemon.raw_after(Event::Interrupted) == daemon.raw,
        daemon.raw_after(Event::Changed(entity)) == daemon.raw.updated(
            entity.entity_id@,
            entity.state@,
            entity.number,
        ),
{
}

/// Each wait is twice the one before, or a minute where that would be more.
pub proof fn law_waits_double_up_to_a_minute(seconds: int)
    ensures
        2 * seconds <= 60 ==> doubled(seconds) == 2 * seconds,
        2 * seconds >= 60 ==> doubled(seconds) == 60,
{
}

/// A variable that is set is taken as it is.
pub proof fn law_set_variables_are_taken(variable: String, default: Seq<char>)
    ensures
        set_or(Some(variable), default) == variable@,
        set_or(None, default) == default,
{
}

/// Every port number that is set is taken; anything else reads as not set.
pub proof fn law_port_that_is_no_port_reads_as_not_set(variable: String, port: u16)
    ensures
        port_number(variable@) is None ==> broker_port(Some(variable)) == broker_port(None),
        variable@ == decimal(port as nat) ==> broker_port(Some(variable)) == port,
        broker_port(None) == 1883,
{
    law_port_reads_back(port);
}

/// Credentials take both a user and a password, and carry them as they are.
pub proof fn law_credentials_take_user_and_password(user: Option<String>, pass: Option<String>)
    ensures
        broker_credentials(user, pass) is Some <==> user is Some && pass is Some,
        broker_credentials(user, pass) matches Some(pair) ==> Some(pair.0) == user && Some(pair.1)
            == pass,
{
}

/// Reconnecting starts after a second, and the heart beats every minute, which is
/// as long as any wait before a reconnection lasts.
pub proof fn law_a_minute_bounds_every_wait(seconds: int)
    ensures
        FIRST_BACKOFF_SECS == 1,
        HEARTBEAT_SECS == 60,
        doubled(seconds) <= HEARTBEAT_SECS,
{
}

} // verus!
