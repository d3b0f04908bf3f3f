use homeostat::daemon::{
    next_backoff, Action, Config, ConfigError, Daemon, Environment, Event, Step, DEFAULT_HA_URL,
    FIRST_BACKOFF_SECS,
};
use homeostat::reading::Reading;
use homeostat::state::{
    EntityState, HvacMode, ENTITY_AUX_ZONE_OCCUPIED, ENTITY_COMFORT_SETPOINT,
    ENTITY_ENERGY_PERIOD, ENTITY_FORECAST_MAX, ENTITY_OCCUPANCY,
};

fn entity(entity_id: &str, state: &str) -> EntityState {
    EntityState {
        entity_id: entity_id.to_string(),
        state: state.to_string(),
        number: state
            .parse::<f64>()
            .ok()
            .map(|value| Reading::from_bits(value.to_bits())),
    }
}

fn changed(entity_id: &str, state: &str) -> Event {
    Event::Changed(entity(entity_id, state))
}

fn winter_states() -> Vec<EntityState> {
    vec![
        entity(ENTITY_OCCUPANCY, "home"),
        entity(ENTITY_ENERGY_PERIOD, "normal"),
        entity(ENTITY_FORECAST_MAX, "-5.0"),
        entity(ENTITY_AUX_ZONE_OCCUPIED, "off"),
    ]
}

fn env() -> Environment {
    Environment {
        ha_url: None,
        ha_token: Some("token".to_string()),
        mqtt_host: None,
        mqtt_port: None,
        mqtt_user: None,
        mqtt_pass: None,
    }
}

#[test]
fn a_decision_goes_out_once() {
    let mut daemon = Daemon::connected(&winter_states());
    let desired = match daemon.step() {
        Step::Publish { desired, .. } => desired,
        other => panic!("{other:?}"),
    };
    assert_eq!(desired.main_mode, HvacMode::Heat);
    assert_eq!(desired.main_setpoint, 225);
    daemon.published(desired);
    assert!(matches!(daemon.step(), Step::Keep));

    // a hold is news, but changes no decision
    assert!(matches!(
        daemon.handle(&changed(ENTITY_COMFORT_SETPOINT, "23")),
        Action::React(Step::Keep)
    ));

    match daemon.handle(&changed(ENTITY_ENERGY_PERIOD, "peak")) {
        Action::React(Step::Publish { desired, inputs }) => {
            assert_eq!(desired.main_setpoint, 160);
            assert!(desired.shed_loads);
            assert_eq!(Some(inputs), daemon.raw.complete());
        }
        other => panic!("{other:?}"),
    }
    // not confirmed yet: still to be published
    assert!(matches!(daemon.step(), Step::Publish { .. }));
}

#[test]
fn incomplete_perception_holds_the_last_decision() {
    let mut daemon = Daemon::connected(&vec![]);
    assert!(matches!(daemon.step(), Step::Hold));

    let mut daemon2 = Daemon::connected(&winter_states());
    if let Step::Publish { desired, .. } = daemon2.step() {
        daemon2.published(desired);
    }
    let last = daemon2.last_published;
    assert!(last.is_some());
    assert!(matches!(
        daemon2.handle(&changed(ENTITY_OCCUPANCY, "unavailable")),
        Action::React(Step::Hold)
    ));
    assert_eq!(daemon2.last_published, last);
    // back to the same house: nothing to say
    assert!(matches!(
        daemon2.handle(&changed(ENTITY_OCCUPANCY, "home")),
        Action::React(Step::Keep)
    ));
    assert!(matches!(daemon.handle(&Event::HeartbeatDue), Action::Beat));
}

#[test]
fn events_that_are_no_facts() {
    let mut daemon = Daemon::connected(&winter_states());
    assert!(matches!(daemon.handle(&Event::HeartbeatDue), Action::Beat));
    assert!(matches!(daemon.handle(&Event::Interrupted), Action::Stop));
    assert!(matches!(
        daemon.handle(&changed("light.porch", "on")),
        Action::Ignore
    ));
    assert!(matches!(
        daemon.handle(&changed(ENTITY_OCCUPANCY, "home")),
        Action::Ignore
    ));
}

#[test]
fn a_fresh_connection_publishes_again() {
    let mut daemon = Daemon::connected(&winter_states());
    if let Step::Publish { desired, .. } = daemon.step() {
        daemon.published(desired);
    }
    let daemon = Daemon::connected(&winter_states());
    assert!(matches!(daemon.step(), Step::Publish { .. }));
}

#[test]
fn backoff_doubles_up_to_a_minute() {
    let mut wait = FIRST_BACKOFF_SECS;
    let mut waits = Vec::new();
    for _ in 0..9 {
        waits.push(wait);
        wait = next_backoff(wait);
    }
    assert_eq!(waits, vec![1, 2, 4, 8, 16, 32, 60, 60, 60]);
    assert_eq!(next_backoff(30), 60);
    assert_eq!(next_backoff(29), 58);
    assert_eq!(next_backoff(u64::MAX), 60);
}

#[test]
fn the_environment_has_defaults() {
    let config = Config::from_env(env()).unwrap();
    assert_eq!(config.ha_url, "ws://127.0.0.1:8123/api/websocket");
    assert_eq!(config.ha_url, DEFAULT_HA_URL);
    assert_eq!(config.ha_token, "token");
    assert_eq!(config.mqtt_host, "127.0.0.1");
    assert_eq!(config.mqtt_port, 1883);
    assert_eq!(config.mqtt_credentials, None);
}

#[test]
fn the_token_is_required() {
    let error = Config::from_env(Environment { ha_token: None, ..env() }).unwrap_err();
    assert_eq!(error, ConfigError::TokenRequired);
    assert_eq!(
        error.message(),
        "HOMEOSTAT_HA_TOKEN is required (long-lived access token)"
    );
}

#[test]
fn the_environment_is_followed() {
    let config = Config::from_env(Environment {
        ha_url: Some("ws://ha/api".to_string()),
        mqtt_host: Some("broker".to_string()),
        mqtt_port: Some("8883".to_string()),
        mqtt_user: Some("u".to_string()),
        mqtt_pass: Some("p".to_string()),
        ..env()
    })
    .unwrap();
    assert_eq!(config.ha_url, "ws://ha/api");
    assert_eq!(config.mqtt_host, "broker");
    assert_eq!(config.mqtt_port, 8883);
    assert_eq!(
        config.mqtt_credentials,
        Some(("u".to_string(), "p".to_string()))
    );
}

#[test]
fn a_bad_port_reads_as_not_set_and_half_credentials_as_none() {
    let config = Config::from_env(Environment {
        mqtt_port: Some("mqtt".to_string()),
        mqtt_user: Some("u".to_string()),
        ..env()
    })
    .unwrap();
    assert_eq!(config.mqtt_port, 1883);
    assert_eq!(config.mqtt_credentials, None);
}

#[test]
fn a_report_that_comes_again_is_ignored() {
    let mut daemon = Daemon::connected(&winter_states());
    for state in ["nan", "23", "unavailable"] {
        assert!(matches!(
            daemon.handle(&changed(ENTITY_COMFORT_SETPOINT, state)),
            Action::React(_)
        ));
        assert!(matches!(
            daemon.handle(&changed(ENTITY_COMFORT_SETPOINT, state)),
            Action::Ignore
        ));
    }
}
