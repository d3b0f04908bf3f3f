use homeostat::ha::{
    auth_message, follow, frame_step, handshake, reported_change, states_reply, Followed, Frame,
    FrameStep, Handshake, Phase, ServerMsg, ServiceCall, Session, StatesReply,
};

fn invalid() -> ServerMsg {
    ServerMsg::AuthInvalid {
        message: "Invalid access token".to_string(),
    }
}

fn event(event_type: &str) -> ServerMsg {
    ServerMsg::Event {
        event_type: event_type.to_string(),
    }
}

#[test]
fn authentication_takes_a_greeting_and_an_acceptance() {
    assert!(matches!(
        handshake(Phase::Greeting, &ServerMsg::AuthRequired),
        Handshake::SendToken
    ));
    assert!(matches!(
        handshake(Phase::Authenticating, &ServerMsg::AuthOk),
        Handshake::Authenticated
    ));
    for msg in [ServerMsg::AuthOk, ServerMsg::Pong, invalid()] {
        assert!(matches!(
            handshake(Phase::Greeting, &msg),
            Handshake::NotGreeted
        ));
    }
    for msg in [ServerMsg::AuthRequired, ServerMsg::Pong, event("state_changed")] {
        assert!(matches!(
            handshake(Phase::Authenticating, &msg),
            Handshake::NotAnswered
        ));
    }
}

#[test]
fn a_rejected_token_says_why() {
    match handshake(Phase::Authenticating, &invalid()) {
        Handshake::Rejected { message } => assert_eq!(message, "Invalid access token"),
        other => panic!("{other:?}"),
    }
}

#[test]
fn the_reply_is_the_result_with_the_right_number() {
    let result = |id: u64, success: bool| ServerMsg::Result { id, success };
    assert_eq!(states_reply(1, &result(1, true)), StatesReply::Ready);
    assert_eq!(states_reply(1, &result(1, false)), StatesReply::Failed);
    assert_eq!(states_reply(1, &result(2, true)), StatesReply::NotYet);
    assert_eq!(states_reply(1, &result(2, false)), StatesReply::NotYet);
    assert_eq!(states_reply(1, &ServerMsg::Pong), StatesReply::NotYet);
    assert_eq!(states_reply(1, &event("state_changed")), StatesReply::NotYet);
}

#[test]
fn following_picks_out_state_changes() {
    assert_eq!(follow(&event("state_changed")), Followed::Change);
    assert_eq!(follow(&event("call_service")), Followed::Unrelated);
    assert_eq!(
        follow(&ServerMsg::Result { id: 7, success: false }),
        Followed::CallFailed { id: 7 }
    );
    assert_eq!(
        follow(&ServerMsg::Result { id: 7, success: true }),
        Followed::CallDone
    );
    assert_eq!(follow(&ServerMsg::Pong), Followed::Unrelated);
    assert_eq!(follow(&ServerMsg::AuthOk), Followed::Unrelated);
}

#[test]
fn an_unknown_message_is_never_acted_on() {
    assert_eq!(follow(&ServerMsg::Unknown), Followed::Unrelated);
    assert_eq!(states_reply(0, &ServerMsg::Unknown), StatesReply::NotYet);
    assert_eq!(states_reply(3, &ServerMsg::Unknown), StatesReply::NotYet);
    assert!(matches!(
        handshake(Phase::Greeting, &ServerMsg::Unknown),
        Handshake::NotGreeted
    ));
    assert!(matches!(
        handshake(Phase::Authenticating, &ServerMsg::Unknown),
        Handshake::NotAnswered
    ));
}

#[test]
fn a_removed_entity_is_no_change() {
    assert_eq!(
        reported_change("sensor.a".to_string(), Some("on".to_string())),
        Some(("sensor.a".to_string(), "on".to_string()))
    );
    assert_eq!(reported_change("sensor.a".to_string(), None), None);
}

#[test]
fn frames() {
    assert_eq!(frame_step(Frame::Text), FrameStep::Deliver);
    assert_eq!(frame_step(Frame::Ping), FrameStep::Skip);
    assert_eq!(frame_step(Frame::Pong), FrameStep::Skip);
    assert_eq!(frame_step(Frame::Other), FrameStep::Note);
    assert_eq!(frame_step(Frame::Close), FrameStep::Disconnect);
    assert_eq!(frame_step(Frame::Broken), FrameStep::Disconnect);
    assert_eq!(frame_step(Frame::Ended), FrameStep::Disconnect);
}

#[test]
fn the_token_is_quoted() {
    assert_eq!(
        auth_message("ab\"c"),
        "{\"access_token\":\"ab\\\"c\",\"type\":\"auth\"}"
    );
}

#[test]
fn requests_are_numbered_in_order() {
    let mut session = Session::new();
    assert_eq!(
        session.get_states(),
        (1, "{\"id\":1,\"type\":\"get_states\"}".to_string())
    );
    assert_eq!(
        session.subscribe_state_changed(),
        (
            2,
            "{\"event_type\":\"state_changed\",\"id\":2,\"type\":\"subscribe_events\"}".to_string()
        )
    );
    assert_eq!(session.next_id, 2);
}

#[test]
fn numbering_adds_the_number_alone() {
    let mut session = Session::new();
    let mut request = serde_json::Map::new();
    request.insert("type".to_string(), serde_json::Value::from("ping"));
    request.insert("id".to_string(), serde_json::Value::from("stale"));
    assert_eq!(
        session.send(request.clone()),
        (1, "{\"id\":1,\"type\":\"ping\"}".to_string())
    );
    assert_eq!(
        session.send(request),
        (2, "{\"id\":2,\"type\":\"ping\"}".to_string())
    );
    assert_eq!(session.next_id, 2);
}

#[test]
fn a_service_call_names_its_targets() {
    let mut session = Session::new();
    let mut data = serde_json::Map::new();
    data.insert("temperature".to_string(), serde_json::Value::from(21));
    let (id, text) = session.call_service(ServiceCall {
        domain: "climate".to_string(),
        service: "set_temperature".to_string(),
        entity_ids: vec!["climate.a".to_string(), "climate.b".to_string()],
        data: serde_json::Value::from(data),
    });
    assert_eq!(id, 1);
    assert_eq!(
        text,
        "{\"domain\":\"climate\",\"id\":1,\"service\":\"set_temperature\",\
         \"service_data\":{\"temperature\":21},\
         \"target\":{\"entity_id\":[\"climate.a\",\"climate.b\"]},\
         \"type\":\"call_service\"}"
    );
}
