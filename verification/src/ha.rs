//! The Home Assistant WebSocket protocol: authentication, the request for all
//! states, the event subscription, and service calls.
//!
//! Messages arrive here already read into types; this module decides what each
//! of them means for the conversation, and words the messages that go out. A
//! message that means nothing here is passed over, never acted on.
use crate::json::{
    content, count_value, fields, json_text, list_value, new_object, no_fields, object_value,
    render, set_field, text_value, JsonData,
};
use crate::text::same;
use serde_json::Value;
use vstd::prelude::*;

verus! {

/// A message from the server.
#[derive(Debug)]
pub enum ServerMsg {
    AuthRequired,
    AuthOk,
    AuthInvalid { message: String },
    Result { id: u64, success: bool },
    Event { event_type: String },
    Pong,
    /// A message of a kind that this conversation does not know.
    Unknown,
}

/// The event that reports a state change.
pub const STATE_CHANGED: &'static str = "state_changed";

/// How far authentication has come.
#[derive(Clone, Copy, Debug, PartialEq, Eq, Structural)]
pub enum Phase {
    /// The connection is open; the server speaks first.
    Greeting,
    /// The token has been sent.
    Authenticating,
}

/// What to do about a message during authentication.
#[derive(Debug)]
pub enum Handshake {
    /// Send the token, and go on to [`Phase::Authenticating`].
    SendToken,
    /// The conversation can begin.
    Authenticated,
    /// Give up: the server did not ask for authentication.
    NotGreeted,
    /// Give up: the server turned the token down, with this message.
    Rejected { message: String },
    /// Give up: the server neither took the token nor turned it down.
    NotAnswered,
}

/// What a message means during authentication.
pub open spec fn greeted(phase: Phase, msg: ServerMsg) -> Handshake {
    match (phase, msg) {
        (Phase::Greeting, ServerMsg::AuthRequired) => Handshake::SendToken,
        (Phase::Greeting, _) => Handshake::NotGreeted,
        (Phase::Authenticating, ServerMsg::AuthOk) => Handshake::Authenticated,
        (Phase::Authenticating, ServerMsg::AuthInvalid { message }) => Handshake::Rejected {
            message,
        },
        (Phase::Authenticating, _) => Handshake::NotAnswered,
    }
}

/// One step of authentication.
pub fn handshake(phase: Phase, msg: &ServerMsg) -> (step: Handshake)
    ensures
        step == greeted(phase, *msg),
{
    match (phase, msg) {
        (Phase::Greeting, ServerMsg::AuthRequired) => Handshake::SendToken,
        (Phase::Greeting, _) => Handshake::NotGreeted,
        (Phase::Authenticating, ServerMsg::AuthOk) => Handshake::Authenticated,
        (Phase::Authenticating, ServerMsg::AuthInvalid { message }) => Handshake::Rejected {
            message: message.clone(),
        },
        (Phase::Authenticating, _) => Handshake::NotAnswered,
    }
}

/// What a message means to someone who waits for all states.
#[derive(Clone, Copy, Debug, PartialEq, Eq, Structural)]
pub enum StatesReply {
    /// Not the reply; go on waiting.
    NotYet,
    /// The server could not answer.
    Failed,
    /// The reply, with the states in it.
    Ready,
}

/// What a message means to someone who waits for the reply to request `id`.
pub open spec fn awaited(id: u64, msg: ServerMsg) -> StatesReply {
    if msg == (ServerMsg::Result { id, success: true }) {
        StatesReply::Ready
    } else if msg == (ServerMsg::Result { id, success: false }) {
        StatesReply::Failed
    } else {
        StatesReply::NotYet
    }
}

/// Looks for the reply to the request for all states. Only the result with the
/// request's own number is the reply.
pub fn states_reply(id: u64, msg: &ServerMsg) -> (reply: StatesReply)
    ensures
        reply == awaited(id, *msg),
{
    match msg {
        ServerMsg::Result { id: result_id, success } => if *result_id != id {
            StatesReply::NotYet
        } else if *success {
            StatesReply::Ready
        } else {
            StatesReply::Failed
        },
        _ => StatesReply::NotYet,
    }
}

/// What a message means to someone who follows state changes.
#[derive(Clone, Copy, Debug, PartialEq, Eq, Structural)]
pub enum Followed {
    /// A state changed; the event's data say which.
    Change,
    /// The request with this number failed, which is worth a warning.
    CallFailed { id: u64 },
    /// A request went through.
    CallDone,
    /// Nothing to do with state changes.
    Unrelated,
}

/// What a message means to someone who follows state changes.
pub open spec fn followed(msg: ServerMsg) -> Followed {
    match msg {
        ServerMsg::Event { event_type } => if event_type@ == STATE_CHANGED@ {
            Followed::Change
        } else {
            Followed::Unrelated
        },
        ServerMsg::Result { id, success } => if success {
            Followed::CallDone
        } else {
            Followed::CallFailed { id }
        },
        _ => Followed::Unrelated,
    }
}

/// Sorts a message while following state changes.
pub fn follow(msg: &ServerMsg) -> (meaning: Followed)
    ensures
        meaning == followed(*msg),
{
    match msg {
        ServerMsg::Event { event_type } => if same(event_type.as_str(), STATE_CHANGED) {
            Followed::Change
        } else {
            Followed::Unrelated
        },
        ServerMsg::Result { id, success } => if *success {
            Followed::CallDone
        } else {
            Followed::CallFailed { id: *id }
        },
        _ => Followed::Unrelated,
    }
}

/// A state change: the entity, and its new state.
pub type StateChange = (String, String);

/// The change that an event's data report. An entity without a new state was
/// removed, which is no change to follow.
pub fn reported_change(entity_id: String, new_state: Option<String>) -> (change: Option<StateChange>)
    ensures
        change == (match new_state {
            Some(state) => Some((entity_id, state)),
            None => None,
        }),
{
    match new_state {
        Some(state) => Some((entity_id, state)),
        None => None,
    }
}

/// What came off the socket.
#[derive(Clone, Copy, Debug, PartialEq, Eq, Structural)]
pub enum Frame {
    Text,
    Ping,
    Pong,
    Close,
    Other,
    /// Reading failed.
    Broken,
    /// There is nothing more to read.
    Ended,
}

/// What to do about it.
#[derive(Clone, Copy, Debug, PartialEq, Eq, Structural)]
pub enum FrameStep {
    /// Hand the text on.
    Deliver,
    /// Read on.
    Skip,
    /// Read on, with a note.
    Note,
    /// Give up on the connection.
    Disconnect,
}

/// Decides what to do about a frame: text is handed on, the end of the
/// connection in any form gives up on it, and everything else is passed over.
pub fn frame_step(frame: Frame) -> (step: FrameStep)
    ensures
        step == FrameStep::Deliver <==> frame == Frame::Text,
        step == FrameStep::Skip <==> frame == Frame::Ping || frame == Frame::Pong,
        step == FrameStep::Note <==> frame == Frame::Other,
        step == FrameStep::Disconnect <==> frame == Frame::Close || frame == Frame::Broken || frame
            == Frame::Ended,
{
    match frame {
        Frame::Text => FrameStep::Deliver,
        Frame::Ping | Frame::Pong => FrameStep::Skip,
        Frame::Other => FrameStep::Note,
        Frame::Close | Frame::Broken | Frame::Ended => FrameStep::Disconnect,
    }
}

/// The message that carries the access token.
pub open spec fn auth_data(token: Seq<char>) -> JsonData {
    JsonData::Object(
        no_fields().insert("type"@, JsonData::Text("auth"@)).insert(
            "access_token"@,
            JsonData::Text(token),
        ),
    )
}

/// Words the message that carries the access token.
pub fn auth_message(token: &str) -> (text: String)
    ensures
        text@ == json_text(auth_data(token@)),
{
    let mut object = new_object();
    set_field(&mut object, "type", text_value("auth"));
    set_field(&mut object, "access_token", text_value(token));
    render(&object_value(object))
}

/// A request, given the number `id`.
pub open spec fn numbered(request: Map<Seq<char>, JsonData>, id: u64) -> JsonData {
    JsonData::Object(request.insert("id"@, JsonData::Count(id as nat)))
}

/// The request for all states.
pub open spec fn get_states_data(id: u64) -> JsonData {
    numbered(no_fields().insert("type"@, JsonData::Text("get_states"@)), id)
}

/// The request to be told of state changes.
pub open spec fn subscription_data(id: u64) -> JsonData {
    numbered(
        no_fields().insert("type"@, JsonData::Text("subscribe_events"@)).insert(
            "event_type"@,
            JsonData::Text(STATE_CHANGED@),
        ),
        id,
    )
}

/// A call of a Home Assistant service on some entities.
#[derive(Debug)]
pub struct ServiceCall {
    pub domain: String,
    pub service: String,
    pub entity_ids: Vec<String>,
    pub data: Value,
}

/// The request that makes a service call.
pub open spec fn service_call_data(id: u64, call: ServiceCall) -> JsonData {
    let target = no_fields().insert(
        "entity_id"@,
        JsonData::List(call.entity_ids@.map_values(|entity: String| JsonData::Text(entity@))),
    );
    numbered(
        no_fields().insert("type"@, JsonData::Text("call_service"@)).insert(
            "domain"@,
            JsonData::Text(call.domain@),
        ).insert("service"@, JsonData::Text(call.service@)).insert(
            "target"@,
            JsonData::Object(target),
        ).insert("service_data"@, content(call.data)),
        id,
    )
}

/// The numbering of requests in one conversation.
#[derive(Debug)]
pub struct Session {
    /// The number of the last request; zero before the first.
    pub next_id: u64,
}

impl Session {
    /// This is the numbering right after one more request than `earlier`.
    pub open spec fn succeeds(self, earlier: Session) -> bool {
        self.next_id == earlier.next_id + 1
    }

    pub fn new() -> (session: Session)
        ensures
            session.next_id == 0,
    {
        Session { next_id: 0 }
    }

    /// Numbers a request, one above the last. Returns the number and the text: the
    /// request with that number, and otherwise as it is.
    pub fn send(&mut self, payload: serde_json::Map<String, Value>) -> (sent: (u64, String))
        requires
            old(self).next_id < u64::MAX,
        ensures
            final(self).succeeds(*old(self)),
            sent.0 == final(self).next_id,
            sent.1@ == json_text(numbered(fields(payload), sent.0)),
    {
        let mut payload = payload;
        self.next_id = self.next_id + 1;
        set_field(&mut payload, "id", count_value(self.next_id));
        (self.next_id, render(&object_value(payload)))
    }

    /// Asks for all states. Returns the number of the request and its text.
    pub fn get_states(&mut self) -> (sent: (u64, String))
        requires
            old(self).next_id < u64::MAX,
        ensures
            final(self).succeeds(*old(self)),
            sent.0 == final(self).next_id,
            sent.1@ == json_text(get_states_data(sent.0)),
    {
        let mut object = new_object();
        set_field(&mut object, "type", text_value("get_states"));
        self.send(object)
    }

    /// Asks to be told of state changes. Returns the number of the request and
    /// its text.
    pub fn subscribe_state_changed(&mut self) -> (sent: (u64, String))
        requires
            old(self).next_id < u64::MAX,
        ensures
            final(self).succeeds(*old(self)),
            sent.0 == final(self).next_id,
            sent.1@ == json_text(subscription_data(sent.0)),
    {
        let mut object = new_object();
        set_field(&mut object, "type", text_value("subscribe_events"));
        set_field(&mut object, "event_type", text_value(STATE_CHANGED));
        self.send(object)
    }

    /// Calls a service. Returns the number of the request and its text.
    pub fn call_service(&mut self, call: ServiceCall) -> (sent: (u64, String))
        requires
            old(self).next_id < u64::MAX,
        ensures
            final(self).succeeds(*old(self)),
            sent.0 == final(self).next_id,
            sent.1@ == json_text(service_call_data(sent.0, call)),
    {
        let mut entities: Vec<Value> = Vec::new();
        let mut i: usize = 0;
        while i < call.entity_ids.len()
            invariant
                i <= call.entity_ids.len(),
                entities@.len() == i,
                forall|k: int|
                    0 <= k < i ==> content(#[trigger] entities@[k]) == JsonData::Text(
                        call.entity_ids@[k]@,
                    ),
            decreases call.entity_ids.len() - i,
        {
            entities.push(text_value(call.entity_ids[i].as_str()));
            i = i + 1;
        }
        assert(entities@.map_values(|item: Value| content(item)) =~= call.entity_ids@.map_values(
            |entity: String| JsonData::Text(entity@),
        ));
        let mut target = new_object();
        set_field(&mut target, "entity_id", list_value(entities));
        let mut object = new_object();
        set_field(&mut object, "type", text_value("call_service"));
        set_field(&mut object, "domain", text_value(call.domain.as_str()));
        set_field(&mut object, "service", text_value(call.service.as_str()));
        set_field(&mut object, "target", object_value(target));
        set_field(&mut object, "service_data", call.data);
        self.send(object)
    }
}

/// The conversation begins only after the server has asked for authentication
/// and then taken the token: no other pair of messages leads there.
pub proof fn law_conversation_takes_greeting_and_acceptance(first: ServerMsg, second: ServerMsg)
    ensures
        greeted(Phase::Greeting, first) == Handshake::SendToken && greeted(
            Phase::Authenticating,
            second,
        ) == Handshake::Authenticated <==> first == ServerMsg::AuthRequired && second
            == ServerMsg::AuthOk,
        greeted(Phase::Greeting, first) != Handshake::Authenticated,
{
}

/// An unknown message is never acted on: it is no state change, no reply to any
/// request, and it neither brings the token out nor opens the conversation.
pub proof fn law_unknown_messages_are_never_acted_on(id: u64, phase: Phase)
    ensures
        followed(ServerMsg::Unknown) == Followed::Unrelated,
        awaited(id, ServerMsg::Unknown) == StatesReply::NotYet,
        greeted(phase, ServerMsg::Unknown) == (match phase {
            Phase::Greeting => Handshake::NotGreeted,
            Phase::Authenticating => Handshake::NotAnswered,
        }),
{
}

/// A numbered request carries its number, and is otherwise the request as it was.
pub proof fn law_numbering_adds_the_number_alone(request: Map<Seq<char>, JsonData>, id: u64)
    ensures
        numbered(request, id) matches JsonData::Object(sent) && {
            &&& sent.contains_key("id"@) && sent["id"@] == JsonData::Count(id as nat)
            &&& sent.remove("id"@) == request.remove("id"@)
        },
{
    assert(request.insert("id"@, JsonData::Count(id as nat)).remove("id"@) =~= request.remove(
        "id"@,
    ));
}

/// Requests are numbered from one, each above the one before: after `k` requests
/// of a new conversation the last number is `k`, and later requests have larger
/// numbers.
pub proof fn law_request_numbers_count_up(sessions: Seq<Session>, k: int)
    requires
        0 <= k < sessions.len(),
        sessions[0].next_id == 0,
        forall|i: int, j: int|
            0 <= i && j == i + 1 && j < sessions.len() ==> (#[trigger] sessions[j]).succeeds(
                #[trigger] sessions[i],
            ),
    ensures
        sessions[k].next_id == k,
        forall|j: int| 0 <= j < k ==> (#[trigger] sessions[j]).next_id < sessions[k].next_id,
    decreases k,
{
    if k > 0 {
        law_request_numbers_count_up(sessions, k - 1);
        assert(sessions[k].succeeds(sessions[k - 1]));
    }
}

/// The reply to one request is never taken for the reply to another.
pub proof fn law_reply_belongs_to_one_request(a: u64, b: u64, msg: ServerMsg)
    requires
        a != b,
    ensures
        awaited(a, msg) == StatesReply::NotYet || awaited(b, msg) == StatesReply::NotYet,
{
}

/// What authentication makes of each message: the token goes out exactly on the
/// server's request, the conversation begins exactly on its acceptance, and a
/// rejection is passed on with the server's words; anything else gives up.
pub proof fn law_each_step_of_authentication(msg: ServerMsg, message: String)
    ensures
        greeted(Phase::Greeting, msg) == Handshake::SendToken <==> msg == ServerMsg::AuthRequired,
        greeted(Phase::Greeting, msg) == Handshake::NotGreeted <==> msg != ServerMsg::AuthRequired,
        greeted(Phase::Authenticating, msg) == Handshake::Authenticated <==> msg
            == ServerMsg::AuthOk,
        greeted(Phase::Authenticating, msg) == (Handshake::Rejected { message }) <==> msg == (
        ServerMsg::AuthInvalid { message }),
        greeted(Phase::Authenticating, msg) == Handshake::NotAnswered <==> msg
            != ServerMsg::AuthOk && !(msg is AuthInvalid),
{
}

/// The reply to a request is the result with its number, and says whether the
/// request went through; anything else is no reply.
pub proof fn law_reply_is_the_result_with_the_number(id: u64, other: u64, success: bool)
    ensures
        awaited(id, ServerMsg::Result { id: other, success }) == (if other != id {
            StatesReply::NotYet
        } else if success {
            StatesReply::Ready
        } else {
            StatesReply::Failed
        }),
        forall|msg: ServerMsg|
            !(msg is Result) ==> #[trigger] awaited(id, msg) == StatesReply::NotYet,
{
}

/// Following picks out the events that report a state change, and the failed
/// requests by their numbers.
pub proof fn law_following_picks_out_changes_and_failures(msg: ServerMsg, id: u64)
    ensures
        followed(msg) == Followed::Change <==> msg is Event && msg->event_type@ == "state_changed"@,
        followed(msg) == (Followed::CallFailed { id }) <==> msg == (ServerMsg::Result {
            id,
            success: false,
        }),
        followed(msg) == Followed::CallDone <==> msg is Result && msg->success,
{
}

/// The access token goes out under the name that the server expects, as it is,
/// with the kind of the message and nothing else.
pub proof fn law_token_goes_out_as_it_is(token: Seq<char>)
    ensures
        auth_data(token) matches JsonData::Object(sent) && {
            &&& forall|key: Seq<char>| #[trigger]
                sent.contains_key(key) <==> key == "type"@ || key == "access_token"@
            &&& sent["type"@] == JsonData::Text("auth"@)
            &&& sent["access_token"@] == JsonData::Text(token)
        },
{
    lemma_keys_differ();
}

/// The request for all states says so, and carries its number.
pub proof fn law_states_request(id: u64)
    ensures
        get_states_data(id) matches JsonData::Object(sent) && {
            &&& forall|key: Seq<char>| #[trigger]
                sent.contains_key(key) <==> key == "type"@ || key == "id"@
            &&& sent["type"@] == JsonData::Text("get_states"@)
            &&& sent["id"@] == JsonData::Count(id as nat)
        },
{
    lemma_keys_differ();
}

/// The subscription asks for state changes, and carries its number.
pub proof fn law_subscription_request(id: u64)
    ensures
        subscription_data(id) matches JsonData::Object(sent) && {
            &&& forall|key: Seq<char>| #[trigger]
                sent.contains_key(key) <==> key == "type"@ || key == "event_type"@ || key == "id"@
            &&& sent["type"@] == JsonData::Text("subscribe_events"@)
            &&& sent["event_type"@] == JsonData::Text("state_changed"@)
            &&& sent["id"@] == JsonData::Count(id as nat)
        },
{
    lemma_keys_differ();
}

/// A service call names the service, every target in order and the data as they
/// are, and carries its number.
pub proof fn law_service_request(id: u64, call: ServiceCall)
    ensures
        service_call_data(id, call) matches JsonData::Object(sent) && {
            &&& forall|key: Seq<char>| #[trigger]
                sent.contains_key(key) <==> key == "type"@ || key == "domain"@ || key == "service"@
                    || key == "target"@ || key == "service_data"@ || key == "id"@
            &&& sent["type"@] == JsonData::Text("call_service"@)
            &&& sent["domain"@] == JsonData::Text(call.domain@)
            &&& sent["service"@] == JsonData::Text(call.service@)
            &&& sent["service_data"@] == content(call.data)
            &&& sent["id"@] == JsonData::Count(id as nat)
            &&& sent["target"@] matches JsonData::Object(target) && {
                &&& forall|key: Seq<char>| #[trigger]
                    target.contains_key(key) <==> key == "entity_id"@
                &&& target["entity_id"@] matches JsonData::List(entities) && {
                    &&& entities.len() == call.entity_ids@.len()
                    &&& forall|i: int|
                        0 <= i < entities.len() ==> #[trigger] entities[i] == JsonData::Text(
                            call.entity_ids@[i]@,
                        )
                }
            }
        },
{
    lemma_keys_differ();
}

/// The fields of a request have names of their own.
proof fn lemma_keys_differ()
    ensures
        "type"@ != "access_token"@,
        "type"@ != "id"@,
        "type"@ != "event_type"@,
        "id"@ != "event_type"@,
        "type"@ != "domain"@,
        "type"@ != "service"@,
        "type"@ != "target"@,
        "type"@ != "service_data"@,
        "domain"@ != "service"@,
        "domain"@ != "target"@,
        "domain"@ != "service_data"@,
        "domain"@ != "id"@,
        "service"@ != "target"@,
        "service"@ != "service_data"@,
        "service"@ != "id"@,
        "target"@ != "service_data"@,
        "target"@ != "id"@,
        "service_data"@ != "id"@,
{
    reveal_strlit("type");
    reveal_strlit("access_token");
    reveal_strlit("id");
    reveal_strlit("event_type");
    reveal_strlit("domain");
    reveal_strlit("service");
    reveal_strlit("target");
    reveal_strlit("service_data");
    assert("type"@.len() == 4 && "access_token"@.len() == 12 && "id"@.len() == 2);
    assert("event_type"@.len() == 10 && "domain"@.len() == 6 && "service"@.len() == 7);
    assert("target"@.len() == 6 && "service_data"@.len() == 12);
    assert("domain"@[0] != "target"@[0]);
}

} // verus!
