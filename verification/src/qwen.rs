//! The Qwen (DashScope) realtime ASR protocol: JSON client events, and the
//! interpretation of the server's JSON events.
use vstd::prelude::*;
use std::collections::VecDeque;
use crate::asr::{event_result, 
    AsrConfig, AsrError, AsrErrorV, AsrEvent, AsrEventV, Incoming, is_uuid_v4_text, new_uuid_v4,
};
use crate::codec::{base64_encode, base64_standard};
use crate::json::{
    Json, JsonNumber, JsonNumberV, JsonV, elements_model, field, json_decoded, json_encoded, json_rendered, json_str,
    json_to_string, json_uint, lemma_array_model, lemma_object_model, member, members_model, opt_array,
    opt_as_str, opt_field, opt_get, opt_model, opt_str, parse_json, short_decimal, text_or, writable,
};
use crate::text::{concat2, concat3, owned, str_eq};

verus! {

/// Server VAD threshold (between 0 and 1), as JSON writes it.
pub open spec fn vad_threshold_text() -> Seq<char> {
    "0.5"@
}

/// Silence, in milliseconds, before speech is considered ended.
pub const VAD_SILENCE_DURATION_MS: u32 = 400;

/// Audio, in milliseconds, retained before speech onset.
pub const VAD_PREFIX_PADDING_MS: u32 = 100;

// ─── Client events ─────────────────────────────────────────────────

/// A client event; its JSON form has the members `event_id`, `type`, then `audio` and
/// `session` when present.
#[derive(Debug, PartialEq, Eq)]
pub struct ClientEvent {
    pub event_id: String,
    pub event_type: String,
    pub audio: Option<String>,
    pub session: Option<Json>,
}

/// The JSON document of a client event.
pub open spec fn client_event_doc(e: ClientEvent) -> JsonV {
    JsonV::Object(
        seq![("event_id"@, JsonV::Str(e.event_id@)), ("type"@, JsonV::Str(e.event_type@))] + match e.audio {
            Some(a) => seq![("audio"@, JsonV::Str(a@))],
            None => Seq::empty(),
        } + match e.session {
            Some(s) => seq![("session"@, s.model())],
            None => Seq::empty(),
        },
    )
}

/// An event identifier: `event_` followed by a version-4 UUID.
pub open spec fn is_event_id(t: Seq<char>) -> bool {
    t.len() == 42 && t.subrange(0, 6) == "event_"@ && is_uuid_v4_text(t.subrange(6, 42))
}

/// The language of a session: the configured one, or `zh`.
pub open spec fn session_language(c: AsrConfig) -> Seq<char> {
    match c.language {
        Some(l) => l@,
        None => "zh"@,
    }
}

/// The `session` document of a `session.update` event, members in key order.
pub open spec fn session_doc(c: AsrConfig) -> JsonV {
    JsonV::Object(seq![
        ("input_audio_format"@, JsonV::Str("pcm"@)),
        ("input_audio_transcription"@, JsonV::Object(seq![
            ("language"@, JsonV::Str(session_language(c))),
            ("model"@, JsonV::Str(c.app_key@)),
        ])),
        ("modalities"@, JsonV::Array(seq![JsonV::Str("text"@)])),
        ("sample_rate"@, JsonV::Number(JsonNumberV::PosInt(c.sample_rate_hz as u64))),
        ("turn_detection"@, JsonV::Object(seq![
            ("prefix_padding_ms"@, JsonV::Number(JsonNumberV::PosInt(VAD_PREFIX_PADDING_MS as u64))),
            ("silence_duration_ms"@, JsonV::Number(JsonNumberV::PosInt(VAD_SILENCE_DURATION_MS as u64))),
            ("threshold"@, JsonV::Number(JsonNumberV::Float(vad_threshold_text()))),
            ("type"@, JsonV::Str("server_vad"@)),
        ])),
    ])
}

fn event_id() -> (r: String)
    ensures
        is_event_id(r@),
{
    let u = new_uuid_v4();
    let r = concat2("event_", u.as_str());
    proof {
        reveal_strlit("event_");
        assert(r@.subrange(0, 6) =~= "event_"@);
        assert(r@.subrange(6, 42) =~= u@);
    }
    r
}

proof fn lemma_session_writable(c: AsrConfig)
    ensures
        writable(session_doc(c)),
{
    reveal_strlit("0.5");
    let t = vad_threshold_text();
    assert(t[1] == '.');
    assert(short_decimal(t));
    let lang = seq![("language"@, JsonV::Str(session_language(c))), ("model"@, JsonV::Str(c.app_key@))];
    assert forall|i: int| 0 <= i < lang.len() implies writable(#[trigger] lang[i].1) by {}
    let mods = seq![JsonV::Str("text"@)];
    assert(writable(mods[0]));
    let td = seq![
        ("prefix_padding_ms"@, JsonV::Number(JsonNumberV::PosInt(VAD_PREFIX_PADDING_MS as u64))),
        ("silence_duration_ms"@, JsonV::Number(JsonNumberV::PosInt(VAD_SILENCE_DURATION_MS as u64))),
        ("threshold"@, JsonV::Number(JsonNumberV::Float(t))),
        ("type"@, JsonV::Str("server_vad"@)),
    ];
    assert forall|i: int| 0 <= i < td.len() implies writable(#[trigger] td[i].1) by {}
    let top = seq![
        ("input_audio_format"@, JsonV::Str("pcm"@)),
        ("input_audio_transcription"@, JsonV::Object(lang)),
        ("modalities"@, JsonV::Array(mods)),
        ("sample_rate"@, JsonV::Number(JsonNumberV::PosInt(c.sample_rate_hz as u64))),
        ("turn_detection"@, JsonV::Object(td)),
    ];
    assert(writable(JsonV::Object(lang)));
    assert(writable(JsonV::Array(mods)));
    assert(writable(JsonV::Object(td)));
    assert forall|i: int| 0 <= i < top.len() implies writable(#[trigger] top[i].1) by {}
    assert(session_doc(c) == JsonV::Object(top));
}

fn build_session_doc(config: &AsrConfig) -> (j: Json)
    ensures
        j.model() == session_doc(*config),
{
    let language = match &config.language {
        Some(l) => l.clone(),
        None => owned("zh"),
    };
    let mut transcription: Vec<(String, Json)> = Vec::new();
    transcription.push(member("language", Json::Str(language)));
    transcription.push(member("model", Json::Str(config.app_key.clone())));
    let mut modalities: Vec<Json> = Vec::new();
    modalities.push(json_str("text"));
    let mut turn: Vec<(String, Json)> = Vec::new();
    turn.push(member("prefix_padding_ms", json_uint(VAD_PREFIX_PADDING_MS as u64)));
    turn.push(member("silence_duration_ms", json_uint(VAD_SILENCE_DURATION_MS as u64)));
    turn.push(member("threshold", Json::Number(JsonNumber::Float(owned("0.5")))));
    turn.push(member("type", json_str("server_vad")));
    let transcription_j = Json::Object(transcription);
    let modalities_j = Json::Array(modalities);
    let turn_j = Json::Object(turn);
    proof {
        lemma_object_model(transcription);
        lemma_array_model(modalities);
        lemma_object_model(turn);
        assert(members_model(transcription@) =~= seq![
            ("language"@, JsonV::Str(session_language(*config))),
            ("model"@, JsonV::Str(config.app_key@)),
        ]);
        assert(elements_model(modalities@) =~= seq![JsonV::Str("text"@)]);
        assert(members_model(turn@) =~= seq![
            ("prefix_padding_ms"@, JsonV::Number(JsonNumberV::PosInt(VAD_PREFIX_PADDING_MS as u64))),
            ("silence_duration_ms"@, JsonV::Number(JsonNumberV::PosInt(VAD_SILENCE_DURATION_MS as u64))),
            ("threshold"@, JsonV::Number(JsonNumberV::Float(vad_threshold_text()))),
            ("type"@, JsonV::Str("server_vad"@)),
        ]);
    }
    let mut top: Vec<(String, Json)> = Vec::new();
    top.push(member("input_audio_format", json_str("pcm")));
    top.push(member("input_audio_transcription", transcription_j));
    top.push(member("modalities", modalities_j));
    top.push(member("sample_rate", json_uint(config.sample_rate_hz as u64)));
    top.push(member("turn_detection", turn_j));
    proof {
        lemma_object_model(top);
        assert(members_model(top@) =~= seq![
            ("input_audio_format"@, JsonV::Str("pcm"@)),
            ("input_audio_transcription"@, transcription_j.model()),
            ("modalities"@, modalities_j.model()),
            ("sample_rate"@, JsonV::Number(JsonNumberV::PosInt(config.sample_rate_hz as u64))),
            ("turn_detection"@, turn_j.model()),
        ]);
    }
    Json::Object(top)
}

impl ClientEvent {
    /// The JSON document of this event.
    pub fn into_json(self) -> (j: Json)
        ensures
            j.model() == client_event_doc(self),
    {
        let ghost e = self;
        let mut ms: Vec<(String, Json)> = Vec::new();
        ms.push(member("event_id", Json::Str(self.event_id)));
        ms.push(member("type", Json::Str(self.event_type)));
        let ghost base = members_model(ms@);
        assert(base =~= seq![("event_id"@, JsonV::Str(e.event_id@)), ("type"@, JsonV::Str(e.event_type@))]);
        if let Some(a) = self.audio {
            ms.push(member("audio", Json::Str(a)));
        }
        let ghost mid = members_model(ms@);
        assert(mid =~= base + match e.audio {
            Some(a) => seq![("audio"@, JsonV::Str(a@))],
            None => Seq::<(Seq<char>, JsonV)>::empty(),
        });
        if let Some(s) = self.session {
            ms.push(member("session", s));
        }
        proof {
            lemma_object_model(ms);
            assert(members_model(ms@) =~= mid + match e.session {
                Some(s) => seq![("session"@, s.model())],
                None => Seq::<(Seq<char>, JsonV)>::empty(),
            });
        }
        Json::Object(ms)
    }
}

/// The JSON text of a client event, or the protocol error of writing it.
pub open spec fn spec_client_event_text(e: ClientEvent) -> Result<Seq<char>, AsrErrorV> {
    match json_rendered(client_event_doc(e)) {
        Ok(t) => Ok(t),
        Err(m) => Err(AsrErrorV::Protocol("serialize client event: "@ + m)),
    }
}

/// Client events that can be written: the session document, when present, has only
/// writable numbers.
pub open spec fn client_event_writable(e: ClientEvent) -> bool {
    match e.session {
        Some(s) => writable(s.model()),
        None => true,
    }
}

/// What sending a client event amounts to: its JSON text when there is a connection,
/// the writing error, or an error for a missing connection.
pub open spec fn spec_prepare_send(connected: bool, e: ClientEvent) -> Result<Seq<char>, AsrErrorV> {
    match spec_client_event_text(e) {
        Err(m) => Err(m),
        Ok(t) => if connected {
            Ok(t)
        } else {
            Err(AsrErrorV::Connection("not connected"@))
        },
    }
}

/// The model of a text outcome.
pub open spec fn text_result(r: Result<String, AsrError>) -> Result<Seq<char>, AsrErrorV> {
    match r {
        Ok(t) => Ok(t@),
        Err(e) => Err(e@),
    }
}

// ─── Server events ─────────────────────────────────────────────────

/// The first element of an optional array.
pub open spec fn opt_first(o: Option<Seq<JsonV>>) -> Option<JsonV> {
    match o {
        Some(a) => if a.len() > 0 {
            Some(a[0])
        } else {
            None
        },
        None => None,
    }
}

/// The type of a server event, or `unknown`.
pub open spec fn event_type(j: JsonV) -> Seq<char> {
    text_or(opt_str(field(j, "type"@)), "unknown"@)
}

/// The transcript of a completed transcription: `transcript`, else the transcript of the
/// first content of `item`, else empty.
pub open spec fn completed_transcript(j: JsonV) -> Seq<char> {
    match opt_str(field(j, "transcript"@)) {
        Some(t) => t,
        None => text_or(
            opt_str(opt_field(opt_first(opt_array(opt_field(field(j, "item"@), "content"@))), "transcript"@)),
            Seq::empty(),
        ),
    }
}

/// The preview of an in-progress transcription: `text` followed by `stash`.
pub open spec fn transcription_preview(j: JsonV) -> Seq<char> {
    text_or(opt_str(field(j, "text"@)), Seq::empty()) + text_or(opt_str(field(j, "stash"@)), Seq::empty())
}

/// The events a server event yields.
pub open spec fn server_event_events(j: JsonV) -> Seq<AsrEventV> {
    let t = event_type(j);
    if t == "session.updated"@ {
        seq![AsrEventV::Connected]
    } else if t == "conversation.item.input_audio_transcription.text"@ {
        let p = transcription_preview(j);
        if p.len() > 0 {
            seq![AsrEventV::Interim(p)]
        } else {
            Seq::empty()
        }
    } else if t == "conversation.item.input_audio_transcription.completed"@ {
        let c = completed_transcript(j);
        if c.len() > 0 {
            seq![AsrEventV::Definite(c), AsrEventV::Final(c)]
        } else {
            Seq::empty()
        }
    } else if t == "session.finished"@ {
        seq![AsrEventV::Closed]
    } else if t == "error"@ {
        seq![AsrEventV::Error(text_or(opt_str(opt_field(field(j, "error"@), "message"@)), "Unknown error"@))]
    } else {
        Seq::empty()
    }
}

/// The models of events.
pub open spec fn events_model(es: Seq<AsrEvent>) -> Seq<AsrEventV> {
    Seq::new(es.len(), |i: int| es[i]@)
}

/// The outcome of `parse_server_event`.
pub open spec fn spec_parse_server_event(text: Seq<char>) -> Result<Seq<AsrEventV>, AsrErrorV> {
    match json_decoded(vstd::utf8::encode_utf8(text)) {
        Ok(j) => Ok(server_event_events(j)),
        Err(m) => Err(AsrErrorV::Protocol("parse server event: "@ + m)),
    }
}

/// The model of a parse outcome.
pub open spec fn events_result(r: Result<Vec<AsrEvent>, AsrError>) -> Result<Seq<AsrEventV>, AsrErrorV> {
    match r {
        Ok(v) => Ok(events_model(v@)),
        Err(e) => Err(e@),
    }
}

/// The events that a server event document yields.
pub fn server_events(j: &Json) -> (r: Vec<AsrEvent>)
    ensures
        events_model(r@) == server_event_events(j.model()),
{
    let mut events: Vec<AsrEvent> = Vec::new();
    let t = match opt_as_str(j.get("type")) {
        Some(t) => t,
        None => "unknown",
    };
    proof {
        assert(t@ == event_type(j.model()));
    }
    if str_eq(t, "session.updated") {
        events.push(AsrEvent::Connected);
        assert(events_model(events@) =~= seq![AsrEventV::Connected]);
    } else if str_eq(t, "conversation.item.input_audio_transcription.text") {
        let text = match opt_as_str(j.get("text")) {
            Some(x) => x,
            None => "",
        };
        let stash = match opt_as_str(j.get("stash")) {
            Some(x) => x,
            None => "",
        };
        proof {
            reveal_strlit("");
        }
        let preview = concat2(text, stash);
        if !preview.as_str().is_empty() {
            events.push(AsrEvent::Interim(preview));
            assert(events_model(events@) =~= seq![AsrEventV::Interim(transcription_preview(j.model()))]);
        } else {
            assert(events_model(events@) =~= Seq::<AsrEventV>::empty());
        }
    } else if str_eq(t, "conversation.item.input_audio_transcription.completed") {
        let transcript = match opt_as_str(j.get("transcript")) {
            Some(x) => x,
            None => {
                let content = opt_get(j.get("item"), "content");
                let first = match content {
                    Some(c) => match c.as_array() {
                        Some(arr) => if arr.len() > 0 {
                            proof {
                                assert(elements_model(arr@)[0] == arr@[0].model());
                            }
                            Some(&arr[0])
                        } else {
                            None
                        },
                        None => None,
                    },
                    None => None,
                };
                proof {
                    assert(opt_model(first) == opt_first(opt_array(opt_field(field(j.model(), "item"@), "content"@))));
                    reveal_strlit("");
                }
                match opt_as_str(opt_get(first, "transcript")) {
                    Some(x) => x,
                    None => "",
                }
            },
        };
        assert(transcript@ == completed_transcript(j.model()));
        if !transcript.is_empty() {
            events.push(AsrEvent::Definite(owned(transcript)));
            events.push(AsrEvent::Final(owned(transcript)));
            assert(events_model(events@) =~= seq![
                AsrEventV::Definite(transcript@),
                AsrEventV::Final(transcript@),
            ]);
        } else {
            assert(events_model(events@) =~= Seq::<AsrEventV>::empty());
        }
    } else if str_eq(t, "session.finished") {
        events.push(AsrEvent::Closed);
        assert(events_model(events@) =~= seq![AsrEventV::Closed]);
    } else if str_eq(t, "error") {
        let error_msg = match opt_as_str(opt_get(j.get("error"), "message")) {
            Some(m) => m,
            None => "Unknown error",
        };
        events.push(AsrEvent::Error(owned(error_msg)));
        assert(events_model(events@) =~= seq![AsrEventV::Error(error_msg@)]);
    } else {
        assert(events_model(events@) =~= Seq::<AsrEventV>::empty());
    }
    events
}

// ─── Provider ───────────────────────────────────────────────────────

/// What a step of the connection wait decides.
#[derive(Debug, Clone, PartialEq, Eq)]
pub enum ConnectStep {
    /// The session is configured; connecting is done.
    Ready,
    /// Keep waiting for `session.updated`.
    Wait,
    /// Connecting failed.
    Fail(AsrError),
}

/// The model of a connection-wait step.
pub enum ConnectStepV {
    Ready,
    Wait,
    Fail(AsrErrorV),
}

impl View for ConnectStep {
    type V = ConnectStepV;

    open spec fn view(&self) -> ConnectStepV {
        match self {
            ConnectStep::Ready => ConnectStepV::Ready,
            ConnectStep::Wait => ConnectStepV::Wait,
            ConnectStep::Fail(e) => ConnectStepV::Fail(e@),
        }
    }
}

/// What an event received while waiting for `session.updated` decides.
pub open spec fn spec_connect_step(e: AsrEventV) -> ConnectStepV {
    match e {
        AsrEventV::Connected => ConnectStepV::Ready,
        AsrEventV::Error(m) => ConnectStepV::Fail(AsrErrorV::Protocol(m)),
        AsrEventV::Closed => ConnectStepV::Fail(AsrErrorV::Connection("connection closed before session.updated"@)),
        _ => ConnectStepV::Wait,
    }
}

/// What the first message after the handshake decides: its text, or why it cannot be the
/// expected text event. `None` stands for a wait that timed out.
pub open spec fn spec_text_event(incoming: Option<Incoming>) -> Result<Seq<char>, AsrErrorV> {
    match incoming {
        None => Err(AsrErrorV::Connection("timeout waiting for server event"@)),
        Some(Incoming::Text(t)) => Ok(t@),
        Some(Incoming::Close(f)) => Err(AsrErrorV::Connection("connection closed unexpectedly: "@ + f@)),
        Some(Incoming::Binary(_)) => Err(AsrErrorV::Connection("expected text message from server"@)),
        Some(Incoming::Other) => Err(AsrErrorV::Connection("expected text message from server"@)),
        Some(Incoming::Failed(e)) => Err(AsrErrorV::Connection("WebSocket error: "@ + e@)),
        Some(Incoming::End) => Err(AsrErrorV::Connection("connection closed"@)),
    }
}

/// Whether the first server event is `session.created`; otherwise its error message, or
/// a default message.
pub open spec fn spec_session_created(j: JsonV) -> Result<(), AsrErrorV> {
    if event_type(j) == "session.created"@ {
        Ok(())
    } else {
        Err(AsrErrorV::Connection(
            text_or(opt_str(opt_field(field(j, "error"@), "message"@)), "expected session.created event"@),
        ))
    }
}

/// The outcome of checking the first server event's text.
pub open spec fn spec_check_session_created(text: Seq<char>) -> Result<(), AsrErrorV> {
    match json_decoded(vstd::utf8::encode_utf8(text)) {
        Err(m) => Err(AsrErrorV::Protocol("parse session.created: "@ + m)),
        Ok(j) => spec_session_created(j),
    }
}

/// The model of a unit outcome.
pub open spec fn unit_result(r: Result<(), AsrError>) -> Result<(), AsrErrorV> {
    match r {
        Ok(()) => Ok(()),
        Err(e) => Err(e@),
    }
}

/// The WebSocket URL of a session, or the error for a missing API key.
pub open spec fn spec_session_url(c: AsrConfig) -> Result<Seq<char>, AsrErrorV> {
    if c.access_key@.len() == 0 {
        Err(AsrErrorV::Connection("api_key is required"@))
    } else {
        Ok(c.url@ + "?model="@ + c.app_key@)
    }
}

/// The `Authorization` header value of a session, or the error when it cannot be a
/// header value.
pub open spec fn spec_authorization(c: AsrConfig) -> Result<Seq<char>, AsrErrorV> {
    let v = "Bearer "@ + c.access_key@;
    if crate::doubao::header_value_ok(v) {
        Ok(v)
    } else {
        Err(AsrErrorV::Connection("invalid api_key"@))
    }
}

/// What a received message yields when no event is pending: the first event it yields
/// (or an empty interim event when it yields none), the rest becoming pending.
/// `None` stands for a missing connection.
pub open spec fn spec_receive(incoming: Option<Incoming>) -> Result<Seq<AsrEventV>, AsrErrorV> {
    match incoming {
        None => Err(AsrErrorV::Connection("not connected"@)),
        Some(Incoming::Text(t)) => spec_parse_server_event(t@),
        Some(Incoming::Close(_)) => Ok(seq![AsrEventV::Closed]),
        Some(Incoming::End) => Ok(seq![AsrEventV::Closed]),
        Some(Incoming::Failed(e)) => Err(AsrErrorV::Protocol(e@)),
        Some(Incoming::Binary(_)) => Ok(seq![AsrEventV::Interim(Seq::empty())]),
        Some(Incoming::Other) => Ok(seq![AsrEventV::Interim(Seq::empty())]),
    }
}

/// Qwen DashScope realtime ASR provider.
///
/// The protocol: wait for `session.created` after connecting, send `session.update` with
/// the configuration, append base64 audio with `input_audio_buffer.append`, and send
/// `session.finish` when the audio ends. The provider holds the session state and
/// decides; the caller holds the WebSocket and performs the I/O.
#[derive(Debug)]
pub struct QwenAsrProvider {
    input_finished: bool,
    pending_events: VecDeque<AsrEvent>,
}

impl QwenAsrProvider {
    /// Whether the end of input has been signalled.
    pub closed spec fn spec_input_finished(&self) -> bool {
        self.input_finished
    }

    /// The events received but not yet delivered, oldest first.
    pub closed spec fn spec_pending(&self) -> Seq<AsrEventV> {
        events_model(self.pending_events@)
    }

    /// A provider for a new session.
    pub fn new() -> (p: Self)
        ensures
            !p.spec_input_finished(),
            p.spec_pending() == Seq::<AsrEventV>::empty(),
    {
        let p = QwenAsrProvider { input_finished: false, pending_events: VecDeque::new() };
        assert(p.spec_pending() =~= Seq::<AsrEventV>::empty());
        p
    }

    /// The `session.update` event that configures the session.
    pub fn build_session_update(config: &AsrConfig) -> (e: ClientEvent)
        ensures
            is_event_id(e.event_id@),
            e.event_type@ == "session.update"@,
            e.audio is None,
            e.session is Some && e.session->0.model() == session_doc(*config),
            client_event_writable(e),
    {
        let session = build_session_doc(config);
        proof {
            lemma_session_writable(*config);
        }
        ClientEvent {
            event_id: event_id(),
            event_type: owned("session.update"),
            audio: None,
            session: Some(session),
        }
    }

    /// The `input_audio_buffer.append` event that carries audio, base64-encoded.
    pub fn build_audio_append(audio_data: &[u8]) -> (e: ClientEvent)
        ensures
            is_event_id(e.event_id@),
            e.event_type@ == "input_audio_buffer.append"@,
            e.audio is Some && e.audio->0@ == base64_standard(audio_data@),
            e.session is None,
            client_event_writable(e),
    {
        ClientEvent {
            event_id: event_id(),
            event_type: owned("input_audio_buffer.append"),
            audio: Some(base64_encode(audio_data)),
            session: None,
        }
    }

    /// The `session.finish` event that ends the audio.
    pub fn build_session_finish() -> (e: ClientEvent)
        ensures
            is_event_id(e.event_id@),
            e.event_type@ == "session.finish"@,
            e.audio is None,
            e.session is None,
            client_event_writable(e),
    {
        ClientEvent { event_id: event_id(), event_type: owned("session.finish"), audio: None, session: None }
    }

    /// The text to send for a client event: its JSON text, when there is a connection
    /// (writing it does not fail).
    pub fn prepare_send(connected: bool, event: ClientEvent) -> (r: Result<String, AsrError>)
        requires
            client_event_writable(event),
        ensures
            text_result(r) == spec_prepare_send(connected, event),
            connected ==> (r matches Ok(t) && json_encoded(client_event_doc(event)) == Ok::<Seq<u8>, Seq<char>>(vstd::utf8::encode_utf8(t@))),
    {
        let ghost e = event;
        let j = event.into_json();
        proof {
            let pre = seq![("event_id"@, JsonV::Str(e.event_id@)), ("type"@, JsonV::Str(e.event_type@))];
            let au: Seq<(Seq<char>, JsonV)> = match e.audio {
                Some(a) => seq![("audio"@, JsonV::Str(a@))],
                None => Seq::empty(),
            };
            let se: Seq<(Seq<char>, JsonV)> = match e.session {
                Some(s) => seq![("session"@, s.model())],
                None => Seq::empty(),
            };
            let all = pre + au + se;
            assert forall|i: int| 0 <= i < all.len() implies writable(#[trigger] all[i].1) by {
                if i >= pre.len() + au.len() {
                    assert(all[i] == se[i - pre.len() - au.len()]);
                } else if i >= pre.len() {
                    assert(all[i] == au[i - pre.len()]);
                }
            }
            assert(client_event_doc(e) == JsonV::Object(all));
        }
        let text = match json_to_string(&j) {
            Ok(t) => t,
            Err(m) => return Err(AsrError::Protocol(concat2("serialize client event: ", m.as_str()))),
        };
        if connected {
            Ok(text)
        } else {
            Err(AsrError::Connection(owned("not connected")))
        }
    }

    /// Parses a server event and returns the events it yields.
    pub fn parse_server_event(&mut self, text: &str) -> (r: Result<Vec<AsrEvent>, AsrError>)
        ensures
            events_result(r) == spec_parse_server_event(text@),
            final(self).spec_pending() == old(self).spec_pending(),
            final(self).spec_input_finished() == old(self).spec_input_finished(),
    {
        match parse_json(text.as_bytes()) {
            Ok(j) => Ok(server_events(&j)),
            Err(m) => Err(AsrError::Protocol(concat2("parse server event: ", m.as_str()))),
        }
    }

    /// The WebSocket URL of the session, after checking that an API key is configured.
    pub fn session_url(config: &AsrConfig) -> (r: Result<String, AsrError>)
        ensures
            text_result(r) == spec_session_url(*config),
    {
        if config.access_key.as_str().is_empty() {
            return Err(AsrError::Connection(owned("api_key is required")));
        }
        Ok(concat3(config.url.as_str(), "?model=", config.app_key.as_str()))
    }

    /// The `Authorization` header value of the session.
    pub fn authorization(config: &AsrConfig) -> (r: Result<String, AsrError>)
        ensures
            text_result(r) == spec_authorization(*config),
    {
        let v = concat2("Bearer ", config.access_key.as_str());
        if crate::doubao::is_header_value(v.as_str()) {
            Ok(v)
        } else {
            Err(AsrError::Connection(owned("invalid api_key")))
        }
    }

    /// Reads the text of the first message after the handshake.
    pub fn text_event(incoming: Option<Incoming>) -> (r: Result<String, AsrError>)
        ensures
            text_result(r) == spec_text_event(incoming),
    {
        match incoming {
            None => Err(AsrError::Connection(owned("timeout waiting for server event"))),
            Some(Incoming::Text(t)) => Ok(t),
            Some(Incoming::Close(f)) => Err(AsrError::Connection(concat2("connection closed unexpectedly: ", f.as_str()))),
            Some(Incoming::Binary(_)) => Err(AsrError::Connection(owned("expected text message from server"))),
            Some(Incoming::Other) => Err(AsrError::Connection(owned("expected text message from server"))),
            Some(Incoming::Failed(e)) => Err(AsrError::Connection(concat2("WebSocket error: ", e.as_str()))),
            Some(Incoming::End) => Err(AsrError::Connection(owned("connection closed"))),
        }
    }

    /// Checks that the first server event is `session.created`.
    pub fn check_session_created(text: &str) -> (r: Result<(), AsrError>)
        ensures
            unit_result(r) == spec_check_session_created(text@),
    {
        let j = match parse_json(text.as_bytes()) {
            Ok(j) => j,
            Err(m) => return Err(AsrError::Protocol(concat2("parse session.created: ", m.as_str()))),
        };
        let t = match opt_as_str(j.get("type")) {
            Some(t) => t,
            None => "unknown",
        };
        if !str_eq(t, "session.created") {
            let msg = match opt_as_str(opt_get(j.get("error"), "message")) {
                Some(m) => m,
                None => "expected session.created event",
            };
            return Err(AsrError::Connection(owned(msg)));
        }
        Ok(())
    }

    /// Decides on an event received while waiting for `session.updated`.
    pub fn connect_step(event: AsrEvent) -> (s: ConnectStep)
        ensures
            s@ == spec_connect_step(event@),
    {
        match event {
            AsrEvent::Connected => ConnectStep::Ready,
            AsrEvent::Error(m) => ConnectStep::Fail(AsrError::Protocol(m)),
            AsrEvent::Closed => ConnectStep::Fail(AsrError::Connection(owned("connection closed before session.updated"))),
            _ => ConnectStep::Wait,
        }
    }

    /// The event that carries an audio frame; an empty frame is not sent.
    pub fn audio_event(frame: &[u8]) -> (e: Option<ClientEvent>)
        ensures
            frame@.len() == 0 <==> e is None,
            e matches Some(ev) ==> ev.event_type@ == "input_audio_buffer.append"@ && ev.audio is Some
                && ev.audio->0@ == base64_standard(frame@) && ev.session is None && client_event_writable(ev)
                && is_event_id(ev.event_id@),
    {
        if frame.len() == 0 {
            return None;
        }
        Some(Self::build_audio_append(frame))
    }

    /// Marks the input as finished; the first time, returns the `session.finish` event to
    /// send, afterwards nothing.
    pub fn begin_finish(&mut self) -> (e: Option<ClientEvent>)
        ensures
            final(self).spec_input_finished(),
            final(self).spec_pending() == old(self).spec_pending(),
            old(self).spec_input_finished() <==> e is None,
            e matches Some(ev) ==> ev.event_type@ == "session.finish"@ && ev.audio is None && ev.session is None
                && is_event_id(ev.event_id@),
    {
        if self.input_finished {
            return None;
        }
        self.input_finished = true;
        Some(Self::build_session_finish())
    }

    /// Takes the oldest pending event, if any.
    pub fn pop_pending(&mut self) -> (e: Option<AsrEvent>)
        ensures
            final(self).spec_input_finished() == old(self).spec_input_finished(),
            match e {
                Some(ev) => old(self).spec_pending().len() > 0 && ev@ == old(self).spec_pending()[0]
                    && final(self).spec_pending() == old(self).spec_pending().drop_first(),
                None => old(self).spec_pending().len() == 0 && final(self).spec_pending() == old(self).spec_pending(),
            },
    {
        let ghost before = self.pending_events@;
        let e = self.pending_events.pop_front();
        proof {
            if e is Some {
                assert(events_model(self.pending_events@) =~= events_model(before).drop_first());
            }
        }
        e
    }

    /// Takes in a received message: the events it yields join the pending ones, and the
    /// oldest pending event is returned (an empty interim event when there is none).
    pub fn receive(&mut self, incoming: Option<Incoming>) -> (r: Result<AsrEvent, AsrError>)
        ensures
            final(self).spec_input_finished() == old(self).spec_input_finished(),
            match spec_receive(incoming) {
                Err(m) => r matches Err(e) && e@ == m && final(self).spec_pending() == old(self).spec_pending(),
                Ok(evs) => {
                    let all = old(self).spec_pending() + evs;
                    r matches Ok(ev) && if all.len() > 0 {
                        ev@ == all[0] && final(self).spec_pending() == all.drop_first()
                    } else {
                        ev@ == AsrEventV::Interim(Seq::empty()) && final(self).spec_pending() == all
                    }
                },
            },
    {
        let ghost inc = incoming;
        let events: Vec<AsrEvent> = match incoming {
            None => return Err(AsrError::Connection(owned("not connected"))),
            Some(Incoming::Text(text)) => self.parse_server_event(text.as_str())?,
            Some(Incoming::Close(_)) => {
                let mut v = Vec::new();
                v.push(AsrEvent::Closed);
                v
            },
            Some(Incoming::End) => {
                let mut v = Vec::new();
                v.push(AsrEvent::Closed);
                v
            },
            Some(Incoming::Failed(e)) => return Err(AsrError::Protocol(e)),
            Some(Incoming::Binary(_)) => {
                let mut v = Vec::new();
                v.push(AsrEvent::Interim(String::new()));
                v
            },
            Some(Incoming::Other) => {
                let mut v = Vec::new();
                v.push(AsrEvent::Interim(String::new()));
                v
            },
        };
        let ghost evs = events_model(events@);
        proof {
            match inc {
                Some(Incoming::Text(_)) => {},
                Some(Incoming::Binary(_)) => {
                    assert(evs =~= seq![AsrEventV::Interim(Seq::empty())]);
                },
                Some(Incoming::Other) => {
                    assert(evs =~= seq![AsrEventV::Interim(Seq::empty())]);
                },
                _ => {
                    assert(evs =~= seq![AsrEventV::Closed]);
                },
            }
            assert(spec_receive(inc) == Ok::<Seq<AsrEventV>, AsrErrorV>(evs));
        }
        let ghost start = self.spec_pending();
        let mut events = events;
        assert(evs.subrange(0, 0) =~= Seq::<AsrEventV>::empty());
        assert(events_model(events@) =~= evs.subrange(0, evs.len() as int));
        // Move the events into the queue, keeping their order.
        while events.len() > 0
            invariant
                events@.len() <= evs.len(),
                events_model(events@) == evs.subrange(evs.len() - events@.len(), evs.len() as int),
                self.spec_pending() == start + evs.subrange(0, evs.len() - events@.len()),
                self.spec_input_finished() == old(self).spec_input_finished(),
            decreases events@.len(),
        {
            let ghost before_events = events@;
            let ghost before_q = self.pending_events@;
            let ghost k: int = evs.len() - events@.len();
            let e = events.remove(0);
            proof {
                assert(events@ =~= before_events.subrange(1, before_events.len() as int));
                assert(events_model(before_events)[0] == e@);
                assert(evs[k] == e@);
                assert forall|j: int| 0 <= j < events@.len() implies events_model(events@)[j] == evs.subrange(k + 1, evs.len() as int)[j] by {
                    assert(events@[j] == before_events[j + 1]);
                    assert(events_model(before_events)[j + 1] == evs.subrange(k, evs.len() as int)[j + 1]);
                }
                assert(events_model(events@) =~= evs.subrange(k + 1, evs.len() as int));
            }
            self.pending_events.push_back(e);
            proof {
                assert(events_model(self.pending_events@) =~= events_model(before_q).push(e@));
                assert(evs.subrange(0, k + 1) =~= evs.subrange(0, k).push(evs[k]));
            }
        }
        assert(evs.subrange(0, evs.len() as int) =~= evs);
        let ghost all = self.pending_events@;
        match self.pending_events.pop_front() {
            Some(e) => {
                proof {
                    assert(events_model(self.pending_events@) =~= events_model(all).drop_first());
                }
                Ok(e)
            },
            None => Ok(AsrEvent::Interim(String::new())),
        }
    }
}

impl QwenAsrProvider {
    /// Whether the next event must come from the socket: no received event is pending.
    pub fn needs_read(&self) -> (r: bool)
        ensures
            r == (self.spec_pending().len() == 0),
    {
        self.pending_events.len() == 0
    }

    /// The next event: the oldest pending one, when there is one, without reading;
    /// otherwise what the received message yields (see `receive`). `incoming` is what was
    /// read from the socket (`None` when there is no connection); it is used only when
    /// nothing is pending.
    pub fn next_event(&mut self, incoming: Option<Incoming>) -> (r: Result<AsrEvent, AsrError>)
        ensures
            final(self).spec_input_finished() == old(self).spec_input_finished(),
            (event_result(r), final(self).spec_pending()) == spec_next_event(old(self).spec_pending(), incoming),
    {
        match self.pop_pending() {
            Some(e) => Ok(e),
            None => self.receive(incoming),
        }
    }
}

impl Default for QwenAsrProvider {
    fn default() -> (p: Self)
        ensures
            !p.spec_input_finished(),
            p.spec_pending() == Seq::<AsrEventV>::empty(),
    {
        Self::new()
    }
}


/// The next event and the events left pending, from the pending events and what was
/// read: the oldest pending event when there is one; otherwise the first event the
/// message yields (an empty interim event when it yields none), the others left pending.
pub open spec fn spec_next_event(pending: Seq<AsrEventV>, incoming: Option<Incoming>) -> (Result<AsrEventV, AsrErrorV>, Seq<AsrEventV>) {
    if pending.len() > 0 {
        (Ok(pending[0]), pending.drop_first())
    } else {
        match spec_receive(incoming) {
            Err(m) => (Err(m), pending),
            Ok(evs) => if evs.len() > 0 {
                (Ok(evs[0]), evs.drop_first())
            } else {
                (Ok(AsrEventV::Interim(Seq::empty())), evs)
            },
        }
    }
}

/// Pending events come first, in the order received, and nothing is read while any is
/// pending; with none pending and no connection, the answer is "not connected".
pub proof fn law_pending_events_first(pending: Seq<AsrEventV>, incoming: Option<Incoming>)
    ensures
        pending.len() > 0 ==> spec_next_event(pending, incoming) == (Ok::<AsrEventV, AsrErrorV>(pending[0]), pending.drop_first()),
        pending.len() > 0 ==> spec_next_event(pending, incoming) == spec_next_event(pending, None),
        pending.len() == 0 ==> spec_next_event(pending, None) == (Err::<AsrEventV, AsrErrorV>(AsrErrorV::Connection("not connected"@)), pending),
{
}

/// A completed transcript, received with nothing pending, is delivered over two
/// calls: first as definite text, then, without reading again, as the final text.
pub proof fn law_completed_transcript_in_two_calls(incoming: Option<Incoming>, t: Seq<char>, later: Option<Incoming>)
    requires
        incoming matches Some(Incoming::Text(s)) && spec_parse_server_event(s@) == Ok::<Seq<AsrEventV>, AsrErrorV>(
            seq![AsrEventV::Definite(t), AsrEventV::Final(t)],
        ),
    ensures
        ({
            let (first, rest) = spec_next_event(Seq::empty(), incoming);
            let (second, left) = spec_next_event(rest, later);
            &&& first == Ok::<AsrEventV, AsrErrorV>(AsrEventV::Definite(t))
            &&& second == Ok::<AsrEventV, AsrErrorV>(AsrEventV::Final(t))
            &&& left.len() == 0
        }),
{
    let evs = seq![AsrEventV::Definite(t), AsrEventV::Final(t)];
    assert(evs.drop_first() =~= seq![AsrEventV::Final(t)]);
    assert(evs.drop_first().drop_first().len() == 0);
}


/// A string member of an event, or empty text when it is absent or not a string.
pub open spec fn string_member(j: JsonV, key: Seq<char>) -> Seq<char> {
    match field(j, key) {
        Some(JsonV::Str(t)) => t,
        _ => Seq::empty(),
    }
}

/// A transcription-text event yields one interim event whose text is `text` followed by
/// `stash` whenever that is not empty (also when `text` is empty and only `stash` is
/// not), and nothing when both are empty.
pub proof fn law_transcription_text_preview(j: JsonV)
    requires
        field(j, "type"@) == Some(JsonV::Str("conversation.item.input_audio_transcription.text"@)),
    ensures
        ({
            let preview = string_member(j, "text"@) + string_member(j, "stash"@);
            &&& preview.len() > 0 ==> server_event_events(j) == seq![AsrEventV::Interim(preview)]
            &&& preview.len() == 0 ==> server_event_events(j) == Seq::<AsrEventV>::empty()
        }),
{
    reveal_strlit("session.updated");
    reveal_strlit("conversation.item.input_audio_transcription.text");
    assert("session.updated"@[0] != "conversation.item.input_audio_transcription.text"@[0]);
    assert(string_member(j, "text"@) == text_or(opt_str(field(j, "text"@)), Seq::empty()));
    assert(string_member(j, "stash"@) == text_or(opt_str(field(j, "stash"@)), Seq::empty()));
}

} // verus!
