use koe::asr::{AsrConfig, AsrError, AsrEvent, Incoming};
use koe::qwen::{ConnectStep, QwenAsrProvider};

fn connection(text: &str) -> AsrError {
    AsrError::Connection(text.to_string())
}

fn events(text: &str) -> Vec<AsrEvent> {
    QwenAsrProvider::new().parse_server_event(text).unwrap()
}

#[test]
fn session_update_text() {
    let mut config = AsrConfig::default();
    config.app_key = "qwen3-asr-flash-realtime".to_string();
    config.language = None;
    let e = QwenAsrProvider::build_session_update(&config);
    assert!(e.event_id.starts_with("event_"));
    assert_eq!(e.event_id.len(), 42);
    let id = e.event_id.clone();
    let text = QwenAsrProvider::prepare_send(true, e).unwrap();
    let expected = format!(
        "{{\"event_id\":\"{id}\",\"type\":\"session.update\",\"session\":{{\"input_audio_format\":\"pcm\",\
\"input_audio_transcription\":{{\"language\":\"zh\",\"model\":\"qwen3-asr-flash-realtime\"}},\
\"modalities\":[\"text\"],\"sample_rate\":16000,\"turn_detection\":{{\"prefix_padding_ms\":100,\
\"silence_duration_ms\":400,\"threshold\":0.5,\"type\":\"server_vad\"}}}}}}"
    );
    assert_eq!(text, expected);
}

#[test]
fn session_update_language() {
    let mut config = AsrConfig::default();
    config.language = Some("en".to_string());
    let e = QwenAsrProvider::build_session_update(&config);
    let text = QwenAsrProvider::prepare_send(true, e).unwrap();
    assert!(text.contains("\"language\":\"en\""));
}

#[test]
fn audio_append_is_base64() {
    let e = QwenAsrProvider::build_audio_append(&[1, 2, 3, 4]);
    assert_eq!(e.event_type, "input_audio_buffer.append");
    assert_eq!(e.audio.as_deref(), Some("AQIDBA=="));
    let id = e.event_id.clone();
    let text = QwenAsrProvider::prepare_send(true, e).unwrap();
    assert_eq!(text, format!("{{\"event_id\":\"{id}\",\"type\":\"input_audio_buffer.append\",\"audio\":\"AQIDBA==\"}}"));
    assert!(QwenAsrProvider::audio_event(&[]).is_none());
    assert_eq!(QwenAsrProvider::audio_event(&[0xFF]).unwrap().audio.as_deref(), Some("/w=="));
}

#[test]
fn finish_sent_once() {
    let mut p = QwenAsrProvider::default();
    let e = p.begin_finish().unwrap();
    assert_eq!(e.event_type, "session.finish");
    assert!(p.begin_finish().is_none());
    let id = e.event_id.clone();
    assert_eq!(QwenAsrProvider::prepare_send(true, e).unwrap(), format!("{{\"event_id\":\"{id}\",\"type\":\"session.finish\"}}"));
}

#[test]
fn send_needs_connection() {
    let e = QwenAsrProvider::build_session_finish();
    assert_eq!(QwenAsrProvider::prepare_send(false, e).unwrap_err(), connection("not connected"));
}

#[test]
fn server_event_kinds() {
    assert_eq!(events("{\"type\":\"session.created\"}"), vec![]);
    assert_eq!(events("{\"type\":\"session.updated\"}"), vec![AsrEvent::Connected]);
    assert_eq!(
        events("{\"type\":\"conversation.item.input_audio_transcription.text\",\"text\":\"ab\",\"stash\":\"c\"}"),
        vec![AsrEvent::Interim("abc".to_string())]
    );
    assert_eq!(events("{\"type\":\"conversation.item.input_audio_transcription.text\"}"), vec![]);
    assert_eq!(
        events("{\"type\":\"conversation.item.input_audio_transcription.completed\",\"transcript\":\"done\"}"),
        vec![AsrEvent::Definite("done".to_string()), AsrEvent::Final("done".to_string())]
    );
    assert_eq!(
        events("{\"type\":\"conversation.item.input_audio_transcription.completed\",\"item\":{\"content\":[{\"transcript\":\"nested\"}]}}"),
        vec![AsrEvent::Definite("nested".to_string()), AsrEvent::Final("nested".to_string())]
    );
    assert_eq!(events("{\"type\":\"conversation.item.input_audio_transcription.completed\",\"transcript\":\"\"}"), vec![]);
    assert_eq!(events("{\"type\":\"session.finished\"}"), vec![AsrEvent::Closed]);
    assert_eq!(events("{\"type\":\"error\",\"error\":{\"message\":\"quota\"}}"), vec![AsrEvent::Error("quota".to_string())]);
    assert_eq!(events("{\"type\":\"error\"}"), vec![AsrEvent::Error("Unknown error".to_string())]);
    assert_eq!(events("{\"type\":\"input_audio_buffer.speech_started\"}"), vec![]);
    assert_eq!(events("{}"), vec![]);
}

#[test]
fn server_event_bad_json() {
    match QwenAsrProvider::new().parse_server_event("not json") {
        Err(AsrError::Protocol(m)) => assert!(m.starts_with("parse server event: ")),
        other => panic!("unexpected {other:?}"),
    }
}

#[test]
fn receive_queues_in_order() {
    let mut p = QwenAsrProvider::new();
    assert!(p.pop_pending().is_none());
    let msg = "{\"type\":\"conversation.item.input_audio_transcription.completed\",\"transcript\":\"t\"}";
    assert_eq!(p.receive(Some(Incoming::Text(msg.to_string()))).unwrap(), AsrEvent::Definite("t".to_string()));
    assert_eq!(p.pop_pending(), Some(AsrEvent::Final("t".to_string())));
    assert!(p.pop_pending().is_none());
    assert_eq!(p.receive(Some(Incoming::Text("{\"type\":\"x\"}".to_string()))).unwrap(), AsrEvent::Interim(String::new()));
    assert_eq!(p.receive(Some(Incoming::Binary(vec![1]))).unwrap(), AsrEvent::Interim(String::new()));
    assert_eq!(p.receive(Some(Incoming::Close("c".to_string()))).unwrap(), AsrEvent::Closed);
    assert_eq!(p.receive(Some(Incoming::End)).unwrap(), AsrEvent::Closed);
    assert_eq!(p.receive(Some(Incoming::Failed("e".to_string()))).unwrap_err(), AsrError::Protocol("e".to_string()));
    assert_eq!(p.receive(None).unwrap_err(), connection("not connected"));
}

#[test]
fn connect_checks() {
    let mut config = AsrConfig::default();
    config.url = "wss://dashscope.aliyuncs.com/api-ws/v1/realtime".to_string();
    config.app_key = "m".to_string();
    assert_eq!(QwenAsrProvider::session_url(&config).unwrap_err(), connection("api_key is required"));
    config.access_key = "sk-1".to_string();
    assert_eq!(QwenAsrProvider::session_url(&config).unwrap(), "wss://dashscope.aliyuncs.com/api-ws/v1/realtime?model=m");
    assert_eq!(QwenAsrProvider::authorization(&config).unwrap(), "Bearer sk-1");
    config.access_key = "bad\r\nkey".to_string();
    assert_eq!(QwenAsrProvider::authorization(&config).unwrap_err(), connection("invalid api_key"));
}

#[test]
fn session_created_check() {
    assert!(QwenAsrProvider::check_session_created("{\"type\":\"session.created\"}").is_ok());
    assert_eq!(
        QwenAsrProvider::check_session_created("{\"type\":\"error\",\"error\":{\"message\":\"denied\"}}").unwrap_err(),
        connection("denied")
    );
    assert_eq!(
        QwenAsrProvider::check_session_created("{\"type\":\"other\"}").unwrap_err(),
        connection("expected session.created event")
    );
    match QwenAsrProvider::check_session_created("[") {
        Err(AsrError::Protocol(m)) => assert!(m.starts_with("parse session.created: ")),
        other => panic!("unexpected {other:?}"),
    }
}

#[test]
fn first_text_event() {
    assert_eq!(QwenAsrProvider::text_event(Some(Incoming::Text("x".to_string()))).unwrap(), "x");
    assert_eq!(QwenAsrProvider::text_event(None).unwrap_err(), connection("timeout waiting for server event"));
    assert_eq!(QwenAsrProvider::text_event(Some(Incoming::End)).unwrap_err(), connection("connection closed"));
    assert_eq!(QwenAsrProvider::text_event(Some(Incoming::Binary(vec![]))).unwrap_err(), connection("expected text message from server"));
    assert_eq!(QwenAsrProvider::text_event(Some(Incoming::Failed("e".to_string()))).unwrap_err(), connection("WebSocket error: e"));
    assert_eq!(QwenAsrProvider::text_event(Some(Incoming::Close("None".to_string()))).unwrap_err(), connection("connection closed unexpectedly: None"));
}

#[test]
fn connect_wait_steps() {
    assert_eq!(QwenAsrProvider::connect_step(AsrEvent::Connected), ConnectStep::Ready);
    assert_eq!(QwenAsrProvider::connect_step(AsrEvent::Interim("a".to_string())), ConnectStep::Wait);
    assert_eq!(QwenAsrProvider::connect_step(AsrEvent::Final("a".to_string())), ConnectStep::Wait);
    assert_eq!(QwenAsrProvider::connect_step(AsrEvent::Error("m".to_string())), ConnectStep::Fail(AsrError::Protocol("m".to_string())));
    assert_eq!(
        QwenAsrProvider::connect_step(AsrEvent::Closed),
        ConnectStep::Fail(connection("connection closed before session.updated"))
    );
}

#[test]
fn next_event_pending_first() {
    let mut p = QwenAsrProvider::new();
    assert!(p.needs_read());
    assert_eq!(p.next_event(None).unwrap_err(), connection("not connected"));
    let msg = "{\"type\":\"conversation.item.input_audio_transcription.completed\",\"transcript\":\"hi\"}";
    assert_eq!(p.next_event(Some(Incoming::Text(msg.to_string()))).unwrap(), AsrEvent::Definite("hi".to_string()));
    assert!(!p.needs_read());
    // The pending final text comes next, whatever was read.
    assert_eq!(p.next_event(Some(Incoming::End)).unwrap(), AsrEvent::Final("hi".to_string()));
    assert!(p.needs_read());
    assert_eq!(p.next_event(Some(Incoming::Other)).unwrap(), AsrEvent::Interim(String::new()));
    assert_eq!(p.next_event(Some(Incoming::Text("{\"type\":\"session.finished\"}".into()))).unwrap(), AsrEvent::Closed);
}
