use koe::asr::{AsrConfig, AsrError, AsrEvent, Incoming};
use koe::doubao::{
    build_frame, build_header, decode_frame, gzip_compress, gzip_decompress, parse_server_response,
    DoubaoWsProvider, Frame, ServerMessage,
};
use koe::json::{Json, JsonNumber};
use std::io::{Read, Write};

fn gzip(data: &[u8]) -> Vec<u8> {
    let mut e = flate2::write::GzEncoder::new(Vec::new(), flate2::Compression::default());
    e.write_all(data).unwrap();
    e.finish().unwrap()
}

fn gunzip(data: &[u8]) -> Vec<u8> {
    let mut d = flate2::read::GzDecoder::new(data);
    let mut out = Vec::new();
    d.read_to_end(&mut out).unwrap();
    out
}

fn response_frame(flags: u8, payload_json: &str, compress: bool) -> Vec<u8> {
    let payload = if compress { gzip(payload_json.as_bytes()) } else { payload_json.as_bytes().to_vec() };
    let header = build_header(0b1001, flags, 0b0001, if compress { 1 } else { 0 });
    build_frame(header, &payload)
}

fn protocol(text: &str) -> AsrError {
    AsrError::Protocol(text.to_string())
}

#[test]
fn header_packs_nibbles() {
    assert_eq!(build_header(0b0001, 0b0000, 0b0001, 0b0001), [0x11, 0x10, 0x11, 0x00]);
    assert_eq!(build_header(0b0010, 0b0010, 0b0000, 0b0001), [0x11, 0x22, 0x01, 0x00]);
}

#[test]
fn frame_has_big_endian_length() {
    let f = build_frame([1, 2, 3, 4], &[9, 8, 7]);
    assert_eq!(f, vec![1, 2, 3, 4, 0, 0, 0, 3, 9, 8, 7]);
    let big = vec![0u8; 0x0102];
    let f = build_frame([0, 0, 0, 0], &big);
    assert_eq!(&f[4..8], &[0, 0, 1, 2]);
    assert_eq!(f.len(), 8 + 0x0102);
}

#[test]
fn gzip_roundtrip() {
    let data = b"hello hello hello";
    let c = gzip_compress(data).unwrap();
    assert_eq!(gunzip(&c), data.to_vec());
    assert_eq!(gzip_decompress(&c).unwrap(), data.to_vec());
}

#[test]
fn gzip_decompress_rejects_garbage() {
    match gzip_decompress(b"not gzip") {
        Err(AsrError::Protocol(m)) => assert!(m.starts_with("gzip decompress: ")),
        other => panic!("unexpected {other:?}"),
    }
}

#[test]
fn audio_frame_layout() {
    let f = DoubaoWsProvider::build_audio_frame(b"abc", false).unwrap();
    assert_eq!(&f[0..4], &[0x11, 0x20, 0x01, 0x00]);
    let len = u32::from_be_bytes([f[4], f[5], f[6], f[7]]) as usize;
    assert_eq!(len, f.len() - 8);
    assert_eq!(gunzip(&f[8..]), b"abc".to_vec());
    let last = DoubaoWsProvider::build_audio_frame(&[], true).unwrap();
    assert_eq!(&last[0..4], &[0x11, 0x22, 0x01, 0x00]);
    assert_eq!(gunzip(&last[8..]), Vec::<u8>::new());
}

#[test]
fn full_client_request_payload() {
    let p = DoubaoWsProvider::new();
    let config = AsrConfig::default();
    let f = p.build_full_client_request(&config).unwrap();
    assert_eq!(&f[0..4], &[0x11, 0x10, 0x11, 0x00]);
    let json = String::from_utf8(gunzip(&f[8..])).unwrap();
    assert_eq!(
        json,
        "{\"audio\":{\"bits\":16,\"channel\":1,\"codec\":\"raw\",\"format\":\"pcm\",\"rate\":16000},\
\"request\":{\"enable_ddc\":true,\"enable_itn\":true,\"enable_nonstream\":true,\"enable_punc\":true,\
\"model_name\":\"bigmodel\",\"result_type\":\"full\",\"show_utterances\":true},\"user\":{\"uid\":\"koe-asr\"}}"
    );
}

#[test]
fn full_client_request_with_hotwords() {
    let p = DoubaoWsProvider::new();
    let mut config = AsrConfig::default();
    config.hotwords = vec!["Cloudflare".to_string(), "PostgreSQL".to_string()];
    config.enable_ddc = false;
    config.sample_rate_hz = 8000;
    let f = p.build_full_client_request(&config).unwrap();
    let json: serde_json::Value = serde_json::from_slice(&gunzip(&f[8..])).unwrap();
    assert_eq!(
        json["request"]["corpus"]["context"],
        serde_json::Value::String("{\"hotwords\":[{\"word\":\"Cloudflare\"},{\"word\":\"PostgreSQL\"}]}".to_string())
    );
    assert_eq!(json["request"]["enable_ddc"], serde_json::Value::Bool(false));
    assert_eq!(json["audio"]["rate"], serde_json::Value::from(8000));
}

#[test]
fn parse_full_response_gzip() {
    let f = response_frame(0, "{\"result\":{\"text\":\"hi\"}}", true);
    match parse_server_response(&f).unwrap() {
        ServerMessage::Response { json, is_last } => {
            assert!(!is_last);
            assert_eq!(json.get("result").and_then(|r| r.get("text")).and_then(|t| t.as_str()), Some("hi"));
        }
        other => panic!("unexpected {other:?}"),
    }
}

#[test]
fn parse_response_with_sequence_and_last_flag() {
    let payload = b"{\"a\":1}";
    let mut f = vec![0x11, 0x93, 0x10, 0x00];
    f.extend_from_slice(&[0, 0, 0, 7]);
    f.extend_from_slice(&(payload.len() as u32).to_be_bytes());
    f.extend_from_slice(payload);
    match parse_server_response(&f).unwrap() {
        ServerMessage::Response { json, is_last } => {
            assert!(is_last);
            assert_eq!(json, Json::Object(vec![("a".to_string(), Json::Number(JsonNumber::PosInt(1)))]));
        }
        other => panic!("unexpected {other:?}"),
    }
}

#[test]
fn parse_response_without_json_serialization() {
    let f = build_frame(build_header(0b1001, 0, 0, 0), b"raw");
    match parse_server_response(&f).unwrap() {
        ServerMessage::Response { json, is_last } => {
            assert_eq!(json, Json::Null);
            assert!(!is_last);
        }
        other => panic!("unexpected {other:?}"),
    }
}

#[test]
fn parse_error_frame() {
    let mut f = vec![0x11, 0xF0, 0x00, 0x00];
    f.extend_from_slice(&45000001u32.to_be_bytes());
    f.extend_from_slice(&3u32.to_be_bytes());
    f.extend_from_slice(b"bad");
    assert_eq!(
        parse_server_response(&f).unwrap(),
        ServerMessage::Error { code: 45000001, message: "bad".to_string() }
    );
    // Message size larger than what is there: empty message.
    let mut g = vec![0x11, 0xF0, 0x00, 0x00];
    g.extend_from_slice(&7u32.to_be_bytes());
    g.extend_from_slice(&10u32.to_be_bytes());
    g.extend_from_slice(b"abc");
    assert_eq!(parse_server_response(&g).unwrap(), ServerMessage::Error { code: 7, message: String::new() });
    // No code at all.
    assert_eq!(
        parse_server_response(&[0x11, 0xF0, 0, 0]).unwrap(),
        ServerMessage::Error { code: 0, message: String::new() }
    );
    // Invalid UTF-8 is replaced.
    let mut h = vec![0x11, 0xF0, 0x00, 0x00];
    h.extend_from_slice(&1u32.to_be_bytes());
    h.extend_from_slice(&1u32.to_be_bytes());
    h.push(0xFF);
    assert_eq!(parse_server_response(&h).unwrap(), ServerMessage::Error { code: 1, message: "\u{FFFD}".to_string() });
}

#[test]
fn parse_rejects_bad_frames() {
    assert_eq!(parse_server_response(&[0x11, 0x90, 0x11]).unwrap_err(), protocol("frame too short"));
    assert_eq!(parse_server_response(&[0x11, 0x91, 0x11, 0x00, 0, 0]).unwrap_err(), protocol("missing sequence"));
    assert_eq!(parse_server_response(&[0x11, 0x90, 0x11, 0x00, 0, 0]).unwrap_err(), protocol("missing payload size"));
    assert_eq!(parse_server_response(&[0x11, 0x90, 0x11, 0x00, 0, 0, 0, 5, 1]).unwrap_err(), protocol("incomplete payload"));
    assert_eq!(parse_server_response(&[0x11, 0x30, 0x11, 0x00]).unwrap_err(), protocol("unknown message type: 0b0011"));
    assert_eq!(parse_server_response(&[0x11, 0x00, 0x11, 0x00]).unwrap_err(), protocol("unknown message type: 0b0000"));
    let f = build_frame(build_header(0b1001, 0, 0b0001, 0), b"{oops");
    match parse_server_response(&f).unwrap_err() {
        AsrError::Protocol(m) => assert!(m.starts_with("parse JSON: ")),
        other => panic!("unexpected {other:?}"),
    }
}

#[test]
fn decode_frame_honours_header_size() {
    // Header size 2 (8 bytes): the payload size follows the eight header bytes.
    let mut f = vec![0x12, 0x90, 0x00, 0x00, 0xAA, 0xBB, 0xCC, 0xDD];
    f.extend_from_slice(&2u32.to_be_bytes());
    f.extend_from_slice(&[5, 6]);
    assert_eq!(
        decode_frame(&f).unwrap(),
        Frame::Response { is_last: false, serialization: 0, compression: 0, payload: vec![5, 6] }
    );
}

#[test]
fn events_from_responses() {
    let p = DoubaoWsProvider::new();
    let interim = response_frame(0, "{\"result\":{\"text\":\"a\",\"utterances\":[{\"definite\":false}]}}", true);
    assert_eq!(p.next_event(Some(Incoming::Binary(interim))).unwrap(), AsrEvent::Interim("a".to_string()));
    let definite = response_frame(0, "{\"result\":{\"text\":\"ab\",\"utterances\":[{\"definite\":false},{\"definite\":true}]}}", true);
    assert_eq!(p.next_event(Some(Incoming::Binary(definite))).unwrap(), AsrEvent::Definite("ab".to_string()));
    let last = response_frame(0b0010, "{\"result\":{\"text\":\"abc\",\"utterances\":[{\"definite\":true}]}}", true);
    assert_eq!(p.next_event(Some(Incoming::Binary(last))).unwrap(), AsrEvent::Final("abc".to_string()));
    let no_text = response_frame(0, "{}", true);
    assert_eq!(p.next_event(Some(Incoming::Binary(no_text))).unwrap(), AsrEvent::Interim(String::new()));
}

#[test]
fn events_from_other_messages() {
    let p = DoubaoWsProvider::new();
    assert_eq!(p.next_event(None).unwrap_err(), AsrError::Connection("not connected".to_string()));
    assert_eq!(p.next_event(Some(Incoming::Close("x".to_string()))).unwrap(), AsrEvent::Closed);
    assert_eq!(p.next_event(Some(Incoming::End)).unwrap(), AsrEvent::Closed);
    assert_eq!(p.next_event(Some(Incoming::Text("t".to_string()))).unwrap(), AsrEvent::Interim(String::new()));
    assert_eq!(p.next_event(Some(Incoming::Other)).unwrap(), AsrEvent::Interim(String::new()));
    assert_eq!(p.next_event(Some(Incoming::Failed("boom".to_string()))).unwrap_err(), protocol("boom"));
    let mut f = vec![0x11, 0xF0, 0x00, 0x00];
    f.extend_from_slice(&45000001u32.to_be_bytes());
    f.extend_from_slice(&3u32.to_be_bytes());
    f.extend_from_slice(b"bad");
    assert_eq!(p.next_event(Some(Incoming::Binary(f))).unwrap_err(), protocol("server error 45000001: bad"));
}

#[test]
fn provider_identity() {
    let mut p = DoubaoWsProvider::default();
    let id = p.connect_id().to_string();
    assert_eq!(id.len(), 36);
    assert_eq!(id.chars().nth(14), Some('4'));
    assert_eq!(p.logid(), None);
    p.record_logid(Some("log-1".to_string()));
    assert_eq!(p.logid(), Some("log-1"));
    p.record_logid(None);
    assert_eq!(p.logid(), Some("log-1"));
    assert_eq!(p.connect_id(), id);
    assert_ne!(DoubaoWsProvider::new().connect_id(), id);
}

#[test]
fn connect_headers_checked() {
    let p = DoubaoWsProvider::new();
    let mut config = AsrConfig::default();
    config.app_key = "app".to_string();
    config.access_key = "tok\tken".to_string();
    let hs = p.connect_headers(&config).unwrap();
    assert_eq!(hs[0], ("X-Api-App-Key".to_string(), "app".to_string()));
    assert_eq!(hs[1], ("X-Api-Access-Key".to_string(), "tok\tken".to_string()));
    assert_eq!(hs[2], ("X-Api-Resource-Id".to_string(), "volc.seedasr.sauc.duration".to_string()));
    assert_eq!(hs[3], ("X-Api-Connect-Id".to_string(), p.connect_id().to_string()));
    config.app_key = "a\nb".to_string();
    assert_eq!(p.connect_headers(&config).unwrap_err(), AsrError::Connection("invalid app_key".to_string()));
    config.app_key = "ok".to_string();
    config.resource_id = "x\u{7f}".to_string();
    assert_eq!(p.connect_headers(&config).unwrap_err(), AsrError::Connection("invalid resource_id".to_string()));
    config.resource_id = "r\u{e9}s".to_string();
    assert!(p.connect_headers(&config).is_ok());
}

#[test]
fn gzip_roundtrip_and_short_input() {
    for data in [&b""[..], &b"x"[..], &[0u8, 1, 2, 255][..], &vec![7u8; 10000][..]] {
        let c = gzip_compress(data).unwrap();
        assert_eq!(gzip_decompress(&c).unwrap(), data.to_vec());
    }
    assert!(matches!(gzip_decompress(&[0x00, 0x01]), Err(AsrError::Protocol(_))));
    assert!(matches!(gzip_decompress(&[]), Err(AsrError::Protocol(_))));
}

#[test]
fn response_roundtrip_plain_json() {
    let doc = || Json::Object(vec![
        ("result".to_string(), Json::Object(vec![
            ("text".to_string(), Json::Str("你好 \"q\"\n".to_string())),
            ("utterances".to_string(), Json::Array(vec![Json::Bool(true), Json::Null])),
        ])),
        ("n".to_string(), Json::Number(JsonNumber::NegInt(-3))),
        ("m".to_string(), Json::Number(JsonNumber::PosInt(u64::MAX))),
    ]);
    let text = "{\"result\":{\"text\":\"你好 \\\"q\\\"\\n\",\"utterances\":[true,null]},\"n\":-3,\"m\":18446744073709551615}";
    for (flags, last) in [(0b0000u8, false), (0b0010u8, true)] {
        let c = gzip_compress(text.as_bytes()).unwrap();
        let f = build_frame(build_header(0b1001, flags, 0b0001, 0b0001), &c);
        assert_eq!(parse_server_response(&f).unwrap(), ServerMessage::Response { json: doc(), is_last: last });
    }
}
