use koe::asr::AsrError;
use koe::proxy::{
    address, check_proxy_response, connect_request, effective_proxy, proxy_endpoint, proxy_read_step,
    proxy_status, target_endpoint, ReadStep,
};

fn connection(text: &str) -> AsrError {
    AsrError::Connection(text.to_string())
}

#[test]
fn proxy_choice() {
    assert_eq!(effective_proxy("http://a:1", Some("http://b:2".into()), None), Some("http://a:1".to_string()));
    assert_eq!(effective_proxy("", Some("http://b:2".into()), Some("http://c:3".into())), Some("http://b:2".to_string()));
    assert_eq!(effective_proxy("", Some(String::new()), Some("http://c:3".into())), Some(String::new()));
    assert_eq!(effective_proxy("", None, Some("http://c:3".into())), Some("http://c:3".to_string()));
    assert_eq!(effective_proxy("", None, None), None);
}

#[test]
fn proxy_endpoints() {
    assert_eq!(proxy_endpoint("http://proxy.local:3128").unwrap(), ("proxy.local".to_string(), 3128));
    assert_eq!(proxy_endpoint("http://proxy.local").unwrap(), ("proxy.local".to_string(), 8080));
    // The scheme's default port reads as no port.
    assert_eq!(proxy_endpoint("http://proxy.local:80").unwrap(), ("proxy.local".to_string(), 8080));
    assert_eq!(proxy_endpoint("mailto:someone").unwrap_err(), connection("proxy URL missing host"));
    match proxy_endpoint("not a url") {
        Err(AsrError::Connection(m)) => assert!(m.starts_with("invalid proxy URL: ")),
        other => panic!("unexpected {other:?}"),
    }
}

#[test]
fn target_endpoints() {
    assert_eq!(target_endpoint(Some("h".into()), None, Some("wss".into())).unwrap(), ("h".to_string(), 443));
    assert_eq!(target_endpoint(Some("h".into()), None, Some("ws".into())).unwrap(), ("h".to_string(), 80));
    assert_eq!(target_endpoint(Some("h".into()), Some(9000), Some("wss".into())).unwrap(), ("h".to_string(), 9000));
    assert_eq!(target_endpoint(None, None, None).unwrap_err(), connection("request URL missing host"));
}

#[test]
fn connect_request_text() {
    assert_eq!(address("proxy", 3128), "proxy:3128");
    assert_eq!(
        connect_request("openspeech.bytedance.com", 443, "", "ignored"),
        "CONNECT openspeech.bytedance.com:443 HTTP/1.1\r\nHost: openspeech.bytedance.com:443\r\n\r\n"
    );
    assert_eq!(
        connect_request("h", 80, "user", "pass"),
        "CONNECT h:80 HTTP/1.1\r\nHost: h:80\r\nProxy-Authorization: Basic dXNlcjpwYXNz\r\n\r\n"
    );
}

#[test]
fn read_steps() {
    assert_eq!(proxy_read_step(b"HTTP/1.1 200"), ReadStep::Continue);
    assert_eq!(proxy_read_step(b"HTTP/1.1 200 OK\r\n\r\n"), ReadStep::Done);
    assert_eq!(proxy_read_step(b"\r\n\r"), ReadStep::Continue);
    assert_eq!(proxy_read_step(&vec![b'a'; 4096]), ReadStep::Continue);
    assert_eq!(proxy_read_step(&vec![b'a'; 4097]), ReadStep::Fail(connection("proxy response too large")));
    let mut ends = vec![b'a'; 4093];
    ends.extend_from_slice(b"\r\n\r\n");
    assert_eq!(proxy_read_step(&ends), ReadStep::Done);
}

#[test]
fn proxy_answers() {
    assert!(check_proxy_response(b"HTTP/1.1 200 Connection established\r\n\r\n").is_ok());
    assert_eq!(
        check_proxy_response(b"HTTP/1.1 407 Proxy Authentication Required\r\nX: y\r\n\r\n").unwrap_err(),
        connection("proxy CONNECT failed: HTTP/1.1 407 Proxy Authentication Required")
    );
    assert_eq!(proxy_status("").unwrap_err(), connection("proxy CONNECT failed: unknown"));
    assert_eq!(proxy_status("bad\r").unwrap_err(), connection("proxy CONNECT failed: bad\r"));
    assert_eq!(proxy_status("\nsecond").unwrap_err(), connection("proxy CONNECT failed: "));
    assert!(proxy_status("x\ny 200").is_ok());
}
