//! Connecting through an HTTP proxy: choosing the proxy, the CONNECT request, and
//! reading the proxy's answer.
use vstd::prelude::*;
use crate::asr::{AsrError, AsrErrorV};
use crate::codec::{base64_encode, base64_standard};
use crate::doubao::{lossy_text, utf8_lossy};
use crate::text::{chars_of, concat2, concat3, decimal, decimal_string, owned, str_eq};

verus! {

/// The proxy to use: the configured one when it is not empty, else `HTTPS_PROXY`, else
/// `HTTP_PROXY` (each given as read from the environment, `None` when unset).
pub open spec fn spec_effective_proxy(
    proxy_url: Seq<char>,
    https_proxy: Option<Seq<char>>,
    http_proxy: Option<Seq<char>>,
) -> Option<Seq<char>> {
    if proxy_url.len() > 0 {
        Some(proxy_url)
    } else if https_proxy is Some {
        https_proxy
    } else {
        http_proxy
    }
}

/// The model of optional text.
pub open spec fn opt_text(o: Option<String>) -> Option<Seq<char>> {
    match o {
        Some(s) => Some(s@),
        None => None,
    }
}

/// Chooses the proxy to connect through.
pub fn effective_proxy(proxy_url: &str, https_proxy: Option<String>, http_proxy: Option<String>) -> (r: Option<String>)
    ensures
        opt_text(r) == spec_effective_proxy(proxy_url@, opt_text(https_proxy), opt_text(http_proxy)),
{
    if !proxy_url.is_empty() {
        Some(owned(proxy_url))
    } else if https_proxy.is_some() {
        https_proxy
    } else {
        http_proxy
    }
}

/// The host and port of a proxy URL, as the `url` crate reads them.
#[derive(Debug, Clone, PartialEq, Eq)]
pub struct ProxyUrl {
    pub host: Option<String>,
    pub port: Option<u16>,
}

/// What `url::Url::parse` gives for this text, reduced to `host_str()` and `port()`
/// (the latter is `None` for an absent port and for the scheme's default port), or the
/// text of its error.
pub uninterp spec fn proxy_url_parts(s: Seq<char>) -> Result<(Option<Seq<char>>, Option<u16>), Seq<char>>;

/// The model of a URL parse outcome.
pub open spec fn proxy_url_model(r: Result<ProxyUrl, String>) -> Result<(Option<Seq<char>>, Option<u16>), Seq<char>> {
    match r {
        Ok(u) => Ok((opt_text(u.host), u.port)),
        Err(e) => Err(e@),
    }
}

/// Parses a proxy URL.
/// Trusted: `url::Url::parse`, then `host_str` and `port` of the result; the claim is only
/// that the outcome is a function of the text (`proxy_url_parts`).
#[verifier::external_body]
pub(crate) fn parse_proxy_url(s: &str) -> (r: Result<ProxyUrl, String>)
    ensures
        proxy_url_model(r) == proxy_url_parts(s@),
{
    match url::Url::parse(s) {
        Ok(u) => Ok(ProxyUrl {
            host: match u.host_str() {
                Some(h) => Some(h.to_string()),
                None => None,
            },
            port: u.port(),
        }),
        Err(e) => Err(e.to_string()),
    }
}

/// The proxy's host and port (8080 when the URL gives none), or why the URL is unusable.
pub open spec fn spec_proxy_endpoint(proxy_url: Seq<char>) -> Result<(Seq<char>, u16), AsrErrorV> {
    match proxy_url_parts(proxy_url) {
        Err(e) => Err(AsrErrorV::Connection("invalid proxy URL: "@ + e)),
        Ok((None, _)) => Err(AsrErrorV::Connection("proxy URL missing host"@)),
        Ok((Some(h), port)) => Ok((h, match port {
            Some(p) => p,
            None => 8080u16,
        })),
    }
}

/// The model of an endpoint outcome.
pub open spec fn endpoint_result(r: Result<(String, u16), AsrError>) -> Result<(Seq<char>, u16), AsrErrorV> {
    match r {
        Ok((h, p)) => Ok((h@, p)),
        Err(e) => Err(e@),
    }
}

/// The host and port of the proxy.
pub fn proxy_endpoint(proxy_url: &str) -> (r: Result<(String, u16), AsrError>)
    ensures
        endpoint_result(r) == spec_proxy_endpoint(proxy_url@),
{
    match parse_proxy_url(proxy_url) {
        Err(e) => Err(AsrError::Connection(concat2("invalid proxy URL: ", e.as_str()))),
        Ok(u) => match u.host {
            None => Err(AsrError::Connection(owned("proxy URL missing host"))),
            Some(h) => Ok((h, match u.port {
                Some(p) => p,
                None => 8080,
            })),
        },
    }
}

/// The target's host and port, from the request URI's host, port and scheme: the port
/// defaults to 443 for `wss` and 80 otherwise.
pub open spec fn spec_target_endpoint(host: Option<Seq<char>>, port: Option<u16>, scheme: Option<Seq<char>>) -> Result<(Seq<char>, u16), AsrErrorV> {
    match host {
        None => Err(AsrErrorV::Connection("request URL missing host"@)),
        Some(h) => Ok((h, match port {
            Some(p) => p,
            None => if scheme == Some("wss"@) {
                443u16
            } else {
                80u16
            },
        })),
    }
}

/// The host and port to tunnel to.
pub fn target_endpoint(host: Option<String>, port: Option<u16>, scheme: Option<String>) -> (r: Result<(String, u16), AsrError>)
    ensures
        endpoint_result(r) == spec_target_endpoint(opt_text(host), port, opt_text(scheme)),
{
    match host {
        None => Err(AsrError::Connection(owned("request URL missing host"))),
        Some(h) => {
            let p = match port {
                Some(p) => p,
                None => {
                    let is_wss = match &scheme {
                        Some(s) => str_eq(s.as_str(), "wss"),
                        None => false,
                    };
                    if is_wss {
                        443
                    } else {
                        80
                    }
                },
            };
            Ok((h, p))
        },
    }
}

/// `host:port`.
pub open spec fn host_port(host: Seq<char>, port: u16) -> Seq<char> {
    host + ":"@ + decimal(port as nat)
}

/// The address to open a TCP connection to.
pub fn address(host: &str, port: u16) -> (r: String)
    ensures
        r@ == host_port(host@, port),
{
    let p = decimal_string(port as u64);
    concat3(host, ":", p.as_str())
}

/// The CONNECT request that opens a tunnel to the target, with basic proxy
/// authorization when a username is given.
pub open spec fn spec_connect_request(host: Seq<char>, port: u16, username: Seq<char>, password: Seq<char>) -> Seq<char> {
    let target = host_port(host, port);
    let head = "CONNECT "@ + target + " HTTP/1.1\r\nHost: "@ + target + "\r\n"@;
    let auth = if username.len() > 0 {
        "Proxy-Authorization: Basic "@ + base64_standard(vstd::utf8::encode_utf8(username + ":"@ + password)) + "\r\n"@
    } else {
        Seq::empty()
    };
    head + auth + "\r\n"@
}

/// Builds the CONNECT request.
pub fn connect_request(host: &str, port: u16, username: &str, password: &str) -> (r: String)
    ensures
        r@ == spec_connect_request(host@, port, username@, password@),
{
    let target = address(host, port);
    let mut req = concat3("CONNECT ", target.as_str(), " HTTP/1.1\r\nHost: ");
    req.append(target.as_str());
    req.append("\r\n");
    if !username.is_empty() {
        let cred_text = concat3(username, ":", password);
        let cred = base64_encode(cred_text.as_str().as_bytes());
        req.append("Proxy-Authorization: Basic ");
        req.append(cred.as_str());
        req.append("\r\n");
    }
    req.append("\r\n");
    req
}

/// The most bytes of a proxy answer that are read without finding its end.
pub const MAX_PROXY_RESPONSE: usize = 4096;

/// What reading the proxy's answer decides after each byte.
#[derive(Debug, Clone, PartialEq, Eq)]
pub enum ReadStep {
    /// Read another byte.
    Continue,
    /// The answer ends here, with an empty line.
    Done,
    /// Give up.
    Fail(AsrError),
}

/// The model of a read step.
pub enum ReadStepV {
    Continue,
    Done,
    Fail(AsrErrorV),
}

impl View for ReadStep {
    type V = ReadStepV;

    open spec fn view(&self) -> ReadStepV {
        match self {
            ReadStep::Continue => ReadStepV::Continue,
            ReadStep::Done => ReadStepV::Done,
            ReadStep::Fail(e) => ReadStepV::Fail(e@),
        }
    }
}

/// Whether the bytes end with `\r\n\r\n`.
pub open spec fn ends_with_blank_line(b: Seq<u8>) -> bool {
    b.len() >= 4 && b.subrange(b.len() - 4, b.len() as int) == seq![13u8, 10u8, 13u8, 10u8]
}

/// The decision after the bytes read so far: done at an empty line, failure beyond the
/// size limit, otherwise continue.
pub open spec fn spec_read_step(b: Seq<u8>) -> ReadStepV {
    if ends_with_blank_line(b) {
        ReadStepV::Done
    } else if b.len() > MAX_PROXY_RESPONSE {
        ReadStepV::Fail(AsrErrorV::Connection("proxy response too large"@))
    } else {
        ReadStepV::Continue
    }
}

/// Decides, after a byte of the proxy's answer is read, whether to read on.
pub fn proxy_read_step(buf: &[u8]) -> (r: ReadStep)
    ensures
        r@ == spec_read_step(buf@),
{
    let n = buf.len();
    if n >= 4 && buf[n - 4] == 13 && buf[n - 3] == 10 && buf[n - 2] == 13 && buf[n - 1] == 10 {
        assert(buf@.subrange(n - 4, n as int) =~= seq![13u8, 10u8, 13u8, 10u8]);
        return ReadStep::Done;
    }
    proof {
        if n >= 4 && buf@.subrange(n - 4, n as int) == seq![13u8, 10u8, 13u8, 10u8] {
            assert(buf@.subrange(n - 4, n as int)[0] == buf@[n - 4]);
            assert(buf@.subrange(n - 4, n as int)[1] == buf@[n - 3]);
            assert(buf@.subrange(n - 4, n as int)[2] == buf@[n - 2]);
            assert(buf@.subrange(n - 4, n as int)[3] == buf@[n - 1]);
        }
    }
    if n > MAX_PROXY_RESPONSE {
        return ReadStep::Fail(AsrError::Connection(owned("proxy response too large")));
    }
    ReadStep::Continue
}

/// Whether `n` occurs in `h`.
pub open spec fn contains_text(h: Seq<char>, n: Seq<char>) -> bool {
    exists|i: int| 0 <= i && i + n.len() <= h.len() && #[trigger] h.subrange(i, i + n.len()) == n
}

/// The characters before the first newline (all of them when there is none).
pub open spec fn before_newline(s: Seq<char>) -> Seq<char>
    decreases s.len(),
{
    if s.len() == 0 || s[0] == '\n' {
        Seq::empty()
    } else {
        seq![s[0]] + before_newline(s.drop_first())
    }
}

/// What `str::lines().next()` gives: nothing for empty text, otherwise the first line,
/// without its `\n` and without a `\r` just before it.
pub open spec fn first_line(s: Seq<char>) -> Option<Seq<char>> {
    if s.len() == 0 {
        None
    } else {
        let raw = before_newline(s);
        if raw.len() < s.len() && raw.len() > 0 && raw.last() == '\r' {
            Some(raw.drop_last())
        } else {
            Some(raw)
        }
    }
}

/// The verdict on the proxy's answer: accepted when it mentions `200`, otherwise an error
/// quoting its first line.
pub open spec fn spec_proxy_status(text: Seq<char>) -> Result<(), AsrErrorV> {
    if contains_text(text, "200"@) {
        Ok(())
    } else {
        Err(AsrErrorV::Connection(
            "proxy CONNECT failed: "@ + match first_line(text) {
                Some(l) => l,
                None => "unknown"@,
            },
        ))
    }
}

/// The model of a unit outcome.
pub open spec fn unit_outcome(r: Result<(), AsrError>) -> Result<(), AsrErrorV> {
    match r {
        Ok(()) => Ok(()),
        Err(e) => Err(e@),
    }
}

proof fn lemma_before_newline_char(s: Seq<char>, k: int)
    requires
        0 <= k <= s.len(),
        forall|j: int| 0 <= j < k ==> s[j] != '\n',
        k == s.len() || s[k] == '\n',
    ensures
        before_newline(s) == s.subrange(0, k),
    decreases s.len(),
{
    if s.len() == 0 || s[0] == '\n' {
        assert(s.subrange(0, k) =~= Seq::<char>::empty());
    } else {
        let t = s.drop_first();
        assert forall|j: int| 0 <= j < k - 1 implies t[j] != '\n' by {
            assert(t[j] == s[j + 1]);
        }
        if k < s.len() {
            assert(t[k - 1] == s[k]);
        }
        lemma_before_newline_char(t, k - 1);
        assert(seq![s[0]] + t.subrange(0, k - 1) =~= s.subrange(0, k));
    }
}

/// Judges the proxy's answer, given as text.
pub fn proxy_status(text: &str) -> (r: Result<(), AsrError>)
    ensures
        unit_outcome(r) == spec_proxy_status(text@),
{
    let cs = chars_of(text);
    let n = cs.len();
    let needle = "200";
    proof {
        reveal_strlit("200");
    }
    // Search for "200".
    let mut i: usize = 0;
    while n >= 3 && i <= n - 3
        invariant
            cs@ == text@,
            n == cs@.len(),
            "200"@ == seq!['2', '0', '0'],
            forall|k: int| 0 <= k < i && k + 3 <= n ==> #[trigger] cs@.subrange(k, k + 3) != "200"@,
        decreases n - i,
    {
        if cs[i] == '2' && cs[i + 1] == '0' && cs[i + 2] == '0' {
            assert(cs@.subrange(i as int, i + 3) =~= "200"@);
            assert(contains_text(text@, "200"@));
            return Ok(());
        }
        proof {
            if cs@.subrange(i as int, i + 3) == "200"@ {
                assert(cs@.subrange(i as int, i + 3)[0] == cs@[i as int]);
                assert(cs@.subrange(i as int, i + 3)[1] == cs@[i + 1]);
                assert(cs@.subrange(i as int, i + 3)[2] == cs@[i + 2]);
            }
        }
        i = i + 1;
    }
    proof {
        assert forall|k: int| 0 <= k && k + "200"@.len() <= text@.len() implies #[trigger] text@.subrange(k, k + "200"@.len()) != "200"@ by {
            assert(k < i);
        }
    }
    // The first line.
    if n == 0 {
        return Err(AsrError::Connection(concat2("proxy CONNECT failed: ", "unknown")));
    }
    let mut j: usize = 0;
    while j < n && cs[j] != '\n'
        invariant
            cs@ == text@,
            n == cs@.len(),
            j <= n,
            forall|k: int| 0 <= k < j ==> cs@[k] != '\n',
        decreases n - j,
    {
        j = j + 1;
    }
    proof {
        lemma_before_newline_char(cs@, j as int);
    }
    let end = if j < n && j > 0 && cs[j - 1] == '\r' { j - 1 } else { j };
    let line = crate::text::string_from_chars(slice_prefix(&cs, end).as_slice());
    proof {
        if j < n && j > 0 && cs@[j - 1] == '\r' {
            assert(cs@.subrange(0, j as int).drop_last() =~= cs@.subrange(0, end as int));
        }
    }
    Err(AsrError::Connection(concat2("proxy CONNECT failed: ", line.as_str())))
}

fn slice_prefix(cs: &Vec<char>, end: usize) -> (r: Vec<char>)
    requires
        end <= cs@.len(),
    ensures
        r@ == cs@.subrange(0, end as int),
{
    let mut r: Vec<char> = Vec::new();
    let mut i: usize = 0;
    while i < end
        invariant
            end <= cs@.len(),
            i <= end,
            r@ == cs@.subrange(0, i as int),
        decreases end - i,
    {
        r.push(cs[i]);
        assert(cs@.subrange(0, i + 1) =~= cs@.subrange(0, i as int).push(cs@[i as int]));
        i = i + 1;
    }
    r
}

/// Judges the proxy's answer, given as the bytes read.
pub fn check_proxy_response(buf: &[u8]) -> (r: Result<(), AsrError>)
    ensures
        unit_outcome(r) == spec_proxy_status(utf8_lossy(buf@)),
{
    let text = lossy_text(buf);
    proxy_status(text.as_str())
}

} // verus!
