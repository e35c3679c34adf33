//! Types shared by the speech-recognition providers: their configuration, the events
//! they report and the errors they raise.
use vstd::prelude::*;
use crate::text::owned;

verus! {

/// Configuration for an ASR session.
#[derive(Debug, Clone, PartialEq, Eq)]
pub struct AsrConfig {
    /// WebSocket endpoint URL
    pub url: String,
    /// X-Api-App-Key (App ID), or the model name for Qwen
    pub app_key: String,
    /// X-Api-Access-Key (Access Token), or the API key for Qwen
    pub access_key: String,
    /// X-Api-Resource-Id
    pub resource_id: String,
    /// Audio sample rate in Hz
    pub sample_rate_hz: u32,
    /// Connection timeout in milliseconds
    pub connect_timeout_ms: u64,
    /// Timeout waiting for the final result after the finish signal, in milliseconds
    pub final_wait_timeout_ms: u64,
    /// Enable DDC (disfluency removal / smoothing)
    pub enable_ddc: bool,
    /// Enable ITN (inverse text normalization)
    pub enable_itn: bool,
    /// Enable automatic punctuation
    pub enable_punc: bool,
    /// Enable two-pass recognition
    pub enable_nonstream: bool,
    /// Hotwords for improved recognition accuracy
    pub hotwords: Vec<String>,
    /// Language code (e.g. "zh", "en"), used by Qwen
    pub language: Option<String>,
    /// HTTP proxy URL for WebSocket connections
    pub proxy_url: String,
    /// Proxy username (may be empty)
    pub proxy_username: String,
    /// Proxy password (may be empty)
    pub proxy_password: String,
}

impl AsrConfig {
    /// The hotwords as character sequences.
    pub open spec fn hotword_texts(&self) -> Seq<Seq<char>> {
        Seq::new(self.hotwords@.len(), |i: int| self.hotwords@[i]@)
    }
}

impl Default for AsrConfig {
    fn default() -> (c: Self)
        ensures
            c.url@ == "wss://openspeech.bytedance.com/api/v3/sauc/bigmodel_async"@,
            c.app_key@ == Seq::<char>::empty(),
            c.access_key@ == Seq::<char>::empty(),
            c.resource_id@ == "volc.seedasr.sauc.duration"@,
            c.sample_rate_hz == 16000,
            c.connect_timeout_ms == 3000,
            c.final_wait_timeout_ms == 5000,
            c.enable_ddc,
            c.enable_itn,
            c.enable_punc,
            c.enable_nonstream,
            c.hotwords@.len() == 0,
            c.language is Some && c.language->0@ == "zh"@,
            c.proxy_url@ == Seq::<char>::empty(),
            c.proxy_username@ == Seq::<char>::empty(),
            c.proxy_password@ == Seq::<char>::empty(),
    {
        AsrConfig {
            url: owned("wss://openspeech.bytedance.com/api/v3/sauc/bigmodel_async"),
            app_key: String::new(),
            access_key: String::new(),
            resource_id: owned("volc.seedasr.sauc.duration"),
            sample_rate_hz: 16000,
            connect_timeout_ms: 3000,
            final_wait_timeout_ms: 5000,
            enable_ddc: true,
            enable_itn: true,
            enable_punc: true,
            enable_nonstream: true,
            hotwords: Vec::new(),
            language: Some(owned("zh")),
            proxy_url: String::new(),
            proxy_username: String::new(),
            proxy_password: String::new(),
        }
    }
}

/// An event reported by a speech-recognition provider.
#[derive(Debug, Clone, PartialEq, Eq)]
pub enum AsrEvent {
    /// The session is configured and ready for audio.
    Connected,
    /// A provisional transcript.
    Interim(String),
    /// A transcript of which some utterance is confirmed.
    Definite(String),
    /// The final transcript.
    Final(String),
    /// The server closed the session.
    Closed,
    /// The server reported an error.
    Error(String),
}

/// The model of an event.
pub enum AsrEventV {
    Connected,
    Interim(Seq<char>),
    Definite(Seq<char>),
    Final(Seq<char>),
    Closed,
    Error(Seq<char>),
}

impl View for AsrEvent {
    type V = AsrEventV;

    open spec fn view(&self) -> AsrEventV {
        match self {
            AsrEvent::Connected => AsrEventV::Connected,
            AsrEvent::Interim(s) => AsrEventV::Interim(s@),
            AsrEvent::Definite(s) => AsrEventV::Definite(s@),
            AsrEvent::Final(s) => AsrEventV::Final(s@),
            AsrEvent::Closed => AsrEventV::Closed,
            AsrEvent::Error(s) => AsrEventV::Error(s@),
        }
    }
}

/// An error of a speech-recognition provider.
#[derive(Debug, Clone, PartialEq, Eq)]
pub enum AsrError {
    /// Establishing or using the connection failed.
    Connection(String),
    /// The exchanged data did not follow the protocol.
    Protocol(String),
}

/// The model of an error.
pub enum AsrErrorV {
    Connection(Seq<char>),
    Protocol(Seq<char>),
}

impl View for AsrError {
    type V = AsrErrorV;

    open spec fn view(&self) -> AsrErrorV {
        match self {
            AsrError::Connection(s) => AsrErrorV::Connection(s@),
            AsrError::Protocol(s) => AsrErrorV::Protocol(s@),
        }
    }
}

/// The model of an outcome that carries an event.
pub open spec fn event_result(r: Result<AsrEvent, AsrError>) -> Result<AsrEventV, AsrErrorV> {
    match r {
        Ok(e) => Ok(e@),
        Err(e) => Err(e@),
    }
}

/// The model of an outcome that carries bytes.
pub open spec fn bytes_result(r: Result<Vec<u8>, AsrError>) -> Result<Seq<u8>, AsrErrorV> {
    match r {
        Ok(b) => Ok(b@),
        Err(e) => Err(e@),
    }
}

/// A message received from the WebSocket, reduced to what the providers decide on.
#[derive(Debug, Clone, PartialEq, Eq)]
pub enum Incoming {
    /// A text message.
    Text(String),
    /// A binary message.
    Binary(Vec<u8>),
    /// A close frame; the text is the frame's debug rendering.
    Close(String),
    /// Any other message (ping, pong, raw frame).
    Other,
    /// The stream reported an error; the text is its rendering.
    Failed(String),
    /// The stream ended.
    End,
}

/// A lowercase hexadecimal digit.
pub open spec fn is_lower_hex(c: char) -> bool {
    ('0' <= c <= '9') || ('a' <= c <= 'f')
}

/// The hyphenated text of a version-4 UUID: 36 characters, hyphens at 8, 13, 18 and 23,
/// lowercase hexadecimal digits elsewhere, and the version digit `4` at 14.
pub open spec fn is_uuid_v4_text(t: Seq<char>) -> bool {
    &&& t.len() == 36
    &&& forall|i: int|
        0 <= i < 36 ==> if i == 8 || i == 13 || i == 18 || i == 23 {
            #[trigger] t[i] == '-'
        } else {
            is_lower_hex(t[i])
        }
    &&& t[14] == '4'
}

/// A fresh random identifier.
/// Trusted: `uuid::Uuid::new_v4` followed by `to_string`, whose text is the hyphenated
/// lowercase form with the version digit 4 (uuid's `format_hyphenated` and `new_v4`).
/// Which identifier comes out is random, so nothing more is stated; the call panics only
/// if the operating system's random source fails, which no precondition can exclude.
#[verifier::external_body]
pub(crate) fn new_uuid_v4() -> (r: String)
    ensures
        is_uuid_v4_text(r@),
{
    uuid::Uuid::new_v4().to_string()
}

} // verus!
