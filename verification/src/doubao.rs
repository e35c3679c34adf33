//! The Doubao (Volcengine) streaming ASR protocol: binary framing of requests and
//! responses over WebSocket, with gzip-compressed payloads.
use vstd::prelude::*;
use vstd::utf8::*;
use crate::asr::{
    AsrConfig, AsrError, AsrErrorV, AsrEvent, AsrEventV, Incoming, bytes_result, event_result,
    is_uuid_v4_text, new_uuid_v4,
};
use crate::json::{
    Json, JsonNumberV, JsonV, elements_model, entries_lookup, field, json_decoded, json_encoded, json_rendered,
    json_str, json_to_string, json_to_vec, json_uint, lemma_array_model, lemma_object_model, member,
    members_model, opt_array, opt_as_bool, opt_as_str, opt_bool, opt_field, opt_get, opt_model, opt_str,
    parse_json, plain_json, text_or, within_depth, writable, MAX_PARSE_DEPTH,
};
use crate::text::{concat2, concat3, decimal, decimal_string, owned, push_char, str_eq};

verus! {

// ─── Binary protocol constants ─────────────────────────────────────

pub const PROTOCOL_VERSION: u8 = 0b0001;
/// Header size in units of four bytes.
pub const HEADER_SIZE: u8 = 0b0001;

pub const MSG_FULL_CLIENT_REQUEST: u8 = 0b0001;
pub const MSG_AUDIO_ONLY: u8 = 0b0010;
pub const MSG_FULL_SERVER_RESPONSE: u8 = 0b1001;
pub const MSG_ERROR: u8 = 0b1111;

pub const FLAG_NONE: u8 = 0b0000;
pub const FLAG_LAST_PACKET: u8 = 0b0010;

pub const SERIAL_NONE: u8 = 0b0000;
pub const SERIAL_JSON: u8 = 0b0001;

pub const COMPRESS_GZIP: u8 = 0b0001;

/// The four header bytes: version and header size, message type and flags,
/// serialization and compression, and a reserved zero byte.
pub open spec fn header_bytes(msg_type: u8, flags: u8, serialization: u8, compression: u8) -> Seq<u8> {
    seq![
        (PROTOCOL_VERSION << 4u8) | HEADER_SIZE,
        (msg_type << 4u8) | flags,
        (serialization << 4u8) | compression,
        0u8,
    ]
}

/// Builds a frame header.
pub fn build_header(msg_type: u8, flags: u8, serialization: u8, compression: u8) -> (h: [u8; 4])
    ensures
        h@ == header_bytes(msg_type, flags, serialization, compression),
        msg_type < 16 && flags < 16 ==> h@[1] == msg_type * 16 + flags,
        serialization < 16 && compression < 16 ==> h@[2] == serialization * 16 + compression,
        h@[0] == 0x11,
{
    assert(((PROTOCOL_VERSION << 4u8) | HEADER_SIZE) == 0x11u8) by (bit_vector);
    assert(msg_type < 16 && flags < 16 ==> ((msg_type << 4u8) | flags) == msg_type * 16 + flags) by (bit_vector);
    assert(serialization < 16 && compression < 16 ==> ((serialization << 4u8) | compression) == serialization * 16 + compression) by (bit_vector);
    let h = [
        (PROTOCOL_VERSION << 4) | HEADER_SIZE,
        (msg_type << 4) | flags,
        (serialization << 4) | compression,
        0x00,
    ];
    assert(h@ =~= header_bytes(msg_type, flags, serialization, compression));
    h
}

/// The four big-endian bytes of `x`.
pub open spec fn be32(x: u32) -> Seq<u8> {
    seq![(x >> 24u32) as u8, (x >> 16u32) as u8, (x >> 8u32) as u8, x as u8]
}

/// The number held by four big-endian bytes starting at `off`.
pub open spec fn be32_at(d: Seq<u8>, off: int) -> nat {
    (d[off] as nat) * 16777216 + (d[off + 1] as nat) * 65536 + (d[off + 2] as nat) * 256 + (d[off + 3] as nat)
}

/// A frame: the header, the payload length as four big-endian bytes (truncated to
/// 32 bits), then the payload.
pub open spec fn frame_bytes(header: Seq<u8>, payload: Seq<u8>) -> Seq<u8> {
    header + be32(payload.len() as u32) + payload
}

/// Builds a frame from a header and a payload.
pub fn build_frame(header: [u8; 4], payload: &[u8]) -> (f: Vec<u8>)
    ensures
        f@ == frame_bytes(header@, payload@),
{
    let payload_len = payload.len() as u32;
    let mut frame: Vec<u8> = Vec::new();
    frame.push(header[0]);
    frame.push(header[1]);
    frame.push(header[2]);
    frame.push(header[3]);
    frame.push((payload_len >> 24) as u8);
    frame.push((payload_len >> 16) as u8);
    frame.push((payload_len >> 8) as u8);
    frame.push(payload_len as u8);
    let ghost start = frame@;
    assert(start =~= header@ + be32(payload@.len() as u32));
    let mut i: usize = 0;
    while i < payload.len()
        invariant
            i <= payload@.len(),
            frame@ == start + payload@.subrange(0, i as int),
        decreases payload@.len() - i,
    {
        frame.push(payload[i]);
        assert(payload@.subrange(0, i + 1) =~= payload@.subrange(0, i as int).push(payload@[i as int]));
        i = i + 1;
    }
    assert(payload@.subrange(0, payload@.len() as int) =~= payload@);
    frame
}

proof fn lemma_be32_roundtrip(x: u32)
    ensures
        be32_at(be32(x), 0) == x,
{
    let b0 = (x >> 24u32) as u8;
    let b1 = (x >> 16u32) as u8;
    let b2 = (x >> 8u32) as u8;
    let b3 = x as u8;
    assert(b0 as u32 * 16777216 + b1 as u32 * 65536 + b2 as u32 * 256 + b3 as u32 == x) by (bit_vector)
        requires
            b0 == (x >> 24u32) as u8,
            b1 == (x >> 16u32) as u8,
            b2 == (x >> 8u32) as u8,
            b3 == x as u8,
    ;
}

// ─── gzip ───────────────────────────────────────────────────────────

/// The step of gzip compression that failed.
#[derive(Debug, Clone, PartialEq, Eq)]
pub enum GzipStage {
    Write,
    Finish,
}

/// What compressing these bytes with `flate2`'s `GzEncoder` at the default level gives:
/// the compressed bytes, or the failing step and the text of its error.
pub uninterp spec fn gzip_encoded(data: Seq<u8>) -> Result<Seq<u8>, (GzipStage, Seq<char>)>;

/// What decompressing these bytes with `flate2`'s `GzDecoder` gives: the decompressed
/// bytes, or the text of its error.
pub uninterp spec fn gzip_decoded(data: Seq<u8>) -> Result<Seq<u8>, Seq<char>>;

/// The model of a compression outcome.
pub open spec fn gzip_encode_model(r: Result<Vec<u8>, (GzipStage, String)>) -> Result<Seq<u8>, (GzipStage, Seq<char>)> {
    match r {
        Ok(b) => Ok(b@),
        Err((s, e)) => Err((s, e@)),
    }
}

/// The model of a decompression outcome.
pub open spec fn gzip_decode_model(r: Result<Vec<u8>, String>) -> Result<Seq<u8>, Seq<char>> {
    match r {
        Ok(b) => Ok(b@),
        Err(e) => Err(e@),
    }
}

/// Compresses bytes in gzip format.
/// Trusted: `flate2::write::GzEncoder::new` over a `Vec<u8>` with `Compression::default()`,
/// then `write_all` and `finish`, whose outcome is a function of the input
/// (`gzip_encoded`). It does not fail: the encoder's only errors come from the writer it
/// wraps, and a `Vec<u8>` takes every write.
#[verifier::external_body]
pub(crate) fn gzip_encode(data: &[u8]) -> (r: Result<Vec<u8>, (GzipStage, String)>)
    ensures
        gzip_encode_model(r) == gzip_encoded(data@),
        r is Ok,
{
    let mut encoder = flate2::write::GzEncoder::new(Vec::new(), flate2::Compression::default());
    if let Err(e) = std::io::Write::write_all(&mut encoder, data) {
        return Err((GzipStage::Write, e.to_string()));
    }
    encoder.finish().map_err(|e| (GzipStage::Finish, e.to_string()))
}

/// Whether bytes fail to start as a gzip stream: fewer than the ten bytes of a gzip
/// header, or a first byte other than 0x1f, a second other than 0x8b, or a compression
/// method other than 8 (deflate).
pub open spec fn not_gzip(data: Seq<u8>) -> bool {
    data.len() < 10 || data[0] != 0x1f || data[1] != 0x8b || data[2] != 8
}

/// Decompresses gzip data.
/// Trusted: `flate2::read::GzDecoder::new` over the bytes, then `read_to_end`, whose
/// outcome is a function of the input (`gzip_decoded`). What `GzEncoder` wrote decodes
/// back to what it was given (the stream's CRC and length check out); bytes that do not
/// start with a gzip header fail (flate2's `GzHeaderParser::parse` rejects the magic
/// bytes and the method, and a short header ends in `UnexpectedEof`).
#[verifier::external_body]
pub(crate) fn gzip_decode(data: &[u8]) -> (r: Result<Vec<u8>, String>)
    ensures
        gzip_decode_model(r) == gzip_decoded(data@),
        forall|d: Seq<u8>| (gzip_decode_model(r) == Ok::<Seq<u8>, Seq<char>>(d)) <== (#[trigger] gzip_encoded(d) == Ok::<Seq<u8>, (GzipStage, Seq<char>)>(data@)),
        not_gzip(data@) ==> r is Err,
{
    let mut decoder = flate2::read::GzDecoder::new(data);
    let mut buf = Vec::new();
    std::io::Read::read_to_end(&mut decoder, &mut buf).map(|_| buf).map_err(|e| e.to_string())
}

/// The outcome of `gzip_compress`: the compressed bytes, or a protocol error naming the
/// failed step.
pub open spec fn spec_gzip_compress(data: Seq<u8>) -> Result<Seq<u8>, AsrErrorV> {
    match gzip_encoded(data) {
        Ok(b) => Ok(b),
        Err((GzipStage::Write, e)) => Err(AsrErrorV::Protocol("gzip compress: "@ + e)),
        Err((GzipStage::Finish, e)) => Err(AsrErrorV::Protocol("gzip finish: "@ + e)),
    }
}

/// The outcome of `gzip_decompress`.
pub open spec fn spec_gzip_decompress(data: Seq<u8>) -> Result<Seq<u8>, AsrErrorV> {
    match gzip_decoded(data) {
        Ok(b) => Ok(b),
        Err(e) => Err(AsrErrorV::Protocol("gzip decompress: "@ + e)),
    }
}

/// Compresses a payload; it does not fail.
pub fn gzip_compress(data: &[u8]) -> (r: Result<Vec<u8>, AsrError>)
    ensures
        bytes_result(r) == spec_gzip_compress(data@),
        r is Ok,
{
    match gzip_encode(data) {
        Ok(b) => Ok(b),
        Err((GzipStage::Write, e)) => Err(AsrError::Protocol(concat2("gzip compress: ", e.as_str()))),
        Err((GzipStage::Finish, e)) => Err(AsrError::Protocol(concat2("gzip finish: ", e.as_str()))),
    }
}

/// Decompresses a payload, reporting a failure as a protocol error. What `gzip_compress`
/// made of some bytes decompresses back to them; bytes that do not start with a gzip
/// header fail.
pub fn gzip_decompress(data: &[u8]) -> (r: Result<Vec<u8>, AsrError>)
    ensures
        bytes_result(r) == spec_gzip_decompress(data@),
        forall|d: Seq<u8>| (bytes_result(r) == Ok::<Seq<u8>, AsrErrorV>(d)) <== (#[trigger] spec_gzip_compress(d) == Ok::<Seq<u8>, AsrErrorV>(data@)),
        not_gzip(data@) ==> r matches Err(AsrError::Protocol(_)),
{
    match gzip_decode(data) {
        Ok(b) => Ok(b),
        Err(e) => Err(AsrError::Protocol(concat2("gzip decompress: ", e.as_str()))),
    }
}

// ─── Server responses ─────────────────────────────────────────────────

/// The layout of a server frame, before its payload is interpreted.
#[derive(Debug, Clone, PartialEq, Eq)]
pub enum Frame {
    /// A full server response.
    Response { is_last: bool, serialization: u8, compression: u8, payload: Vec<u8> },
    /// An error frame: the error code, and the message bytes when the frame holds them whole.
    Error { code: u32, message: Option<Vec<u8>> },
}

/// The model of a server frame.
pub enum FrameV {
    Response { is_last: bool, serialization: u8, compression: u8, payload: Seq<u8> },
    Error { code: u32, message: Option<Seq<u8>> },
}

impl View for Frame {
    type V = FrameV;

    open spec fn view(&self) -> FrameV {
        match self {
            Frame::Response { is_last, serialization, compression, payload } => FrameV::Response {
                is_last: *is_last,
                serialization: *serialization,
                compression: *compression,
                payload: payload@,
            },
            Frame::Error { code, message } => FrameV::Error {
                code: *code,
                message: match message {
                    Some(m) => Some(m@),
                    None => None,
                },
            },
        }
    }
}

/// The character of a binary digit.
pub open spec fn bit_char(b: nat) -> char {
    if b == 0 { '0' } else { '1' }
}

/// `{:#06b}` of a four-bit number: `0b` and four binary digits.
pub open spec fn bin4(t: nat) -> Seq<char> {
    seq!['0', 'b', bit_char((t / 8) % 2), bit_char((t / 4) % 2), bit_char((t / 2) % 2), bit_char(t % 2)]
}

/// Where the payload-size field (or, for an error frame, the error code) starts:
/// after the header, whose size is given in four-byte units by the low bits of byte 0.
pub open spec fn header_len(d: Seq<u8>) -> int {
    ((d[0] % 16) * 4) as int
}

/// The bytes `len` bytes long at `off`, when `d` holds them.
pub open spec fn section(d: Seq<u8>, off: int, len: nat) -> Seq<u8> {
    d.subrange(off, off + len)
}

/// How a server frame is laid out, or the protocol error that rejects it.
pub open spec fn spec_decode_frame(d: Seq<u8>) -> Result<FrameV, Seq<char>> {
    if d.len() < 4 {
        Err("frame too short"@)
    } else {
        let msg_type = d[1] / 16;
        let flags = d[1] % 16;
        let hb = header_len(d);
        if msg_type == MSG_FULL_SERVER_RESPONSE {
            let has_sequence = flags % 2 == 1;
            let is_last = (flags / 2) % 2 == 1;
            if has_sequence && d.len() < hb + 4 {
                Err("missing sequence"@)
            } else {
                let off = if has_sequence { hb + 4 } else { hb };
                if d.len() < off + 4 {
                    Err("missing payload size"@)
                } else {
                    let size = be32_at(d, off);
                    if d.len() < off + 4 + size {
                        Err("incomplete payload"@)
                    } else {
                        Ok(FrameV::Response {
                            is_last,
                            serialization: d[2] / 16,
                            compression: d[2] % 16,
                            payload: section(d, off + 4, size),
                        })
                    }
                }
            }
        } else if msg_type == MSG_ERROR {
            let has_code = d.len() >= hb + 4;
            let code = if has_code { be32_at(d, hb) } else { 0 };
            let off = if has_code { hb + 4 } else { hb };
            let message = if d.len() >= off + 4 {
                let size = be32_at(d, off);
                if d.len() >= off + 4 + size {
                    Some(section(d, off + 4, size))
                } else {
                    None
                }
            } else {
                None
            };
            Ok(FrameV::Error { code: code as u32, message })
        } else {
            Err("unknown message type: "@ + bin4(msg_type as nat))
        }
    }
}

/// Reads four big-endian bytes.
fn read_be32(d: &[u8], off: usize) -> (r: u32)
    requires
        off + 4 <= d@.len(),
    ensures
        r as nat == be32_at(d@, off as int),
{
    let b0 = d[off];
    let b1 = d[off + 1];
    let b2 = d[off + 2];
    let b3 = d[off + 3];
    let r = ((b0 as u32) << 24) | ((b1 as u32) << 16) | ((b2 as u32) << 8) | (b3 as u32);
    assert(r == b0 as u32 * 16777216 + b1 as u32 * 65536 + b2 as u32 * 256 + b3 as u32) by (bit_vector)
        requires
            r == ((b0 as u32) << 24) | ((b1 as u32) << 16) | ((b2 as u32) << 8) | (b3 as u32),
    ;
    r
}

/// Copies `len` bytes at `off`.
fn copy_section(d: &[u8], off: usize, len: usize) -> (r: Vec<u8>)
    requires
        off + len <= d@.len(),
    ensures
        r@ == section(d@, off as int, len as nat),
{
    let mut r: Vec<u8> = Vec::new();
    let n = d.len();
    let mut i: usize = 0;
    while i < len
        invariant
            n == d@.len(),
            off + len <= d@.len(),
            i <= len,
            r@ == d@.subrange(off as int, off + i),
        decreases len - i,
    {
        r.push(d[off + i]);
        assert(d@.subrange(off as int, off + i + 1) =~= d@.subrange(off as int, off + i).push(d@[off + i]));
        i = i + 1;
    }
    r
}

/// Renders a four-bit message type as `{:#06b}` does.
fn binary4(t: u8) -> (r: String)
    requires
        t < 16,
    ensures
        r@ == bin4(t as nat),
{
    let mut r = concat2("0", "b");
    push_char(&mut r, if (t / 8) % 2 == 0 { '0' } else { '1' });
    push_char(&mut r, if (t / 4) % 2 == 0 { '0' } else { '1' });
    push_char(&mut r, if (t / 2) % 2 == 0 { '0' } else { '1' });
    push_char(&mut r, if t % 2 == 0 { '0' } else { '1' });
    proof {
        reveal_strlit("0");
        reveal_strlit("b");
    }
    assert(r@ =~= bin4(t as nat));
    r
}

/// Splits a server frame into its fields, or reports why it does not follow the protocol.
pub fn decode_frame(data: &[u8]) -> (r: Result<Frame, AsrError>)
    ensures
        match r {
            Ok(f) => spec_decode_frame(data@) == Ok::<FrameV, Seq<char>>(f@),
            Err(e) => spec_decode_frame(data@) matches Err(m) && e@ == AsrErrorV::Protocol(m),
        },
{
    if data.len() < 4 {
        return Err(AsrError::Protocol(owned_text("frame too short")));
    }
    let b0 = data[0];
    let b1 = data[1];
    let b2 = data[2];
    let msg_type = (b1 >> 4) & 0x0F;
    let flags = b1 & 0x0F;
    let serialization = (b2 >> 4) & 0x0F;
    let compression = b2 & 0x0F;
    assert(msg_type == b1 / 16 && flags == b1 % 16) by (bit_vector)
        requires
            msg_type == (b1 >> 4u8) & 0x0Fu8,
            flags == b1 & 0x0Fu8,
    ;
    assert(serialization == b2 / 16 && compression == b2 % 16) by (bit_vector)
        requires
            serialization == (b2 >> 4u8) & 0x0Fu8,
            compression == b2 & 0x0Fu8,
    ;
    let header_bytes = ((b0 & 0x0F) as usize) * 4;
    assert((b0 & 0x0Fu8) == b0 % 16) by (bit_vector);
    assert(header_bytes == header_len(data@));
    if msg_type == MSG_FULL_SERVER_RESPONSE {
        let has_sequence = (flags & 0b0001) != 0;
        let is_last = (flags & 0b0010) != 0;
        assert(has_sequence == (flags % 2 == 1) && is_last == ((flags / 2) % 2 == 1)) by (bit_vector)
            requires
                has_sequence == ((flags & 1u8) != 0u8),
                is_last == ((flags & 2u8) != 0u8),
        ;
        let mut offset = header_bytes;
        if has_sequence {
            if data.len() < offset + 4 {
                return Err(AsrError::Protocol(owned_text("missing sequence")));
            }
            offset = offset + 4;
        }
        if data.len() < offset + 4 {
            return Err(AsrError::Protocol(owned_text("missing payload size")));
        }
        let payload_size = read_be32(data, offset) as usize;
        offset = offset + 4;
        if data.len() - offset < payload_size {
            return Err(AsrError::Protocol(owned_text("incomplete payload")));
        }
        let payload = copy_section(data, offset, payload_size);
        Ok(Frame::Response { is_last, serialization, compression, payload })
    } else if msg_type == MSG_ERROR {
        let mut offset = header_bytes;
        let code = if data.len() >= offset + 4 {
            let c = read_be32(data, offset);
            offset = offset + 4;
            c
        } else {
            0
        };
        let message = if data.len() >= offset + 4 {
            let size = read_be32(data, offset) as usize;
            offset = offset + 4;
            if data.len() - offset >= size {
                Some(copy_section(data, offset, size))
            } else {
                None
            }
        } else {
            None
        };
        Ok(Frame::Error { code, message })
    } else {
        let t = binary4(msg_type);
        Err(AsrError::Protocol(concat2("unknown message type: ", t.as_str())))
    }
}

fn owned_text(s: &str) -> (r: String)
    ensures
        r@ == s@,
{
    s.to_owned()
}

/// A server message: a response with its JSON document, or an error.
#[derive(Debug, PartialEq, Eq)]
pub enum ServerMessage {
    Response { json: Json, is_last: bool },
    Error { code: u32, message: String },
}

/// The model of a server message.
pub enum ServerMessageV {
    Response { json: JsonV, is_last: bool },
    Error { code: u32, message: Seq<char> },
}

impl View for ServerMessage {
    type V = ServerMessageV;

    open spec fn view(&self) -> ServerMessageV {
        match self {
            ServerMessage::Response { json, is_last } => ServerMessageV::Response { json: json.model(), is_last: *is_last },
            ServerMessage::Error { code, message } => ServerMessageV::Error { code: *code, message: message@ },
        }
    }
}

/// What `String::from_utf8_lossy` gives for these bytes.
pub uninterp spec fn utf8_lossy(bytes: Seq<u8>) -> Seq<char>;

/// Decodes bytes as UTF-8, replacing invalid sequences.
/// Trusted: `String::from_utf8_lossy`, whose result is a function of the bytes
/// (`utf8_lossy`) and, as its documentation says, is the decoded text when the bytes
/// are valid UTF-8.
#[verifier::external_body]
pub(crate) fn lossy_text(bytes: &[u8]) -> (r: String)
    ensures
        r@ == utf8_lossy(bytes@),
        valid_utf8(bytes@) ==> r@ == decode_utf8(bytes@),
{
    String::from_utf8_lossy(bytes).to_string()
}

/// The payload's JSON document, given the (possibly decompressed) payload bytes.
pub open spec fn spec_payload_json(bytes: Seq<u8>, serialization: u8) -> Result<JsonV, AsrErrorV> {
    if serialization == SERIAL_JSON {
        match json_decoded(bytes) {
            Ok(j) => Ok(j),
            Err(e) => Err(AsrErrorV::Protocol("parse JSON: "@ + e)),
        }
    } else {
        Ok(JsonV::Null)
    }
}

/// The outcome of `parse_server_response`.
pub open spec fn spec_parse_server_response(d: Seq<u8>) -> Result<ServerMessageV, AsrErrorV> {
    match spec_decode_frame(d) {
        Err(m) => Err(AsrErrorV::Protocol(m)),
        Ok(FrameV::Response { is_last, serialization, compression, payload }) => {
            let bytes = if compression == COMPRESS_GZIP {
                spec_gzip_decompress(payload)
            } else {
                Ok(payload)
            };
            match bytes {
                Err(e) => Err(e),
                Ok(b) => match spec_payload_json(b, serialization) {
                    Ok(j) => Ok(ServerMessageV::Response { json: j, is_last }),
                    Err(e) => Err(e),
                },
            }
        },
        Ok(FrameV::Error { code, message }) => Ok(ServerMessageV::Error {
            code,
            message: match message {
                Some(m) => utf8_lossy(m),
                None => Seq::empty(),
            },
        }),
    }
}

/// The model of a parse outcome.
pub open spec fn server_message_result(r: Result<ServerMessage, AsrError>) -> Result<ServerMessageV, AsrErrorV> {
    match r {
        Ok(m) => Ok(m@),
        Err(e) => Err(e@),
    }
}

/// The outcome for a full server response with these fields.
pub open spec fn spec_response_message(is_last: bool, serialization: u8, compression: u8, payload: Seq<u8>) -> Result<ServerMessageV, AsrErrorV> {
    let bytes = if compression == COMPRESS_GZIP {
        spec_gzip_decompress(payload)
    } else {
        Ok(payload)
    };
    match bytes {
        Err(e) => Err(e),
        Ok(b) => match spec_payload_json(b, serialization) {
            Ok(j) => Ok(ServerMessageV::Response { json: j, is_last }),
            Err(e) => Err(e),
        },
    }
}

/// Decompresses and parses the payload of a full server response.
fn response_message(is_last: bool, serialization: u8, compression: u8, payload: Vec<u8>) -> (r: Result<ServerMessage, AsrError>)
    ensures
        server_message_result(r) == spec_response_message(is_last, serialization, compression, payload@),
        forall|j: JsonV, jb: Seq<u8>|
            (server_message_result(r) == Ok::<ServerMessageV, AsrErrorV>(ServerMessageV::Response { json: j, is_last })) <== (
            serialization == SERIAL_JSON && compression == COMPRESS_GZIP && #[trigger] json_encoded(j) == Ok::<Seq<u8>, Seq<char>>(jb)
                && #[trigger] spec_gzip_compress(jb) == Ok::<Seq<u8>, AsrErrorV>(payload@) && plain_json(j) && within_depth(j, MAX_PARSE_DEPTH as nat)),
{
    let ghost p = payload@;
    let json_bytes = if compression == COMPRESS_GZIP {
        match gzip_decompress(payload.as_slice()) {
            Ok(b) => b,
            Err(e) => {
                assert(forall|jb: Seq<u8>| #[trigger] spec_gzip_compress(jb) != Ok::<Seq<u8>, AsrErrorV>(p));
                return Err(e);
            },
        }
    } else {
        payload
    };
    let json = if serialization == SERIAL_JSON {
        match parse_json(json_bytes.as_slice()) {
            Ok(j) => j,
            Err(e) => {
                assert(forall|j: JsonV, jb: Seq<u8>| #[trigger] json_encoded(j) == Ok::<Seq<u8>, Seq<char>>(jb)
                    && #[trigger] spec_gzip_compress(jb) == Ok::<Seq<u8>, AsrErrorV>(p) && compression == COMPRESS_GZIP
                    ==> !(plain_json(j) && within_depth(j, MAX_PARSE_DEPTH as nat)));
                return Err(AsrError::Protocol(concat2("parse JSON: ", e.as_str())));
            },
        }
    } else {
        Json::Null
    };
    Ok(ServerMessage::Response { json, is_last })
}

/// Parses a binary frame received from the server. A full response framed by
/// `build_header` and `build_frame` around a plain JSON document written by `serde_json`
/// and compressed by `gzip_compress` is parsed back into that document.
pub fn parse_server_response(data: &[u8]) -> (r: Result<ServerMessage, AsrError>)
    ensures
        server_message_result(r) == spec_parse_server_response(data@),
        forall|flags: u8, j: JsonV, jb: Seq<u8>, c: Seq<u8>|
            #![trigger json_encoded(j), spec_gzip_compress(jb), frame_bytes(header_bytes(MSG_FULL_SERVER_RESPONSE, flags, SERIAL_JSON, COMPRESS_GZIP), c)]
            (server_message_result(r) == Ok::<ServerMessageV, AsrErrorV>(ServerMessageV::Response { json: j, is_last: flags == FLAG_LAST_PACKET })) <== (
            (flags == FLAG_NONE || flags == FLAG_LAST_PACKET) && json_encoded(j) == Ok::<Seq<u8>, Seq<char>>(jb)
                && spec_gzip_compress(jb) == Ok::<Seq<u8>, AsrErrorV>(c) && c.len() <= u32::MAX && plain_json(j)
                && within_depth(j, MAX_PARSE_DEPTH as nat)
                && data@ == frame_bytes(header_bytes(MSG_FULL_SERVER_RESPONSE, flags, SERIAL_JSON, COMPRESS_GZIP), c)),
{
    let frame = match decode_frame(data) {
        Ok(f) => f,
        Err(e) => {
            proof {
                assert forall|flags: u8, c: Seq<u8>|
                    (flags == FLAG_NONE || flags == FLAG_LAST_PACKET) && c.len() <= u32::MAX implies data@
                    != #[trigger] frame_bytes(header_bytes(MSG_FULL_SERVER_RESPONSE, flags, SERIAL_JSON, COMPRESS_GZIP), c) by {
                    law_response_frame_roundtrip(flags, SERIAL_JSON, COMPRESS_GZIP, c);
                }
            }
            return Err(e);
        },
    };
    match frame {
        Frame::Response { is_last, serialization, compression, payload } => {
            let ghost pl = payload@;
            let r = response_message(is_last, serialization, compression, payload);
            proof {
                assert forall|flags: u8, j: JsonV, jb: Seq<u8>, c: Seq<u8>|
                    (flags == FLAG_NONE || flags == FLAG_LAST_PACKET) && #[trigger] json_encoded(j) == Ok::<Seq<u8>, Seq<char>>(jb)
                        && #[trigger] spec_gzip_compress(jb) == Ok::<Seq<u8>, AsrErrorV>(c) && c.len() <= u32::MAX && plain_json(j)
                        && within_depth(j, MAX_PARSE_DEPTH as nat)
                        && data@ == #[trigger] frame_bytes(header_bytes(MSG_FULL_SERVER_RESPONSE, flags, SERIAL_JSON, COMPRESS_GZIP), c)
                    implies server_message_result(r) == Ok::<ServerMessageV, AsrErrorV>(ServerMessageV::Response { json: j, is_last: flags == FLAG_LAST_PACKET }) by {
                    law_response_frame_roundtrip(flags, SERIAL_JSON, COMPRESS_GZIP, c);
                    assert(pl == c);
                    assert(is_last == (flags == FLAG_LAST_PACKET));
                }
            }
            r
        },
        Frame::Error { code, message } => {
            let message = match message {
                Some(m) => lossy_text(m.as_slice()),
                None => String::new(),
            };
            proof {
                assert forall|flags: u8, c: Seq<u8>|
                    (flags == FLAG_NONE || flags == FLAG_LAST_PACKET) && c.len() <= u32::MAX implies data@
                    != #[trigger] frame_bytes(header_bytes(MSG_FULL_SERVER_RESPONSE, flags, SERIAL_JSON, COMPRESS_GZIP), c) by {
                    law_response_frame_roundtrip(flags, SERIAL_JSON, COMPRESS_GZIP, c);
                }
            }
            Ok(ServerMessage::Error { code, message })
        },
    }
}

// ─── Client requests ─────────────────────────────────────────────────

/// The outcome of `build_audio_frame`: an audio-only frame whose payload is the
/// gzip-compressed audio, flagged as the last packet when `is_last`.
pub open spec fn spec_audio_frame(data: Seq<u8>, is_last: bool) -> Result<Seq<u8>, AsrErrorV> {
    match spec_gzip_compress(data) {
        Ok(c) => Ok(frame_bytes(
            header_bytes(MSG_AUDIO_ONLY, if is_last { FLAG_LAST_PACKET } else { FLAG_NONE }, SERIAL_NONE, COMPRESS_GZIP),
            c,
        )),
        Err(e) => Err(e),
    }
}

/// The hotwords document: `{"hotwords": [{"word": w}, ...]}`.
pub open spec fn hotwords_doc(words: Seq<Seq<char>>) -> JsonV {
    JsonV::Object(seq![("hotwords"@, JsonV::Array(Seq::new(words.len(), |i: int| JsonV::Object(seq![("word"@, JsonV::Str(words[i]))]))))])
}

/// The corpus context: the hotwords document as JSON text, or empty text if it cannot
/// be written.
pub open spec fn corpus_context(words: Seq<Seq<char>>) -> Seq<char> {
    match json_rendered(hotwords_doc(words)) {
        Ok(t) => t,
        Err(_) => Seq::empty(),
    }
}

/// The fixed part of the `request` section, members in key order.
pub open spec fn request_members(c: AsrConfig) -> Seq<(Seq<char>, JsonV)> {
    seq![
        ("enable_ddc"@, JsonV::Bool(c.enable_ddc)),
        ("enable_itn"@, JsonV::Bool(c.enable_itn)),
        ("enable_nonstream"@, JsonV::Bool(c.enable_nonstream)),
        ("enable_punc"@, JsonV::Bool(c.enable_punc)),
        ("model_name"@, JsonV::Str("bigmodel"@)),
        ("result_type"@, JsonV::Str("full"@)),
        ("show_utterances"@, JsonV::Bool(true)),
    ]
}

/// The `request` section; hotwords, when there are any, go in `corpus.context`.
pub open spec fn request_doc(c: AsrConfig) -> JsonV {
    if c.hotwords@.len() == 0 {
        JsonV::Object(request_members(c))
    } else {
        JsonV::Object(
            seq![("corpus"@, JsonV::Object(seq![("context"@, JsonV::Str(corpus_context(c.hotword_texts())))]))]
                + request_members(c),
        )
    }
}

/// The full client request document, members in key order.
pub open spec fn full_request_doc(c: AsrConfig) -> JsonV {
    JsonV::Object(seq![
        ("audio"@, JsonV::Object(seq![
            ("bits"@, JsonV::Number(JsonNumberV::PosInt(16))),
            ("channel"@, JsonV::Number(JsonNumberV::PosInt(1))),
            ("codec"@, JsonV::Str("raw"@)),
            ("format"@, JsonV::Str("pcm"@)),
            ("rate"@, JsonV::Number(JsonNumberV::PosInt(c.sample_rate_hz as u64))),
        ])),
        ("request"@, request_doc(c)),
        ("user"@, JsonV::Object(seq![("uid"@, JsonV::Str("koe-asr"@))])),
    ])
}

/// The outcome of `build_full_client_request`: the request document written as JSON,
/// gzip-compressed, in a full-client-request frame.
pub open spec fn spec_full_client_request(c: AsrConfig) -> Result<Seq<u8>, AsrErrorV> {
    match json_encoded(full_request_doc(c)) {
        Err(e) => Err(AsrErrorV::Protocol("serialize request: "@ + e)),
        Ok(b) => match spec_gzip_compress(b) {
            Ok(z) => Ok(frame_bytes(header_bytes(MSG_FULL_CLIENT_REQUEST, FLAG_NONE, SERIAL_JSON, COMPRESS_GZIP), z)),
            Err(e) => Err(e),
        },
    }
}

proof fn lemma_hotwords_writable(words: Seq<Seq<char>>)
    ensures
        writable(hotwords_doc(words)),
{
    let a = Seq::new(words.len(), |i: int| JsonV::Object(seq![("word"@, JsonV::Str(words[i]))]));
    assert forall|i: int| 0 <= i < a.len() implies writable(#[trigger] a[i]) by {
        let es = seq![("word"@, JsonV::Str(words[i]))];
        assert(writable(es[0].1));
        assert(a[i] == JsonV::Object(es));
    }
    assert(writable(JsonV::Array(a)));
    let top = seq![("hotwords"@, JsonV::Array(a))];
    assert(writable(top[0].1));
}

proof fn lemma_full_request_writable(c: AsrConfig)
    ensures
        writable(full_request_doc(c)),
{
    let audio = seq![
        ("bits"@, JsonV::Number(JsonNumberV::PosInt(16))),
        ("channel"@, JsonV::Number(JsonNumberV::PosInt(1))),
        ("codec"@, JsonV::Str("raw"@)),
        ("format"@, JsonV::Str("pcm"@)),
        ("rate"@, JsonV::Number(JsonNumberV::PosInt(c.sample_rate_hz as u64))),
    ];
    assert forall|i: int| 0 <= i < audio.len() implies writable(#[trigger] audio[i].1) by {}
    assert(writable(JsonV::Object(audio)));
    let rm = request_members(c);
    assert forall|i: int| 0 <= i < rm.len() implies writable(#[trigger] rm[i].1) by {}
    let ctx = seq![("context"@, JsonV::Str(corpus_context(c.hotword_texts())))];
    assert(writable(ctx[0].1));
    let corpus = seq![("corpus"@, JsonV::Object(ctx))];
    assert(writable(corpus[0].1));
    let all = corpus + rm;
    assert forall|i: int| 0 <= i < all.len() implies writable(#[trigger] all[i].1) by {
        if i > 0 {
            assert(all[i] == rm[i - 1]);
        }
    }
    assert(writable(request_doc(c)));
    let user = seq![("uid"@, JsonV::Str("koe-asr"@))];
    assert(writable(user[0].1));
    let top = seq![
        ("audio"@, JsonV::Object(audio)),
        ("request"@, request_doc(c)),
        ("user"@, JsonV::Object(user)),
    ];
    assert forall|i: int| 0 <= i < top.len() implies writable(#[trigger] top[i].1) by {}
    assert(full_request_doc(c) == JsonV::Object(top));
}

/// The hotwords document is plain and shallow, so the `corpus.context` text, which is
/// that document written as JSON, parses back into it.
pub proof fn law_hotwords_doc_plain(words: Seq<Seq<char>>)
    ensures
        plain_json(hotwords_doc(words)),
        within_depth(hotwords_doc(words), MAX_PARSE_DEPTH as nat),
{
    let a = Seq::new(words.len(), |i: int| JsonV::Object(seq![("word"@, JsonV::Str(words[i]))]));
    assert forall|i: int| 0 <= i < a.len() implies plain_json(#[trigger] a[i]) && within_depth(a[i], 125) by {
        let es = seq![("word"@, JsonV::Str(words[i]))];
        assert(plain_json(es[0].1));
        assert(within_depth(es[0].1, 124));
        assert(a[i] == JsonV::Object(es));
    }
    assert(plain_json(JsonV::Array(a)));
    assert(within_depth(JsonV::Array(a), 126));
    let top = seq![("hotwords"@, JsonV::Array(a))];
    assert(plain_json(top[0].1));
    assert(within_depth(top[0].1, 126));
    assert(hotwords_doc(words) == JsonV::Object(top));
}

/// Builds the hotwords document of a configuration.
fn build_hotwords_doc(config: &AsrConfig) -> (j: Json)
    ensures
        j.model() == hotwords_doc(config.hotword_texts()),
{
    let mut words: Vec<Json> = Vec::new();
    let n = config.hotwords.len();
    let mut i: usize = 0;
    while i < n
        invariant
            n == config.hotwords@.len(),
            i <= n,
            words@.len() == i,
            forall|k: int| 0 <= k < i ==> (#[trigger] words@[k]).model() == JsonV::Object(
                seq![("word"@, JsonV::Str(config.hotwords@[k]@))],
            ),
        decreases n - i,
    {
        let mut m: Vec<(String, Json)> = Vec::new();
        m.push(member("word", Json::Str(config.hotwords[i].clone())));
        proof {
            lemma_object_model(m);
            assert(members_model(m@) =~= seq![("word"@, JsonV::Str(config.hotwords@[i as int]@))]);
        }
        words.push(Json::Object(m));
        i = i + 1;
    }
    proof {
        lemma_array_model(words);
        assert(elements_model(words@) =~= Seq::new(
            config.hotword_texts().len(),
            |k: int| JsonV::Object(seq![("word"@, JsonV::Str(config.hotword_texts()[k]))]),
        ));
    }
    let mut top: Vec<(String, Json)> = Vec::new();
    top.push(member("hotwords", Json::Array(words)));
    proof {
        lemma_object_model(top);
        assert(members_model(top@) =~= seq![("hotwords"@, Json::Array(words).model())]);
    }
    Json::Object(top)
}

/// Builds the full client request document of a configuration.
fn build_full_request_doc(config: &AsrConfig) -> (j: Json)
    ensures
        j.model() == full_request_doc(*config),
        config.hotwords@.len() > 0 ==> json_encoded(hotwords_doc(config.hotword_texts())) == Ok::<Seq<u8>, Seq<char>>(encode_utf8(corpus_context(config.hotword_texts()))),
{
    let mut request: Vec<(String, Json)> = Vec::new();
    let ghost prefix: Seq<(Seq<char>, JsonV)> = Seq::empty();
    if config.hotwords.len() > 0 {
        let hotwords_json = build_hotwords_doc(config);
        proof {
            lemma_hotwords_writable(config.hotword_texts());
        }
        let context_str = match json_to_string(&hotwords_json) {
            Ok(t) => t,
            Err(_) => String::new(),
        };
        let mut corpus: Vec<(String, Json)> = Vec::new();
        corpus.push(member("context", Json::Str(context_str)));
        proof {
            lemma_object_model(corpus);
            assert(members_model(corpus@) =~= seq![("context"@, JsonV::Str(corpus_context(config.hotword_texts())))]);
        }
        request.push(member("corpus", Json::Object(corpus)));
        proof {
            prefix = seq![("corpus"@, JsonV::Object(seq![("context"@, JsonV::Str(corpus_context(config.hotword_texts())))]))];
            assert(members_model(request@) =~= prefix);
        }
    }
    let ghost before = request@;
    request.push(member("enable_ddc", Json::Bool(config.enable_ddc)));
    request.push(member("enable_itn", Json::Bool(config.enable_itn)));
    request.push(member("enable_nonstream", Json::Bool(config.enable_nonstream)));
    request.push(member("enable_punc", Json::Bool(config.enable_punc)));
    request.push(member("model_name", json_str("bigmodel")));
    request.push(member("result_type", json_str("full")));
    request.push(member("show_utterances", Json::Bool(true)));
    proof {
        lemma_object_model(request);
        assert(members_model(before) =~= prefix);
        assert(members_model(request@) =~= prefix + request_members(*config));
        if config.hotwords@.len() == 0 {
            assert(prefix + request_members(*config) =~= request_members(*config));
        }
    }
    let mut audio: Vec<(String, Json)> = Vec::new();
    audio.push(member("bits", json_uint(16)));
    audio.push(member("channel", json_uint(1)));
    audio.push(member("codec", json_str("raw")));
    audio.push(member("format", json_str("pcm")));
    audio.push(member("rate", json_uint(config.sample_rate_hz as u64)));
    let mut user: Vec<(String, Json)> = Vec::new();
    user.push(member("uid", json_str("koe-asr")));
    let mut top: Vec<(String, Json)> = Vec::new();
    let audio_j = Json::Object(audio);
    let request_j = Json::Object(request);
    let user_j = Json::Object(user);
    proof {
        lemma_object_model(audio);
        lemma_object_model(user);
    }
    top.push(member("audio", audio_j));
    top.push(member("request", request_j));
    top.push(member("user", user_j));
    proof {
        lemma_object_model(top);
        assert(members_model(audio@) =~= seq![
            ("bits"@, JsonV::Number(JsonNumberV::PosInt(16))),
            ("channel"@, JsonV::Number(JsonNumberV::PosInt(1))),
            ("codec"@, JsonV::Str("raw"@)),
            ("format"@, JsonV::Str("pcm"@)),
            ("rate"@, JsonV::Number(JsonNumberV::PosInt(config.sample_rate_hz as u64))),
        ]);
        assert(members_model(user@) =~= seq![("uid"@, JsonV::Str("koe-asr"@))]);
        assert(members_model(top@) =~= seq![
            ("audio"@, audio_j.model()),
            ("request"@, request_j.model()),
            ("user"@, user_j.model()),
        ]);
    }
    Json::Object(top)
}

// ─── Provider ───────────────────────────────────────────────────────

/// A byte that an HTTP header value may hold: visible ASCII, tab, or any byte of 128 and
/// above (the rule of `http::HeaderValue::from_str`).
pub open spec fn header_byte_ok(b: u8) -> bool {
    (b >= 32 && b != 127) || b == 9
}

/// Text that `http::HeaderValue::from_str` accepts.
pub open spec fn header_value_ok(s: Seq<char>) -> bool {
    forall|i: int| 0 <= i < encode_utf8(s).len() ==> header_byte_ok(#[trigger] encode_utf8(s)[i])
}

/// Whether text can be sent as an HTTP header value.
pub fn is_header_value(s: &str) -> (r: bool)
    ensures
        r == header_value_ok(s@),
{
    let bytes = s.as_bytes();
    let mut i: usize = 0;
    while i < bytes.len()
        invariant
            bytes@ == encode_utf8(s@),
            i <= bytes@.len(),
            forall|k: int| 0 <= k < i ==> header_byte_ok(#[trigger] bytes@[k]),
        decreases bytes@.len() - i,
    {
        let b = bytes[i];
        if !((b >= 32 && b != 127) || b == 9) {
            return false;
        }
        i = i + 1;
    }
    true
}

/// The model of header lists.
pub open spec fn headers_model(hs: Seq<(String, String)>) -> Seq<(Seq<char>, Seq<char>)> {
    Seq::new(hs.len(), |i: int| (hs[i].0@, hs[i].1@))
}

/// The connection headers of a Doubao session, or the error for the first value that
/// cannot be a header value.
pub open spec fn spec_connect_headers(c: AsrConfig, connect_id: Seq<char>) -> Result<Seq<(Seq<char>, Seq<char>)>, AsrErrorV> {
    if !header_value_ok(c.app_key@) {
        Err(AsrErrorV::Connection("invalid app_key"@))
    } else if !header_value_ok(c.access_key@) {
        Err(AsrErrorV::Connection("invalid access_key"@))
    } else if !header_value_ok(c.resource_id@) {
        Err(AsrErrorV::Connection("invalid resource_id"@))
    } else if !header_value_ok(connect_id) {
        Err(AsrErrorV::Connection("invalid connect_id"@))
    } else {
        Ok(seq![
            ("X-Api-App-Key"@, c.app_key@),
            ("X-Api-Access-Key"@, c.access_key@),
            ("X-Api-Resource-Id"@, c.resource_id@),
            ("X-Api-Connect-Id"@, connect_id),
        ])
    }
}

/// The text of a response: `result.text`, or empty text.
pub open spec fn response_text(j: JsonV) -> Seq<char> {
    text_or(opt_str(opt_field(field(j, "result"@), "text"@)), Seq::empty())
}

/// Whether some utterance of `result.utterances` has `definite: true`.
pub open spec fn has_definite(j: JsonV) -> bool {
    match opt_array(opt_field(field(j, "result"@), "utterances"@)) {
        Some(us) => exists|i: int| 0 <= i < us.len() && opt_bool(field(#[trigger] us[i], "definite"@)) == Some(true),
        None => false,
    }
}

/// The event a response stands for: final when it is the last packet, definite when some
/// utterance is definite, interim otherwise; each carries the response text.
pub open spec fn response_event(j: JsonV, is_last: bool) -> AsrEventV {
    if is_last {
        AsrEventV::Final(response_text(j))
    } else if has_definite(j) {
        AsrEventV::Definite(response_text(j))
    } else {
        AsrEventV::Interim(response_text(j))
    }
}

/// What a server message yields: the response's event, or a protocol error that names
/// the server's error code and message.
pub open spec fn spec_message_event(m: ServerMessageV) -> Result<AsrEventV, AsrErrorV> {
    match m {
        ServerMessageV::Response { json, is_last } => Ok(response_event(json, is_last)),
        ServerMessageV::Error { code, message } => Err(AsrErrorV::Protocol(
            "server error "@ + decimal(code as nat) + ": "@ + message,
        )),
    }
}

/// What a received WebSocket message yields; `None` when there is no connection.
pub open spec fn spec_next_event(incoming: Option<Incoming>) -> Result<AsrEventV, AsrErrorV> {
    match incoming {
        None => Err(AsrErrorV::Connection("not connected"@)),
        Some(Incoming::Binary(data)) => match spec_parse_server_response(data@) {
            Ok(m) => spec_message_event(m),
            Err(e) => Err(e),
        },
        Some(Incoming::Close(_)) => Ok(AsrEventV::Closed),
        Some(Incoming::End) => Ok(AsrEventV::Closed),
        Some(Incoming::Failed(e)) => Err(AsrErrorV::Protocol(e@)),
        Some(Incoming::Text(_)) => Ok(AsrEventV::Interim(Seq::empty())),
        Some(Incoming::Other) => Ok(AsrEventV::Interim(Seq::empty())),
    }
}

/// Doubao streaming ASR provider using the Volcengine binary WebSocket protocol.
///
/// It holds the session's identity; the WebSocket itself is held by the caller, which
/// performs the I/O this provider decides on.
#[derive(Debug)]
pub struct DoubaoWsProvider {
    connect_id: String,
    logid: Option<String>,
}

impl DoubaoWsProvider {
    /// The connect ID of this session.
    pub closed spec fn spec_connect_id(&self) -> Seq<char> {
        self.connect_id@
    }

    /// The server-assigned log ID, once known.
    pub closed spec fn spec_logid(&self) -> Option<Seq<char>> {
        match self.logid {
            Some(l) => Some(l@),
            None => None,
        }
    }

    /// A provider with a fresh random connect ID and no log ID.
    pub fn new() -> (p: Self)
        ensures
            is_uuid_v4_text(p.spec_connect_id()),
            p.spec_logid() is None,
    {
        DoubaoWsProvider { connect_id: new_uuid_v4(), logid: None }
    }

    /// Returns the connect ID for this session.
    pub fn connect_id(&self) -> (r: &str)
        ensures
            r@ == self.spec_connect_id(),
    {
        self.connect_id.as_str()
    }

    /// Returns the server-assigned log ID (available after connect).
    pub fn logid(&self) -> (r: Option<&str>)
        ensures
            match r {
                Some(l) => self.spec_logid() == Some(l@),
                None => self.spec_logid() is None,
            },
    {
        match &self.logid {
            Some(l) => Some(l.as_str()),
            None => None,
        }
    }

    /// Records the `X-Tt-Logid` of the handshake response, when it had a readable one;
    /// an absent one leaves the log ID as it was.
    pub fn record_logid(&mut self, value: Option<String>)
        ensures
            final(self).spec_connect_id() == old(self).spec_connect_id(),
            final(self).spec_logid() == match value {
                Some(v) => Some(v@),
                None => old(self).spec_logid(),
            },
    {
        if let Some(v) = value {
            self.logid = Some(v);
        }
    }

    /// The headers of the connection request: app key, access key, resource ID and
    /// connect ID, each checked to be a valid header value.
    pub fn connect_headers(&self, config: &AsrConfig) -> (r: Result<Vec<(String, String)>, AsrError>)
        ensures
            match r {
                Ok(hs) => spec_connect_headers(*config, self.spec_connect_id()) == Ok::<Seq<(Seq<char>, Seq<char>)>, AsrErrorV>(headers_model(hs@)),
                Err(e) => spec_connect_headers(*config, self.spec_connect_id()) == Err::<Seq<(Seq<char>, Seq<char>)>, AsrErrorV>(e@),
            },
    {
        if !is_header_value(config.app_key.as_str()) {
            return Err(AsrError::Connection(owned("invalid app_key")));
        }
        if !is_header_value(config.access_key.as_str()) {
            return Err(AsrError::Connection(owned("invalid access_key")));
        }
        if !is_header_value(config.resource_id.as_str()) {
            return Err(AsrError::Connection(owned("invalid resource_id")));
        }
        if !is_header_value(self.connect_id.as_str()) {
            return Err(AsrError::Connection(owned("invalid connect_id")));
        }
        let mut hs: Vec<(String, String)> = Vec::new();
        hs.push((owned("X-Api-App-Key"), config.app_key.clone()));
        hs.push((owned("X-Api-Access-Key"), config.access_key.clone()));
        hs.push((owned("X-Api-Resource-Id"), config.resource_id.clone()));
        hs.push((owned("X-Api-Connect-Id"), self.connect_id.clone()));
        assert(headers_model(hs@) =~= seq![
            ("X-Api-App-Key"@, config.app_key@),
            ("X-Api-Access-Key"@, config.access_key@),
            ("X-Api-Resource-Id"@, config.resource_id@),
            ("X-Api-Connect-Id"@, self.connect_id@),
        ]);
        Ok(hs)
    }

    /// Builds the full client request frame that opens a session; it does not fail. With
    /// hotwords, `corpus.context` is the JSON text of the hotwords document.
    pub fn build_full_client_request(&self, config: &AsrConfig) -> (r: Result<Vec<u8>, AsrError>)
        ensures
            bytes_result(r) == spec_full_client_request(*config),
            r is Ok,
            config.hotwords@.len() > 0 ==> json_encoded(hotwords_doc(config.hotword_texts())) == Ok::<Seq<u8>, Seq<char>>(encode_utf8(corpus_context(config.hotword_texts()))),
    {
        let payload_json = build_full_request_doc(config);
        proof {
            lemma_full_request_writable(*config);
        }
        let json_bytes = match json_to_vec(&payload_json) {
            Ok(b) => b,
            Err(e) => return Err(AsrError::Protocol(concat2("serialize request: ", e.as_str()))),
        };
        let compressed = gzip_compress(json_bytes.as_slice())?;
        let header = build_header(MSG_FULL_CLIENT_REQUEST, FLAG_NONE, SERIAL_JSON, COMPRESS_GZIP);
        Ok(build_frame(header, compressed.as_slice()))
    }

    /// Builds an audio-only frame; the last one carries the last-packet flag.
    pub fn build_audio_frame(data: &[u8], is_last: bool) -> (r: Result<Vec<u8>, AsrError>)
        ensures
            bytes_result(r) == spec_audio_frame(data@, is_last),
    {
        let compressed = gzip_compress(data)?;
        let flags = if is_last { FLAG_LAST_PACKET } else { FLAG_NONE };
        let header = build_header(MSG_AUDIO_ONLY, flags, SERIAL_NONE, COMPRESS_GZIP);
        Ok(build_frame(header, compressed.as_slice()))
    }

    /// Turns a server message into an event, or into an error for a server error.
    pub fn message_event(message: ServerMessage) -> (r: Result<AsrEvent, AsrError>)
        ensures
            event_result(r) == spec_message_event(message@),
    {
        match message {
            ServerMessage::Response { json, is_last } => {
                let result = json.get("result");
                let text_opt = opt_as_str(opt_get(result, "text"));
                let text = match text_opt {
                    Some(t) => owned(t),
                    None => String::new(),
                };
                let utterances = opt_get(result, "utterances");
                let has_definite = match utterances {
                    Some(u) => match u.as_array() {
                        Some(us) => Self::any_definite(us),
                        None => false,
                    },
                    None => false,
                };
                if is_last {
                    Ok(AsrEvent::Final(text))
                } else if has_definite {
                    Ok(AsrEvent::Definite(text))
                } else {
                    Ok(AsrEvent::Interim(text))
                }
            },
            ServerMessage::Error { code, message } => {
                let code_text = decimal_string(code as u64);
                let head = concat3("server error ", code_text.as_str(), ": ");
                Err(AsrError::Protocol(concat2(head.as_str(), message.as_str())))
            },
        }
    }

    fn any_definite(us: &Vec<Json>) -> (r: bool)
        ensures
            r == exists|i: int| 0 <= i < us@.len() && opt_bool(field(#[trigger] elements_model(us@)[i], "definite"@)) == Some(true),
    {
        let mut i: usize = 0;
        while i < us.len()
            invariant
                i <= us@.len(),
                forall|k: int| 0 <= k < i ==> opt_bool(field(#[trigger] elements_model(us@)[k], "definite"@)) != Some(true),
            decreases us@.len() - i,
        {
            let d = opt_as_bool(us[i].get("definite"));
            if d == Some(true) {
                assert(elements_model(us@)[i as int] == us@[i as int].model());
                return true;
            }
            assert(elements_model(us@)[i as int] == us@[i as int].model());
            i = i + 1;
        }
        false
    }

    /// Decides what a received message means: `None` when there is no connection,
    /// otherwise the message as received.
    pub fn next_event(&self, incoming: Option<Incoming>) -> (r: Result<AsrEvent, AsrError>)
        ensures
            event_result(r) == spec_next_event(incoming),
    {
        match incoming {
            None => Err(AsrError::Connection(owned("not connected"))),
            Some(Incoming::Binary(data)) => {
                let m = parse_server_response(data.as_slice())?;
                Self::message_event(m)
            },
            Some(Incoming::Close(_)) => Ok(AsrEvent::Closed),
            Some(Incoming::End) => Ok(AsrEvent::Closed),
            Some(Incoming::Failed(e)) => Err(AsrError::Protocol(e)),
            Some(Incoming::Text(_)) => Ok(AsrEvent::Interim(String::new())),
            Some(Incoming::Other) => Ok(AsrEvent::Interim(String::new())),
        }
    }
}

impl Default for DoubaoWsProvider {
    fn default() -> (p: Self)
        ensures
            is_uuid_v4_text(p.spec_connect_id()),
            p.spec_logid() is None,
    {
        Self::new()
    }
}

// ─── Laws ───────────────────────────────────────────────────────────

proof fn lemma_be32_at_offset(pre: Seq<u8>, x: u32, post: Seq<u8>)
    ensures
        be32_at(pre + be32(x) + post, pre.len() as int) == x,
{
    lemma_be32_roundtrip(x);
    let d = pre + be32(x) + post;
    let k = pre.len() as int;
    assert(d[k] == be32(x)[0]);
    assert(d[k + 1] == be32(x)[1]);
    assert(d[k + 2] == be32(x)[2]);
    assert(d[k + 3] == be32(x)[3]);
}

/// A full server response framed with `build_header` and `build_frame` (no sequence
/// number) is decoded back into its flags, serialization, compression and payload.
pub proof fn law_response_frame_roundtrip(flags: u8, serialization: u8, compression: u8, payload: Seq<u8>)
    requires
        flags < 16,
        flags % 2 == 0,
        serialization < 16,
        compression < 16,
        payload.len() <= u32::MAX,
    ensures
        spec_decode_frame(frame_bytes(header_bytes(MSG_FULL_SERVER_RESPONSE, flags, serialization, compression), payload))
            == Ok::<FrameV, Seq<char>>(FrameV::Response {
            is_last: (flags / 2) % 2 == 1,
            serialization,
            compression,
            payload,
        }),
{
    let h = header_bytes(MSG_FULL_SERVER_RESPONSE, flags, serialization, compression);
    let d = frame_bytes(h, payload);
    assert(((PROTOCOL_VERSION << 4u8) | HEADER_SIZE) == 0x11u8) by (bit_vector);
    assert(flags < 16 ==> ((9u8 << 4u8) | flags) == 144 + flags) by (bit_vector);
    assert(serialization < 16 && compression < 16 ==> ((serialization << 4u8) | compression) == serialization * 16 + compression) by (bit_vector);
    assert(d[0] == 0x11u8);
    assert(d[1] == 144 + flags);
    assert(d[2] == serialization * 16 + compression);
    assert(header_len(d) == 4);
    lemma_be32_at_offset(h, payload.len() as u32, payload);
    assert(d =~= h + be32(payload.len() as u32) + payload);
    assert(be32_at(d, 4) == payload.len());
    assert(section(d, 8, payload.len()) =~= payload);
}

/// An error frame holding a code and a whole message is decoded back into them.
pub proof fn law_error_frame_roundtrip(code: u32, message: Seq<u8>)
    requires
        message.len() <= u32::MAX,
    ensures
        spec_decode_frame(header_bytes(MSG_ERROR, FLAG_NONE, SERIAL_NONE, 0) + be32(code) + be32(message.len() as u32) + message)
            == Ok::<FrameV, Seq<char>>(FrameV::Error { code, message: Some(message) }),
{
    let h = header_bytes(MSG_ERROR, FLAG_NONE, SERIAL_NONE, 0);
    let d = h + be32(code) + be32(message.len() as u32) + message;
    assert(((PROTOCOL_VERSION << 4u8) | HEADER_SIZE) == 0x11u8) by (bit_vector);
    assert(((15u8 << 4u8) | 0u8) == 240u8) by (bit_vector);
    assert(d[0] == 0x11u8);
    assert(d[1] == 240u8);
    lemma_be32_at_offset(h, code, be32(message.len() as u32) + message);
    assert(d =~= h + be32(code) + (be32(message.len() as u32) + message));
    lemma_be32_at_offset(h + be32(code), message.len() as u32, message);
    assert(section(d, 12, message.len()) =~= message);
}


/// In a full server response, whether it is the last packet is bit 1 of the flags
/// nibble (the low nibble of byte 1) and nothing else; bit 0 only says that a sequence
/// number follows the header.
pub proof fn law_last_flag_is_bit_one(d: Seq<u8>)
    ensures
        spec_decode_frame(d) matches Ok(FrameV::Response { is_last, .. }) ==> d.len() >= 4 && d[1] / 16 == 9
            && is_last == (d[1] % 4 >= 2),
{
}

/// A full server response with a sequence number (odd flags) framed as header, sequence
/// number, payload size and payload is decoded into its payload; it is the last packet
/// exactly when bit 1 of the flags is set.
pub proof fn law_sequenced_response_frame_roundtrip(flags: u8, serialization: u8, compression: u8, sequence: u32, payload: Seq<u8>)
    requires
        flags < 16,
        flags % 2 == 1,
        serialization < 16,
        compression < 16,
        payload.len() <= u32::MAX,
    ensures
        spec_decode_frame(
            header_bytes(MSG_FULL_SERVER_RESPONSE, flags, serialization, compression) + be32(sequence) + be32(
                payload.len() as u32,
            ) + payload,
        ) == Ok::<FrameV, Seq<char>>(FrameV::Response {
            is_last: flags % 4 >= 2,
            serialization,
            compression,
            payload,
        }),
{
    let h = header_bytes(MSG_FULL_SERVER_RESPONSE, flags, serialization, compression);
    let d = h + be32(sequence) + be32(payload.len() as u32) + payload;
    assert(((PROTOCOL_VERSION << 4u8) | HEADER_SIZE) == 0x11u8) by (bit_vector);
    assert(flags < 16 ==> ((9u8 << 4u8) | flags) == 144 + flags) by (bit_vector);
    assert(serialization < 16 && compression < 16 ==> ((serialization << 4u8) | compression) == serialization * 16
        + compression) by (bit_vector);
    assert(d[0] == 0x11u8);
    assert(d[1] == 144 + flags);
    assert(d[2] == serialization * 16 + compression);
    assert(header_len(d) == 4);
    assert(d =~= (h + be32(sequence)) + be32(payload.len() as u32) + payload);
    lemma_be32_at_offset(h + be32(sequence), payload.len() as u32, payload);
    assert(be32_at(d, 8) == payload.len());
    assert(section(d, 12, payload.len()) =~= payload);
}

/// The text of a response: `result.text` when it is a string, else empty.
pub open spec fn result_text_of(json: JsonV) -> Seq<char> {
    match field(json, "result"@) {
        Some(r) => match field(r, "text"@) {
            Some(JsonV::Str(t)) => t,
            _ => Seq::empty(),
        },
        None => Seq::empty(),
    }
}

/// A response that is not the last packet is definite as soon as any one utterance of
/// `result.utterances`, at any position, has `definite: true`; it carries `result.text`.
pub proof fn law_any_definite_utterance(json: JsonV, result: JsonV, utterances: Seq<JsonV>, i: int)
    requires
        field(json, "result"@) == Some(result),
        field(result, "utterances"@) == Some(JsonV::Array(utterances)),
        0 <= i < utterances.len(),
        field(utterances[i], "definite"@) == Some(JsonV::Bool(true)),
    ensures
        spec_message_event(ServerMessageV::Response { json, is_last: false }) == Ok::<AsrEventV, AsrErrorV>(
            AsrEventV::Definite(result_text_of(json)),
        ),
{
    assert(opt_bool(field(utterances[i], "definite"@)) == Some(true));
}

/// The last packet is final, whatever its utterances say.
pub proof fn law_last_response_is_final(json: JsonV)
    ensures
        spec_message_event(ServerMessageV::Response { json, is_last: true }) == Ok::<AsrEventV, AsrErrorV>(
            AsrEventV::Final(result_text_of(json)),
        ),
{
}

/// A response that is not the last packet and in which no utterance of
/// `result.utterances` has `definite: true` is interim.
pub proof fn law_no_definite_utterance(json: JsonV, result: JsonV, utterances: Seq<JsonV>)
    requires
        field(json, "result"@) == Some(result),
        field(result, "utterances"@) == Some(JsonV::Array(utterances)),
        forall|i: int| 0 <= i < utterances.len() ==> #[trigger] field(utterances[i], "definite"@) != Some(JsonV::Bool(true)),
    ensures
        spec_message_event(ServerMessageV::Response { json, is_last: false }) == Ok::<AsrEventV, AsrErrorV>(
            AsrEventV::Interim(result_text_of(json)),
        ),
{
    assert forall|i: int| 0 <= i < utterances.len() implies opt_bool(field(#[trigger] utterances[i], "definite"@)) != Some(true) by {
        assert(field(utterances[i], "definite"@) != Some(JsonV::Bool(true)));
    }
}

/// A response that is not the last packet and has no `result.utterances` array is
/// interim.
pub proof fn law_no_utterances(json: JsonV)
    requires
        !(field(json, "result"@) matches Some(r) && field(r, "utterances"@) matches Some(JsonV::Array(_))),
    ensures
        spec_message_event(ServerMessageV::Response { json, is_last: false }) == Ok::<AsrEventV, AsrErrorV>(
            AsrEventV::Interim(result_text_of(json)),
        ),
{
}

proof fn lemma_lookup_skip(es: Seq<(Seq<char>, JsonV)>, k: int, key: Seq<char>)
    requires
        0 <= k <= es.len(),
        forall|j: int| 0 <= j < k ==> #[trigger] es[j].0 != key,
    ensures
        entries_lookup(es, key) == entries_lookup(es.skip(k), key),
    decreases k,
{
    if k > 0 {
        assert(es[0].0 != key);
        lemma_lookup_skip(es.drop_first(), k - 1, key);
        assert(es.drop_first().skip(k - 1) =~= es.skip(k));
    } else {
        assert(es.skip(0) =~= es);
    }
}

/// The `request` section of the full client request carries each switch of the
/// configuration under its own key.
pub proof fn law_request_switches(c: AsrConfig)
    ensures
        field(full_request_doc(c), "request"@) == Some(request_doc(c)),
        field(request_doc(c), "enable_ddc"@) == Some(JsonV::Bool(c.enable_ddc)),
        field(request_doc(c), "enable_itn"@) == Some(JsonV::Bool(c.enable_itn)),
        field(request_doc(c), "enable_nonstream"@) == Some(JsonV::Bool(c.enable_nonstream)),
        field(request_doc(c), "enable_punc"@) == Some(JsonV::Bool(c.enable_punc)),
{
    reveal_strlit("audio");
    reveal_strlit("request");
    reveal_strlit("corpus");
    reveal_strlit("enable_ddc");
    reveal_strlit("enable_itn");
    reveal_strlit("enable_nonstream");
    reveal_strlit("enable_punc");
    let top = seq![
        ("audio"@, JsonV::Object(seq![
            ("bits"@, JsonV::Number(JsonNumberV::PosInt(16))),
            ("channel"@, JsonV::Number(JsonNumberV::PosInt(1))),
            ("codec"@, JsonV::Str("raw"@)),
            ("format"@, JsonV::Str("pcm"@)),
            ("rate"@, JsonV::Number(JsonNumberV::PosInt(c.sample_rate_hz as u64))),
        ])),
        ("request"@, request_doc(c)),
        ("user"@, JsonV::Object(seq![("uid"@, JsonV::Str("koe-asr"@))])),
    ];
    assert(full_request_doc(c) == JsonV::Object(top));
    assert(top[0].0[0] != "request"@[0]);
    lemma_lookup_skip(top, 1, "request"@);
    assert(top.skip(1)[0] == top[1]);
    let ms = request_members(c);
    let es = if c.hotwords@.len() == 0 {
        ms
    } else {
        seq![("corpus"@, JsonV::Object(seq![("context"@, JsonV::Str(corpus_context(c.hotword_texts())))]))] + ms
    };
    let off: int = if c.hotwords@.len() == 0 { 0 } else { 1 };
    assert(request_doc(c) == JsonV::Object(es));
    // ddc
    assert forall|j: int| 0 <= j < off implies #[trigger] es[j].0 != "enable_ddc"@ by {
        assert(es[j].0[0] != "enable_ddc"@[0]);
    }
    lemma_lookup_skip(es, off, "enable_ddc"@);
    assert(es.skip(off) =~= ms);
    // itn
    assert forall|j: int| 0 <= j < off + 1 implies #[trigger] es[j].0 != "enable_itn"@ by {
        if j < off {
            assert(es[j].0[0] != "enable_itn"@[0]);
        } else {
            assert(es[j].0[7] != "enable_itn"@[7]);
        }
    }
    lemma_lookup_skip(es, off + 1, "enable_itn"@);
    assert(es.skip(off + 1)[0] == ms[1]);
    // nonstream
    assert forall|j: int| 0 <= j < off + 2 implies #[trigger] es[j].0 != "enable_nonstream"@ by {
        if j < off {
            assert(es[j].0[0] != "enable_nonstream"@[0]);
        } else {
            assert(es[j].0[7] != "enable_nonstream"@[7]);
        }
    }
    lemma_lookup_skip(es, off + 2, "enable_nonstream"@);
    assert(es.skip(off + 2)[0] == ms[2]);
    // punc
    assert forall|j: int| 0 <= j < off + 3 implies #[trigger] es[j].0 != "enable_punc"@ by {
        if j < off {
            assert(es[j].0[0] != "enable_punc"@[0]);
        } else {
            assert(es[j].0[7] != "enable_punc"@[7]);
        }
    }
    lemma_lookup_skip(es, off + 3, "enable_punc"@);
    assert(es.skip(off + 3)[0] == ms[3]);
}

} // verus!
