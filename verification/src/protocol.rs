//! The Marionette wire protocol: framed JSON messages `<length>:<json>`,
//! numbered requests `[0, id, command, params]`, and replies
//! `[1, id, error, result]`.
use vstd::prelude::*;
use vstd::utf8::*;
use crate::json::{json_parsed, json_text, json_to_string, member_str, parse_json, Json, JsonNumber, JsonView, NumberView};
use crate::text::{
    all_digits, ascii_bytes, chars_of, decimal_string, decimal_text, lemma_decimal_text,
    lemma_parse_decimal_text, lemma_trimmed_digits, parse_usize, parsed_unsigned, trimmed,
};

verus! {

broadcast use vstd::string::group_string_axioms;

// ---------------------------------------------------------------------------
// Framing
// ---------------------------------------------------------------------------

/// The byte that ends the length header of a frame (`:`).
pub const FRAME_SEPARATOR: u8 = 58;

/// A message on the wire: its length in decimal, a colon, the message.
pub open spec fn framed(message: Seq<u8>) -> Seq<u8> {
    frame_header_bytes(message.len()) + seq![FRAME_SEPARATOR] + message
}

/// The header of a frame for a message of `len` bytes.
pub open spec fn frame_header_bytes(len: nat) -> Seq<u8> {
    ascii_bytes(decimal_text(len))
}

/// Puts a message into a frame.
pub fn frame_message(message: &[u8]) -> (r: Vec<u8>)
    ensures
        r@ == framed(message@),
{
    let digits = chars_of(decimal_string(message.len() as u64).as_str());
    let mut out: Vec<u8> = Vec::new();
    let mut i: usize = 0;
    while i < digits.len()
        invariant
            digits@ == decimal_text(message@.len()),
            i <= digits@.len(),
            out@ == ascii_bytes(digits@.take(i as int)),
        decreases digits@.len() - i,
    {
        out.push(digits[i] as u8);
        assert(ascii_bytes(digits@.take(i + 1)) =~= ascii_bytes(digits@.take(i as int)).push(
            digits@[i as int] as u8,
        ));
        i = i + 1;
    }
    assert(digits@.take(i as int) =~= digits@);
    out.push(FRAME_SEPARATOR);
    let mut k: usize = 0;
    let ghost head = out@;
    while k < message.len()
        invariant
            k <= message@.len(),
            out@ == head + message@.take(k as int),
        decreases message@.len() - k,
    {
        out.push(message[k]);
        assert(message@.take(k + 1) =~= message@.take(k as int).push(message@[k as int]));
        k = k + 1;
    }
    assert(message@.take(k as int) =~= message@);
    out
}

/// The bytes of a frame header read so far, up to the separator.
pub struct FrameHeader {
    pub bytes: Vec<u8>,
}

impl FrameHeader {
    pub fn new() -> (r: FrameHeader)
        ensures
            r.bytes@ == Seq::<u8>::empty(),
    {
        FrameHeader { bytes: Vec::new() }
    }

    /// Takes the next byte of a frame; tells whether it ended the header.
    pub fn feed(&mut self, byte: u8) -> (done: bool)
        ensures
            done == (byte == FRAME_SEPARATOR),
            done ==> final(self).bytes@ == old(self).bytes@,
            !done ==> final(self).bytes@ == old(self).bytes@.push(byte),
    {
        if byte == FRAME_SEPARATOR {
            true
        } else {
            self.bytes.push(byte);
            false
        }
    }
}

/// Why a frame header does not give a length.
pub enum FrameError {
    /// The header is not UTF-8.
    InvalidUtf8,
    /// The header, without surrounding whitespace, is not a decimal number that fits.
    InvalidLength,
}

/// The length a frame header announces: the header decoded as UTF-8, trimmed,
/// and parsed as a `usize`.
pub open spec fn header_length(header: Seq<u8>) -> Result<usize, FrameError> {
    if !valid_utf8(header) {
        Err(FrameError::InvalidUtf8)
    } else {
        match parsed_unsigned(trimmed(decode_utf8(header)), usize::MAX as nat) {
            Some(n) => Ok(n as usize),
            None => Err(FrameError::InvalidLength),
        }
    }
}

/// The length that a frame header announces.
pub fn frame_length(header: Vec<u8>) -> (r: Result<usize, FrameError>)
    ensures
        r == header_length(header@),
{
    let ghost bytes = header@;
    match String::from_utf8(header) {
        Ok(text) => {
            let t: &str = text.as_str().trim();
            assert(t@ == trimmed(decode_utf8(bytes)));
            match parse_usize(t) {
                Some(n) => Ok(n),
                None => Err(FrameError::InvalidLength),
            }
        },
        Err(_) => Err(FrameError::InvalidUtf8),
    }
}

/// Reads the message of a frame as JSON; the error is the parser's message.
pub fn message_body(body: &[u8]) -> (r: Result<Json, String>)
    ensures
        match json_parsed(body@) {
            Some(v) => r matches Ok(x) && x@ == v,
            None => r is Err,
        },
{
    parse_json(body)
}

/// Reading the header of a frame gives back the length of the framed message,
/// the header holds no separator, and the message follows the separator.
pub proof fn lemma_frame_round_trip(message: Seq<u8>)
    requires
        message.len() <= usize::MAX,
    ensures
        header_length(frame_header_bytes(message.len())) == Ok::<usize, FrameError>(message.len() as usize),
        !frame_header_bytes(message.len()).contains(FRAME_SEPARATOR),
        framed(message).take(frame_header_bytes(message.len()).len() as int)
            == frame_header_bytes(message.len()),
        framed(message)[frame_header_bytes(message.len()).len() as int] == FRAME_SEPARATOR,
        framed(message).skip(frame_header_bytes(message.len()).len() as int + 1) == message,
{
    let digits = decimal_text(message.len());
    let header = frame_header_bytes(message.len());
    lemma_decimal_text(message.len());
    lemma_parse_decimal_text(message.len(), usize::MAX as nat);
    assert(is_ascii_chars(digits)) by {
        assert forall|i: int| 0 <= i < digits.len() implies '\0' <= #[trigger] digits[i] <= '\u{7f}' by {
            assert(all_digits(digits));
        }
    }
    is_ascii_chars_encode_utf8(digits);
    assert(encode_utf8(digits) =~= header);
    encode_utf8_valid_utf8(digits);
    encode_utf8_decode_utf8(digits);
    lemma_trimmed_digits(digits);
    assert(trimmed(decode_utf8(header)) == digits);
    assert forall|i: int| 0 <= i < header.len() implies header[i] != FRAME_SEPARATOR by {
        assert(all_digits(digits));
        assert(crate::text::is_digit(digits[i]));
    }
    assert(framed(message).take(header.len() as int) =~= header);
    assert(framed(message).skip(header.len() as int + 1) =~= message);
}

// ---------------------------------------------------------------------------
// Requests
// ---------------------------------------------------------------------------

/// The view of a request message `[0, id, command, params]`.
pub open spec fn request_view(id: u32, command: Seq<char>, params: JsonView) -> JsonView {
    JsonView::Array(
        seq![
            JsonView::Number(NumberView::Unsigned(0)),
            JsonView::Number(NumberView::Unsigned(id as u64)),
            JsonView::Str(command),
            params,
        ],
    )
}

/// The numbering of the requests of one connection.
pub struct MarionetteProtocol {
    pub message_id: u32,
}

impl MarionetteProtocol {
    /// A connection that has sent no request.
    pub fn new() -> (r: MarionetteProtocol)
        ensures
            r.message_id == 0,
    {
        MarionetteProtocol { message_id: 0 }
    }

    /// The next request: it carries the next message number.
    pub fn request_message(&mut self, command: &str, params: Json) -> (msg: Json)
        requires
            old(self).message_id < u32::MAX,
        ensures
            final(self).message_id == old(self).message_id + 1,
            msg@ == request_view(final(self).message_id, command@, params@),
    {
        self.message_id = self.message_id + 1;
        let mut items: Vec<Json> = Vec::new();
        items.push(Json::Number(JsonNumber::Unsigned(0)));
        items.push(Json::Number(JsonNumber::Unsigned(self.message_id as u64)));
        items.push(Json::Str(command.to_string()));
        items.push(params);
        let ghost iv = items@;
        let msg = Json::Array(items);
        assert(msg@->Array_0.len() == 4);
        assert(msg@->Array_0[0] == iv[0]@);
        assert(msg@->Array_0[1] == iv[1]@);
        assert(msg@->Array_0[2] == iv[2]@);
        assert(msg@->Array_0[3] == iv[3]@);
        assert(msg@->Array_0 =~= request_view(self.message_id, command@, params@)->Array_0);
        msg
    }
}

/// The bytes of a request on the wire: the frame of the request's JSON text.
pub open spec fn request_packet_bytes(id: u32, command: Seq<char>, params: JsonView) -> Seq<u8> {
    framed(encode_utf8(json_text(request_view(id, command, params))))
}

/// The parameters of the session request that opens a connection.
pub open spec fn new_session_view() -> JsonView {
    object_view(seq![("capabilities"@, object_view(seq![]))])
}

impl MarionetteProtocol {
    /// The bytes of the next request: it carries the next message number.
    pub fn request_packet(&mut self, command: &str, params: Json) -> (r: Vec<u8>)
        requires
            old(self).message_id < u32::MAX,
        ensures
            final(self).message_id == old(self).message_id + 1,
            r@ == request_packet_bytes(final(self).message_id, command@, params@),
    {
        let msg = self.request_message(command, params);
        let text = json_to_string(&msg);
        frame_message(text.as_str().as_bytes())
    }

    /// The bytes of the session request that opens a connection.
    pub fn new_session_packet(&mut self) -> (r: Vec<u8>)
        requires
            old(self).message_id < u32::MAX,
        ensures
            final(self).message_id == old(self).message_id + 1,
            r@ == request_packet_bytes(final(self).message_id, "WebDriver:NewSession"@, new_session_view()),
    {
        self.request_packet("WebDriver:NewSession", new_session_params())
    }
}

/// Two requests in a row carry consecutive message numbers.
pub proof fn lemma_request_numbers(p0: MarionetteProtocol, p1: MarionetteProtocol, p2: MarionetteProtocol)
    requires
        p0.message_id < u32::MAX,
        p1.message_id == p0.message_id + 1,
        p1.message_id < u32::MAX,
        p2.message_id == p1.message_id + 1,
    ensures
        p0.message_id < p1.message_id < p2.message_id,
{
}

// ---------------------------------------------------------------------------
// Replies
// ---------------------------------------------------------------------------

/// Why a command did not succeed.
pub enum MarionetteError {
    /// Firefox answered with an error: its type and message.
    Remote { error_type: String, message: String },
    /// The connection failed or a reply could not be read; what happened.
    Transport(String),
    /// The command could not go on; why.
    Failed(String),
    /// The command could not go on; why, and the message of the error that
    /// caused it.
    Caused { context: String, cause: String },
}

impl MarionetteError {
    /// The text that reports the error.
    pub fn message(&self) -> (r: String)
        ensures
            match self {
                MarionetteError::Remote { error_type, message } => r@ == "Marionette error ("@
                    + error_type@ + "): "@ + message@,
                MarionetteError::Transport(m) => r@ == m@,
                MarionetteError::Failed(m) => r@ == m@,
                MarionetteError::Caused { context, .. } => r@ == context@,
            },
    {
        match self {
            MarionetteError::Remote { error_type, message } => {
                let mut text = "Marionette error (".to_string();
                text.push_str(error_type.as_str());
                text.push_str("): ");
                text.push_str(message.as_str());
                text
            },
            MarionetteError::Transport(m) => m.clone(),
            MarionetteError::Failed(m) => m.clone(),
            MarionetteError::Caused { context, .. } => context.clone(),
        }
    }
}

/// A reply in the expected shape: an array of at least four values.
pub open spec fn is_reply(response: JsonView) -> bool {
    response is Array && response->Array_0.len() >= 4
}

/// The text of member `key` when it is a string, else `default`.
pub open spec fn member_text_or(v: JsonView, key: Seq<char>, default: Seq<char>) -> Seq<char> {
    match member_str(v, key) {
        Some(t) => t,
        None => default,
    }
}

/// The error a reply carries: its type and message, with `"unknown"` and
/// `"Unknown error"` standing in for missing ones.
pub open spec fn reply_error(response: JsonView) -> Option<(Seq<char>, Seq<char>)> {
    if is_reply(response) && !(response->Array_0[2] is Null) {
        let e = response->Array_0[2];
        Some((member_text_or(e, "error"@, "unknown"@), member_text_or(e, "message"@, "Unknown error"@)))
    } else {
        None
    }
}

/// The result a reply carries; `null` for a reply of another shape.
pub open spec fn reply_result(response: JsonView) -> JsonView {
    if is_reply(response) {
        response->Array_0[3]
    } else {
        JsonView::Null
    }
}

fn text_member_or(v: &Json, key: &str, default: &str) -> (r: String)
    ensures
        r@ == member_text_or(v@, key@, default@),
{
    let text: &str = match v.get(key) {
        Some(m) => match m.as_str() {
            Some(t) => t,
            None => default,
        },
        None => default,
    };
    text.to_string()
}

/// What a reply means: its result, or the error Firefox reported.
pub fn interpret_response(response: &Json) -> (r: Result<Json, MarionetteError>)
    ensures
        match reply_error(response@) {
            Some((error_type, message)) => r matches Err(MarionetteError::Remote { error_type: t, message: m })
                && t@ == error_type && m@ == message,
            None => r matches Ok(v) && v@ == reply_result(response@),
        },
{
    match response {
        Json::Array(items) => {
            if items.len() >= 4 {
                assert(response@->Array_0[2] == items@[2]@);
                if !items[2].is_null() {
                    let e = &items[2];
                    let error_type = text_member_or(e, "error", "unknown");
                    let message = text_member_or(e, "message", "Unknown error");
                    return Err(MarionetteError::Remote { error_type, message });
                }
                return Ok(items[3].deep_copy());
            }
            Ok(Json::Null)
        },
        _ => Ok(Json::Null),
    }
}

// ---------------------------------------------------------------------------
// Parameters of common requests
// ---------------------------------------------------------------------------

/// The view of an object with the given members.
pub open spec fn object_view(entries: Seq<(Seq<char>, JsonView)>) -> JsonView {
    JsonView::Object(entries)
}

/// An object with no members.
pub fn empty_object() -> (r: Json)
    ensures
        r@ == object_view(seq![]),
{
    let r = Json::Object(Vec::new());
    assert(r@->Object_0 =~= Seq::<(Seq<char>, JsonView)>::empty());
    r
}

/// An object with one member.
pub fn object1(k1: &str, v1: Json) -> (r: Json)
    ensures
        r@ == object_view(seq![(k1@, v1@)]),
{
    let mut entries: Vec<(String, Json)> = Vec::new();
    entries.push((k1.to_string(), v1));
    let r = Json::Object(entries);
    assert(r@->Object_0 =~= seq![(k1@, v1@)]);
    r
}

/// An object with two members.
pub fn object2(k1: &str, v1: Json, k2: &str, v2: Json) -> (r: Json)
    ensures
        r@ == object_view(seq![(k1@, v1@), (k2@, v2@)]),
{
    let mut entries: Vec<(String, Json)> = Vec::new();
    entries.push((k1.to_string(), v1));
    entries.push((k2.to_string(), v2));
    let r = Json::Object(entries);
    assert(r@->Object_0 =~= seq![(k1@, v1@), (k2@, v2@)]);
    r
}

/// A JSON string.
pub fn json_str(s: &str) -> (r: Json)
    ensures
        r@ == JsonView::Str(s@),
{
    Json::Str(s.to_string())
}

/// The parameters of the session request that opens a connection.
pub fn new_session_params() -> (r: Json)
    ensures
        r@ == new_session_view(),
{
    object1("capabilities", empty_object())
}

/// The parameters of `WebDriver:ExecuteScript` for a script without arguments.
pub fn execute_script_params(script: &str) -> (r: Json)
    ensures
        r@ == object_view(seq![("script"@, JsonView::Str(script@)), ("args"@, JsonView::Array(seq![]))]),
{
    let args = Json::Array(Vec::new());
    assert(args@->Array_0 =~= Seq::<JsonView>::empty());
    object2("script", json_str(script), "args", args)
}

/// The parameters that find elements by CSS selector.
pub fn css_selector_params(selector: &str) -> (r: Json)
    ensures
        r@ == object_view(seq![("using"@, JsonView::Str("css selector"@)), ("value"@, JsonView::Str(selector@))]),
{
    object2("using", json_str("css selector"), "value", json_str(selector))
}

} // verus!
