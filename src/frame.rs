use vstd::prelude::*;
use crate::error::ConnectionError;
use crate::opcode::{GatewayOp, op_code};

verus! {

/// A lowercase hexadecimal digit.
pub open spec fn hex_digit(n: nat) -> char {
    if n < 10 { digit_char(n) }
    else if n == 10 { 'a' }
    else if n == 11 { 'b' }
    else if n == 12 { 'c' }
    else if n == 13 { 'd' }
    else if n == 14 { 'e' }
    else { 'f' }
}

/// How one character stands inside a JSON string literal: the quote, the
/// backslash and the control characters are escaped, all else stands as it is.
pub open spec fn escaped_char(c: char) -> Seq<char> {
    if c == '"' { seq!['\\', '"'] }
    else if c == '\\' { seq!['\\', '\\'] }
    else if c == '\x08' { seq!['\\', 'b'] }
    else if c == '\t' { seq!['\\', 't'] }
    else if c == '\n' { seq!['\\', 'n'] }
    else if c == '\x0C' { seq!['\\', 'f'] }
    else if c == '\r' { seq!['\\', 'r'] }
    else if (c as u32) < 0x20 {
        seq!['\\', 'u', '0', '0', hex_digit((c as u32 as nat) / 16), hex_digit((c as u32 as nat) % 16)]
    } else { seq![c] }
}

/// The escaped characters of a string, in order.
pub open spec fn escaped(s: Seq<char>) -> Seq<char>
    decreases s.len(),
{
    if s.len() == 0 {
        seq![]
    } else {
        escaped_char(s[0]) + escaped(s.drop_first())
    }
}

/// The JSON string literal of `s`.
pub open spec fn json_quoted(s: Seq<char>) -> Seq<char> {
    seq!['"'] + escaped(s) + seq!['"']
}

/// Relies on serde_json::to_string: a string serialises to its JSON literal,
/// escaped by serde_json's table. The writer is an in-memory buffer, so it
/// does not fail.
#[verifier::external_body]
fn quote_json(s: &str) -> (r: String)
    ensures
        r@ == json_quoted(s@),
{
    serde_json::to_string(s).unwrap_or_default()
}

/// What serde_json reads from an inbound frame: `None` where the text is not
/// JSON or its `op` member is not an integer, else that opcode and, where the
/// `d` member holds an integer `heartbeat_interval`, that interval.
pub uninterp spec fn frame_fields(text: Seq<char>) -> Option<(i64, Option<i64>)>;

/// Relies on serde_json::from_str, indexing of serde_json::Value (a missing
/// member reads as null) and Value::as_i64: the opcode and announced heartbeat
/// interval of a frame, which depend on its text alone.
#[verifier::external_body]
fn read_frame(text: &str) -> (r: Option<(i64, Option<i64>)>)
    ensures
        r == frame_fields(text@),
{
    match serde_json::from_str::<serde_json::Value>(text) {
        Ok(v) => v["op"].as_i64().map(|op| (op, v["d"]["heartbeat_interval"].as_i64())),
        Err(_) => None,
    }
}

/// The decimal digit character of `d`.
pub open spec fn digit_char(d: nat) -> char {
    if d == 0 { '0' }
    else if d == 1 { '1' }
    else if d == 2 { '2' }
    else if d == 3 { '3' }
    else if d == 4 { '4' }
    else if d == 5 { '5' }
    else if d == 6 { '6' }
    else if d == 7 { '7' }
    else if d == 8 { '8' }
    else { '9' }
}

/// The decimal notation of `n`, without leading zeros.
pub open spec fn decimal(n: nat) -> Seq<char>
    decreases n,
{
    if n < 10 {
        seq![digit_char(n)]
    } else {
        decimal(n / 10) + seq![digit_char(n % 10)]
    }
}

fn digit_str(d: u64) -> (r: &'static str)
    requires
        d < 10,
    ensures
        r@ == seq![digit_char(d as nat)],
{
    proof {
        reveal_strlit("0");
        reveal_strlit("1");
        reveal_strlit("2");
        reveal_strlit("3");
        reveal_strlit("4");
        reveal_strlit("5");
        reveal_strlit("6");
        reveal_strlit("7");
        reveal_strlit("8");
        reveal_strlit("9");
    }
    if d == 0 { "0" }
    else if d == 1 { "1" }
    else if d == 2 { "2" }
    else if d == 3 { "3" }
    else if d == 4 { "4" }
    else if d == 5 { "5" }
    else if d == 6 { "6" }
    else if d == 7 { "7" }
    else if d == 8 { "8" }
    else { "9" }
}

/// Writes `n` in decimal.
pub fn decimal_string(n: u64) -> (r: String)
    ensures
        r@ == decimal(n as nat),
    decreases n,
{
    if n < 10 {
        String::from_str(digit_str(n))
    } else {
        let mut s = decimal_string(n / 10);
        s.append(digit_str(n % 10));
        s
    }
}

/// The heartbeat frame: the heartbeat code with the literal data `"null"`.
pub open spec fn heartbeat_text() -> Seq<char> {
    "{\"op\":"@ + decimal(op_code(GatewayOp::Heartbeat) as nat) + ",\"d\":\"null\"}"@
}

/// The identify frame for a token and an intents bitmask, with the client's
/// fixed identification properties.
pub open spec fn identify_text(token: Seq<char>, intents: nat) -> Seq<char> {
    "{\"op\":"@ + decimal(op_code(GatewayOp::Identify) as nat) + ",\"d\":{\"token\":"@
        + json_quoted(token) + ",\"intents\":"@ + decimal(intents)
        + ",\"properties\":{\"os\":\"linux\",\"browser\":\"mellow\",\"device\":\"mellow\"}}}"@
}

/// The frame sent on every heartbeat tick.
pub fn heartbeat_frame() -> (r: String)
    ensures
        r@ == heartbeat_text(),
{
    let mut s = String::from_str("{\"op\":");
    let code = GatewayOp::Heartbeat.code();
    let digits = decimal_string(code as u64);
    s.append(digits.as_str());
    s.append(",\"d\":\"null\"}");
    s
}

/// The identify frame that authenticates the client.
pub fn identify_frame(token: &str, intents: u64) -> (r: String)
    ensures
        r@ == identify_text(token@, intents as nat),
{
    let mut s = String::from_str("{\"op\":");
    let code = GatewayOp::Identify.code();
    let digits = decimal_string(code as u64);
    s.append(digits.as_str());
    s.append(",\"d\":{\"token\":");
    let quoted = quote_json(token);
    s.append(quoted.as_str());
    s.append(",\"intents\":");
    let n = decimal_string(intents);
    s.append(n.as_str());
    s.append(",\"properties\":{\"os\":\"linux\",\"browser\":\"mellow\",\"device\":\"mellow\"}}}");
    s
}

/// A decoded inbound frame: its opcode, and the heartbeat interval in
/// milliseconds that its data announces, if any.
pub struct Payload {
    pub op: i64,
    pub heartbeat_interval: Option<i64>,
}

/// Decodes an inbound text frame. A frame that is not JSON, or whose `op` is
/// missing or not an integer, is malformed.
pub fn decode_payload(text: &str) -> (r: Result<Payload, ConnectionError>)
    ensures
        r is Ok <==> frame_fields(text@) is Some,
        r is Ok ==> r->Ok_0.op == frame_fields(text@)->Some_0.0
            && r->Ok_0.heartbeat_interval == frame_fields(text@)->Some_0.1,
        r is Err ==> r->Err_0 == ConnectionError::MalformedFrame,
{
    match read_frame(text) {
        Some((op, heartbeat_interval)) => Ok(Payload { op, heartbeat_interval }),
        None => Err(ConnectionError::MalformedFrame),
    }
}

} // verus!
