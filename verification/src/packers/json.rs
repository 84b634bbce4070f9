use vstd::prelude::*;
use vstd::string::StringSliceAdditionalSpecFns;
use crate::error::GatewayError;

verus! {

/// The decimal digits of `n`, most significant first, as ASCII.
pub open spec fn decimal_digits(n: nat) -> Seq<u8>
    decreases n,
{
    if n < 10 {
        seq![(48 + n) as u8]
    } else {
        decimal_digits(n / 10).push((48 + n % 10) as u8)
    }
}

/// `v` in decimal as JSON writes an integer: a minus sign where it is
/// negative, then its digits without leading zeros.
pub open spec fn decimal(v: int) -> Seq<u8> {
    if v < 0 {
        seq![45u8] + decimal_digits((-v) as nat)
    } else {
        decimal_digits(v as nat)
    }
}

/// The lower-case hexadecimal digit for `n`, as ASCII.
pub open spec fn hex_digit(n: int) -> u8 {
    if n < 10 {
        (48 + n) as u8
    } else {
        (87 + n) as u8
    }
}

/// How one byte of a string's UTF-8 form stands inside a JSON string: the
/// quote and the backslash behind a backslash, the control characters below
/// the space as `\b`, `\t`, `\n`, `\f`, `\r` or else `\u00XX`, and every
/// other byte as it is.
pub open spec fn escape_byte(b: u8) -> Seq<u8> {
    if b == 0x22 {
        seq![0x5cu8, 0x22u8]
    } else if b == 0x5c {
        seq![0x5cu8, 0x5cu8]
    } else if b == 0x08 {
        seq![0x5cu8, 0x62u8]
    } else if b == 0x09 {
        seq![0x5cu8, 0x74u8]
    } else if b == 0x0a {
        seq![0x5cu8, 0x6eu8]
    } else if b == 0x0c {
        seq![0x5cu8, 0x66u8]
    } else if b == 0x0d {
        seq![0x5cu8, 0x72u8]
    } else if b < 0x20 {
        seq![0x5cu8, 0x75u8, 0x30u8, 0x30u8, hex_digit(b as int / 16), hex_digit(b as int % 16)]
    } else {
        seq![b]
    }
}

/// The bytes of `bytes`, each as it stands inside a JSON string.
pub open spec fn escape_bytes(bytes: Seq<u8>) -> Seq<u8>
    decreases bytes.len(),
{
    if bytes.len() == 0 {
        Seq::empty()
    } else {
        escape_bytes(bytes.drop_last()) + escape_byte(bytes.last())
    }
}

/// The string `text` as JSON: its UTF-8 form between double quotes, each
/// byte escaped as `escape_byte` says.
pub open spec fn json_string_bytes(text: Seq<char>) -> Seq<u8> {
    seq![0x22u8] + escape_bytes(vstd::utf8::encode_utf8(text)) + seq![0x22u8]
}

/// A reply's envelope around the already encoded tag `func_json` and body
/// `context`:
/// `{"serial":S,"func":F,"context":C}` with a correlation id, and
/// `{"func":F,"context":C}` without one.
pub open spec fn spec_frame(serial: Option<i64>, func_json: Seq<u8>, context: Seq<u8>) -> Seq<u8> {
    match serial {
        Some(s) => "{\"serial\":".spec_bytes() + decimal(s as int) + ",\"func\":".spec_bytes()
            + func_json + ",\"context\":".spec_bytes() + context + "}".spec_bytes(),
        None => "{\"func\":".spec_bytes() + func_json + ",\"context\":".spec_bytes() + context
            + "}".spec_bytes(),
    }
}

/// `serde_json`'s error type. The gateway would pass it on as `Encode`.
#[verifier::external_type_specification]
#[verifier::external_body]
pub struct ExJsonError(serde_json::Error);

/// `serde_json::to_vec` on a string slice. The contract claims that the call
/// succeeds, since it writes into a vector and a string cannot fail to be
/// written, and that the bytes are the string as JSON: a double quote, the
/// text's UTF-8 bytes with the quote, the backslash and the control
/// characters below the space escaped, and a double quote.
#[verifier::external_body]
fn json_string(text: &str) -> (encoded: Result<Vec<u8>, serde_json::Error>)
    ensures
        encoded is Ok,
        encoded matches Ok(bytes) ==> bytes@ == json_string_bytes(text@),
{
    serde_json::to_vec(text)
}

/// `text` as a JSON string.
pub fn encode_string(text: &str) -> (encoded: Result<Vec<u8>, GatewayError>)
    ensures
        encoded matches Ok(bytes) && bytes@ == json_string_bytes(text@),
{
    match json_string(text) {
        Ok(bytes) => Ok(bytes),
        Err(_) => Err(GatewayError::Encode),
    }
}

/// Appends `bytes` to `buf`.
pub fn push_all(buf: &mut Vec<u8>, bytes: &[u8])
    ensures
        final(buf)@ == old(buf)@ + bytes@,
{
    let mut i: usize = 0;
    while i < bytes.len()
        invariant
            0 <= i <= bytes.len(),
            buf@ == old(buf)@ + bytes@.take(i as int),
        decreases bytes.len() - i,
    {
        buf.push(bytes[i]);
        assert(bytes@.take(i as int + 1) =~= bytes@.take(i as int).push(bytes@[i as int]));
        i += 1;
    }
    assert(bytes@.take(bytes@.len() as int) =~= bytes@);
}

fn push_digits(buf: &mut Vec<u8>, n: u64)
    ensures
        final(buf)@ == old(buf)@ + decimal_digits(n as nat),
    decreases n,
{
    if n >= 10 {
        push_digits(buf, n / 10);
    }
    let digit: u8 = (n % 10) as u8;
    buf.push(48 + digit);
    assert(buf@ =~= old(buf)@ + decimal_digits(n as nat));
}

/// Appends `v` in decimal to `buf`.
pub fn push_decimal(buf: &mut Vec<u8>, v: i64)
    ensures
        final(buf)@ == old(buf)@ + decimal(v as int),
{
    if v < 0 {
        buf.push(45u8);
        let magnitude: u64 = (-(v as i128)) as u64;
        push_digits(buf, magnitude);
        assert(buf@ =~= old(buf)@ + decimal(v as int));
    } else {
        push_digits(buf, v as u64);
    }
}

/// Puts the envelope around an encoded tag and body.
pub fn frame_with(serial: Option<i64>, func_json: &[u8], context: &[u8]) -> (framed: Vec<u8>)
    ensures
        framed@ == spec_frame(serial, func_json@, context@),
{
    let mut buf: Vec<u8> = Vec::new();
    match serial {
        Some(s) => {
            push_all(&mut buf, "{\"serial\":".as_bytes());
            push_decimal(&mut buf, s);
            push_all(&mut buf, ",\"func\":".as_bytes());
        },
        None => {
            push_all(&mut buf, "{\"func\":".as_bytes());
        },
    }
    push_all(&mut buf, func_json);
    push_all(&mut buf, ",\"context\":".as_bytes());
    push_all(&mut buf, context);
    push_all(&mut buf, "}".as_bytes());
    assert(buf@ =~= spec_frame(serial, func_json@, context@));
    buf
}

/// Puts the envelope around the body `context` of a reply tagged `func`.
/// The tag is written as a JSON string. This always succeeds.
pub fn frame(serial: Option<i64>, func: &str, context: &[u8]) -> (framed: Result<
    Vec<u8>,
    GatewayError,
>)
    ensures
        framed matches Ok(bytes) && bytes@ == spec_frame(
            serial,
            json_string_bytes(func@),
            context@,
        ),
{
    match encode_string(func) {
        Ok(func_json) => Ok(frame_with(serial, func_json.as_slice(), context)),
        Err(e) => Err(e),
    }
}

} // verus!
