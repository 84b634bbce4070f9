use vstd::prelude::*;
use vstd::string::StringSliceAdditionalSpecFns;
use crate::error::GatewayError;
use crate::packers::IntoResult;
use crate::packers::json::{
    decimal, encode_string, frame, json_string_bytes, push_all, push_decimal, spec_frame,
};

verus! {

/// The reply to a request that failed: a numeric code and a text for
/// people.
pub struct GeneralError {
    pub error_id: i32,
    pub msg: String,
}

/// The body `{"error_id":E,"msg":M}` around the already encoded text
/// `msg_json`.
pub open spec fn spec_error_context(error_id: i32, msg_json: Seq<u8>) -> Seq<u8> {
    "{\"error_id\":".spec_bytes() + decimal(error_id as int) + ",\"msg\":".spec_bytes() + msg_json
        + "}".spec_bytes()
}

/// The packed reply for a failure with code `error_id` and text `msg`.
pub open spec fn spec_gen_error(serial: Option<i64>, error_id: i32, msg: Seq<char>) -> Seq<u8> {
    spec_frame(
        serial,
        json_string_bytes("GeneralError"@),
        spec_error_context(error_id, json_string_bytes(msg)),
    )
}

/// The body of a failure reply around the already encoded text `msg_json`.
pub fn error_context(error_id: i32, msg_json: &[u8]) -> (context: Vec<u8>)
    ensures
        context@ == spec_error_context(error_id, msg_json@),
{
    let mut buf: Vec<u8> = Vec::new();
    push_all(&mut buf, "{\"error_id\":".as_bytes());
    push_decimal(&mut buf, error_id as i64);
    push_all(&mut buf, ",\"msg\":".as_bytes());
    push_all(&mut buf, msg_json);
    push_all(&mut buf, "}".as_bytes());
    assert(buf@ =~= spec_error_context(error_id, msg_json@));
    buf
}

impl GeneralError {
    pub fn new(error_id: i32, msg: String) -> (error: GeneralError)
        ensures
            error.error_id == error_id,
            error.msg@ == msg@,
    {
        GeneralError { error_id, msg }
    }
}

impl IntoResult for GeneralError {
    open spec fn func(&self) -> Seq<char> {
        "GeneralError"@
    }

    open spec fn context(&self) -> Seq<u8> {
        spec_error_context(self.error_id, json_string_bytes(self.msg@))
    }

    fn to(self, serial: Option<i64>) -> (packed: Result<Vec<u8>, GatewayError>) {
        match encode_string(self.msg.as_str()) {
            Ok(msg_json) => {
                let context = error_context(self.error_id, msg_json.as_slice());
                frame(serial, "GeneralError", context.as_slice())
            },
            Err(e) => Err(e),
        }
    }
}

/// Packs a failure reply with code `error_id` and text `msg`.
pub fn format_gen_error(serial: Option<i64>, error_id: i32, msg: String) -> (packed: Result<
    Vec<u8>,
    GatewayError,
>)
    ensures
        packed matches Ok(bytes) && bytes@ == spec_gen_error(serial, error_id, msg@),
{
    GeneralError::new(error_id, msg).to(serial)
}

} // verus!
