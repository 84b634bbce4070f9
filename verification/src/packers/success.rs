use vstd::prelude::*;
use vstd::string::StringSliceAdditionalSpecFns;
use crate::error::GatewayError;
use crate::packers::IntoResult;
use crate::packers::json::frame;

verus! {

/// The reply to a request that succeeded and has nothing to report.
#[derive(Clone, Copy, Debug, PartialEq, Eq, Structural)]
pub struct Success {}

impl IntoResult for Success {
    open spec fn func(&self) -> Seq<char> {
        "Success"@
    }

    open spec fn context(&self) -> Seq<u8> {
        "{}".spec_bytes()
    }

    fn to(self, serial: Option<i64>) -> (packed: Result<Vec<u8>, GatewayError>) {
        frame(serial, "Success", "{}".as_bytes())
    }
}

} // verus!
