pub mod error;
pub mod json;
pub mod success;

use vstd::prelude::*;
use vstd::string::StringSliceAdditionalSpecFns;
use crate::error::GatewayError;
use crate::packers::json::{decimal, frame, json_string_bytes, push_all, push_decimal, spec_frame};

verus! {

/// A reply that can be packed into its envelope.
pub trait IntoResult: Sized {
    /// The name that tags replies of this type.
    spec fn func(&self) -> Seq<char>;

    /// The reply's body as JSON.
    spec fn context(&self) -> Seq<u8>;

    /// Packs the reply, with the correlation id `serial` where the request
    /// carried one.
    fn to(self, serial: Option<i64>) -> (packed: Result<Vec<u8>, GatewayError>)
        ensures
            packed matches Ok(bytes) && bytes@ == spec_frame(
                serial,
                json_string_bytes(self.func()),
                self.context(),
            ),
    ;
}

/// The body `{"tick":T}`.
pub open spec fn spec_tick_context(tick: i64) -> Seq<u8> {
    "{\"tick\":".spec_bytes() + decimal(tick as int) + "}".spec_bytes()
}

fn tick_context(tick: i64) -> (context: Vec<u8>)
    ensures
        context@ == spec_tick_context(tick),
{
    let mut buf: Vec<u8> = Vec::new();
    push_all(&mut buf, "{\"tick\":".as_bytes());
    push_decimal(&mut buf, tick);
    push_all(&mut buf, "}".as_bytes());
    assert(buf@ =~= spec_tick_context(tick));
    buf
}

/// A liveness probe; `Pong` answers it.
#[derive(Clone, Copy, Debug, PartialEq, Eq, Structural)]
pub struct Ping {
    /// The sender's tick count.
    pub tick: i64,
}

/// The answer to a `Ping`.
#[derive(Clone, Copy, Debug, PartialEq, Eq, Structural)]
pub struct Pong {
    /// The tick count of the probe.
    pub tick: i64,
}

impl IntoResult for Ping {
    open spec fn func(&self) -> Seq<char> {
        "Ping"@
    }

    open spec fn context(&self) -> Seq<u8> {
        spec_tick_context(self.tick)
    }

    fn to(self, serial: Option<i64>) -> (packed: Result<Vec<u8>, GatewayError>) {
        let context = tick_context(self.tick);
        frame(serial, "Ping", context.as_slice())
    }
}

impl IntoResult for Pong {
    open spec fn func(&self) -> Seq<char> {
        "Pong"@
    }

    open spec fn context(&self) -> Seq<u8> {
        spec_tick_context(self.tick)
    }

    fn to(self, serial: Option<i64>) -> (packed: Result<Vec<u8>, GatewayError>) {
        let context = tick_context(self.tick);
        frame(serial, "Pong", context.as_slice())
    }
}

/// One line of a session-status reply.
#[derive(Clone, Copy, Debug, PartialEq, Eq, Structural)]
pub struct GetTokenResult {
    pub token: u64,
    /// Ticks since the session was last active.
    pub last_elapsed_time: i64,
    /// The configured idle timeout, in seconds.
    pub timeout: i64,
    /// Whether a client is connected on this token.
    pub is_wss_connect: bool,
}

} // verus!
