use vstd::prelude::*;

verus! {

/// The code that a reply carries when no session owns the token presented.
pub const TOKEN_NOT_FOUND: i32 = -1001;

/// The code that a reply carries when the token belongs to another account.
pub const TOKEN_ACCOUNT_MISMATCH: i32 = -1002;

/// The code that a reply carries when zero was given as a proxy id.
pub const INVALID_PROXY_ID: i32 = -1003;

/// The code that a reply carries when a freshly drawn token was in use.
pub const DUPLICATE_TOKEN: i32 = -1004;

/// The code that a reply carries when the clock could not be read.
pub const CLOCK_OUT_OF_RANGE: i32 = -1005;

/// The code that a reply carries when a reply could not be encoded.
pub const ENCODE_FAILED: i32 = -1006;

/// The code that a reply carries when a session's proxy has no link.
pub const PROXY_NOT_FOUND: i32 = -1007;

/// Why the gateway turned a request down.
#[derive(Clone, Copy, Debug, PartialEq, Eq, Structural)]
pub enum GatewayError {
    /// The token that was drawn for a new session is already in use.
    DuplicateToken,
    /// No session owns the token that was presented.
    TokenNotFound,
    /// The session that owns the token belongs to another account.
    AccountMismatch,
    /// Zero was given as a proxy id; zero stands for "unbound".
    InvalidProxyId,
    /// The system clock is outside the years that a 64-bit count of
    /// nanoseconds can express.
    ClockOutOfRange,
    /// A reply could not be encoded. Packing a reply never ends so; the
    /// variant stands for the encoder's own error.
    Encode,
    /// The proxy that serves a session has no link in the table.
    ProxyNotFound,
}

impl GatewayError {
    /// The stable numeric code of each error.
    pub open spec fn spec_error_id(self) -> i32 {
        match self {
            GatewayError::DuplicateToken => DUPLICATE_TOKEN,
            GatewayError::TokenNotFound => TOKEN_NOT_FOUND,
            GatewayError::AccountMismatch => TOKEN_ACCOUNT_MISMATCH,
            GatewayError::InvalidProxyId => INVALID_PROXY_ID,
            GatewayError::ClockOutOfRange => CLOCK_OUT_OF_RANGE,
            GatewayError::Encode => ENCODE_FAILED,
            GatewayError::ProxyNotFound => PROXY_NOT_FOUND,
        }
    }

    /// The text that describes each error.
    pub open spec fn spec_message(self) -> Seq<char> {
        match self {
            GatewayError::DuplicateToken => "token exists"@,
            GatewayError::TokenNotFound => "token not found"@,
            GatewayError::AccountMismatch => "token belongs to another account"@,
            GatewayError::InvalidProxyId => "proxy id must not be 0"@,
            GatewayError::ClockOutOfRange => "clock out of range"@,
            GatewayError::Encode => "reply could not be encoded"@,
            GatewayError::ProxyNotFound => "proxy not found"@,
        }
    }

    pub fn error_id(&self) -> (id: i32)
        ensures
            id == self.spec_error_id(),
    {
        match self {
            GatewayError::DuplicateToken => DUPLICATE_TOKEN,
            GatewayError::TokenNotFound => TOKEN_NOT_FOUND,
            GatewayError::AccountMismatch => TOKEN_ACCOUNT_MISMATCH,
            GatewayError::InvalidProxyId => INVALID_PROXY_ID,
            GatewayError::ClockOutOfRange => CLOCK_OUT_OF_RANGE,
            GatewayError::Encode => ENCODE_FAILED,
            GatewayError::ProxyNotFound => PROXY_NOT_FOUND,
        }
    }

    pub fn message(&self) -> (text: String)
        ensures
            text@ == self.spec_message(),
    {
        match self {
            GatewayError::DuplicateToken => "token exists".to_owned(),
            GatewayError::TokenNotFound => "token not found".to_owned(),
            GatewayError::AccountMismatch => "token belongs to another account".to_owned(),
            GatewayError::InvalidProxyId => "proxy id must not be 0".to_owned(),
            GatewayError::ClockOutOfRange => "clock out of range".to_owned(),
            GatewayError::Encode => "reply could not be encoded".to_owned(),
            GatewayError::ProxyNotFound => "proxy not found".to_owned(),
        }
    }
}

} // verus!
