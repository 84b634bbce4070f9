use vstd::prelude::*;
use crate::error::GatewayError;
use crate::packers::GetTokenResult;
use crate::peer::{GamePeer, clamp_i64};
use crate::time::div_to_zero;

verus! {

/// Tokens are the low fourteen decimal digits of a nanosecond reading.
pub const TOKEN_MODULUS: u64 = 100_000_000_000_000;

/// The token that a clock reading of `nanos` nanoseconds gives.
pub open spec fn spec_token_from_nanos(nanos: i64) -> u64 {
    ((nanos as int) % (TOKEN_MODULUS as int)) as u64
}

/// The tick count of a clock reading of `nanos` nanoseconds.
pub open spec fn spec_ticks_from_nanos(nanos: i64) -> i64 {
    div_to_zero(nanos as int, 100) as i64
}

/// The registry's state: the live sessions, each filed under its token.
pub type Sessions = Map<u64, GamePeer>;

/// Every session is filed under its own token, and there are finitely many.
pub open spec fn sessions_wf(m: Sessions) -> bool {
    &&& m.dom().finite()
    &&& forall|t: u64| #[trigger] m.contains_key(t) ==> m[t].token == t
}

/// A new pending session under `token`, unless the token is taken.
pub open spec fn spec_create(m: Sessions, token: u64, account_id: i32, now: i64) -> Sessions {
    if m.contains_key(token) {
        m
    } else {
        m.insert(token, GamePeer::pending(token, account_id, now))
    }
}

/// What a request to create a session under `token` is answered with.
pub open spec fn spec_create_result(m: Sessions, token: u64) -> Result<u64, GatewayError> {
    if m.contains_key(token) {
        Err(GatewayError::DuplicateToken)
    } else {
        Ok(token)
    }
}

/// The registry after a request to create a session for `account_id` was
/// served at a clock reading of `nanos` nanoseconds: the reading gives both
/// the token and the time of creation.
pub open spec fn spec_create_at_reading(m: Sessions, account_id: i32, nanos: i64) -> Sessions {
    spec_create(m, spec_token_from_nanos(nanos), account_id, spec_ticks_from_nanos(nanos))
}

/// Whether `token` may be bound on behalf of `account_id`.
pub open spec fn can_bind(m: Sessions, account_id: i32, token: u64) -> bool {
    m.contains_key(token) && m[token].account_id == account_id
}

/// Whether `token` may be used on behalf of `account_id`, and if not, why:
/// a token that no session owns is not found, and a session of another
/// account is a mismatch.
pub open spec fn spec_authorize(m: Sessions, account_id: i32, token: u64) -> Result<
    (),
    GatewayError,
> {
    if !m.contains_key(token) {
        Err(GatewayError::TokenNotFound)
    } else if m[token].account_id != account_id {
        Err(GatewayError::AccountMismatch)
    } else {
        Ok(())
    }
}

/// The session under `token` bound to `proxy_id` at `now`, where the account
/// matches: it is connected, served by `proxy_id`, and last active at the
/// time of the bind.
pub open spec fn spec_bind(
    m: Sessions,
    proxy_id: usize,
    account_id: i32,
    token: u64,
    now: i64,
) -> Sessions {
    if can_bind(m, account_id, token) {
        m.insert(
            token,
            GamePeer { proxy_id, is_disconnect: false, last_net_time: now, ..m[token] },
        )
    } else {
        m
    }
}

/// The session under `token`, if any, seen active at `now`.
pub open spec fn spec_touch(m: Sessions, token: u64, now: i64) -> Sessions {
    if m.contains_key(token) {
        m.insert(token, GamePeer { last_net_time: now, ..m[token] })
    } else {
        m
    }
}

/// The session under `token`, if any, marked as not connected.
pub open spec fn spec_disconnect(m: Sessions, token: u64) -> Sessions {
    if m.contains_key(token) {
        m.insert(token, GamePeer { is_disconnect: true, ..m[token] })
    } else {
        m
    }
}

/// Every session whose proxy id is `proxy_id` marked as not connected.
pub open spec fn spec_disconnect_for_proxy(m: Sessions, proxy_id: usize) -> Sessions {
    Map::new(
        |t: u64| m.contains_key(t),
        |t: u64|
            if m[t].proxy_id == proxy_id {
                GamePeer { is_disconnect: true, ..m[t] }
            } else {
                m[t]
            },
    )
}

/// The sessions that a sweep at `now` leaves in place.
pub open spec fn spec_sweep(m: Sessions, now: i64, idle_threshold: int) -> Sessions {
    Map::new(|t: u64| m.contains_key(t) && !m[t].is_expired(now, idle_threshold), |t: u64| m[t])
}

/// The sessions of every account but `account_id`.
pub open spec fn spec_purge_account(m: Sessions, account_id: i32) -> Sessions {
    Map::new(|t: u64| m.contains_key(t) && m[t].account_id != account_id, |t: u64| m[t])
}

/// The tokens whose sessions a sweep at `now` reclaims.
pub open spec fn expired_tokens(m: Sessions, now: i64, idle_threshold: int) -> Set<u64> {
    Set::new(|t: u64| m.contains_key(t) && m[t].is_expired(now, idle_threshold))
}

/// The tokens of the sessions of `account_id`.
pub open spec fn account_tokens(m: Sessions, account_id: i32) -> Set<u64> {
    Set::new(|t: u64| m.contains_key(t) && m[t].account_id == account_id)
}

/// The tokens of the sessions whose proxy id is `proxy_id`.
pub open spec fn proxy_tokens(m: Sessions, proxy_id: usize) -> Set<u64> {
    Set::new(|t: u64| m.contains_key(t) && m[t].proxy_id == proxy_id)
}

/// `list` holds the sessions that `m` files under `tokens`: each of them
/// once, as `m` has it, in some order, and nothing else.
pub open spec fn lists_exactly(list: Seq<GamePeer>, m: Sessions, tokens: Set<u64>) -> bool {
    &&& forall|i: int|
        0 <= i < list.len() ==> {
            &&& tokens.contains(#[trigger] list[i].token)
            &&& m.contains_key(list[i].token)
            &&& m[list[i].token] == list[i]
        }
    &&& forall|i: int, j: int|
        0 <= i < j < list.len() ==> (#[trigger] list[i]).token != (#[trigger] list[j]).token
    &&& forall|t: u64|
        tokens.contains(t) && m.contains_key(t) ==> exists|i: int|
            0 <= i < list.len() && #[trigger] list[i].token == t
}

/// The status line of `peer` at `now` under an idle timeout of
/// `timeout_sec` seconds.
pub open spec fn status_of(peer: GamePeer, now: i64, timeout_sec: i64) -> GetTokenResult {
    GetTokenResult {
        token: peer.token,
        last_elapsed_time: clamp_i64(peer.idle_at(now)),
        timeout: timeout_sec,
        is_wss_connect: !peer.is_disconnect,
    }
}

/// `list` holds one status line for each session of `account_id` in `m`, as
/// of `now`, and nothing else.
pub open spec fn lists_statuses(
    list: Seq<GetTokenResult>,
    m: Sessions,
    account_id: i32,
    now: i64,
    timeout_sec: i64,
) -> bool {
    &&& forall|i: int|
        0 <= i < list.len() ==> {
            &&& m.contains_key(#[trigger] list[i].token)
            &&& m[list[i].token].account_id == account_id
            &&& list[i] == status_of(m[list[i].token], now, timeout_sec)
        }
    &&& forall|i: int, j: int|
        0 <= i < j < list.len() ==> (#[trigger] list[i]).token != (#[trigger] list[j]).token
    &&& forall|t: u64|
        m.contains_key(t) && m[t].account_id == account_id ==> exists|i: int|
            0 <= i < list.len() && #[trigger] list[i].token == t
}

/// `list` runs from the most recently active session to the longest idle.
pub open spec fn sorted_by_idle(list: Seq<GetTokenResult>) -> bool {
    forall|i: int, j: int|
        0 <= i <= j < list.len() ==> (#[trigger] list[i]).last_elapsed_time <= (
        #[trigger] list[j]).last_elapsed_time
}

/// The idle threshold in ticks that a timeout of `timeout_sec` seconds
/// stands for.
pub open spec fn idle_threshold_ticks(timeout_sec: i64) -> int {
    timeout_sec * 10_000_000
}

} // verus!
