use vstd::prelude::*;
use crate::error::GatewayError;
use crate::services::broadcast_service::{
    BroadcastCall, BroadcastService, BroadcastTarget, THIS_SERVER, fans_out,
};
use crate::services::proxy_service::ProxyService;
use crate::time::timestamp;

verus! {

/// The gateway's record of one session: a token bound to an account and,
/// while a client is connected, to the proxy that serves it.
///
/// `token` and `account_id` never change once the session exists. A
/// `proxy_id` of zero means that no proxy has been bound yet.
#[derive(Clone, Copy, Debug, PartialEq, Eq, Structural)]
pub struct GamePeer {
    pub token: u64,
    pub proxy_id: usize,
    pub account_id: i32,
    pub is_disconnect: bool,
    pub last_net_time: i64,
}

/// A payload's way to one client: the transport session of the proxy that
/// serves the token, and the token to hand it to.
#[derive(Clone, Copy, Debug, PartialEq, Eq, Structural)]
pub struct TokenCall {
    pub session_id: i64,
    pub token: u64,
}

/// `v` brought into the range of `i64`.
pub open spec fn clamp_i64(v: int) -> i64 {
    if v < i64::MIN {
        i64::MIN
    } else if v > i64::MAX {
        i64::MAX
    } else {
        v as i64
    }
}

impl GamePeer {
    /// The session as it is right after creation: unbound, not connected,
    /// last active at `now`.
    pub open spec fn pending(token: u64, account_id: i32, now: i64) -> GamePeer {
        GamePeer { token, proxy_id: 0, account_id, is_disconnect: true, last_net_time: now }
    }

    /// The session seen active at `now`.
    pub open spec fn touched(self, now: i64) -> GamePeer {
        GamePeer { last_net_time: now, ..self }
    }

    /// How long the session has been idle at `timestamp`, in ticks.
    pub open spec fn idle_at(self, timestamp: i64) -> int {
        timestamp - self.last_net_time
    }

    /// Whether a sweep at `now` reclaims the session: it is not connected and
    /// has been idle for at least `idle_threshold` ticks.
    pub open spec fn is_expired(self, now: i64, idle_threshold: int) -> bool {
        self.is_disconnect && self.idle_at(now) >= idle_threshold
    }

    pub fn create(token: u64, account_id: i32, now: i64) -> (peer: GamePeer)
        ensures
            peer == GamePeer::pending(token, account_id, now),
    {
        GamePeer { token, proxy_id: 0, account_id, is_disconnect: true, last_net_time: now }
    }

    /// Records activity at `now`.
    pub fn touch(&mut self, now: i64)
        ensures
            *final(self) == old(self).touched(now),
    {
        self.last_net_time = now;
    }

    pub fn get_token(&self) -> (token: u64)
        ensures
            token == self.token,
    {
        self.token
    }

    pub fn get_account_id(&self) -> (account_id: i32)
        ensures
            account_id == self.account_id,
    {
        self.account_id
    }

    pub fn get_proxy_id(&self) -> (proxy_id: usize)
        ensures
            proxy_id == self.proxy_id,
    {
        self.proxy_id
    }

    pub fn is_disconnect(&self) -> (gone: bool)
        ensures
            gone == self.is_disconnect,
    {
        self.is_disconnect
    }

    pub fn set_proxy_id(&mut self, proxy_id: usize)
        ensures
            *final(self) == (GamePeer { proxy_id, ..*old(self) }),
    {
        self.proxy_id = proxy_id;
    }

    pub fn set_disconnect(&mut self, gone: bool)
        ensures
            *final(self) == (GamePeer { is_disconnect: gone, ..*old(self) }),
    {
        self.is_disconnect = gone;
    }

    /// The idle time at `timestamp` in ticks, held to the range of `i64`.
    pub fn comparison_time(&self, timestamp: i64) -> (elapsed: i64)
        ensures
            elapsed == clamp_i64(self.idle_at(timestamp)),
    {
        let idle: i128 = (timestamp as i128) - (self.last_net_time as i128);
        if idle > i64::MAX as i128 {
            i64::MAX
        } else if idle < i64::MIN as i128 {
            i64::MIN
        } else {
            idle as i64
        }
    }

    /// Decides `is_expired` without overflow.
    pub fn expired_at(&self, now: i64, idle_threshold: i128) -> (expired: bool)
        ensures
            expired == self.is_expired(now, idle_threshold as int),
    {
        self.is_disconnect && (now as i128) - (self.last_net_time as i128) >= idle_threshold
    }

    /// Records activity as of the system clock's reading. Returns `false`,
    /// changing nothing, where the clock cannot be read in ticks.
    pub fn update(&mut self) -> (read: bool)
        ensures
            read ==> exists|now: i64| *final(self) == #[trigger] old(self).touched(now),
            !read ==> *final(self) == *old(self),
    {
        match timestamp() {
            Some(now) => {
                self.touch(now);
                assert(*self == old(self).touched(now));
                true
            },
            None => false,
        }
    }

    /// Where a payload for this session's client goes: to the proxy that
    /// serves the session.
    ///
    /// Fails with `ProxyNotFound` exactly when the link table has no link
    /// for the session's proxy.
    pub fn send_to_token(&self, proxies: &ProxyService) -> (route: Result<TokenCall, GatewayError>)
        ensures
            route == (if proxies@.contains_key(self.proxy_id) {
                Ok::<TokenCall, GatewayError>(
                    TokenCall { session_id: proxies@[self.proxy_id], token: self.token },
                )
            } else {
                Err::<TokenCall, GatewayError>(GatewayError::ProxyNotFound)
            }),
    {
        match proxies.get(self.proxy_id) {
            Some(session_id) => Ok(TokenCall { session_id, token: self.token }),
            None => Err(GatewayError::ProxyNotFound),
        }
    }

    /// To every connection of this session's account, wherever it is.
    pub fn broadcast_to_account_id(&self, service: &BroadcastService, proxies: &ProxyService) -> (calls:
        Vec<BroadcastCall>)
        requires
            proxies.wf(),
        ensures
            fans_out(calls@, proxies@, BroadcastTarget::Account { account_id: self.account_id }),
    {
        service.broadcast_to_account_id(proxies, self.account_id)
    }

    /// To every connection of every user.
    pub fn broadcast_to_all_users(&self, service: &BroadcastService, proxies: &ProxyService) -> (calls:
        Vec<BroadcastCall>)
        requires
            proxies.wf(),
        ensures
            fans_out(calls@, proxies@, BroadcastTarget::AllUsers),
    {
        service.broadcast_to_all_users(proxies)
    }

    /// To every connection on this server.
    pub fn broadcast_to_server_id(&self, service: &BroadcastService, proxies: &ProxyService) -> (calls:
        Vec<BroadcastCall>)
        requires
            proxies.wf(),
        ensures
            fans_out(calls@, proxies@, BroadcastTarget::Server { server_id: THIS_SERVER }),
    {
        service.broadcast_to_server_id(proxies)
    }

    /// To every connection of this session's account on this server.
    pub fn broadcast_to_server_id_and_account_id(
        &self,
        service: &BroadcastService,
        proxies: &ProxyService,
    ) -> (calls: Vec<BroadcastCall>)
        requires
            proxies.wf(),
        ensures
            fans_out(
                calls@,
                proxies@,
                BroadcastTarget::ServerAndAccount {
                    server_id: THIS_SERVER,
                    account_id: self.account_id,
                },
            ),
    {
        service.broadcast_to_server_id_and_account_id(proxies, self.account_id)
    }
}

} // verus!
