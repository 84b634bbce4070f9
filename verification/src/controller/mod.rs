use vstd::prelude::*;
use crate::error::GatewayError;
use crate::packers::GetTokenResult;
use crate::packers::error::{format_gen_error, spec_gen_error};
use crate::packers::json::{frame, json_string_bytes, spec_frame};
use crate::peer::GamePeer;
use crate::services::peers_model::{
    Sessions, spec_authorize, spec_bind, spec_touch, spec_disconnect, spec_disconnect_for_proxy,
    lists_exactly, lists_statuses, sorted_by_idle, proxy_tokens, TOKEN_MODULUS,
};
use crate::services::peers_service::{ILinkPeerManager, LinkPeerManager};
use crate::services::proxy_service::ProxyService;
use crate::time::timestamp;

verus! {

/// How a request's handler ended.
pub enum HandlerOutcome {
    /// The handler produced the reply named `func` with the JSON body
    /// `context`.
    Done { func: String, context: Vec<u8> },
    /// The handler failed with the code `error_id` and the text `msg`.
    Failed { error_id: i32, msg: String },
}

impl HandlerOutcome {
    /// The packed reply to a request that carried the correlation id
    /// `serial`, if any.
    pub open spec fn spec_reply(self, serial: Option<i64>) -> Seq<u8> {
        match self {
            HandlerOutcome::Done { func, context } => spec_frame(
                serial,
                json_string_bytes(func@),
                context@,
            ),
            HandlerOutcome::Failed { error_id, msg } => spec_gen_error(serial, error_id, msg@),
        }
    }
}

/// Packs the reply to a request whose handler ended with `outcome`: the
/// tagged body where it succeeded, and the failure reply where it did not.
/// The correlation id of the request, if it had one, comes back in the
/// reply.
pub fn pack_outcome(serial: Option<i64>, outcome: HandlerOutcome) -> (packed: Result<
    Vec<u8>,
    GatewayError,
>)
    ensures
        packed matches Ok(bytes) && bytes@ == outcome.spec_reply(serial),
{
    match outcome {
        HandlerOutcome::Done { func, context } => frame(serial, func.as_str(), context.as_slice()),
        HandlerOutcome::Failed { error_id, msg } => format_gen_error(serial, error_id, msg),
    }
}

/// Packs the reply to a request that the gateway refused with `error`: a
/// failure reply with the error's code and text, and no correlation id,
/// since the request was not opened.
pub fn reject(error: GatewayError) -> (packed: Result<Vec<u8>, GatewayError>)
    ensures
        packed matches Ok(bytes) && bytes@ == spec_gen_error(
            None,
            error.spec_error_id(),
            error.spec_message(),
        ),
{
    format_gen_error(None, error.error_id(), error.message())
}

/// What becomes of a business request once the gateway has judged it.
pub enum Dispatch {
    /// The request goes to its handler.
    Handle,
    /// The request was refused; this is the packed reply.
    Reply(Vec<u8>),
}

/// Whether `step` is what a request on behalf of `account_id` under `token`
/// is owed in the registry `m`: the handler where the token and the account
/// pass, and otherwise the failure reply for the reason they do not.
pub open spec fn dispatches(
    step: Result<Dispatch, GatewayError>,
    m: Sessions,
    account_id: i32,
    token: u64,
) -> bool {
    match spec_authorize(m, account_id, token) {
        Ok(_) => step matches Ok(Dispatch::Handle),
        Err(refused) => step matches Ok(Dispatch::Reply(bytes)) && bytes@ == spec_gen_error(
            None,
            refused.spec_error_id(),
            refused.spec_message(),
        ),
    }
}

/// What a bind through a connection whose proxy id is `proxy_id` is answered
/// with: zero, the id of a connection on which no proxy has registered,
/// cannot bind; otherwise the token and the account decide.
pub open spec fn spec_connect_result(
    proxy_id: usize,
    m: Sessions,
    account_id: i32,
    token: u64,
) -> Result<(), GatewayError> {
    if proxy_id == 0 {
        Err(GatewayError::InvalidProxyId)
    } else {
        spec_authorize(m, account_id, token)
    }
}

/// The gateway's end of one proxy connection: the transport session it
/// runs on and the proxy id that the proxy registered, zero until it has.
#[derive(Clone, Copy, Debug)]
pub struct ProxyController {
    session_id: i64,
    proxy_id: usize,
}

impl ProxyController {
    /// The transport session of this connection.
    pub closed spec fn session(&self) -> i64 {
        self.session_id
    }

    /// The proxy id registered on this connection, or zero.
    pub closed spec fn proxy(&self) -> usize {
        self.proxy_id
    }

    /// The controller of a new connection on transport session
    /// `session_id`; no proxy has registered on it yet.
    pub fn new(session_id: i64) -> (controller: ProxyController)
        ensures
            controller.session() == session_id,
            controller.proxy() == 0,
    {
        ProxyController { session_id, proxy_id: 0 }
    }

    pub fn session_id(&self) -> (session_id: i64)
        ensures
            session_id == self.session(),
    {
        self.session_id
    }

    pub fn proxy_id(&self) -> (proxy_id: usize)
        ensures
            proxy_id == self.proxy(),
    {
        self.proxy_id
    }

    /// Registers this connection as the link of `proxy_id`.
    ///
    /// Fails with `InvalidProxyId`, changing nothing, exactly when
    /// `proxy_id` is zero. Otherwise the link table maps `proxy_id` to this
    /// connection's transport session, in place of any earlier link.
    pub fn register_proxy(&mut self, proxies: &mut ProxyService, proxy_id: usize) -> (registered:
        Result<(), GatewayError>)
        requires
            old(proxies).wf(),
        ensures
            final(proxies).wf(),
            final(self).session() == old(self).session(),
            proxy_id == 0 <==> registered == Err::<(), GatewayError>(GatewayError::InvalidProxyId),
            proxy_id != 0 <==> registered is Ok,
            proxy_id == 0 ==> final(proxies)@ == old(proxies)@ && final(self).proxy() == old(
                self,
            ).proxy(),
            proxy_id != 0 ==> final(proxies)@ == old(proxies)@.insert(proxy_id, old(self).session())
                && final(self).proxy() == proxy_id && final(proxies)@.contains_key(
                final(self).proxy(),
            ),
    {
        if proxy_id == 0 {
            return Err(GatewayError::InvalidProxyId);
        }
        self.proxy_id = proxy_id;
        proxies.add(proxy_id, self.session_id)
    }

    /// The connection has closed. Where it stood for a proxy, the proxy's
    /// link leaves the table, and every session that carried the proxy's id
    /// is marked as not connected; the sessions stay in the registry. A
    /// connection on which no proxy has registered stands for no proxy and
    /// no session was bound through it: closing it changes nothing.
    ///
    /// Returns the sessions marked, as they now stand: a disconnect
    /// notification is due for each.
    pub fn disconnect<P: ILinkPeerManager>(&self, proxies: &mut ProxyService, peers: &mut P) -> (marked:
        Vec<GamePeer>)
        requires
            old(proxies).wf(),
            old(peers).inv(),
        ensures
            final(proxies).wf(),
            final(peers).inv(),
            final(peers).idle_timeout_sec() == old(peers).idle_timeout_sec(),
            final(proxies)@ == old(proxies)@.remove(self.proxy()),
            self.proxy() == 0 ==> final(proxies)@ == old(proxies)@ && final(peers).sessions()
                == old(peers).sessions() && marked@.len() == 0,
            self.proxy() != 0 ==> final(peers).sessions() == spec_disconnect_for_proxy(
                old(peers).sessions(),
                self.proxy(),
            ) && lists_exactly(
                marked@,
                final(peers).sessions(),
                proxy_tokens(old(peers).sessions(), self.proxy()),
            ),
    {
        if self.proxy_id == 0 {
            assert(proxies@.remove(0) =~= proxies@);
            return Vec::new();
        }
        proxies.remove(self.proxy_id);
        peers.disconnect_for_proxy(self.proxy_id)
    }

    /// Creates a pending session for `account_id` and returns its token.
    pub fn create_token<P: ILinkPeerManager>(&self, peers: &mut P, account_id: i32) -> (created: Result<
        u64,
        GatewayError,
    >)
        requires
            old(peers).inv(),
        ensures
            final(peers).inv(),
            final(peers).idle_timeout_sec() == old(peers).idle_timeout_sec(),
            created matches Ok(token) ==> {
                &&& !old(peers).sessions().contains_key(token)
                &&& token < TOKEN_MODULUS
                &&& final(peers).sessions().dom() == old(peers).sessions().dom().insert(token)
                &&& exists|now: i64|
                    final(peers).sessions() == old(peers).sessions().insert(
                        token,
                        #[trigger] GamePeer::pending(token, account_id, now),
                    )
            },
            created matches Err(e) ==> {
                &&& final(peers).sessions() == old(peers).sessions()
                &&& (e == GatewayError::DuplicateToken || e == GatewayError::ClockOutOfRange)
            },
    {
        peers.create_peer(account_id)
    }

    /// Binds the session under `token` to this connection's proxy at `now`.
    ///
    /// A connection on which no proxy has registered cannot bind: with the
    /// proxy id still zero the bind fails with `InvalidProxyId`, whatever the
    /// token. Otherwise it succeeds exactly when a session owns `token` and
    /// belongs to `account_id`, and that session is then connected, served by
    /// this connection's proxy, and last active at `now`. A failure changes
    /// nothing.
    pub fn connect_token_at(
        &self,
        peers: &mut LinkPeerManager,
        account_id: i32,
        token: u64,
        now: i64,
    ) -> (bound: Result<(), GatewayError>)
        requires
            old(peers).wf(),
        ensures
            final(peers).wf(),
            final(peers).timeout_sec() == old(peers).timeout_sec(),
            bound == spec_connect_result(self.proxy(), old(peers)@, account_id, token),
            bound is Ok ==> final(peers)@ == spec_bind(
                old(peers)@,
                self.proxy(),
                account_id,
                token,
                now,
            ),
            bound is Ok ==> self.proxy() != 0 && final(peers)@[token].proxy_id == self.proxy()
                && !final(peers)@[token].is_disconnect,
            bound is Err ==> final(peers)@ == old(peers)@,
    {
        if self.proxy_id == 0 {
            return Err(GatewayError::InvalidProxyId);
        }
        peers.peer_connect_at(self.proxy_id, account_id, token, now)
    }

    /// Binds the session under `token` to this connection's proxy as of the
    /// clock's reading.
    ///
    /// The connection, the token and the account are judged first, as
    /// `connect_token_at` does, and a refusal reads no clock. A bind that
    /// passes fails with `ClockOutOfRange` where the clock cannot be read. A
    /// failure changes nothing.
    pub fn connect_token<P: ILinkPeerManager>(&self, peers: &mut P, account_id: i32, token: u64) -> (bound:
        Result<(), GatewayError>)
        requires
            old(peers).inv(),
        ensures
            final(peers).inv(),
            final(peers).idle_timeout_sec() == old(peers).idle_timeout_sec(),
            spec_connect_result(self.proxy(), old(peers).sessions(), account_id, token) matches Err(
                e,
            ) ==> bound == Err::<(), GatewayError>(e),
            spec_connect_result(self.proxy(), old(peers).sessions(), account_id, token) is Ok
                ==> bound is Ok || bound == Err::<(), GatewayError>(GatewayError::ClockOutOfRange),
            bound is Ok ==> exists|now: i64|
                final(peers).sessions() == #[trigger] spec_bind(
                    old(peers).sessions(),
                    self.proxy(),
                    account_id,
                    token,
                    now,
                ),
            bound is Ok ==> self.proxy() != 0,
            bound is Err ==> final(peers).sessions() == old(peers).sessions(),
    {
        if self.proxy_id == 0 {
            return Err(GatewayError::InvalidProxyId);
        }
        peers.connect_token(self.proxy_id, account_id, token)
    }

    /// Marks the session under `token` as not connected. An unknown token is
    /// no error: `None` comes back and nothing changes.
    pub fn disconnect_token<P: ILinkPeerManager>(&self, peers: &mut P, token: u64) -> (marked: Option<
        GamePeer,
    >)
        requires
            old(peers).inv(),
        ensures
            final(peers).inv(),
            final(peers).idle_timeout_sec() == old(peers).idle_timeout_sec(),
            final(peers).sessions() == spec_disconnect(old(peers).sessions(), token),
            marked == (if old(peers).sessions().contains_key(token) {
                Some(GamePeer { is_disconnect: true, ..old(peers).sessions()[token] })
            } else {
                None
            }),
    {
        peers.disconnect_token(token)
    }

    /// Decides at `now` whether a request on behalf of `account_id` under
    /// `token` goes to its handler.
    ///
    /// Fails with `TokenNotFound` exactly when no session owns `token`, and
    /// with `AccountMismatch` exactly when one does and belongs to another
    /// account; a failure changes nothing. On success the session is seen
    /// active at `now`.
    pub fn authorize_at(
        &self,
        peers: &mut LinkPeerManager,
        account_id: i32,
        token: u64,
        now: i64,
    ) -> (passed: Result<(), GatewayError>)
        requires
            old(peers).wf(),
        ensures
            final(peers).wf(),
            final(peers).timeout_sec() == old(peers).timeout_sec(),
            passed == spec_authorize(old(peers)@, account_id, token),
            passed is Ok ==> final(peers)@ == spec_touch(old(peers)@, token, now),
            passed is Err ==> final(peers)@ == old(peers)@,
    {
        match peers.get_peer(token) {
            Some(peer) => {
                if peer.get_account_id() != account_id {
                    Err(GatewayError::AccountMismatch)
                } else {
                    peers.update_peer(token, now);
                    Ok(())
                }
            },
            None => Err(GatewayError::TokenNotFound),
        }
    }

    /// Decides, as of the system clock's reading, whether a request on
    /// behalf of `account_id` under `token` goes to its handler.
    ///
    /// The token and the account are judged first, as `authorize_at` does;
    /// a request that passes fails with `ClockOutOfRange` where the clock
    /// cannot be read in ticks. A failure changes nothing.
    pub fn authorize(&self, peers: &mut LinkPeerManager, account_id: i32, token: u64) -> (passed:
        Result<(), GatewayError>)
        requires
            old(peers).wf(),
        ensures
            final(peers).wf(),
            final(peers).timeout_sec() == old(peers).timeout_sec(),
            spec_authorize(old(peers)@, account_id, token) matches Err(e) ==> passed == Err::<
                (),
                GatewayError,
            >(e),
            spec_authorize(old(peers)@, account_id, token) is Ok ==> passed is Ok || passed == Err::<
                (),
                GatewayError,
            >(GatewayError::ClockOutOfRange),
            passed is Ok ==> exists|now: i64|
                final(peers)@ == #[trigger] spec_touch(old(peers)@, token, now),
            passed is Err ==> final(peers)@ == old(peers)@,
    {
        match peers.get_peer(token) {
            Some(peer) => {
                if peer.get_account_id() != account_id {
                    Err(GatewayError::AccountMismatch)
                } else {
                    match timestamp() {
                        Some(now) => {
                            peers.update_peer(token, now);
                            Ok(())
                        },
                        None => Err(GatewayError::ClockOutOfRange),
                    }
                }
            },
            None => Err(GatewayError::TokenNotFound),
        }
    }

    /// Judges at `now` a business request on behalf of `account_id` under
    /// `token`.
    ///
    /// A request whose token and account pass goes to its handler, and its
    /// session is seen active at `now`. A request that does not pass is
    /// answered with a failure reply that carries the reason's code, and
    /// nothing changes: the refusal is a reply, not a failure of the call.
    pub fn func_at(
        &self,
        peers: &mut LinkPeerManager,
        account_id: i32,
        token: u64,
        now: i64,
    ) -> (step: Result<Dispatch, GatewayError>)
        requires
            old(peers).wf(),
        ensures
            final(peers).wf(),
            final(peers).timeout_sec() == old(peers).timeout_sec(),
            dispatches(step, old(peers)@, account_id, token),
            final(peers)@ == (if spec_authorize(old(peers)@, account_id, token) is Ok {
                spec_touch(old(peers)@, token, now)
            } else {
                old(peers)@
            }),
    {
        match self.authorize_at(peers, account_id, token, now) {
            Ok(()) => Ok(Dispatch::Handle),
            Err(refused) => match reject(refused) {
                Ok(bytes) => Ok(Dispatch::Reply(bytes)),
                Err(e) => Err(e),
            },
        }
    }

    /// Judges a business request as of the system clock's reading.
    ///
    /// The token and the account are judged as `func_at` does: a request that
    /// does not pass is owed its failure reply, and no clock is read for it.
    /// A request that passes fails with `ClockOutOfRange`, changing nothing,
    /// where the clock cannot be read in ticks.
    pub fn func(&self, peers: &mut LinkPeerManager, account_id: i32, token: u64) -> (step: Result<
        Dispatch,
        GatewayError,
    >)
        requires
            old(peers).wf(),
        ensures
            final(peers).wf(),
            final(peers).timeout_sec() == old(peers).timeout_sec(),
            spec_authorize(old(peers)@, account_id, token) is Err ==> dispatches(
                step,
                old(peers)@,
                account_id,
                token,
            ),
            spec_authorize(old(peers)@, account_id, token) is Ok ==> (step matches Ok(
                Dispatch::Handle,
            )) || step == Err::<Dispatch, GatewayError>(GatewayError::ClockOutOfRange),
            step matches Ok(Dispatch::Handle) ==> exists|now: i64|
                final(peers)@ == #[trigger] spec_touch(old(peers)@, token, now),
            !(step matches Ok(Dispatch::Handle)) ==> final(peers)@ == old(peers)@,
    {
        match self.authorize(peers, account_id, token) {
            Ok(()) => Ok(Dispatch::Handle),
            Err(GatewayError::ClockOutOfRange) => Err(GatewayError::ClockOutOfRange),
            Err(refused) => match reject(refused) {
                Ok(bytes) => Ok(Dispatch::Reply(bytes)),
                Err(e) => Err(e),
            },
        }
    }

    /// The status of each session of `account_id`, from the most recently
    /// active to the longest idle.
    pub fn get_token_status<P: ILinkPeerManager>(&self, peers: &P, account_id: i32) -> (listed: Result<
        Vec<GetTokenResult>,
        GatewayError,
    >)
        requires
            peers.inv(),
        ensures
            listed matches Ok(list) ==> sorted_by_idle(list@) && exists|now: i64| #[trigger]
                lists_statuses(list@, peers.sessions(), account_id, now, peers.idle_timeout_sec()),
            listed matches Err(e) ==> e == GatewayError::ClockOutOfRange,
    {
        peers.get_token_state_by_account_id(account_id)
    }
}

} // verus!
