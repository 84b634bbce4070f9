use vstd::prelude::*;
use std::collections::HashMap;
use vstd::std_specs::iter::IteratorSpec;
use crate::error::GatewayError;
use crate::peer::GamePeer;
use crate::services::peers_model::{
    Sessions, sessions_wf, spec_create, can_bind, spec_authorize, spec_bind, spec_touch, spec_disconnect,
    spec_disconnect_for_proxy, spec_sweep, spec_purge_account, expired_tokens, account_tokens,
    proxy_tokens, lists_exactly, status_of, lists_statuses, sorted_by_idle, idle_threshold_ticks,
    spec_token_from_nanos, spec_ticks_from_nanos, spec_create_result, spec_create_at_reading,
    TOKEN_MODULUS,
};
use crate::time::{timestamp, timestamp_nanos, nanos_to_ticks};
use crate::config::BaseConfig;
use crate::packers::GetTokenResult;

verus! {

/// The token for a session created at a clock reading of `nanos`
/// nanoseconds.
pub fn token_from_nanos(nanos: i64) -> (token: u64)
    ensures
        token == spec_token_from_nanos(nanos),
        token < TOKEN_MODULUS,
{
    let low: i64 = nanos % 100_000_000_000_000;
    if low < 0 {
        (low + 100_000_000_000_000) as u64
    } else {
        low as u64
    }
}

/// Which sessions a pass over the registry picks.
enum Selector {
    All,
    Account(i32),
    Proxy(usize),
    Expired(i64, i128),
}

impl Selector {
    spec fn selects(self, peer: GamePeer) -> bool {
        match self {
            Selector::All => true,
            Selector::Account(account_id) => peer.account_id == account_id,
            Selector::Proxy(proxy_id) => peer.proxy_id == proxy_id,
            Selector::Expired(now, idle_threshold) => peer.is_expired(now, idle_threshold as int),
        }
    }

    fn test(&self, peer: &GamePeer) -> (picked: bool)
        ensures
            picked == self.selects(*peer),
    {
        match self {
            Selector::All => true,
            Selector::Account(account_id) => peer.get_account_id() == *account_id,
            Selector::Proxy(proxy_id) => peer.get_proxy_id() == *proxy_id,
            Selector::Expired(now, idle_threshold) => peer.expired_at(*now, *idle_threshold),
        }
    }
}

/// The tokens of the sessions that `sel` picks.
spec fn selected(m: Sessions, sel: Selector) -> Set<u64> {
    Set::new(|t: u64| m.contains_key(t) && sel.selects(m[t]))
}

/// The sessions that `sel` does not pick.
spec fn without(m: Sessions, sel: Selector) -> Sessions {
    Map::new(|t: u64| m.contains_key(t) && !sel.selects(m[t]), |t: u64| m[t])
}

/// What a pass over `keys` has gathered from `m` once the first `done` keys
/// are behind it: `list` holds the sessions under those keys that `sel`
/// picks, each once and as `m` has it, and none under a key still ahead.
spec fn gathered(list: Seq<GamePeer>, m: Sessions, sel: Selector, keys: Seq<u64>, done: int) -> bool {
    &&& forall|k: int|
        0 <= k < list.len() ==> {
            &&& sel.selects(#[trigger] list[k])
            &&& m.contains_key(list[k].token)
            &&& m[list[k].token] == list[k]
        }
    &&& forall|k: int, j: int|
        0 <= k < list.len() && done <= j < keys.len() ==> (#[trigger] list[k]).token
            != #[trigger] keys[j]
    &&& forall|k: int, l: int|
        0 <= k < l < list.len() ==> (#[trigger] list[k]).token != (#[trigger] list[l]).token
    &&& forall|j: int|
        0 <= j < done && sel.selects(m[#[trigger] keys[j]]) ==> exists|k: int|
            0 <= k < list.len() && #[trigger] list[k].token == keys[j]
}

/// One more key is behind the pass: its session joins the list where `sel`
/// picks it, and the list stays as it is where not.
proof fn lemma_gathered_step(
    list: Seq<GamePeer>,
    m: Sessions,
    sel: Selector,
    keys: Seq<u64>,
    done: int,
)
    requires
        sessions_wf(m),
        keys.no_duplicates(),
        0 <= done < keys.len(),
        m.contains_key(keys[done]),
        gathered(list, m, sel, keys, done),
    ensures
        sel.selects(m[keys[done]]) ==> gathered(
            list.push(m[keys[done]]),
            m,
            sel,
            keys,
            done + 1,
        ),
        !sel.selects(m[keys[done]]) ==> gathered(list, m, sel, keys, done + 1),
{
    let peer = m[keys[done]];
    if sel.selects(peer) {
        let more = list.push(peer);
        assert(more[list.len() as int].token == keys[done]);
        assert forall|j: int|
            0 <= j < done + 1 && sel.selects(m[#[trigger] keys[j]]) implies exists|k: int|
            0 <= k < more.len() && #[trigger] more[k].token == keys[j] by {
            if j < done {
                let k = choose|k: int| 0 <= k < list.len() && #[trigger] list[k].token == keys[j];
                assert(more[k].token == keys[j]);
            }
        }
    }
}

/// With every key behind it, the pass has gathered exactly the sessions
/// that `sel` picks.
proof fn lemma_gathered_all(list: Seq<GamePeer>, m: Sessions, sel: Selector, keys: Seq<u64>)
    requires
        keys.to_set() == m.dom(),
        gathered(list, m, sel, keys, keys.len() as int),
    ensures
        lists_exactly(list, m, selected(m, sel)),
{
    assert forall|t: u64| selected(m, sel).contains(t) && m.contains_key(t) implies exists|k: int|
        0 <= k < list.len() && #[trigger] list[k].token == t by {
        assert(keys.to_set().contains(t));
        let j = choose|j: int| 0 <= j < keys.len() && keys[j] == t;
        assert(sel.selects(m[keys[j]]));
    }
}

/// The registry of live sessions, keyed by token.
///
/// Its view is the map from token to session. The registry keeps every
/// session under the token that the session itself carries, so no two live
/// sessions share a token.
pub struct LinkPeerManager {
    peers: HashMap<u64, GamePeer>,
    peer_clean_timeout_sec: i64,
}

impl View for LinkPeerManager {
    type V = Sessions;

    closed spec fn view(&self) -> Sessions {
        self.peers@
    }
}

impl LinkPeerManager {
    /// The registry's invariant: every session is filed under its own token.
    /// `new` establishes it and every method keeps it.
    pub open spec fn wf(&self) -> bool {
        sessions_wf(self@)
    }

    /// The idle timeout that the registry was made with, in seconds.
    pub closed spec fn timeout_sec(&self) -> i64 {
        self.peer_clean_timeout_sec
    }

    /// An empty registry whose sessions time out after
    /// `peer_clean_timeout_sec` seconds without a connection.
    pub fn new(peer_clean_timeout_sec: i64) -> (manager: LinkPeerManager)
        ensures
            manager@ == Sessions::empty(),
            manager.wf(),
            manager.timeout_sec() == peer_clean_timeout_sec,
    {
        LinkPeerManager { peers: HashMap::new(), peer_clean_timeout_sec }
    }

    /// An empty registry with the idle timeout that `config` sets.
    pub fn with_config(config: &BaseConfig) -> (manager: LinkPeerManager)
        ensures
            manager@ == Sessions::empty(),
            manager.wf(),
            manager.timeout_sec() == config.peer_clean_timeout_sec,
    {
        LinkPeerManager::new(config.peer_clean_timeout_sec)
    }

    pub fn peer_clean_timeout_sec(&self) -> (seconds: i64)
        ensures
            seconds == self.timeout_sec(),
    {
        self.peer_clean_timeout_sec
    }

    /// The tokens of the live sessions, each once, in no particular order.
    pub fn tokens(&self) -> (keys: Vec<u64>)
        ensures
            keys@.no_duplicates(),
            keys@.to_set() == self@.dom(),
    {
        broadcast use vstd::std_specs::hash::group_hash_axioms;
        let mut keys: Vec<u64> = Vec::new();
        for k in it: self.peers.keys()
            invariant
                keys@ == it.seq().unref().take(it.index() as int),
        {
            keys.push(*k);
        }
        proof {
            let rest = self.peers.keys().remaining();
            assert(keys@ =~= rest.unref());
            assert(rest.unref().to_set() == self.peers@.dom());
        }
        keys
    }

    /// The session that owns `token`, as it is now.
    pub fn get_peer(&self, token: u64) -> (peer: Option<GamePeer>)
        ensures
            peer == (if self@.contains_key(token) {
                Some(self@[token])
            } else {
                None
            }),
    {
        broadcast use vstd::std_specs::hash::group_hash_axioms;
        match self.peers.get(&token) {
            Some(peer) => Some(*peer),
            None => None,
        }
    }

    /// Files a new pending session for `account_id` under `token`.
    ///
    /// Fails with `DuplicateToken`, changing nothing, exactly when a live
    /// session already owns `token`.
    pub fn create_peer_with_token(&mut self, token: u64, account_id: i32, now: i64) -> (created:
        Result<u64, GatewayError>)
        requires
            old(self).wf(),
        ensures
            final(self).timeout_sec() == old(self).timeout_sec(),
            final(self).wf(),
            final(self)@ == spec_create(old(self)@, token, account_id, now),
            created == spec_create_result(old(self)@, token),
    {
        broadcast use vstd::std_specs::hash::group_hash_axioms;
        if self.peers.contains_key(&token) {
            return Err(GatewayError::DuplicateToken);
        }
        self.peers.insert(token, GamePeer::create(token, account_id, now));
        Ok(token)
    }

    /// Binds the session under `token` to `proxy_id` at `now`: the session
    /// is connected, served by `proxy_id`, and last active at `now`.
    ///
    /// Succeeds exactly when a session owns `token` and belongs to
    /// `account_id`; a failure changes nothing.
    pub fn peer_connect_at(
        &mut self,
        proxy_id: usize,
        account_id: i32,
        token: u64,
        now: i64,
    ) -> (bound: Result<(), GatewayError>)
        requires
            old(self).wf(),
        ensures
            final(self).timeout_sec() == old(self).timeout_sec(),
            final(self).wf(),
            final(self)@ == spec_bind(old(self)@, proxy_id, account_id, token, now),
            bound == spec_authorize(old(self)@, account_id, token),
            bound is Ok <==> can_bind(old(self)@, account_id, token),
            bound == Err::<(), GatewayError>(GatewayError::TokenNotFound) <==> !old(
                self,
            )@.contains_key(token),
            bound == Err::<(), GatewayError>(GatewayError::AccountMismatch) <==> old(
                self,
            )@.contains_key(token) && old(self)@[token].account_id != account_id,
            bound is Err ==> final(self)@ == old(self)@,
    {
        broadcast use vstd::std_specs::hash::group_hash_axioms;
        let found: Option<GamePeer> = self.get_peer(token);
        match found {
            Some(peer) => {
                if peer.get_account_id() == account_id {
                    let mut peer = peer;
                    peer.set_proxy_id(proxy_id);
                    peer.set_disconnect(false);
                    peer.touch(now);
                    self.peers.insert(token, peer);
                    Ok(())
                } else {
                    Err(GatewayError::AccountMismatch)
                }
            },
            None => Err(GatewayError::TokenNotFound),
        }
    }

    /// Binds the session under `token` to `proxy_id` as of the system
    /// clock's reading.
    ///
    /// The token and the account are judged first, as `peer_connect_at`
    /// does, and a refusal reads no clock. A bind that passes fails with
    /// `ClockOutOfRange` where the clock cannot be read in ticks. A failure
    /// changes nothing.
    pub fn peer_connect(&mut self, proxy_id: usize, account_id: i32, token: u64) -> (bound: Result<
        (),
        GatewayError,
    >)
        requires
            old(self).wf(),
        ensures
            final(self).timeout_sec() == old(self).timeout_sec(),
            final(self).wf(),
            spec_authorize(old(self)@, account_id, token) matches Err(e) ==> bound == Err::<
                (),
                GatewayError,
            >(e),
            spec_authorize(old(self)@, account_id, token) is Ok ==> bound is Ok || bound == Err::<
                (),
                GatewayError,
            >(GatewayError::ClockOutOfRange),
            bound is Ok ==> exists|now: i64|
                final(self)@ == #[trigger] spec_bind(old(self)@, proxy_id, account_id, token, now),
            bound is Err ==> final(self)@ == old(self)@,
    {
        match self.get_peer(token) {
            Some(peer) => {
                if peer.get_account_id() != account_id {
                    Err(GatewayError::AccountMismatch)
                } else {
                    match timestamp() {
                        Some(now) => self.peer_connect_at(proxy_id, account_id, token, now),
                        None => Err(GatewayError::ClockOutOfRange),
                    }
                }
            },
            None => Err(GatewayError::TokenNotFound),
        }
    }

    /// Records activity at `now` on the session under `token`. Returns
    /// whether there is such a session.
    pub fn update_peer(&mut self, token: u64, now: i64) -> (found: bool)
        requires
            old(self).wf(),
        ensures
            final(self).timeout_sec() == old(self).timeout_sec(),
            final(self).wf(),
            final(self)@ == spec_touch(old(self)@, token, now),
            found == old(self)@.contains_key(token),
    {
        broadcast use vstd::std_specs::hash::group_hash_axioms;
        let found: Option<GamePeer> = self.get_peer(token);
        match found {
            Some(peer) => {
                let mut peer = peer;
                peer.touch(now);
                self.peers.insert(token, peer);
                true
            },
            None => false,
        }
    }

    /// Marks the session under `token` as not connected.
    ///
    /// Returns the session as it now stands, for which the disconnect
    /// notification is due, or `None` when no session owns `token`. Doing
    /// this to a session that is already marked changes nothing.
    pub fn disconnect(&mut self, token: u64) -> (marked: Option<GamePeer>)
        requires
            old(self).wf(),
        ensures
            final(self).timeout_sec() == old(self).timeout_sec(),
            final(self).wf(),
            final(self)@ == spec_disconnect(old(self)@, token),
            marked == (if old(self)@.contains_key(token) {
                Some(GamePeer { is_disconnect: true, ..old(self)@[token] })
            } else {
                None
            }),
    {
        broadcast use vstd::std_specs::hash::group_hash_axioms;
        let found: Option<GamePeer> = self.get_peer(token);
        match found {
            Some(peer) => {
                let mut peer = peer;
                peer.set_disconnect(true);
                self.peers.insert(token, peer);
                Some(peer)
            },
            None => None,
        }
    }

    /// The sessions that `sel` picks, each once.
    fn collect(&self, sel: &Selector) -> (list: Vec<GamePeer>)
        requires
            self.wf(),
        ensures
            lists_exactly(list@, self@, selected(self@, *sel)),
    {
        let keys: Vec<u64> = self.tokens();
        let mut list: Vec<GamePeer> = Vec::new();
        let mut i: usize = 0;
        while i < keys.len()
            invariant
                0 <= i <= keys.len(),
                self.wf(),
                keys@.no_duplicates(),
                keys@.to_set() == self@.dom(),
                gathered(list@, self@, *sel, keys@, i as int),
            decreases keys.len() - i,
        {
            let key: u64 = keys[i];
            proof {
                assert(keys@.to_set().contains(key));
                lemma_gathered_step(list@, self@, *sel, keys@, i as int);
            }
            if let Some(peer) = self.get_peer(key) {
                if sel.test(&peer) {
                    list.push(peer);
                }
            }
            i += 1;
        }
        proof {
            lemma_gathered_all(list@, self@, *sel, keys@);
        }
        list
    }

    /// Takes the sessions that `sel` picks out of the registry and returns
    /// them.
    fn remove_selected(&mut self, sel: &Selector) -> (removed: Vec<GamePeer>)
        requires
            old(self).wf(),
        ensures
            final(self).wf(),
            final(self).timeout_sec() == old(self).timeout_sec(),
            final(self)@ == without(old(self)@, *sel),
            lists_exactly(removed@, old(self)@, selected(old(self)@, *sel)),
    {
        broadcast use vstd::std_specs::hash::group_hash_axioms;
        let ghost start = self@;
        let keys: Vec<u64> = self.tokens();
        let mut removed: Vec<GamePeer> = Vec::new();
        let mut i: usize = 0;
        while i < keys.len()
            invariant
                0 <= i <= keys.len(),
                sessions_wf(start),
                self.wf(),
                self.timeout_sec() == old(self).timeout_sec(),
                keys@.no_duplicates(),
                keys@.to_set() == start.dom(),
                gathered(removed@, start, *sel, keys@, i as int),
                forall|t: u64| #[trigger]
                    self@.contains_key(t) ==> start.contains_key(t) && self@[t] == start[t],
                forall|j: int|
                    0 <= j < i ==> (self@.contains_key(#[trigger] keys[j]) <==> !sel.selects(
                        start[keys[j]],
                    )),
                forall|j: int| i <= j < keys.len() ==> self@.contains_key(#[trigger] keys[j]),
            decreases keys.len() - i,
        {
            let key: u64 = keys[i];
            let ghost held = self@;
            proof {
                assert(held.contains_key(keys[i as int]));
                lemma_gathered_step(removed@, start, *sel, keys@, i as int);
            }
            if let Some(peer) = self.get_peer(key) {
                if sel.test(&peer) {
                    self.peers.remove(&key);
                    removed.push(peer);
                }
            }
            proof {
                assert forall|j: int| i + 1 <= j < keys.len() implies self@.contains_key(
                    #[trigger] keys[j],
                ) by {
                    assert(held.contains_key(keys[j]));
                    assert(keys[j] != keys[i as int]);
                }
                assert forall|j: int| 0 <= j < i + 1 implies (self@.contains_key(
                    #[trigger] keys[j],
                ) <==> !sel.selects(start[keys[j]])) by {
                    if j < i {
                        assert(keys[j] != keys[i as int]);
                        assert(held.contains_key(keys[j]) <==> !sel.selects(start[keys[j]]));
                    }
                }
            }
            i += 1;
        }
        proof {
            assert forall|t: u64| start.contains_key(t) implies (self@.contains_key(t)
                <==> !sel.selects(start[t])) by {
                assert(keys@.to_set().contains(t));
                let j = choose|j: int| 0 <= j < keys@.len() && keys@[j] == t;
                assert(self@.contains_key(keys[j]) <==> !sel.selects(start[keys[j]]));
            }
            assert(self@ =~= without(start, *sel));
            lemma_gathered_all(removed@, start, *sel, keys@);
        }
        removed
    }

    /// How many sessions are live.
    pub fn len(&self) -> (count: usize)
        ensures
            count == self@.len(),
    {
        broadcast use vstd::std_specs::hash::group_hash_axioms;
        self.peers.len()
    }

    /// The sessions of `account_id`; one account may hold several.
    pub fn get_peer_by_account_id(&self, account_id: i32) -> (list: Vec<GamePeer>)
        requires
            self.wf(),
        ensures
            lists_exactly(list@, self@, account_tokens(self@, account_id)),
    {
        let sel = Selector::Account(account_id);
        let list = self.collect(&sel);
        assert(selected(self@, sel) =~= account_tokens(self@, account_id));
        list
    }

    /// Every live session.
    pub fn get_all_peer(&self) -> (list: Vec<GamePeer>)
        requires
            self.wf(),
        ensures
            lists_exactly(list@, self@, self@.dom()),
    {
        let sel = Selector::All;
        let list = self.collect(&sel);
        assert(selected(self@, sel) =~= self@.dom());
        list
    }

    /// The status of each session of `account_id` as of `now`, from the most
    /// recently active to the longest idle.
    pub fn token_state_at(&self, account_id: i32, now: i64) -> (list: Vec<GetTokenResult>)
        requires
            self.wf(),
        ensures
            lists_statuses(list@, self@, account_id, now, self.timeout_sec()),
            sorted_by_idle(list@),
    {
        let peers = self.get_peer_by_account_id(account_id);
        let mut list: Vec<GetTokenResult> = Vec::new();
        let mut i: usize = 0;
        while i < peers.len()
            invariant
                0 <= i <= peers.len(),
                lists_exactly(peers@, self@, account_tokens(self@, account_id)),
                list.len() == i,
                forall|k: int|
                    0 <= k < i ==> #[trigger] list[k] == status_of(
                        peers[k],
                        now,
                        self.timeout_sec(),
                    ),
            decreases peers.len() - i,
        {
            let peer: GamePeer = peers[i];
            list.push(
                GetTokenResult {
                    token: peer.get_token(),
                    last_elapsed_time: peer.comparison_time(now),
                    timeout: self.peer_clean_timeout_sec,
                    is_wss_connect: !peer.is_disconnect(),
                },
            );
            i += 1;
        }
        proof {
            assert forall|k: int| 0 <= k < list.len() implies {
                &&& self@.contains_key(#[trigger] list[k].token)
                &&& self@[list[k].token].account_id == account_id
                &&& list[k] == status_of(self@[list[k].token], now, self.timeout_sec())
            } by {
                assert(list[k].token == peers[k].token);
                assert(account_tokens(self@, account_id).contains(peers[k].token));
            }
            assert forall|k: int, l: int| 0 <= k < l < list.len() implies (#[trigger] list[k]).token
                != (#[trigger] list[l]).token by {
                assert(peers[k].token != peers[l].token);
            }
            assert forall|t: u64|
                self@.contains_key(t) && self@[t].account_id == account_id implies exists|k: int|
                0 <= k < list.len() && #[trigger] list[k].token == t by {
                assert(account_tokens(self@, account_id).contains(t));
                let k = choose|k: int| 0 <= k < peers.len() && #[trigger] peers[k].token == t;
                assert(list[k].token == t);
            }
        }
        sort_by_idle(&mut list, Ghost(self@), Ghost(account_id), Ghost(now), Ghost(self.timeout_sec()));
        list
    }

    /// Marks every session whose proxy id is `proxy_id` as not connected;
    /// the sessions stay in the registry, to be bound again or reclaimed.
    ///
    /// Returns those sessions as they now stand: a disconnect notification is
    /// due for each.
    pub fn disconnect_for_proxy(&mut self, proxy_id: usize) -> (marked: Vec<GamePeer>)
        requires
            old(self).wf(),
        ensures
            final(self).wf(),
            final(self).timeout_sec() == old(self).timeout_sec(),
            final(self)@ == spec_disconnect_for_proxy(old(self)@, proxy_id),
            lists_exactly(marked@, final(self)@, proxy_tokens(old(self)@, proxy_id)),
    {
        broadcast use vstd::std_specs::hash::group_hash_axioms;
        let ghost start = self@;
        let sel = Selector::Proxy(proxy_id);
        let picked = self.collect(&sel);
        assert(selected(start, sel) =~= proxy_tokens(start, proxy_id));
        let mut marked: Vec<GamePeer> = Vec::new();
        let mut i: usize = 0;
        while i < picked.len()
            invariant
                0 <= i <= picked.len(),
                sessions_wf(start),
                self.wf(),
                self.timeout_sec() == old(self).timeout_sec(),
                lists_exactly(picked@, start, proxy_tokens(start, proxy_id)),
                self@.dom() == start.dom(),
                marked.len() == i,
                forall|k: int|
                    0 <= k < i ==> #[trigger] marked[k] == (GamePeer {
                        is_disconnect: true,
                        ..picked[k]
                    }),
                forall|k: int|
                    0 <= k < i ==> self@[(#[trigger] picked[k]).token] == (GamePeer {
                        is_disconnect: true,
                        ..picked[k]
                    }),
                forall|t: u64|
                    start.contains_key(t) && (forall|k: int|
                        0 <= k < i ==> (#[trigger] picked[k]).token != t) ==> #[trigger] self@[t]
                        == start[t],
            decreases picked.len() - i,
        {
            let token: u64 = picked[i].get_token();
            let ghost held = self@;
            proof {
                assert(start.contains_key(token));
                assert(held.contains_key(token));
                assert(held[token] == start[token]) by {
                    assert forall|k: int| 0 <= k < i implies (#[trigger] picked[k]).token
                        != token by {
                        assert(picked[k].token != picked[i as int].token);
                    }
                }
            }
            if let Some(peer) = self.disconnect(token) {
                marked.push(peer);
            }
            proof {
                assert(self@.dom() =~= start.dom());
                assert forall|k: int| 0 <= k < i + 1 implies self@[(#[trigger] picked[k]).token] == (
                GamePeer { is_disconnect: true, ..picked[k] }) by {
                    if k < i {
                        assert(picked[k].token != picked[i as int].token);
                    }
                }
            }
            i += 1;
        }
        proof {
            let goal = spec_disconnect_for_proxy(start, proxy_id);
            assert forall|t: u64| start.contains_key(t) implies self@[t] == goal[t] by {
                if start[t].proxy_id == proxy_id {
                    assert(proxy_tokens(start, proxy_id).contains(t));
                    let k = choose|k: int| 0 <= k < picked.len() && #[trigger] picked[k].token == t;
                    assert(self@[picked[k].token] == (GamePeer { is_disconnect: true, ..picked[k] }));
                } else {
                    assert forall|k: int| 0 <= k < picked.len() implies (#[trigger] picked[k]).token
                        != t by {
                        assert(proxy_tokens(start, proxy_id).contains(picked[k].token));
                    }
                }
            }
            assert(self@ =~= goal);
            assert forall|k: int| 0 <= k < marked.len() implies {
                &&& proxy_tokens(start, proxy_id).contains(#[trigger] marked[k].token)
                &&& self@.contains_key(marked[k].token)
                &&& self@[marked[k].token] == marked[k]
            } by {
                assert(marked[k].token == picked[k].token);
                assert(self@[picked[k].token] == marked[k]);
            }
            assert forall|k: int, l: int| 0 <= k < l < marked.len() implies (
            #[trigger] marked[k]).token != (#[trigger] marked[l]).token by {
                assert(picked[k].token != picked[l].token);
            }
            assert forall|t: u64|
                proxy_tokens(start, proxy_id).contains(t) && self@.contains_key(t) implies exists|
                k: int,
            | 0 <= k < marked.len() && #[trigger] marked[k].token == t by {
                let k = choose|k: int| 0 <= k < picked.len() && #[trigger] picked[k].token == t;
                assert(marked[k].token == t);
            }
        }
        marked
    }

    /// Removes every session of `account_id`, connected or not, and returns
    /// them: a clean-up notification is due for each.
    pub fn clean_by_account_id(&mut self, account_id: i32) -> (removed: Vec<GamePeer>)
        requires
            old(self).wf(),
        ensures
            final(self).wf(),
            final(self).timeout_sec() == old(self).timeout_sec(),
            final(self)@ == spec_purge_account(old(self)@, account_id),
            lists_exactly(removed@, old(self)@, account_tokens(old(self)@, account_id)),
    {
        let sel = Selector::Account(account_id);
        let removed = self.remove_selected(&sel);
        assert(selected(old(self)@, sel) =~= account_tokens(old(self)@, account_id));
        assert(without(old(self)@, sel) =~= spec_purge_account(old(self)@, account_id));
        removed
    }

    /// Removes every session that is not connected and has been idle at
    /// `now` for at least `idle_threshold` ticks, and returns them: a
    /// clean-up notification is due for each. A connected session stays,
    /// however long it has been idle.
    pub fn sweep_expired(&mut self, now: i64, idle_threshold: i64) -> (removed: Vec<GamePeer>)
        requires
            old(self).wf(),
        ensures
            final(self).wf(),
            final(self).timeout_sec() == old(self).timeout_sec(),
            final(self)@ == spec_sweep(old(self)@, now, idle_threshold as int),
            lists_exactly(
                removed@,
                old(self)@,
                expired_tokens(old(self)@, now, idle_threshold as int),
            ),
    {
        self.sweep(now, idle_threshold as i128)
    }

    fn sweep(&mut self, now: i64, idle_threshold: i128) -> (removed: Vec<GamePeer>)
        requires
            old(self).wf(),
        ensures
            final(self).wf(),
            final(self).timeout_sec() == old(self).timeout_sec(),
            final(self)@ == spec_sweep(old(self)@, now, idle_threshold as int),
            lists_exactly(
                removed@,
                old(self)@,
                expired_tokens(old(self)@, now, idle_threshold as int),
            ),
    {
        let sel = Selector::Expired(now, idle_threshold);
        let removed = self.remove_selected(&sel);
        assert(selected(old(self)@, sel) =~= expired_tokens(
            old(self)@,
            now,
            idle_threshold as int,
        ));
        assert(without(old(self)@, sel) =~= spec_sweep(old(self)@, now, idle_threshold as int));
        removed
    }

    /// Sweeps as of `now` with the timeout that the registry was made with.
    pub fn cleans_at(&mut self, now: i64) -> (removed: Vec<GamePeer>)
        requires
            old(self).wf(),
        ensures
            final(self).wf(),
            final(self).timeout_sec() == old(self).timeout_sec(),
            final(self)@ == spec_sweep(
                old(self)@,
                now,
                idle_threshold_ticks(old(self).timeout_sec()),
            ),
            lists_exactly(
                removed@,
                old(self)@,
                expired_tokens(old(self)@, now, idle_threshold_ticks(old(self).timeout_sec())),
            ),
    {
        let idle_threshold: i128 = (self.peer_clean_timeout_sec as i128) * 10_000_000;
        self.sweep(now, idle_threshold)
    }

    /// Sweeps as of the system clock's reading. Fails with `ClockOutOfRange`,
    /// changing nothing, where the clock cannot be read in ticks.
    pub fn cleans(&mut self) -> (swept: Result<Vec<GamePeer>, GatewayError>)
        requires
            old(self).wf(),
        ensures
            final(self).wf(),
            final(self).timeout_sec() == old(self).timeout_sec(),
            swept matches Ok(removed) ==> exists|now: i64|
                {
                    &&& final(self)@ == #[trigger] spec_sweep(
                        old(self)@,
                        now,
                        idle_threshold_ticks(old(self).timeout_sec()),
                    )
                    &&& lists_exactly(
                        removed@,
                        old(self)@,
                        expired_tokens(
                            old(self)@,
                            now,
                            idle_threshold_ticks(old(self).timeout_sec()),
                        ),
                    )
                },
            swept matches Err(e) ==> e == GatewayError::ClockOutOfRange && final(self)@ == old(
                self,
            )@,
    {
        match timestamp() {
            Some(now) => {
                let removed = self.cleans_at(now);
                Ok(removed)
            },
            None => Err(GatewayError::ClockOutOfRange),
        }
    }

    /// Creates a pending session for `account_id` at a clock reading of
    /// `nanos` nanoseconds: the token is drawn from the reading, and the
    /// session was last active at the reading.
    ///
    /// Fails with `DuplicateToken`, changing nothing, exactly when a live
    /// session already owns the token drawn.
    pub fn create_peer_at(&mut self, account_id: i32, nanos: i64) -> (created: Result<
        u64,
        GatewayError,
    >)
        requires
            old(self).wf(),
        ensures
            final(self).wf(),
            final(self).timeout_sec() == old(self).timeout_sec(),
            final(self)@ == spec_create_at_reading(old(self)@, account_id, nanos),
            created == spec_create_result(old(self)@, spec_token_from_nanos(nanos)),
    {
        let token: u64 = token_from_nanos(nanos);
        let now: i64 = nanos_to_ticks(nanos);
        self.create_peer_with_token(token, account_id, now)
    }

    /// Creates a pending session for `account_id` under a token drawn from
    /// the system clock, and returns the token.
    ///
    /// Fails, changing nothing, with `DuplicateToken` where a live session
    /// already owns the token drawn, and with `ClockOutOfRange` where the
    /// clock cannot be read in nanoseconds. Whatever the clock reads, the
    /// outcome is that of `create_peer_at` for the reading.
    pub fn create_peer(&mut self, account_id: i32) -> (created: Result<u64, GatewayError>)
        requires
            old(self).wf(),
        ensures
            final(self).wf(),
            final(self).timeout_sec() == old(self).timeout_sec(),
            created != Err::<u64, GatewayError>(GatewayError::ClockOutOfRange) ==> exists|
                nanos: i64,
            |
                {
                    &&& final(self)@ == #[trigger] spec_create_at_reading(
                        old(self)@,
                        account_id,
                        nanos,
                    )
                    &&& created == spec_create_result(old(self)@, spec_token_from_nanos(nanos))
                },
            created matches Ok(token) ==> {
                &&& !old(self)@.contains_key(token)
                &&& token < TOKEN_MODULUS
                &&& final(self)@.dom() == old(self)@.dom().insert(token)
                &&& exists|now: i64|
                    final(self)@ == old(self)@.insert(
                        token,
                        #[trigger] GamePeer::pending(token, account_id, now),
                    )
            },
            created matches Err(e) ==> {
                &&& final(self)@ == old(self)@
                &&& (e == GatewayError::DuplicateToken || e == GatewayError::ClockOutOfRange)
            },
    {
        match timestamp_nanos() {
            Some(nanos) => {
                let created = self.create_peer_at(account_id, nanos);
                proof {
                    let token = spec_token_from_nanos(nanos);
                    let now = spec_ticks_from_nanos(nanos);
                    assert(self@ == spec_create_at_reading(old(self)@, account_id, nanos));
                    if created is Ok {
                        let fresh = GamePeer::pending(token, account_id, now);
                        assert(self@ == old(self)@.insert(token, fresh));
                        assert(self@.dom() =~= old(self)@.dom().insert(token));
                    }
                }
                created
            },
            None => Err(GatewayError::ClockOutOfRange),
        }
    }

    /// The status of each session of `account_id` as of the system clock's
    /// reading, from the most recently active to the longest idle. Fails
    /// with `ClockOutOfRange` where the clock cannot be read in ticks.
    pub fn get_token_state_by_account_id(&self, account_id: i32) -> (listed: Result<
        Vec<GetTokenResult>,
        GatewayError,
    >)
        requires
            self.wf(),
        ensures
            listed matches Ok(list) ==> sorted_by_idle(list@) && exists|now: i64| #[trigger]
                lists_statuses(list@, self@, account_id, now, self.timeout_sec()),
            listed matches Err(e) ==> e == GatewayError::ClockOutOfRange,
    {
        match timestamp() {
            Some(now) => Ok(self.token_state_at(account_id, now)),
            None => Err(GatewayError::ClockOutOfRange),
        }
    }

    /// Removes every session and returns them: a clean-up notification is
    /// due for each.
    pub fn clear_all(&mut self) -> (removed: Vec<GamePeer>)
        requires
            old(self).wf(),
        ensures
            final(self).wf(),
            final(self).timeout_sec() == old(self).timeout_sec(),
            final(self)@ == Sessions::empty(),
            lists_exactly(removed@, old(self)@, old(self)@.dom()),
    {
        let sel = Selector::All;
        let removed = self.remove_selected(&sel);
        assert(selected(old(self)@, sel) =~= old(self)@.dom());
        assert(without(old(self)@, sel) =~= Sessions::empty());
        removed
    }
}

/// Puts `list` in order of idle time, shortest first, keeping what it lists.
fn sort_by_idle(
    list: &mut Vec<GetTokenResult>,
    Ghost(m): Ghost<Sessions>,
    Ghost(account_id): Ghost<i32>,
    Ghost(now): Ghost<i64>,
    Ghost(timeout_sec): Ghost<i64>,
)
    requires
        lists_statuses(old(list)@, m, account_id, now, timeout_sec),
    ensures
        lists_statuses(final(list)@, m, account_id, now, timeout_sec),
        sorted_by_idle(final(list)@),
{
    let n: usize = list.len();
    let mut i: usize = 0;
    while i < n
        invariant
            0 <= i <= n,
            list.len() == n,
            lists_statuses(list@, m, account_id, now, timeout_sec),
            forall|a: int, b: int|
                0 <= a <= b < i ==> (#[trigger] list[a]).last_elapsed_time <= (
                #[trigger] list[b]).last_elapsed_time,
        decreases n - i,
    {
        let mut j: usize = i;
        while j > 0 && list[j - 1].last_elapsed_time > list[j].last_elapsed_time
            invariant
                0 <= j <= i < n,
                list.len() == n,
                lists_statuses(list@, m, account_id, now, timeout_sec),
                forall|a: int, b: int|
                    0 <= a <= b <= i && b != j ==> (#[trigger] list[a]).last_elapsed_time <= (
                    #[trigger] list[b]).last_elapsed_time,
            decreases j,
        {
            let ghost before = list@;
            let lower: GetTokenResult = list[j - 1];
            let upper: GetTokenResult = list[j];
            list.set(j - 1, upper);
            list.set(j, lower);
            proof {
                let jj = j as int;
                assert(list@ == before.update(jj - 1, before[jj]).update(jj, before[jj - 1]));
                assert forall|t: u64|
                    m.contains_key(t) && m[t].account_id == account_id implies exists|k: int|
                    0 <= k < list.len() && #[trigger] list[k].token == t by {
                    let k = choose|k: int| 0 <= k < before.len() && #[trigger] before[k].token == t;
                    if k == jj {
                        assert(list[jj - 1].token == t);
                    } else if k == jj - 1 {
                        assert(list[jj].token == t);
                    } else {
                        assert(list[k].token == t);
                    }
                }
                assert forall|a: int, b: int| 0 <= a < b < list.len() implies (
                #[trigger] list[a]).token != (#[trigger] list[b]).token by {
                    let pa = if a == jj { jj - 1 } else if a == jj - 1 { jj } else { a };
                    let pb = if b == jj { jj - 1 } else if b == jj - 1 { jj } else { b };
                    assert(list[a] == before[pa]);
                    assert(list[b] == before[pb]);
                    if pa < pb {
                        assert(before[pa].token != before[pb].token);
                    } else {
                        assert(before[pb].token != before[pa].token);
                    }
                }
                assert forall|k: int| 0 <= k < list.len() implies {
                    &&& m.contains_key(#[trigger] list[k].token)
                    &&& m[list[k].token].account_id == account_id
                    &&& list[k] == status_of(m[list[k].token], now, timeout_sec)
                } by {
                    let pk = if k == jj { jj - 1 } else if k == jj - 1 { jj } else { k };
                    assert(list[k] == before[pk]);
                    assert(m.contains_key(before[pk].token));
                }
                assert forall|a: int, b: int| 0 <= a <= b <= i && b != jj - 1 implies (
                #[trigger] list[a]).last_elapsed_time <= (#[trigger] list[b]).last_elapsed_time by {
                    let pa = if a == jj { jj - 1 } else if a == jj - 1 { jj } else { a };
                    let pb = if b == jj { jj - 1 } else if b == jj - 1 { jj } else { b };
                    assert(list[a] == before[pa]);
                    assert(list[b] == before[pb]);
                    if b == jj {
                        if a == jj {
                        } else if a == jj - 1 {
                        } else {
                            assert(before[a].last_elapsed_time <= before[jj - 1].last_elapsed_time);
                        }
                    } else if a == jj {
                        assert(before[jj - 1].last_elapsed_time <= before[b].last_elapsed_time);
                    } else if a == jj - 1 {
                        assert(before[jj - 1].last_elapsed_time <= before[b].last_elapsed_time);
                        assert(b > jj);
                        assert(before[jj - 1].last_elapsed_time > before[jj].last_elapsed_time);
                    } else {
                        assert(before[a].last_elapsed_time <= before[b].last_elapsed_time);
                    }
                }
            }
            j -= 1;
        }
        i += 1;
    }
}

/// What the gateway asks of a session registry.
///
/// `sessions` is the registry's state and `inv` its invariant; every
/// operation is stated over the two.
pub trait ILinkPeerManager {
    /// The live sessions, each under its token.
    spec fn sessions(&self) -> Sessions;

    /// The idle timeout in seconds.
    spec fn idle_timeout_sec(&self) -> i64;

    /// The registry's invariant, which every operation keeps.
    spec fn inv(&self) -> bool;

    /// Creates a pending session for `account_id` and returns its token.
    fn create_peer(&mut self, account_id: i32) -> (created: Result<u64, GatewayError>)
        requires
            old(self).inv(),
        ensures
            final(self).inv(),
            final(self).idle_timeout_sec() == old(self).idle_timeout_sec(),
            created matches Ok(token) ==> {
                &&& !old(self).sessions().contains_key(token)
                &&& token < TOKEN_MODULUS
                &&& final(self).sessions().dom() == old(self).sessions().dom().insert(token)
                &&& exists|now: i64|
                    final(self).sessions() == old(self).sessions().insert(
                        token,
                        #[trigger] GamePeer::pending(token, account_id, now),
                    )
            },
            created matches Err(e) ==> {
                &&& final(self).sessions() == old(self).sessions()
                &&& (e == GatewayError::DuplicateToken || e == GatewayError::ClockOutOfRange)
            },
    ;

    /// Binds the session under `token` to `proxy_id` as of the clock's
    /// reading, where a session owns `token` and belongs to `account_id`.
    fn connect_token(&mut self, proxy_id: usize, account_id: i32, token: u64) -> (bound: Result<
        (),
        GatewayError,
    >)
        requires
            old(self).inv(),
        ensures
            final(self).inv(),
            final(self).idle_timeout_sec() == old(self).idle_timeout_sec(),
            spec_authorize(old(self).sessions(), account_id, token) matches Err(e) ==> bound
                == Err::<(), GatewayError>(e),
            spec_authorize(old(self).sessions(), account_id, token) is Ok ==> bound is Ok || bound
                == Err::<(), GatewayError>(GatewayError::ClockOutOfRange),
            bound is Ok ==> exists|now: i64|
                final(self).sessions() == #[trigger] spec_bind(
                    old(self).sessions(),
                    proxy_id,
                    account_id,
                    token,
                    now,
                ),
            bound is Err ==> final(self).sessions() == old(self).sessions(),
    ;

    /// The status of each session of `account_id` as of the clock's reading,
    /// from the most recently active to the longest idle.
    fn get_token_state_by_account_id(&self, account_id: i32) -> (listed: Result<
        Vec<GetTokenResult>,
        GatewayError,
    >)
        requires
            self.inv(),
        ensures
            listed matches Ok(list) ==> sorted_by_idle(list@) && exists|now: i64| #[trigger]
                lists_statuses(list@, self.sessions(), account_id, now, self.idle_timeout_sec()),
            listed matches Err(e) ==> e == GatewayError::ClockOutOfRange,
    ;

    /// Marks the session under `token` as not connected.
    fn disconnect_token(&mut self, token: u64) -> (marked: Option<GamePeer>)
        requires
            old(self).inv(),
        ensures
            final(self).inv(),
            final(self).idle_timeout_sec() == old(self).idle_timeout_sec(),
            final(self).sessions() == spec_disconnect(old(self).sessions(), token),
            marked == (if old(self).sessions().contains_key(token) {
                Some(GamePeer { is_disconnect: true, ..old(self).sessions()[token] })
            } else {
                None
            }),
    ;

    /// Sweeps as of the clock's reading.
    fn cleans(&mut self) -> (swept: Result<Vec<GamePeer>, GatewayError>)
        requires
            old(self).inv(),
        ensures
            final(self).inv(),
            final(self).idle_timeout_sec() == old(self).idle_timeout_sec(),
            swept matches Ok(removed) ==> exists|now: i64|
                {
                    &&& final(self).sessions() == #[trigger] spec_sweep(
                        old(self).sessions(),
                        now,
                        idle_threshold_ticks(old(self).idle_timeout_sec()),
                    )
                    &&& lists_exactly(
                        removed@,
                        old(self).sessions(),
                        expired_tokens(
                            old(self).sessions(),
                            now,
                            idle_threshold_ticks(old(self).idle_timeout_sec()),
                        ),
                    )
                },
            swept matches Err(e) ==> e == GatewayError::ClockOutOfRange && final(self).sessions()
                == old(self).sessions(),
    ;

    /// Marks every session whose proxy id is `proxy_id` as not connected.
    fn disconnect_for_proxy(&mut self, proxy_id: usize) -> (marked: Vec<GamePeer>)
        requires
            old(self).inv(),
        ensures
            final(self).inv(),
            final(self).idle_timeout_sec() == old(self).idle_timeout_sec(),
            final(self).sessions() == spec_disconnect_for_proxy(old(self).sessions(), proxy_id),
            lists_exactly(
                marked@,
                final(self).sessions(),
                proxy_tokens(old(self).sessions(), proxy_id),
            ),
    ;

    /// Removes every session of `account_id`.
    fn clean_by_account_id(&mut self, account_id: i32) -> (removed: Vec<GamePeer>)
        requires
            old(self).inv(),
        ensures
            final(self).inv(),
            final(self).idle_timeout_sec() == old(self).idle_timeout_sec(),
            final(self).sessions() == spec_purge_account(old(self).sessions(), account_id),
            lists_exactly(
                removed@,
                old(self).sessions(),
                account_tokens(old(self).sessions(), account_id),
            ),
    ;

    /// Removes every session.
    fn clear_all(&mut self) -> (removed: Vec<GamePeer>)
        requires
            old(self).inv(),
        ensures
            final(self).inv(),
            final(self).idle_timeout_sec() == old(self).idle_timeout_sec(),
            final(self).sessions() == Sessions::empty(),
            lists_exactly(removed@, old(self).sessions(), old(self).sessions().dom()),
    ;
}

/// A session registry that also hands out the sessions themselves.
pub trait ILinkPeerManagerPeer: ILinkPeerManager {
    /// The session that owns `token`.
    fn get_peer(&self, token: u64) -> (peer: Option<GamePeer>)
        requires
            self.inv(),
        ensures
            peer == (if self.sessions().contains_key(token) {
                Some(self.sessions()[token])
            } else {
                None
            }),
    ;

    /// The sessions of `account_id`; one account may hold several.
    fn get_peer_by_account_id(&self, account_id: i32) -> (list: Vec<GamePeer>)
        requires
            self.inv(),
        ensures
            lists_exactly(list@, self.sessions(), account_tokens(self.sessions(), account_id)),
    ;

    /// Every live session.
    fn get_all_peer(&self) -> (list: Vec<GamePeer>)
        requires
            self.inv(),
        ensures
            lists_exactly(list@, self.sessions(), self.sessions().dom()),
    ;
}

impl ILinkPeerManager for LinkPeerManager {
    open spec fn sessions(&self) -> Sessions {
        self@
    }

    open spec fn idle_timeout_sec(&self) -> i64 {
        self.timeout_sec()
    }

    open spec fn inv(&self) -> bool {
        self.wf()
    }

    fn create_peer(&mut self, account_id: i32) -> (created: Result<u64, GatewayError>) {
        LinkPeerManager::create_peer(self, account_id)
    }

    fn connect_token(&mut self, proxy_id: usize, account_id: i32, token: u64) -> (bound: Result<
        (),
        GatewayError,
    >) {
        let bound = self.peer_connect(proxy_id, account_id, token);
        proof {
            if bound is Ok {
                let now = choose|now: i64|
                    self@ == #[trigger] spec_bind(old(self)@, proxy_id, account_id, token, now);
                assert(self.sessions() == spec_bind(
                    old(self).sessions(),
                    proxy_id,
                    account_id,
                    token,
                    now,
                ));
            }
        }
        bound
    }

    fn get_token_state_by_account_id(&self, account_id: i32) -> (listed: Result<
        Vec<GetTokenResult>,
        GatewayError,
    >) {
        let listed = LinkPeerManager::get_token_state_by_account_id(self, account_id);
        proof {
            if let Ok(ref list) = listed {
                let now = choose|now: i64| #[trigger]
                    lists_statuses(list@, self@, account_id, now, self.timeout_sec());
                assert(lists_statuses(
                    list@,
                    self.sessions(),
                    account_id,
                    now,
                    self.idle_timeout_sec(),
                ));
            }
        }
        listed
    }

    fn disconnect_token(&mut self, token: u64) -> (marked: Option<GamePeer>) {
        self.disconnect(token)
    }

    fn cleans(&mut self) -> (swept: Result<Vec<GamePeer>, GatewayError>) {
        let swept = LinkPeerManager::cleans(self);
        proof {
            if let Ok(ref removed) = swept {
                let threshold = idle_threshold_ticks(old(self).timeout_sec());
                let now = choose|now: i64|
                    {
                        &&& self@ == #[trigger] spec_sweep(old(self)@, now, threshold)
                        &&& lists_exactly(
                            removed@,
                            old(self)@,
                            expired_tokens(old(self)@, now, threshold),
                        )
                    };
                assert(self.sessions() == spec_sweep(
                    old(self).sessions(),
                    now,
                    idle_threshold_ticks(old(self).idle_timeout_sec()),
                ));
            }
        }
        swept
    }

    fn disconnect_for_proxy(&mut self, proxy_id: usize) -> (marked: Vec<GamePeer>) {
        LinkPeerManager::disconnect_for_proxy(self, proxy_id)
    }

    fn clean_by_account_id(&mut self, account_id: i32) -> (removed: Vec<GamePeer>) {
        LinkPeerManager::clean_by_account_id(self, account_id)
    }

    fn clear_all(&mut self) -> (removed: Vec<GamePeer>) {
        LinkPeerManager::clear_all(self)
    }
}

impl ILinkPeerManagerPeer for LinkPeerManager {
    fn get_peer(&self, token: u64) -> (peer: Option<GamePeer>) {
        LinkPeerManager::get_peer(self, token)
    }

    fn get_peer_by_account_id(&self, account_id: i32) -> (list: Vec<GamePeer>) {
        LinkPeerManager::get_peer_by_account_id(self, account_id)
    }

    fn get_all_peer(&self) -> (list: Vec<GamePeer>) {
        LinkPeerManager::get_all_peer(self)
    }
}

} // verus!
