use vstd::prelude::*;
use crate::peer::GamePeer;
use crate::services::peers_model::{
    Sessions, sessions_wf, spec_create, can_bind, spec_bind, spec_touch, spec_disconnect,
    spec_disconnect_for_proxy, spec_sweep, spec_purge_account,
};

verus! {

/// Whether two records are of the same session: they carry the same token
/// and the same account.
pub open spec fn same_identity(a: GamePeer, b: GamePeer) -> bool {
    a.token == b.token && a.account_id == b.account_id
}

/// One request to create a session: the token drawn, the account, and the
/// time of the request.
pub struct CreateRequest {
    pub token: u64,
    pub account_id: i32,
    pub now: i64,
}

/// The registry after the requests in `requests` were served in order. A
/// request whose token is taken is refused and changes nothing.
pub open spec fn spec_create_all(m: Sessions, requests: Seq<CreateRequest>) -> Sessions
    decreases requests.len(),
{
    if requests.len() == 0 {
        m
    } else {
        let last = requests.last();
        spec_create(
            spec_create_all(m, requests.drop_last()),
            last.token,
            last.account_id,
            last.now,
        )
    }
}

/// In a well-formed registry two different live sessions never carry the
/// same token.
pub proof fn lemma_tokens_are_unique(m: Sessions, a: u64, b: u64)
    requires
        sessions_wf(m),
        m.contains_key(a),
        m.contains_key(b),
        a != b,
    ensures
        m[a].token != m[b].token,
{
}

/// Every operation of the registry keeps it well formed.
pub proof fn lemma_operations_keep_wf(
    m: Sessions,
    token: u64,
    account_id: i32,
    proxy_id: usize,
    now: i64,
    idle_threshold: int,
)
    requires
        sessions_wf(m),
    ensures
        sessions_wf(spec_create(m, token, account_id, now)),
        sessions_wf(spec_bind(m, proxy_id, account_id, token, now)),
        sessions_wf(spec_touch(m, token, now)),
        sessions_wf(spec_disconnect(m, token)),
        sessions_wf(spec_disconnect_for_proxy(m, proxy_id)),
        sessions_wf(spec_sweep(m, now, idle_threshold)),
        sessions_wf(spec_purge_account(m, account_id)),
{
    assert(spec_disconnect_for_proxy(m, proxy_id).dom() =~= m.dom());
    let kept = spec_sweep(m, now, idle_threshold);
    assert(kept.dom().subset_of(m.dom()));
    vstd::set_lib::lemma_len_subset(kept.dom(), m.dom());
    let others = spec_purge_account(m, account_id);
    assert(others.dom().subset_of(m.dom()));
    vstd::set_lib::lemma_len_subset(others.dom(), m.dom());
}

/// Whatever sequence of create requests is served, starting from a
/// well-formed registry, no two live sessions share a token afterwards: the
/// registry is still well formed, every session that was there is untouched,
/// and two different tokens lead to sessions that carry different tokens.
pub proof fn lemma_creates_keep_tokens_unique(m: Sessions, requests: Seq<CreateRequest>)
    requires
        sessions_wf(m),
    ensures
        sessions_wf(spec_create_all(m, requests)),
        forall|t: u64| #[trigger]
            m.contains_key(t) ==> spec_create_all(m, requests).contains_key(t) && spec_create_all(
                m,
                requests,
            )[t] == m[t],
        forall|a: u64, b: u64|
            #![trigger spec_create_all(m, requests)[a], spec_create_all(m, requests)[b]]
            spec_create_all(m, requests).contains_key(a) && spec_create_all(
                m,
                requests,
            ).contains_key(b) && a != b ==> spec_create_all(m, requests)[a].token
                != spec_create_all(m, requests)[b].token,
    decreases requests.len(),
{
    if requests.len() > 0 {
        let last = requests.last();
        let before = spec_create_all(m, requests.drop_last());
        lemma_creates_keep_tokens_unique(m, requests.drop_last());
        lemma_operations_keep_wf(before, last.token, last.account_id, 0, last.now, 0);
    }
}

/// Binding changes the registry exactly when a session owns the token and
/// belongs to the account given: then that session is bound to the proxy,
/// connected and last active at the time of the bind, and nothing else
/// changes at all. Otherwise the registry is as it was.
pub proof fn lemma_bind_needs_token_and_account(
    m: Sessions,
    proxy_id: usize,
    account_id: i32,
    token: u64,
    now: i64,
)
    ensures
        can_bind(m, account_id, token) <==> m.contains_key(token) && m[token].account_id
            == account_id,
        !can_bind(m, account_id, token) ==> spec_bind(m, proxy_id, account_id, token, now) == m,
        can_bind(m, account_id, token) ==> {
            let after = spec_bind(m, proxy_id, account_id, token, now);
            &&& after.dom() == m.dom()
            &&& after[token].proxy_id == proxy_id
            &&& !after[token].is_disconnect
            &&& after[token].last_net_time == now
            &&& after[token].token == m[token].token
            &&& after[token].account_id == m[token].account_id
            &&& forall|t: u64| t != token && m.contains_key(t) ==> #[trigger] after[t] == m[t]
        },
{
    if can_bind(m, account_id, token) {
        assert(spec_bind(m, proxy_id, account_id, token, now).dom() =~= m.dom());
    }
}

/// A bind refreshes liveness and never moves it back: where the bind takes
/// effect at a time not before the session's last activity, the session is
/// last active at the time of the bind, which is not before what it was.
pub proof fn lemma_bind_refreshes_liveness(
    m: Sessions,
    proxy_id: usize,
    account_id: i32,
    token: u64,
    now: i64,
)
    requires
        can_bind(m, account_id, token),
        now >= m[token].last_net_time,
    ensures
        spec_bind(m, proxy_id, account_id, token, now)[token].last_net_time == now,
        spec_bind(m, proxy_id, account_id, token, now)[token].last_net_time
            >= m[token].last_net_time,
        spec_bind(m, proxy_id, account_id, token, now)[token].idle_at(now) == 0,
{
}

/// Disconnecting a token twice in a row leaves the registry as the first
/// disconnect left it, with the session, if there is one, not connected.
pub proof fn lemma_disconnect_is_idempotent(m: Sessions, token: u64)
    ensures
        spec_disconnect(spec_disconnect(m, token), token) == spec_disconnect(m, token),
        spec_disconnect(m, token).dom() == m.dom(),
        m.contains_key(token) ==> spec_disconnect(m, token)[token].is_disconnect,
{
    let once = spec_disconnect(m, token);
    assert(once.dom() =~= m.dom());
    assert(spec_disconnect(once, token) =~= once);
}

/// After a sweep no session is left that was not connected and had been idle
/// for the threshold or longer; every other session, and so every connected
/// one however long idle, is still there unchanged.
pub proof fn lemma_sweep_reclaims_idle_sessions(
    m: Sessions,
    now: i64,
    idle_threshold: int,
    token: u64,
)
    requires
        m.contains_key(token),
    ensures
        m[token].is_disconnect && now - m[token].last_net_time >= idle_threshold ==> !spec_sweep(
            m,
            now,
            idle_threshold,
        ).contains_key(token),
        !m[token].is_disconnect ==> spec_sweep(m, now, idle_threshold).contains_key(token)
            && spec_sweep(m, now, idle_threshold)[token] == m[token],
        m[token].is_disconnect && now - m[token].last_net_time < idle_threshold ==> spec_sweep(
            m,
            now,
            idle_threshold,
        ).contains_key(token) && spec_sweep(m, now, idle_threshold)[token] == m[token],
{
}

/// After the sessions of a proxy are torn down, every session that carried
/// the proxy's id is not connected and otherwise as it was, every session
/// of another proxy is exactly as it was, and no session has left the
/// registry.
pub proof fn lemma_proxy_teardown_cascades(m: Sessions, proxy_id: usize, token: u64)
    requires
        m.contains_key(token),
    ensures
        spec_disconnect_for_proxy(m, proxy_id).dom() == m.dom(),
        m[token].proxy_id == proxy_id ==> spec_disconnect_for_proxy(m, proxy_id)[token] == (
        GamePeer { is_disconnect: true, ..m[token] }),
        m[token].proxy_id == proxy_id ==> spec_disconnect_for_proxy(
            m,
            proxy_id,
        )[token].is_disconnect,
        m[token].proxy_id != proxy_id ==> spec_disconnect_for_proxy(m, proxy_id)[token] == m[token],
{
    assert(spec_disconnect_for_proxy(m, proxy_id).dom() =~= m.dom());
}

/// After an account is purged none of its sessions remains, connected or
/// not, and the sessions of every other account are exactly as they were.
pub proof fn lemma_purge_removes_the_account(m: Sessions, account_id: i32)
    ensures
        forall|t: u64| #[trigger]
            spec_purge_account(m, account_id).contains_key(t) ==> spec_purge_account(
                m,
                account_id,
            )[t].account_id != account_id,
        forall|t: u64| #[trigger]
            m.contains_key(t) && m[t].account_id != account_id ==> spec_purge_account(
                m,
                account_id,
            ).contains_key(t) && spec_purge_account(m, account_id)[t] == m[t],
        forall|t: u64| #[trigger]
            m.contains_key(t) && m[t].account_id == account_id ==> !spec_purge_account(
                m,
                account_id,
            ).contains_key(t),
{
}

/// A session's token and account are fixed for its lifetime: whatever
/// operation is carried out, a session that was there before and is still
/// there carries the token and the account that it had. No operation but a
/// create brings a session in, and a create brings in at most the one under
/// its token.
pub proof fn lemma_identity_is_fixed(
    m: Sessions,
    token: u64,
    account_id: i32,
    proxy_id: usize,
    now: i64,
    idle_threshold: int,
    t: u64,
)
    requires
        m.contains_key(t),
    ensures
        spec_create(m, token, account_id, now)[t] == m[t],
        spec_create(m, token, account_id, now).dom().subset_of(m.dom().insert(token)),
        same_identity(spec_bind(m, proxy_id, account_id, token, now)[t], m[t]),
        spec_bind(m, proxy_id, account_id, token, now).dom() == m.dom(),
        same_identity(spec_touch(m, token, now)[t], m[t]),
        spec_touch(m, token, now).dom() == m.dom(),
        same_identity(spec_disconnect(m, token)[t], m[t]),
        spec_disconnect(m, token).dom() == m.dom(),
        same_identity(spec_disconnect_for_proxy(m, proxy_id)[t], m[t]),
        spec_disconnect_for_proxy(m, proxy_id).dom() == m.dom(),
        spec_sweep(m, now, idle_threshold).contains_key(t) ==> spec_sweep(
            m,
            now,
            idle_threshold,
        )[t] == m[t],
        spec_sweep(m, now, idle_threshold).dom().subset_of(m.dom()),
        spec_purge_account(m, account_id).contains_key(t) ==> spec_purge_account(
            m,
            account_id,
        )[t] == m[t],
        spec_purge_account(m, account_id).dom().subset_of(m.dom()),
{
    assert(spec_bind(m, proxy_id, account_id, token, now).dom() =~= m.dom());
    assert(spec_touch(m, token, now).dom() =~= m.dom());
    assert(spec_disconnect(m, token).dom() =~= m.dom());
    assert(spec_disconnect_for_proxy(m, proxy_id).dom() =~= m.dom());
}

} // verus!
