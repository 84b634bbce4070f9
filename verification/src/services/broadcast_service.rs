use vstd::prelude::*;
use crate::services::proxy_service::{Links, ProxyLink, ProxyService, lists_links};

verus! {

/// Whom a broadcast is for.
#[derive(Clone, Copy, Debug, PartialEq, Eq, Structural)]
pub enum BroadcastTarget {
    /// Every connection of every user.
    AllUsers,
    /// Every connection of one account.
    Account { account_id: i32 },
    /// Every connection on one server.
    Server { server_id: i32 },
    /// Every connection of one account on one server.
    ServerAndAccount { server_id: i32, account_id: i32 },
}

/// One one-way call of a fanout: the proxy to call, the transport session
/// to reach it on, and whom the proxy is to pass the payload to.
#[derive(Clone, Copy, Debug, PartialEq, Eq, Structural)]
pub struct BroadcastCall {
    pub proxy_id: usize,
    pub session_id: i64,
    pub target: BroadcastTarget,
}

/// `calls` holds one call for each link of `m`, each for `target`, and
/// nothing else.
pub open spec fn fans_out(calls: Seq<BroadcastCall>, m: Links, target: BroadcastTarget) -> bool {
    &&& calls.len() == m.len()
    &&& forall|i: int|
        0 <= i < calls.len() ==> {
            &&& m.contains_key(#[trigger] calls[i].proxy_id)
            &&& m[calls[i].proxy_id] == calls[i].session_id
            &&& calls[i].target == target
        }
    &&& forall|i: int, j: int|
        0 <= i < j < calls.len() ==> (#[trigger] calls[i]).proxy_id != (#[trigger] calls[j]).proxy_id
    &&& forall|p: usize|
        m.contains_key(p) ==> exists|i: int|
            0 <= i < calls.len() && #[trigger] calls[i].proxy_id == p
}

/// The server id that this gateway's own broadcasts name.
pub const THIS_SERVER: i32 = 0;

/// Plans the fanout of a payload to the registered proxies. The calls
/// themselves are the transport's to make; one that fails does not hold up
/// the others.
pub struct BroadcastService;

impl BroadcastService {
    pub fn new() -> BroadcastService {
        BroadcastService
    }

    /// One call to every proxy that is registered now, each for `target`.
    pub fn fan_out(&self, proxies: &ProxyService, target: BroadcastTarget) -> (calls: Vec<
        BroadcastCall,
    >)
        requires
            proxies.wf(),
        ensures
            fans_out(calls@, proxies@, target),
    {
        let links: Vec<ProxyLink> = proxies.get_all();
        let mut calls: Vec<BroadcastCall> = Vec::new();
        let mut i: usize = 0;
        while i < links.len()
            invariant
                0 <= i <= links.len(),
                lists_links(links@, proxies@),
                calls.len() == i,
                forall|k: int|
                    0 <= k < i ==> #[trigger] calls[k] == (BroadcastCall {
                        proxy_id: links[k].proxy_id,
                        session_id: links[k].session_id,
                        target,
                    }),
            decreases links.len() - i,
        {
            let link: ProxyLink = links[i];
            calls.push(
                BroadcastCall { proxy_id: link.proxy_id, session_id: link.session_id, target },
            );
            i += 1;
        }
        proof {
            assert forall|k: int| 0 <= k < calls.len() implies {
                &&& proxies@.contains_key(#[trigger] calls[k].proxy_id)
                &&& proxies@[calls[k].proxy_id] == calls[k].session_id
                &&& calls[k].target == target
            } by {
                assert(calls[k].proxy_id == links[k].proxy_id);
            }
            assert forall|k: int, l: int| 0 <= k < l < calls.len() implies (
            #[trigger] calls[k]).proxy_id != (#[trigger] calls[l]).proxy_id by {
                assert(links[k].proxy_id != links[l].proxy_id);
            }
            assert forall|p: usize| proxies@.contains_key(p) implies exists|k: int|
                0 <= k < calls.len() && #[trigger] calls[k].proxy_id == p by {
                let k = choose|k: int| 0 <= k < links.len() && #[trigger] links[k].proxy_id == p;
                assert(calls[k].proxy_id == p);
            }
        }
        calls
    }

    /// To every connection of `account_id`, wherever it is.
    pub fn broadcast_to_account_id(&self, proxies: &ProxyService, account_id: i32) -> (calls: Vec<
        BroadcastCall,
    >)
        requires
            proxies.wf(),
        ensures
            fans_out(calls@, proxies@, BroadcastTarget::Account { account_id }),
    {
        self.fan_out(proxies, BroadcastTarget::Account { account_id })
    }

    /// To every connection of every user.
    pub fn broadcast_to_all_users(&self, proxies: &ProxyService) -> (calls: Vec<BroadcastCall>)
        requires
            proxies.wf(),
        ensures
            fans_out(calls@, proxies@, BroadcastTarget::AllUsers),
    {
        self.fan_out(proxies, BroadcastTarget::AllUsers)
    }

    /// To every connection on this server.
    pub fn broadcast_to_server_id(&self, proxies: &ProxyService) -> (calls: Vec<BroadcastCall>)
        requires
            proxies.wf(),
        ensures
            fans_out(calls@, proxies@, BroadcastTarget::Server { server_id: THIS_SERVER }),
    {
        self.fan_out(proxies, BroadcastTarget::Server { server_id: THIS_SERVER })
    }

    /// To every connection of `account_id` on this server.
    pub fn broadcast_to_server_id_and_account_id(
        &self,
        proxies: &ProxyService,
        account_id: i32,
    ) -> (calls: Vec<BroadcastCall>)
        requires
            proxies.wf(),
        ensures
            fans_out(
                calls@,
                proxies@,
                BroadcastTarget::ServerAndAccount { server_id: THIS_SERVER, account_id },
            ),
    {
        self.fan_out(
            proxies,
            BroadcastTarget::ServerAndAccount { server_id: THIS_SERVER, account_id },
        )
    }
}

} // verus!
