use vstd::prelude::*;
use std::collections::HashMap;
use vstd::std_specs::iter::IteratorSpec;
use crate::error::GatewayError;

verus! {

/// One entry of the proxy link table: a proxy and the transport session
/// that is its connection to the gateway.
#[derive(Clone, Copy, Debug, PartialEq, Eq, Structural)]
pub struct ProxyLink {
    pub proxy_id: usize,
    pub session_id: i64,
}

/// The link table's state: the transport session of each registered proxy.
pub type Links = Map<usize, i64>;

/// Zero is no proxy's id, and there are finitely many links.
pub open spec fn links_wf(m: Links) -> bool {
    m.dom().finite() && !m.contains_key(0)
}

/// `list` holds every link of `m` once, in some order, and nothing else.
pub open spec fn lists_links(list: Seq<ProxyLink>, m: Links) -> bool {
    &&& forall|i: int|
        0 <= i < list.len() ==> m.contains_key(#[trigger] list[i].proxy_id) && m[list[i].proxy_id]
            == list[i].session_id
    &&& forall|i: int, j: int|
        0 <= i < j < list.len() ==> (#[trigger] list[i]).proxy_id != (#[trigger] list[j]).proxy_id
    &&& forall|p: usize|
        m.contains_key(p) ==> exists|i: int| 0 <= i < list.len() && #[trigger] list[i].proxy_id == p
}

/// The proxy link table: at most one live link per proxy id.
pub struct ProxyService {
    proxy_map: HashMap<usize, i64>,
}

impl View for ProxyService {
    type V = Links;

    closed spec fn view(&self) -> Links {
        self.proxy_map@
    }
}

impl Default for ProxyService {
    fn default() -> (table: ProxyService)
        ensures
            table@ == Links::empty(),
            table.wf(),
    {
        ProxyService::new()
    }
}

impl ProxyService {
    /// The table's invariant. `new` establishes it and every method keeps it.
    pub open spec fn wf(&self) -> bool {
        links_wf(self@)
    }

    /// An empty table.
    pub fn new() -> (table: ProxyService)
        ensures
            table@ == Links::empty(),
            table.wf(),
    {
        ProxyService { proxy_map: HashMap::new() }
    }

    /// Registers the link of `proxy_id`, in place of any earlier one.
    ///
    /// Fails with `InvalidProxyId`, changing nothing, exactly when
    /// `proxy_id` is zero.
    pub fn add(&mut self, proxy_id: usize, session_id: i64) -> (added: Result<(), GatewayError>)
        requires
            old(self).wf(),
        ensures
            final(self).wf(),
            proxy_id == 0 <==> added == Err::<(), GatewayError>(GatewayError::InvalidProxyId),
            proxy_id != 0 <==> added is Ok,
            proxy_id == 0 ==> final(self)@ == old(self)@,
            proxy_id != 0 ==> final(self)@ == old(self)@.insert(proxy_id, session_id),
    {
        broadcast use vstd::std_specs::hash::group_hash_axioms;
        if proxy_id == 0 {
            return Err(GatewayError::InvalidProxyId);
        }
        self.proxy_map.insert(proxy_id, session_id);
        Ok(())
    }

    /// Removes the link of `proxy_id`, if there is one. The sessions that the
    /// proxy served are the caller's to disconnect.
    pub fn remove(&mut self, proxy_id: usize)
        requires
            old(self).wf(),
        ensures
            final(self).wf(),
            final(self)@ == old(self)@.remove(proxy_id),
    {
        broadcast use vstd::std_specs::hash::group_hash_axioms;
        self.proxy_map.remove(&proxy_id);
    }

    /// The transport session of `proxy_id`, if it is registered.
    pub fn get(&self, proxy_id: usize) -> (session_id: Option<i64>)
        ensures
            session_id == (if self@.contains_key(proxy_id) {
                Some(self@[proxy_id])
            } else {
                None
            }),
    {
        broadcast use vstd::std_specs::hash::group_hash_axioms;
        match self.proxy_map.get(&proxy_id) {
            Some(session_id) => Some(*session_id),
            None => None,
        }
    }

    /// How many proxies are registered.
    pub fn len(&self) -> (count: usize)
        ensures
            count == self@.len(),
    {
        broadcast use vstd::std_specs::hash::group_hash_axioms;
        self.proxy_map.len()
    }

    /// A copy of every link as the table holds it now; later changes to the
    /// table do not reach it.
    pub fn get_all(&self) -> (list: Vec<ProxyLink>)
        requires
            self.wf(),
        ensures
            lists_links(list@, self@),
            list@.len() == self@.len(),
    {
        broadcast use vstd::std_specs::hash::group_hash_axioms;
        let mut keys: Vec<usize> = Vec::new();
        for k in it: self.proxy_map.keys()
            invariant
                keys@ == it.seq().unref().take(it.index() as int),
        {
            keys.push(*k);
        }
        proof {
            let rest = self.proxy_map.keys().remaining();
            assert(keys@ =~= rest.unref());
            assert(rest.unref().to_set() == self.proxy_map@.dom());
            assert(keys@.len() == self@.dom().len());
        }
        let mut list: Vec<ProxyLink> = Vec::new();
        let mut i: usize = 0;
        while i < keys.len()
            invariant
                0 <= i <= keys.len(),
                keys@.no_duplicates(),
                keys@.to_set() == self@.dom(),
                list.len() == i,
                forall|k: int|
                    0 <= k < i ==> (#[trigger] list[k]).proxy_id == keys[k] && list[k].session_id
                        == self@[keys[k]],
            decreases keys.len() - i,
        {
            let proxy_id: usize = keys[i];
            assert(keys@.to_set().contains(proxy_id));
            if let Some(session_id) = self.get(proxy_id) {
                list.push(ProxyLink { proxy_id, session_id });
            }
            i += 1;
        }
        proof {
            assert forall|k: int| 0 <= k < list.len() implies self@.contains_key(
                #[trigger] list[k].proxy_id,
            ) && self@[list[k].proxy_id] == list[k].session_id by {
                assert(keys@.to_set().contains(keys@[k]));
            }
            assert forall|p: usize| self@.contains_key(p) implies exists|k: int|
                0 <= k < list.len() && #[trigger] list[k].proxy_id == p by {
                assert(keys@.to_set().contains(p));
                let k = choose|k: int| 0 <= k < keys@.len() && keys@[k] == p;
                assert(list[k].proxy_id == p);
            }
        }
        list
    }
}

} // verus!
