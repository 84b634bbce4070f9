pub mod interface;

use vstd::prelude::*;
use crate::peer::GamePeer;
use crate::services::peers_model::{Sessions, spec_purge_account, account_tokens, lists_exactly};
use crate::services::peers_service::ILinkPeerManager;

verus! {

/// What the backend link reported.
#[derive(Clone, Copy, Debug, PartialEq, Eq, Structural)]
pub enum MasterEvent {
    /// A lookup of `account_id` was answered; `found` says whether the
    /// backend knows the account.
    AccountLookup { account_id: i32, found: bool },
    /// A call on behalf of `account_id` ended; `ok` says whether it
    /// succeeded.
    AccountCall { account_id: i32, ok: bool },
    /// The link to the backend was lost.
    LinkLost,
}

/// Which sessions lose their standing.
#[derive(Clone, Copy, Debug, PartialEq, Eq, Structural)]
pub enum Purge {
    Nothing,
    Account { account_id: i32 },
    Everything,
}

/// The backend is the one authority on accounts: an account that it does
/// not know, or a call on an account's behalf that failed, costs that
/// account its sessions, and the loss of the link costs every session.
pub open spec fn spec_purge_for(event: MasterEvent) -> Purge {
    match event {
        MasterEvent::AccountLookup { account_id, found } => if found {
            Purge::Nothing
        } else {
            Purge::Account { account_id }
        },
        MasterEvent::AccountCall { account_id, ok } => if ok {
            Purge::Nothing
        } else {
            Purge::Account { account_id }
        },
        MasterEvent::LinkLost => Purge::Everything,
    }
}

/// The registry after `purge`.
pub open spec fn spec_purge(m: Sessions, purge: Purge) -> Sessions {
    match purge {
        Purge::Nothing => m,
        Purge::Account { account_id } => spec_purge_account(m, account_id),
        Purge::Everything => Sessions::empty(),
    }
}

/// The tokens of the sessions that `purge` removes.
pub open spec fn purged_tokens(m: Sessions, purge: Purge) -> Set<u64> {
    match purge {
        Purge::Nothing => Set::empty(),
        Purge::Account { account_id } => account_tokens(m, account_id),
        Purge::Everything => m.dom(),
    }
}

pub fn purge_for(event: MasterEvent) -> (purge: Purge)
    ensures
        purge == spec_purge_for(event),
{
    match event {
        MasterEvent::AccountLookup { account_id, found } => if found {
            Purge::Nothing
        } else {
            Purge::Account { account_id }
        },
        MasterEvent::AccountCall { account_id, ok } => if ok {
            Purge::Nothing
        } else {
            Purge::Account { account_id }
        },
        MasterEvent::LinkLost => Purge::Everything,
    }
}

/// Carries out in the registry what `event` calls for, and returns the
/// sessions removed: a clean-up notification is due for each. The outcome
/// of the backend call itself is the caller's to pass on.
pub fn on_master_event<P: ILinkPeerManager>(peers: &mut P, event: MasterEvent) -> (removed: Vec<GamePeer>)
    requires
        old(peers).inv(),
    ensures
        final(peers).inv(),
        final(peers).idle_timeout_sec() == old(peers).idle_timeout_sec(),
        final(peers).sessions() == spec_purge(old(peers).sessions(), spec_purge_for(event)),
        lists_exactly(removed@, old(peers).sessions(), purged_tokens(old(peers).sessions(), spec_purge_for(event))),
{
    match purge_for(event) {
        Purge::Nothing => Vec::new(),
        Purge::Account { account_id } => peers.clean_by_account_id(account_id),
        Purge::Everything => peers.clear_all(),
    }
}

/// The backend's liveness probe is answered with the time it carried.
pub fn ping(time: i64) -> (echo: i64)
    ensures
        echo == time,
{
    time
}

} // verus!
