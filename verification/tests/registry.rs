use session_gateway::controller::{reject, Dispatch, ProxyController};
use session_gateway::error::{GatewayError, TOKEN_ACCOUNT_MISMATCH, TOKEN_NOT_FOUND};
use session_gateway::packers::GetTokenResult;
use session_gateway::peer::GamePeer;
use session_gateway::services::peers_service::{
    token_from_nanos, ILinkPeerManager, ILinkPeerManagerPeer, LinkPeerManager,
};
use session_gateway::services::proxy_service::ProxyService;

const TICKS_PER_SECOND: i64 = 10_000_000;

fn sorted_tokens(list: &[GamePeer]) -> Vec<u64> {
    let mut tokens: Vec<u64> = list.iter().map(|p| p.token).collect();
    tokens.sort();
    tokens
}

#[test]
fn new_registry_is_empty() {
    let peers = LinkPeerManager::new(30);
    assert_eq!(peers.len(), 0);
    assert_eq!(peers.peer_clean_timeout_sec(), 30);
    assert!(peers.tokens().is_empty());
    assert!(peers.get_all_peer().is_empty());
    assert_eq!(peers.get_peer(1), None);
}

#[test]
fn created_session_is_pending() {
    let mut peers = LinkPeerManager::new(30);
    assert_eq!(peers.create_peer_with_token(5, 42, 777), Ok(5));
    assert_eq!(
        peers.get_peer(5),
        Some(GamePeer { token: 5, proxy_id: 0, account_id: 42, is_disconnect: true, last_net_time: 777 })
    );
    assert_eq!(peers.len(), 1);
}

#[test]
fn duplicate_token_is_refused_and_changes_nothing() {
    let mut peers = LinkPeerManager::new(30);
    assert_eq!(peers.create_peer_with_token(5, 42, 777), Ok(5));
    assert_eq!(peers.peer_connect(3, 42, 5), Ok(()));
    let before = peers.get_peer(5);
    assert_eq!(peers.create_peer_with_token(5, 43, 900), Err(GatewayError::DuplicateToken));
    assert_eq!(peers.get_peer(5), before);
    assert_eq!(peers.len(), 1);
}

#[test]
fn no_two_live_sessions_share_a_token() {
    let mut peers = LinkPeerManager::new(30);
    let tokens = [9u64, 3, 9, 1, 3, 3, 7];
    let mut accepted = 0;
    for (i, t) in tokens.iter().enumerate() {
        if peers.create_peer_with_token(*t, i as i32, 0).is_ok() {
            accepted += 1;
        }
    }
    assert_eq!(accepted, 4);
    let mut keys = peers.tokens();
    keys.sort();
    assert_eq!(keys, vec![1, 3, 7, 9]);
    let all = peers.get_all_peer();
    assert_eq!(sorted_tokens(&all), vec![1, 3, 7, 9]);
    for p in all {
        assert_eq!(peers.get_peer(p.token), Some(p));
    }
    // the first request for each token is the one that was served
    assert_eq!(peers.get_peer(9).unwrap().account_id, 0);
    assert_eq!(peers.get_peer(3).unwrap().account_id, 1);
}

#[test]
fn tokens_drawn_from_the_clock_are_unique() {
    let mut peers = LinkPeerManager::new(30);
    let mut drawn: Vec<u64> = Vec::new();
    for _ in 0..200 {
        match peers.create_peer(42) {
            Ok(token) => {
                assert!(token < 100_000_000_000_000);
                assert!(!drawn.contains(&token));
                drawn.push(token);
                let peer = peers.get_peer(token).unwrap();
                assert_eq!(peer.token, token);
                assert_eq!(peer.account_id, 42);
                assert_eq!(peer.proxy_id, 0);
                assert!(peer.is_disconnect);
                assert!(peer.last_net_time > 0);
            }
            Err(e) => assert_eq!(e, GatewayError::DuplicateToken),
        }
    }
    assert!(!drawn.is_empty());
    assert_eq!(peers.len(), drawn.len());
}

#[test]
fn session_created_at_a_reading_takes_token_and_time_from_it() {
    let mut peers = LinkPeerManager::new(30);
    let nanos: i64 = 1_234_567_890_123_456_789;
    assert_eq!(peers.create_peer_at(42, nanos), Ok(67_890_123_456_789));
    assert_eq!(
        peers.get_peer(67_890_123_456_789),
        Some(GamePeer {
            token: 67_890_123_456_789,
            proxy_id: 0,
            account_id: 42,
            is_disconnect: true,
            last_net_time: 12_345_678_901_234_567,
        })
    );
    // a reading that differs only above the fourteenth digit collides
    let before = peers.get_peer(67_890_123_456_789);
    assert_eq!(
        peers.create_peer_at(43, nanos + 100_000_000_000_000),
        Err(GatewayError::DuplicateToken)
    );
    assert_eq!(peers.get_peer(67_890_123_456_789), before);
    assert_eq!(peers.create_peer_at(43, nanos + 1), Ok(67_890_123_456_790));
    assert_eq!(peers.len(), 2);
}

#[test]
fn token_is_the_low_fourteen_digits_of_the_reading() {
    assert_eq!(token_from_nanos(0), 0);
    assert_eq!(token_from_nanos(99_999_999_999_999), 99_999_999_999_999);
    assert_eq!(token_from_nanos(100_000_000_000_000), 0);
    assert_eq!(token_from_nanos(1_700_000_000_123_456_789), 123_456_789 + 1_700_000_000_000_000_000 % 100_000_000_000_000);
    assert_eq!(token_from_nanos(1_234_567_890_123_456_789), 67_890_123_456_789);
    assert_eq!(token_from_nanos(-1), 99_999_999_999_999);
    assert_eq!(token_from_nanos(-100_000_000_000_000), 0);
    assert_eq!(token_from_nanos(i64::MAX), 9_223_372_036_854_775_807 % 100_000_000_000_000);
    assert_eq!(token_from_nanos(i64::MIN), 100_000_000_000_000 - 9_223_372_036_854_775_808u64 % 100_000_000_000_000);
}

#[test]
fn bind_succeeds_only_with_token_and_account() {
    let mut peers = LinkPeerManager::new(30);
    peers.create_peer_with_token(5, 42, 777).unwrap();
    peers.create_peer_with_token(6, 43, 778).unwrap();
    let before5 = peers.get_peer(5);
    let before6 = peers.get_peer(6);

    assert_eq!(peers.peer_connect_at(7, 42, 99, 900), Err(GatewayError::TokenNotFound));
    assert_eq!(peers.get_peer(5), before5);
    assert_eq!(peers.get_peer(6), before6);
    assert_eq!(peers.len(), 2);

    assert_eq!(peers.peer_connect_at(7, 43, 5, 900), Err(GatewayError::AccountMismatch));
    assert_eq!(peers.get_peer(5), before5);
    assert_eq!(peers.get_peer(6), before6);

    assert_eq!(peers.peer_connect_at(7, 42, 5, 900), Ok(()));
    assert_eq!(
        peers.get_peer(5),
        Some(GamePeer { token: 5, proxy_id: 7, account_id: 42, is_disconnect: false, last_net_time: 900 })
    );
    assert_eq!(peers.get_peer(6), before6);

    // a bound session can be bound again, to another proxy
    assert_eq!(peers.peer_connect_at(8, 42, 5, 950), Ok(()));
    assert_eq!(
        peers.get_peer(5),
        Some(GamePeer { token: 5, proxy_id: 8, account_id: 42, is_disconnect: false, last_net_time: 950 })
    );
}

#[test]
fn bind_refreshes_liveness() {
    let mut peers = LinkPeerManager::new(30);
    peers.create_peer_with_token(5, 42, 100).unwrap();
    // just before the bind the session had been idle for the whole timeout
    let at_bind = 100 + 30 * TICKS_PER_SECOND;
    assert_eq!(peers.peer_connect_at(7, 42, 5, at_bind), Ok(()));
    assert_eq!(peers.get_peer(5).unwrap().last_net_time, at_bind);
    peers.disconnect(5);
    // so the timeout runs from the bind, not from the creation
    assert!(peers.cleans_at(at_bind + 30 * TICKS_PER_SECOND - 1).is_empty());
    assert_eq!(peers.cleans_at(at_bind + 30 * TICKS_PER_SECOND).len(), 1);
}

#[test]
fn bind_by_the_clock() {
    let mut peers = LinkPeerManager::new(30);
    peers.create_peer_with_token(5, 42, 100).unwrap();
    let before = peers.get_peer(5);
    assert_eq!(peers.peer_connect(7, 43, 5), Err(GatewayError::AccountMismatch));
    assert_eq!(peers.peer_connect(7, 42, 6), Err(GatewayError::TokenNotFound));
    assert_eq!(peers.get_peer(5), before);
    assert_eq!(peers.peer_connect(7, 42, 5), Ok(()));
    let bound = peers.get_peer(5).unwrap();
    assert_eq!(bound.proxy_id, 7);
    assert!(!bound.is_disconnect);
    assert!(bound.last_net_time > 15_778_368_000_000_000);
}

#[test]
fn unregistered_connection_cannot_bind() {
    let mut proxies = ProxyService::new();
    let mut peers = LinkPeerManager::new(30);
    let mut controller = ProxyController::new(900);
    peers.create_peer_with_token(5, 42, 100).unwrap();
    let pending = peers.get_peer(5);

    assert_eq!(controller.connect_token_at(&mut peers, 42, 5, 200), Err(GatewayError::InvalidProxyId));
    assert_eq!(controller.connect_token(&mut peers, 42, 5), Err(GatewayError::InvalidProxyId));
    assert_eq!(controller.connect_token_at(&mut peers, 42, 6, 200), Err(GatewayError::InvalidProxyId));
    assert_eq!(peers.get_peer(5), pending);

    controller.register_proxy(&mut proxies, 7).unwrap();
    assert_eq!(controller.connect_token_at(&mut peers, 42, 6, 200), Err(GatewayError::TokenNotFound));
    assert_eq!(controller.connect_token_at(&mut peers, 43, 5, 200), Err(GatewayError::AccountMismatch));
    assert_eq!(peers.get_peer(5), pending);
    assert_eq!(controller.connect_token_at(&mut peers, 42, 5, 200), Ok(()));
    assert_eq!(
        peers.get_peer(5),
        Some(GamePeer { token: 5, proxy_id: 7, account_id: 42, is_disconnect: false, last_net_time: 200 })
    );
    assert_eq!(proxies.get(7), Some(900));
}

#[test]
fn disconnect_twice_is_the_same_as_once() {
    let mut peers = LinkPeerManager::new(30);
    peers.create_peer_with_token(5, 42, 777).unwrap();
    peers.peer_connect_at(7, 42, 5, 800).unwrap();
    let expected = GamePeer { token: 5, proxy_id: 7, account_id: 42, is_disconnect: true, last_net_time: 800 };
    assert_eq!(peers.disconnect(5), Some(expected));
    assert_eq!(peers.get_peer(5), Some(expected));
    assert_eq!(peers.disconnect(5), Some(expected));
    assert_eq!(peers.get_peer(5), Some(expected));
    assert_eq!(peers.len(), 1);
}

#[test]
fn disconnect_of_unknown_token_is_no_error() {
    let mut peers = LinkPeerManager::new(30);
    peers.create_peer_with_token(5, 42, 777).unwrap();
    let before = peers.get_peer(5);
    assert_eq!(peers.disconnect(6), None);
    assert_eq!(peers.get_peer(5), before);
    assert_eq!(peers.len(), 1);
}

#[test]
fn sweep_takes_idle_disconnected_sessions_only() {
    let mut peers = LinkPeerManager::new(30);
    // idle for exactly the threshold, for one tick less, and connected
    peers.create_peer_with_token(1, 10, 1_000).unwrap();
    peers.create_peer_with_token(2, 10, 1_001).unwrap();
    peers.create_peer_with_token(3, 10, 0).unwrap();
    peers.peer_connect(7, 10, 3).unwrap();
    let removed = peers.sweep_expired(1_500, 500);
    assert_eq!(sorted_tokens(&removed), vec![1]);
    assert_eq!(removed[0], GamePeer { token: 1, proxy_id: 0, account_id: 10, is_disconnect: true, last_net_time: 1_000 });
    assert_eq!(peers.get_peer(1), None);
    assert!(peers.get_peer(2).is_some());
    assert!(peers.get_peer(3).is_some());

    // a connected session stays however long it has been idle
    let removed = peers.sweep_expired(i64::MAX, 0);
    assert_eq!(sorted_tokens(&removed), vec![2]);
    assert_eq!(peers.get_peer(3).unwrap().proxy_id, 7);
    assert_eq!(peers.len(), 1);

    // once disconnected it goes with the next sweep
    peers.disconnect(3);
    let removed = peers.sweep_expired(i64::MAX, 0);
    assert_eq!(sorted_tokens(&removed), vec![3]);
    assert_eq!(peers.len(), 0);
}

#[test]
fn sweep_does_not_overflow() {
    let mut peers = LinkPeerManager::new(30);
    peers.create_peer_with_token(1, 10, i64::MIN).unwrap();
    peers.create_peer_with_token(2, 10, i64::MAX).unwrap();
    // idle time of 1 is 2^64 - 1 ticks, of 2 it is 0
    let removed = peers.sweep_expired(i64::MAX, i64::MAX);
    assert_eq!(sorted_tokens(&removed), vec![1]);
    // a negative idle time is under every threshold but a negative one
    let removed = peers.sweep_expired(i64::MIN, 0);
    assert!(removed.is_empty());
    // the idle time of 2 is now below every threshold that an i64 holds
    let removed = peers.sweep_expired(i64::MIN, i64::MIN);
    assert!(removed.is_empty());
    peers.create_peer_with_token(3, 10, 0).unwrap();
    let removed = peers.sweep_expired(i64::MIN, i64::MIN);
    assert_eq!(sorted_tokens(&removed), vec![3]);
    assert_eq!(peers.tokens(), vec![2]);
}

#[test]
fn cleans_at_uses_the_configured_timeout() {
    let mut peers = LinkPeerManager::new(2);
    peers.create_peer_with_token(1, 10, 100).unwrap();
    assert!(peers.cleans_at(100 + 2 * TICKS_PER_SECOND - 1).is_empty());
    assert_eq!(peers.len(), 1);
    let removed = peers.cleans_at(100 + 2 * TICKS_PER_SECOND);
    assert_eq!(sorted_tokens(&removed), vec![1]);
    assert_eq!(peers.len(), 0);
}

#[test]
fn cleans_at_with_a_huge_timeout_removes_nothing() {
    let mut peers = LinkPeerManager::new(i64::MAX);
    peers.create_peer_with_token(1, 10, i64::MIN).unwrap();
    assert!(peers.cleans_at(i64::MAX).is_empty());
    assert_eq!(peers.len(), 1);
}

#[test]
fn cleans_reads_the_clock() {
    let mut peers = LinkPeerManager::new(30);
    peers.create_peer_with_token(1, 10, 0).unwrap();
    let fresh = peers.create_peer(10).unwrap();
    peers.create_peer_with_token(3, 10, 0).unwrap();
    peers.peer_connect(7, 10, 3).unwrap();
    let removed = LinkPeerManager::cleans(&mut peers).unwrap();
    assert_eq!(sorted_tokens(&removed), vec![1]);
    assert!(peers.get_peer(fresh).is_some());
    assert!(peers.get_peer(3).is_some());
}

#[test]
fn proxy_teardown_marks_its_sessions_only() {
    let mut peers = LinkPeerManager::new(30);
    for t in 1..=4u64 {
        peers.create_peer_with_token(t, 10, 50).unwrap();
    }
    peers.peer_connect(7, 10, 1).unwrap();
    peers.peer_connect(7, 10, 2).unwrap();
    peers.peer_connect(8, 10, 3).unwrap();
    let before3 = peers.get_peer(3);
    let before4 = peers.get_peer(4);
    let marked = LinkPeerManager::disconnect_for_proxy(&mut peers, 7);
    assert_eq!(sorted_tokens(&marked), vec![1, 2]);
    for p in &marked {
        assert!(p.is_disconnect);
        assert_eq!(p.proxy_id, 7);
        assert_eq!(peers.get_peer(p.token), Some(*p));
    }
    assert_eq!(peers.get_peer(3), before3);
    assert!(!peers.get_peer(3).unwrap().is_disconnect);
    assert_eq!(peers.get_peer(4), before4);
    // no session has left: a quick failover can bind them again
    assert_eq!(peers.len(), 4);
    assert_eq!(peers.peer_connect(8, 10, 1), Ok(()));
    assert!(!peers.get_peer(1).unwrap().is_disconnect);
}

#[test]
fn teardown_reaches_sessions_under_id_zero_too() {
    let mut peers = LinkPeerManager::new(30);
    // a pending session, one bound under id 0, and one bound under id 7
    peers.create_peer_with_token(1, 10, 50).unwrap();
    peers.create_peer_with_token(2, 11, 50).unwrap();
    peers.peer_connect_at(0, 11, 2, 60).unwrap();
    assert!(!peers.get_peer(2).unwrap().is_disconnect);
    peers.create_peer_with_token(3, 10, 50).unwrap();
    peers.peer_connect_at(7, 10, 3, 60).unwrap();
    let pending = peers.get_peer(1);
    let other = peers.get_peer(3);

    let marked = LinkPeerManager::disconnect_for_proxy(&mut peers, 0);
    assert_eq!(sorted_tokens(&marked), vec![1, 2]);
    assert_eq!(
        peers.get_peer(2),
        Some(GamePeer { token: 2, proxy_id: 0, account_id: 11, is_disconnect: true, last_net_time: 60 })
    );
    assert_eq!(peers.get_peer(1), pending);
    assert_eq!(peers.get_peer(3), other);
    assert_eq!(peers.len(), 3);
}

#[test]
fn closing_an_unregistered_connection_changes_nothing() {
    let mut proxies = ProxyService::new();
    let mut peers = LinkPeerManager::new(30);
    peers.create_peer_with_token(1, 10, 50).unwrap();
    peers.create_peer_with_token(3, 10, 50).unwrap();
    peers.peer_connect_at(7, 10, 3, 60).unwrap();
    proxies.add(7, 100).unwrap();
    let before: Vec<Option<GamePeer>> = (1..=3).map(|t| peers.get_peer(t)).collect();

    let controller = ProxyController::new(900);
    assert!(controller.disconnect(&mut proxies, &mut peers).is_empty());
    let after: Vec<Option<GamePeer>> = (1..=3).map(|t| peers.get_peer(t)).collect();
    assert_eq!(after, before);
    assert_eq!(proxies.get(7), Some(100));
}

#[test]
fn proxy_teardown_of_unknown_proxy_changes_nothing() {
    let mut peers = LinkPeerManager::new(30);
    peers.create_peer_with_token(1, 10, 50).unwrap();
    peers.peer_connect(7, 10, 1).unwrap();
    let before = peers.get_peer(1);
    assert!(LinkPeerManager::disconnect_for_proxy(&mut peers, 9).is_empty());
    assert_eq!(peers.get_peer(1), before);
}

#[test]
fn account_purge_removes_connected_sessions_too() {
    let mut peers = LinkPeerManager::new(30);
    peers.create_peer_with_token(1, 10, 50).unwrap();
    peers.create_peer_with_token(2, 10, 60).unwrap();
    peers.create_peer_with_token(3, 11, 70).unwrap();
    peers.peer_connect(7, 10, 2).unwrap();
    let before3 = peers.get_peer(3);
    let removed = LinkPeerManager::clean_by_account_id(&mut peers, 10);
    assert_eq!(sorted_tokens(&removed), vec![1, 2]);
    assert_eq!(peers.get_peer(1), None);
    assert_eq!(peers.get_peer(2), None);
    assert_eq!(peers.get_peer(3), before3);
    assert!(peers.get_peer_by_account_id(10).is_empty());
    assert_eq!(peers.len(), 1);
    assert!(LinkPeerManager::clean_by_account_id(&mut peers, 10).is_empty());
}

#[test]
fn two_sessions_of_one_account_are_purged_and_a_third_is_not() {
    let mut peers = LinkPeerManager::new(30);
    let a = peers.create_peer_with_token(100, 42, 1).unwrap();
    let b = peers.create_peer_with_token(200, 42, 2).unwrap();
    let c = peers.create_peer_with_token(300, 7, 3).unwrap();
    assert_ne!(a, b);
    let untouched = peers.get_peer(c);
    let removed = LinkPeerManager::clean_by_account_id(&mut peers, 42);
    assert_eq!(sorted_tokens(&removed), vec![100, 200]);
    assert_eq!(peers.get_peer(a), None);
    assert_eq!(peers.get_peer(b), None);
    assert_eq!(peers.get_peer(c), untouched);
    assert_eq!(peers.tokens(), vec![300]);
}

#[test]
fn clear_all_empties_the_registry() {
    let mut peers = LinkPeerManager::new(30);
    peers.create_peer_with_token(1, 10, 50).unwrap();
    peers.create_peer_with_token(2, 11, 60).unwrap();
    peers.peer_connect(7, 11, 2).unwrap();
    let removed = LinkPeerManager::clear_all(&mut peers);
    assert_eq!(sorted_tokens(&removed), vec![1, 2]);
    assert_eq!(peers.len(), 0);
    assert!(LinkPeerManager::clear_all(&mut peers).is_empty());
}

#[test]
fn sessions_of_an_account_are_listed() {
    let mut peers = LinkPeerManager::new(30);
    peers.create_peer_with_token(1, 10, 50).unwrap();
    peers.create_peer_with_token(2, 11, 60).unwrap();
    peers.create_peer_with_token(3, 10, 70).unwrap();
    let list = LinkPeerManager::get_peer_by_account_id(&peers, 10);
    assert_eq!(sorted_tokens(&list), vec![1, 3]);
    for p in list {
        assert_eq!(peers.get_peer(p.token), Some(p));
    }
    assert!(LinkPeerManager::get_peer_by_account_id(&peers, 12).is_empty());
}

#[test]
fn status_runs_from_most_recently_active_to_longest_idle() {
    let mut peers = LinkPeerManager::new(30);
    peers.create_peer_with_token(1, 10, 400).unwrap();
    peers.create_peer_with_token(2, 10, 900).unwrap();
    peers.create_peer_with_token(3, 10, 100).unwrap();
    peers.create_peer_with_token(4, 11, 950).unwrap();
    peers.create_peer_with_token(5, 10, 900).unwrap();
    peers.peer_connect_at(7, 10, 3, 100).unwrap();
    let list = peers.token_state_at(10, 1_000);
    assert_eq!(list.len(), 4);
    let idle: Vec<i64> = list.iter().map(|s| s.last_elapsed_time).collect();
    assert_eq!(idle, vec![100, 100, 600, 900]);
    let mut first_two: Vec<u64> = list[..2].iter().map(|s| s.token).collect();
    first_two.sort();
    assert_eq!(first_two, vec![2, 5]);
    assert_eq!(list[2], GetTokenResult { token: 1, last_elapsed_time: 600, timeout: 30, is_wss_connect: false });
    assert_eq!(list[3], GetTokenResult { token: 3, last_elapsed_time: 900, timeout: 30, is_wss_connect: true });
    assert!(peers.token_state_at(12, 1_000).is_empty());
}

#[test]
fn idle_time_in_a_status_is_held_to_the_range() {
    let mut peers = LinkPeerManager::new(30);
    peers.create_peer_with_token(1, 10, i64::MIN).unwrap();
    peers.create_peer_with_token(2, 10, i64::MAX).unwrap();
    let list = peers.token_state_at(10, 10);
    assert_eq!(list.len(), 2);
    assert_eq!(list[0].token, 2);
    assert_eq!(list[0].last_elapsed_time, 10 - i64::MAX);
    assert_eq!(list[1].token, 1);
    assert_eq!(list[1].last_elapsed_time, i64::MAX);
    let list = peers.token_state_at(10, -10);
    assert_eq!(list[0].token, 2);
    assert_eq!(list[0].last_elapsed_time, i64::MIN);
}

#[test]
fn status_by_the_clock() {
    let mut peers = LinkPeerManager::new(30);
    peers.create_peer_with_token(1, 10, 0).unwrap();
    let fresh = peers.create_peer(10).unwrap();
    let list = LinkPeerManager::get_token_state_by_account_id(&peers, 10).unwrap();
    assert_eq!(list.len(), 2);
    assert_eq!(list[0].token, fresh);
    assert!(list[0].last_elapsed_time >= 0);
    assert_eq!(list[1].token, 1);
    assert!(list[0].last_elapsed_time <= list[1].last_elapsed_time);
    assert_eq!(list[1].timeout, 30);
}

#[test]
fn update_peer_refreshes_liveness() {
    let mut peers = LinkPeerManager::new(30);
    peers.create_peer_with_token(1, 10, 50).unwrap();
    assert!(peers.update_peer(1, 80));
    assert_eq!(peers.get_peer(1).unwrap().last_net_time, 80);
    assert!(!peers.update_peer(2, 80));
    assert_eq!(peers.len(), 1);
}

#[test]
fn peer_accessors_and_setters() {
    let mut peer = GamePeer::create(5, 42, 100);
    assert_eq!(peer.get_token(), 5);
    assert_eq!(peer.get_account_id(), 42);
    assert_eq!(peer.get_proxy_id(), 0);
    assert!(peer.is_disconnect());
    peer.set_proxy_id(9);
    peer.set_disconnect(false);
    peer.touch(150);
    assert_eq!(peer, GamePeer { token: 5, proxy_id: 9, account_id: 42, is_disconnect: false, last_net_time: 150 });
    assert_eq!(peer.comparison_time(175), 25);
    assert_eq!(peer.comparison_time(100), -50);
    assert!(!peer.expired_at(1_000, 10));
    peer.set_disconnect(true);
    assert!(peer.expired_at(160, 10));
    assert!(!peer.expired_at(159, 10));
    assert!(peer.update());
    assert!(peer.last_net_time > 150);
}

#[test]
fn session_life_from_token_to_sweep() {
    let mut proxies = ProxyService::new();
    let mut peers = LinkPeerManager::new(30);
    let mut controller = ProxyController::new(900);
    controller.register_proxy(&mut proxies, 7).unwrap();

    let token = controller.create_token(&mut peers, 42).unwrap();
    assert_eq!(controller.connect_token(&mut peers, 42, token), Ok(()));
    let bound = peers.get_peer(token).unwrap();
    assert!(!bound.is_disconnect);
    assert_eq!(bound.proxy_id, 7);

    let refused = controller.authorize_at(&mut peers, 99, token, bound.last_net_time + 5);
    assert_eq!(refused, Err(GatewayError::AccountMismatch));
    assert_eq!(refused.unwrap_err().error_id(), TOKEN_ACCOUNT_MISMATCH);
    assert_eq!(peers.get_peer(token), Some(bound));
    assert_eq!(controller.authorize_at(&mut peers, 42, token, bound.last_net_time + 5), Ok(()));
    let active = peers.get_peer(token).unwrap();
    assert_eq!(active.last_net_time, bound.last_net_time + 5);

    let marked = controller.disconnect(&mut proxies, &mut peers);
    assert_eq!(marked.len(), 1);
    assert_eq!(proxies.get(7), None);
    assert!(peers.get_peer(token).unwrap().is_disconnect);

    let later = active.last_net_time + 30 * TICKS_PER_SECOND + 1;
    let removed = peers.cleans_at(later);
    assert_eq!(sorted_tokens(&removed), vec![token]);
    assert_eq!(peers.get_peer(token), None);

    let gone = controller.authorize_at(&mut peers, 42, token, later);
    assert_eq!(gone, Err(GatewayError::TokenNotFound));
    assert_eq!(gone.unwrap_err().error_id(), TOKEN_NOT_FOUND);
    match controller.func_at(&mut peers, 42, token, later) {
        Ok(Dispatch::Reply(bytes)) => assert_eq!(
            String::from_utf8(bytes).unwrap(),
            "{\"func\":\"GeneralError\",\"context\":{\"error_id\":-1001,\"msg\":\"token not found\"}}"
        ),
        _ => panic!("a request under a reclaimed token must be refused"),
    }
    let reply = String::from_utf8(reject(GatewayError::TokenNotFound).unwrap()).unwrap();
    assert_eq!(reply, "{\"func\":\"GeneralError\",\"context\":{\"error_id\":-1001,\"msg\":\"token not found\"}}");
}

#[test]
fn business_request_is_judged_before_it_is_handled() {
    let mut peers = LinkPeerManager::new(30);
    let controller = ProxyController::new(900);
    peers.create_peer_with_token(1, 42, 5).unwrap();
    let before = peers.get_peer(1);

    match controller.func_at(&mut peers, 99, 1, 50) {
        Ok(Dispatch::Reply(bytes)) => assert_eq!(
            String::from_utf8(bytes).unwrap(),
            "{\"func\":\"GeneralError\",\"context\":{\"error_id\":-1002,\"msg\":\"token belongs to another account\"}}"
        ),
        _ => panic!("a request for another account must be refused"),
    }
    assert_eq!(peers.get_peer(1), before);
    assert!(matches!(controller.func_at(&mut peers, 42, 2, 50), Ok(Dispatch::Reply(_))));
    assert_eq!(peers.get_peer(1), before);

    assert!(matches!(controller.func_at(&mut peers, 42, 1, 50), Ok(Dispatch::Handle)));
    assert_eq!(peers.get_peer(1).unwrap().last_net_time, 50);

    assert!(matches!(controller.func(&mut peers, 99, 1), Ok(Dispatch::Reply(_))));
    assert_eq!(peers.get_peer(1).unwrap().last_net_time, 50);
    assert!(matches!(controller.func(&mut peers, 42, 1), Ok(Dispatch::Handle)));
    assert!(peers.get_peer(1).unwrap().last_net_time > 50);
}

#[test]
fn registry_through_its_interface() {
    fn run<P: ILinkPeerManagerPeer>(peers: &mut P) {
        let token = peers.create_peer(42).unwrap();
        assert_eq!(peers.connect_token(7, 43, token), Err(GatewayError::AccountMismatch));
        assert_eq!(peers.connect_token(7, 42, token), Ok(()));
        assert_eq!(peers.get_peer(token).unwrap().proxy_id, 7);
        assert_eq!(peers.get_peer_by_account_id(42).len(), 1);
        assert_eq!(peers.get_all_peer().len(), 1);
        assert_eq!(peers.get_token_state_by_account_id(42).unwrap().len(), 1);
        assert!(peers.cleans().unwrap().is_empty());
        assert_eq!(peers.disconnect_for_proxy(7).len(), 1);
        assert!(peers.disconnect_token(token).unwrap().is_disconnect);
        assert_eq!(peers.clean_by_account_id(42).len(), 1);
        assert!(peers.clear_all().is_empty());
    }
    let mut peers = LinkPeerManager::new(30);
    run(&mut peers);
    assert_eq!(peers.len(), 0);
}
