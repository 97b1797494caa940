use peer_auth::endpoint::{contains, is_inproc_endpoint};
use peer_auth::{
    AuthorizationAction, AuthorizationActionError, AuthorizationInquisitor, AuthorizationManager,
    AuthorizationState, Network, NetworkError,
};

fn three_peers() -> Network {
    let mut network = Network::new();
    for (peer_id, endpoint) in [("a", "tcp://a"), ("b", "tcp://b"), ("c", "tcp://c")] {
        network
            .add_peer(peer_id.to_string(), endpoint.to_string())
            .expect("identifiers differ");
    }
    network
}

fn ids(names: &[&str]) -> Vec<String> {
    names.iter().map(|name| name.to_string()).collect()
}

#[test]
fn empty_registry() {
    let mut network = Network::new();
    assert_eq!(Vec::<String>::new(), network.peer_ids());
    assert_eq!(None, network.get_peer_endpoint("a"));
    assert_eq!(Err(NetworkError::UnknownPeer), network.remove_connection("a"));
    assert_eq!(
        Err(NetworkError::UnknownPeer),
        network.update_peer_id("a".to_string(), "b".to_string())
    );
    assert_eq!(Vec::<String>::new(), network.peer_ids());
}

#[test]
fn peers_are_listed_in_the_order_they_came() {
    let network = three_peers();
    assert_eq!(ids(&["a", "b", "c"]), network.peer_ids());
    assert_eq!(Some("tcp://b".to_string()), network.get_peer_endpoint("b"));
    assert_eq!(None, network.get_peer_endpoint("d"));
}

#[test]
fn taken_identifier_is_refused() {
    let mut network = three_peers();
    assert_eq!(
        Err(NetworkError::DuplicatePeer),
        network.add_peer("b".to_string(), "tcp://elsewhere".to_string())
    );
    assert_eq!(ids(&["a", "b", "c"]), network.peer_ids());
    assert_eq!(Some("tcp://b".to_string()), network.get_peer_endpoint("b"));
}

#[test]
fn removed_peer_leaves_the_list() {
    let mut network = three_peers();
    assert_eq!(Ok(()), network.remove_connection("b"));
    assert_eq!(ids(&["a", "c"]), network.peer_ids());
    assert_eq!(None, network.get_peer_endpoint("b"));
    assert_eq!(Err(NetworkError::UnknownPeer), network.remove_connection("b"));
    assert_eq!(ids(&["a", "c"]), network.peer_ids());
}

#[test]
fn renamed_peer_keeps_place_and_endpoint() {
    let mut network = three_peers();
    assert_eq!(
        Ok(()),
        network.update_peer_id("b".to_string(), "verified".to_string())
    );
    assert_eq!(ids(&["a", "verified", "c"]), network.peer_ids());
    assert_eq!(
        Some("tcp://b".to_string()),
        network.get_peer_endpoint("verified")
    );
    assert_eq!(None, network.get_peer_endpoint("b"));
}

#[test]
fn renaming_onto_a_taken_name_drops_its_holder() {
    let mut network = three_peers();
    assert_eq!(Ok(()), network.update_peer_id("c".to_string(), "a".to_string()));
    assert_eq!(ids(&["b", "a"]), network.peer_ids());
    assert_eq!(Some("tcp://c".to_string()), network.get_peer_endpoint("a"));

    let mut network = three_peers();
    assert_eq!(Ok(()), network.update_peer_id("a".to_string(), "c".to_string()));
    assert_eq!(ids(&["c", "b"]), network.peer_ids());
    assert_eq!(Some("tcp://a".to_string()), network.get_peer_endpoint("c"));
}

#[test]
fn renaming_to_the_same_name_changes_nothing() {
    let mut network = three_peers();
    assert_eq!(Ok(()), network.update_peer_id("b".to_string(), "b".to_string()));
    assert_eq!(ids(&["a", "b", "c"]), network.peer_ids());
    assert_eq!(Some("tcp://b".to_string()), network.get_peer_endpoint("b"));
}

#[test]
fn renaming_an_unknown_peer_is_refused() {
    let mut network = three_peers();
    assert_eq!(
        Err(NetworkError::UnknownPeer),
        network.update_peer_id("d".to_string(), "a".to_string())
    );
    assert_eq!(ids(&["a", "b", "c"]), network.peer_ids());
    assert_eq!(Some("tcp://a".to_string()), network.get_peer_endpoint("a"));
}

#[test]
fn losses_before_the_manager_listened_are_not_held_against_a_peer() {
    let mut network = three_peers();
    assert_eq!(Ok(()), network.remove_connection("a"));
    assert_eq!(
        Ok(()),
        network.add_peer("a".to_string(), "tcp://a2".to_string())
    );

    let mut manager = AuthorizationManager::new(network, "node-0".to_string());
    assert_eq!(ids(&["b", "c", "a"]), manager.network().peer_ids());
    assert_eq!(
        Ok(AuthorizationState::Connecting),
        manager.next_state("a", AuthorizationAction::Connecting)
    );
    assert_eq!(
        Ok(AuthorizationState::Authorized),
        manager.next_state("a", AuthorizationAction::TrustIdentifying("a".to_string()))
    );
    assert!(manager.is_authorized("a"));
}

#[test]
fn connections_come_and_go_through_the_manager() {
    let mut manager = AuthorizationManager::new(three_peers(), "node-0".to_string());
    assert_eq!(
        Err(NetworkError::DuplicatePeer),
        manager.add_peer("a".to_string(), "tcp://elsewhere".to_string())
    );
    assert_eq!(Ok(()), manager.add_peer("d".to_string(), "tcp://d".to_string()));
    assert_eq!(ids(&["a", "b", "c", "d"]), manager.network().peer_ids());
    assert_eq!(
        Some("tcp://a".to_string()),
        manager.network().get_peer_endpoint("a")
    );

    assert_eq!(Ok(()), manager.remove_connection("b"));
    assert_eq!(Err(NetworkError::UnknownPeer), manager.remove_connection("b"));
    assert_eq!(ids(&["a", "c", "d"]), manager.network().peer_ids());
}

#[test]
fn every_loss_is_collected_by_the_next_operation() {
    let mut manager = AuthorizationManager::new(three_peers(), "node-0".to_string());
    for peer_id in ["a", "b", "c"] {
        assert_eq!(
            Ok(AuthorizationState::Connecting),
            manager.next_state(peer_id, AuthorizationAction::Connecting)
        );
    }
    assert_eq!(Ok(()), manager.remove_connection("c"));
    assert_eq!(Ok(()), manager.remove_connection("a"));

    // One query collects both losses: "a" and "c" start over, "b" goes on.
    assert!(!manager.is_authorized("b"));
    assert_eq!(
        Err(AuthorizationActionError::AlreadyConnecting),
        manager.next_state("b", AuthorizationAction::Connecting)
    );
    assert_eq!(
        Ok(AuthorizationState::Connecting),
        manager.next_state("a", AuthorizationAction::Connecting)
    );
    assert_eq!(
        Ok(AuthorizationState::Connecting),
        manager.next_state("c", AuthorizationAction::Connecting)
    );
}

#[test]
fn substring_search() {
    assert!(contains("inproc://foo", "inproc"));
    assert!(contains("tcp://inproc", "inproc"));
    assert!(contains("xxinprocxx", "inproc"));
    assert!(contains("inproc", "inproc"));
    assert!(contains("anything", ""));
    assert!(contains("", ""));
    assert!(!contains("", "inproc"));
    assert!(!contains("inpro", "inproc"));
    assert!(!contains("inpr0c://foo", "inproc"));
    assert!(!contains("in-proc", "inproc"));
    assert!(!contains("INPROC://foo", "inproc"));
    assert!(contains("ininprocproc", "inproc"));
    assert!(contains("aab", "ab"));
    assert!(!contains("aba", "bb"));
}

#[test]
fn substring_search_counts_characters() {
    assert!(contains("tcp://hôte/inproc", "inproc"));
    assert!(contains("日本語inproc", "inproc"));
    assert!(contains("日本語", "本語"));
    assert!(!contains("日本語", "語本"));
}

#[test]
fn inproc_endpoints() {
    assert!(is_inproc_endpoint("inproc://foo"));
    assert!(is_inproc_endpoint("inproc://ctl"));
    assert!(!is_inproc_endpoint("tcp://127.0.0.1:8044"));
    assert!(!is_inproc_endpoint("tls://h:1"));
    assert!(!is_inproc_endpoint("MockConnection"));
    assert!(!is_inproc_endpoint(""));
}
