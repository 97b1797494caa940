use std::sync::{Arc, Mutex};

use peer_auth::{
    AuthorizationAction, AuthorizationActionError, AuthorizationInquisitor, AuthorizationManager,
    AuthorizationState, FnCallback, Network, PeerAuthorizationState,
};

fn create_network_with_initial_temp_peer() -> (Network, String) {
    let mut network = Network::new();

    network
        .add_peer("temp-1".to_string(), "MockConnection".to_string())
        .expect("Unable to add connection to network");

    // We only have one peer, so we can grab this id as the temp id.
    let peer_id = network.peer_ids()[0].clone();

    (network, peer_id)
}

/// This test runs through the trust authorization state machine happy path. It traverses
/// through each state, Unknown -> Connecting -> Authorized and verifies that the response
/// for is_authorized is correct at each stage.
#[test]
fn trust_state_machine_valid() {
    let (network, peer_id) = create_network_with_initial_temp_peer();

    let mut auth_manager = AuthorizationManager::new(network, "mock_identity".into());

    assert!(!auth_manager.is_authorized(&peer_id));

    assert_eq!(
        Ok(AuthorizationState::Connecting),
        auth_manager.next_state(&peer_id, AuthorizationAction::Connecting)
    );

    assert!(!auth_manager.is_authorized(&peer_id));

    // verify that it cannot be connected again.
    assert_eq!(
        Err(AuthorizationActionError::AlreadyConnecting),
        auth_manager.next_state(&peer_id, AuthorizationAction::Connecting)
    );
    assert!(!auth_manager.is_authorized(&peer_id));

    // Supply the TrustIdentifying action and verify that it is authorized
    let new_peer_id = "abcd".to_string();
    assert_eq!(
        Ok(AuthorizationState::Authorized),
        auth_manager.next_state(
            &peer_id,
            AuthorizationAction::TrustIdentifying(new_peer_id.clone())
        )
    );
    // we no longer have the temp id
    assert!(!auth_manager.is_authorized(&peer_id));
    // but we now have the new identified peer
    assert!(auth_manager.is_authorized(&new_peer_id));
    assert_eq!(vec![new_peer_id.clone()], auth_manager.network().peer_ids());
}

/// This test begins a connection, and then unauthorizes the peer.  Verify that the auth
/// manager reports the correct value for is_authorized, and that the peer is removed.
#[test]
fn trust_state_machine_unauthorize_while_connecting() {
    let (network, peer_id) = create_network_with_initial_temp_peer();

    let mut auth_manager = AuthorizationManager::new(network, "mock_identity".into());

    assert!(!auth_manager.is_authorized(&peer_id));
    assert_eq!(
        Ok(AuthorizationState::Connecting),
        auth_manager.next_state(&peer_id, AuthorizationAction::Connecting)
    );

    assert_eq!(
        Ok(AuthorizationState::Unauthorized),
        auth_manager.next_state(&peer_id, AuthorizationAction::Unauthorizing)
    );

    assert!(!auth_manager.is_authorized(&peer_id));
    let empty_vec: Vec<String> = Vec::with_capacity(0);
    assert_eq!(empty_vec, auth_manager.network().peer_ids());
}

/// This test begins a connection, trusts it, and then unauthorizes the peer.  Verify that
/// the auth manager reports the correct values for is_authorized, and that the peer is removed.
#[test]
fn trust_state_machine_unauthorize_when_authorized() {
    let (network, peer_id) = create_network_with_initial_temp_peer();

    let mut auth_manager = AuthorizationManager::new(network, "mock_identity".into());

    assert!(!auth_manager.is_authorized(&peer_id));
    assert_eq!(
        Ok(AuthorizationState::Connecting),
        auth_manager.next_state(&peer_id, AuthorizationAction::Connecting)
    );
    let new_peer_id = "abcd".to_string();
    assert_eq!(
        Ok(AuthorizationState::Authorized),
        auth_manager.next_state(
            &peer_id,
            AuthorizationAction::TrustIdentifying(new_peer_id.clone())
        )
    );
    assert!(!auth_manager.is_authorized(&peer_id));
    assert!(auth_manager.is_authorized(&new_peer_id));
    assert_eq!(vec![new_peer_id.clone()], auth_manager.network().peer_ids());

    assert_eq!(
        Ok(AuthorizationState::Unauthorized),
        auth_manager.next_state(&new_peer_id, AuthorizationAction::Unauthorizing)
    );

    assert!(!auth_manager.is_authorized(&new_peer_id));
    let empty_vec: Vec<String> = Vec::with_capacity(0);
    assert_eq!(empty_vec, auth_manager.network().peer_ids());
}

/// This test begins a connection, trust it, and notifies a callback of the authorized state.
/// It should not be notified of intermediate states.
#[test]
fn trust_state_machine_notify_callbacks() {
    let (network, peer_id) = create_network_with_initial_temp_peer();

    let mut auth_manager = AuthorizationManager::new(network, "mock_identity".into());
    let notifications = Arc::new(Mutex::new(vec![]));

    let callback_values = notifications.clone();
    auth_manager
        .register_callback(Box::new(FnCallback::new(
            move |peer_id: &str, state: PeerAuthorizationState| {
                callback_values
                    .lock()
                    .expect("callback values poisoned")
                    .push((peer_id.to_string(), state.clone()));

                Ok(())
            },
        )))
        .expect("The callback failed to be registered");

    assert!(!auth_manager.is_authorized(&peer_id));

    assert_eq!(
        Ok(AuthorizationState::Connecting),
        auth_manager.next_state(&peer_id, AuthorizationAction::Connecting)
    );

    assert!(!auth_manager.is_authorized(&peer_id));

    // Supply the TrustIdentifying action and verify that it is authorized
    let new_peer_id = "abcd".to_string();
    assert_eq!(
        Ok(AuthorizationState::Authorized),
        auth_manager.next_state(
            &peer_id,
            AuthorizationAction::TrustIdentifying(new_peer_id.clone())
        )
    );
    // we now have the new identified peer
    assert!(auth_manager.is_authorized(&new_peer_id));
    assert_eq!(vec![new_peer_id.clone()], auth_manager.network().peer_ids());

    assert_eq!(
        Some(("abcd".to_string(), PeerAuthorizationState::Authorized)),
        notifications
            .lock()
            .expect("callback values posioned")
            .pop()
    );
}

/// This test verifies that a connection that is authorized, if has disconnected, can begin the
/// authorization process over again.
#[test]
fn disconnection_notification_allows_reauth() {
    let (network, peer_id) = create_network_with_initial_temp_peer();

    let mut auth_manager = AuthorizationManager::new(network, "mock_identity".into());
    assert!(!auth_manager.is_authorized(&peer_id));

    assert_eq!(
        Ok(AuthorizationState::Connecting),
        auth_manager.next_state(&peer_id, AuthorizationAction::Connecting)
    );

    assert!(!auth_manager.is_authorized(&peer_id));

    // verify that it cannot be connected again.
    assert_eq!(
        Err(AuthorizationActionError::AlreadyConnecting),
        auth_manager.next_state(&peer_id, AuthorizationAction::Connecting)
    );
    assert!(!auth_manager.is_authorized(&peer_id));

    // Supply the TrustIdentifying action and verify that it is authorized
    let new_peer_id = "abcd".to_string();
    assert_eq!(
        Ok(AuthorizationState::Authorized),
        auth_manager.next_state(
            &peer_id,
            AuthorizationAction::TrustIdentifying(new_peer_id.clone())
        )
    );
    assert!(auth_manager.is_authorized(&new_peer_id));

    // verify that it cannot be connected again.
    assert_eq!(
        Err(AuthorizationActionError::InvalidMessageOrder(
            AuthorizationState::Authorized,
            AuthorizationAction::Connecting
        )),
        auth_manager.next_state(&new_peer_id, AuthorizationAction::Connecting)
    );

    auth_manager
        .remove_connection(&new_peer_id)
        .expect("Unable to remove peer");

    // verify that it can be connected again.
    assert_eq!(
        Ok(AuthorizationState::Connecting),
        auth_manager.next_state(&new_peer_id, AuthorizationAction::Connecting)
    );
}
