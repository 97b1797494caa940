//! The transition engine as a mathematical function: what a request does to the
//! state table and to the registry, what it returns, and what it publishes.

use vstd::prelude::*;

use crate::endpoint::is_inproc;
use crate::network::NetworkView;
use crate::state::{
    AuthorizationAction, AuthorizationActionError, AuthorizationState, PeerAuthorizationState,
};

verus! {

/// A status as it is published to the callbacks.
pub struct Notification {
    pub peer_id: Seq<char>,
    pub status: PeerAuthorizationState,
}

/// What a transition reads and changes: the state table and the registry.
pub struct World {
    /// The state of each peer that has an entry.
    pub states: Map<Seq<char>, AuthorizationState>,
    pub network: NetworkView,
}

/// What a transition comes to.
pub struct Outcome {
    /// What the caller is handed.
    pub result: Result<AuthorizationState, AuthorizationActionError>,
    /// The table and the registry afterwards.
    pub world: World,
    /// What the callbacks are told, if anything.
    pub notification: Option<Notification>,
}

/// The state of a peer: that of its entry, `Unknown` without one.
pub open spec fn state_of(
    states: Map<Seq<char>, AuthorizationState>,
    peer_id: Seq<char>,
) -> AuthorizationState {
    if states.contains_key(peer_id) {
        states[peer_id]
    } else {
        AuthorizationState::Unknown
    }
}

/// No entry holds `Unknown` or `Unauthorized`.
pub open spec fn stored_states_valid(states: Map<Seq<char>, AuthorizationState>) -> bool {
    forall|peer_id: Seq<char>| #[trigger]
        states.contains_key(peer_id) ==> states[peer_id].is_stored()
}

/// The table without the entries of the peers in `lost`.
pub open spec fn forget(
    states: Map<Seq<char>, AuthorizationState>,
    lost: Seq<Seq<char>>,
) -> Map<Seq<char>, AuthorizationState> {
    Map::new(
        |peer_id: Seq<char>| states.contains_key(peer_id) && !lost.contains(peer_id),
        |peer_id: Seq<char>| states[peer_id],
    )
}

impl World {
    /// The table holds stored states only, and the registry is in step with itself.
    pub open spec fn wf(self) -> bool {
        &&& stored_states_valid(self.states)
        &&& self.network.wf()
    }

    /// The world as an operation finds it once it has collected the recorded
    /// disconnections: the peers that were lost have no entry any more.
    pub open spec fn observed(self) -> World {
        World {
            states: forget(self.states, self.network.pending),
            network: self.network.collected(),
        }
    }

    /// Whether the peer is authorized, as an operation that has collected the
    /// recorded disconnections sees it.
    pub open spec fn grants(self, peer_id: Seq<char>) -> bool {
        state_of(self.observed().states, peer_id).grants_access()
    }

    /// The world with another table.
    pub open spec fn with_states(self, states: Map<Seq<char>, AuthorizationState>) -> World {
        World { states, ..self }
    }

    /// A request that is refused and changes nothing.
    pub open spec fn refused(self, error: AuthorizationActionError) -> Outcome {
        Outcome { result: Err(error), world: self, notification: None }
    }

    /// `Connecting` for a peer without an entry: a peer on an in-process endpoint is
    /// authorized at once, any other starts the handshake.
    pub open spec fn connect(self, peer_id: Seq<char>) -> Outcome {
        if self.network.has_peer(peer_id) && is_inproc(self.network.endpoints[peer_id]) {
            Outcome {
                result: Ok(AuthorizationState::Internal),
                world: self.with_states(self.states.insert(peer_id, AuthorizationState::Internal)),
                notification: Some(
                    Notification { peer_id, status: PeerAuthorizationState::Authorized },
                ),
            }
        } else {
            Outcome {
                result: Ok(AuthorizationState::Connecting),
                world: self.with_states(
                    self.states.insert(peer_id, AuthorizationState::Connecting),
                ),
                notification: None,
            }
        }
    }

    /// `TrustIdentifying` for a connecting peer: the entry is taken out, the registry
    /// renames the peer, and the entry comes back under the verified identifier.
    /// Where the registry refuses, the entry stays out.
    pub open spec fn identify(self, peer_id: Seq<char>, new_id: Seq<char>) -> Outcome {
        if self.network.has_peer(peer_id) {
            Outcome {
                result: Ok(AuthorizationState::Authorized),
                world: World {
                    states: self.states.remove(peer_id).insert(
                        new_id,
                        AuthorizationState::Authorized,
                    ),
                    network: self.network.renamed(peer_id, new_id),
                },
                notification: Some(
                    Notification { peer_id: new_id, status: PeerAuthorizationState::Authorized },
                ),
            }
        } else {
            Outcome {
                result: Err(AuthorizationActionError::ConnectionLost),
                world: self.with_states(self.states.remove(peer_id)),
                notification: None,
            }
        }
    }

    /// `Unauthorizing` for a peer without an entry: the registry removes the
    /// connection, the table stays as it is and nothing is published.
    pub open spec fn turn_away(self, peer_id: Seq<char>) -> Outcome {
        if self.network.has_peer(peer_id) {
            Outcome {
                result: Ok(AuthorizationState::Unauthorized),
                world: World { network: self.network.removed(peer_id), ..self },
                notification: None,
            }
        } else {
            self.refused(AuthorizationActionError::ConnectionLost)
        }
    }

    /// `Unauthorizing` for a peer with an entry: the entry is taken out, the registry
    /// removes the connection, and the callbacks are told. Where the registry
    /// refuses, the entry stays out and nothing is published.
    pub open spec fn evict(self, peer_id: Seq<char>) -> Outcome {
        if self.network.has_peer(peer_id) {
            Outcome {
                result: Ok(AuthorizationState::Unauthorized),
                world: World {
                    states: self.states.remove(peer_id),
                    network: self.network.removed(peer_id),
                },
                notification: Some(
                    Notification { peer_id, status: PeerAuthorizationState::Unauthorized },
                ),
            }
        } else {
            Outcome {
                result: Err(AuthorizationActionError::ConnectionLost),
                world: self.with_states(self.states.remove(peer_id)),
                notification: None,
            }
        }
    }

    /// The transition table, applied to a world whose recorded disconnections have
    /// been collected.
    pub open spec fn transition(self, peer_id: Seq<char>, action: AuthorizationAction) -> Outcome {
        match state_of(self.states, peer_id) {
            AuthorizationState::Unknown => match action {
                AuthorizationAction::Connecting => self.connect(peer_id),
                AuthorizationAction::Unauthorizing => self.turn_away(peer_id),
                AuthorizationAction::TrustIdentifying(_) => self.refused(
                    AuthorizationActionError::InvalidMessageOrder(
                        AuthorizationState::Unknown,
                        action,
                    ),
                ),
            },
            AuthorizationState::Connecting => match action {
                AuthorizationAction::Connecting => self.refused(
                    AuthorizationActionError::AlreadyConnecting,
                ),
                AuthorizationAction::TrustIdentifying(new_id) => self.identify(peer_id, new_id@),
                AuthorizationAction::Unauthorizing => self.evict(peer_id),
            },
            AuthorizationState::Authorized => match action {
                AuthorizationAction::Unauthorizing => self.evict(peer_id),
                _ => self.refused(
                    AuthorizationActionError::InvalidMessageOrder(
                        AuthorizationState::Authorized,
                        action,
                    ),
                ),
            },
            state => self.refused(AuthorizationActionError::InvalidMessageOrder(state, action)),
        }
    }

    /// A whole request: the recorded disconnections are collected first, so that a
    /// peer that was lost is taken as `Unknown`, and the transition table decides
    /// on what is left.
    pub open spec fn step(self, peer_id: Seq<char>, action: AuthorizationAction) -> Outcome {
        self.observed().transition(peer_id, action)
    }
}

/// The published statuses after one more transition.
pub open spec fn publish(log: Seq<Notification>, notification: Option<Notification>) -> Seq<
    Notification,
> {
    match notification {
        Some(notification) => log.push(notification),
        None => log,
    }
}

} // verus!
