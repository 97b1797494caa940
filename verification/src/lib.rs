//! Peer authorization for a node's network.
//!
//! The crate tracks the authorization state of every connected peer, decides
//! each transition of the trust handshake, keeps an identity-keyed state table
//! in step with the peer registry, and publishes every change of a peer's
//! observable status to registered callbacks.
//!
//! Everything here is sequential: a manager is used through `&mut self`, and a
//! program that shares one between threads keeps it behind a single lock.

pub mod callback;
pub mod endpoint;
pub mod laws;
pub mod manager;
pub mod network;
pub mod state;
pub mod transition;

pub use callback::{AuthorizationCallback, AuthorizationCallbackError, FnCallback};
pub use manager::{AuthorizationInquisitor, AuthorizationManager, ManagerView};
pub use network::{Network, NetworkError, NetworkView};
pub use state::{
    AuthorizationAction, AuthorizationActionError, AuthorizationState, PeerAuthorizationState,
};
pub use transition::Notification;
