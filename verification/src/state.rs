//! The states a peer moves through, the actions that move it, and the ways a
//! transition can fail.

use vstd::prelude::*;
use vstd::string::StringExecFns;

verus! {

/// The states of a connection during authorization.
///
/// `Unknown` is what a peer without a table entry is taken to be, and
/// `Unauthorized` is only ever handed back as the result of a transition:
/// neither is stored.
#[derive(Debug, Clone, Copy, PartialEq, Eq, Structural)]
pub enum AuthorizationState {
    Unknown,
    Connecting,
    Authorized,
    Unauthorized,
    Internal,
}

/// The transitions that can be asked for on a connection during authorization.
#[derive(Debug, PartialEq)]
pub enum AuthorizationAction {
    Connecting,
    /// Carries the identity that the remote peer claims and that the caller has verified.
    TrustIdentifying(String),
    Unauthorizing,
}

/// The errors that may occur for a connection during authorization.
#[derive(Debug, PartialEq)]
pub enum AuthorizationActionError {
    AlreadyConnecting,
    InvalidMessageOrder(AuthorizationState, AuthorizationAction),
    ConnectionLost,
}

/// The status of a peer as observers are told of it.
#[derive(Debug, Clone, Copy, PartialEq, Eq, Structural)]
pub enum PeerAuthorizationState {
    Authorized,
    Unauthorized,
}

impl AuthorizationState {
    /// The name of the state as it appears in messages.
    pub open spec fn text(self) -> Seq<char> {
        match self {
            AuthorizationState::Unknown => "Unknown"@,
            AuthorizationState::Connecting => "Connecting"@,
            AuthorizationState::Authorized => "Authorized"@,
            AuthorizationState::Unauthorized => "Unauthorized"@,
            AuthorizationState::Internal => "Internal"@,
        }
    }

    /// Whether a table entry may hold this state.
    pub open spec fn is_stored(self) -> bool {
        self is Connecting || self is Authorized || self is Internal
    }

    /// Whether a peer in this state may exchange traffic.
    pub open spec fn grants_access(self) -> bool {
        self is Authorized || self is Internal
    }

    /// The name of the state.
    pub fn as_str(&self) -> (name: &'static str)
        ensures
            name@ == self.text(),
    {
        match self {
            AuthorizationState::Unknown => "Unknown",
            AuthorizationState::Connecting => "Connecting",
            AuthorizationState::Authorized => "Authorized",
            AuthorizationState::Unauthorized => "Unauthorized",
            AuthorizationState::Internal => "Internal",
        }
    }
}

impl AuthorizationAction {
    /// The name of the action as it appears in messages; the claimed identity is left out.
    pub open spec fn text(self) -> Seq<char> {
        match self {
            AuthorizationAction::Connecting => "Connecting"@,
            AuthorizationAction::TrustIdentifying(_) => "TrustIdentifying"@,
            AuthorizationAction::Unauthorizing => "Unauthorizing"@,
        }
    }

    /// The name of the action.
    pub fn as_str(&self) -> (name: &'static str)
        ensures
            name@ == self.text(),
    {
        match self {
            AuthorizationAction::Connecting => "Connecting",
            AuthorizationAction::TrustIdentifying(_) => "TrustIdentifying",
            AuthorizationAction::Unauthorizing => "Unauthorizing",
        }
    }
}

impl AuthorizationActionError {
    /// The message that describes the error.
    pub open spec fn text(self) -> Seq<char> {
        match self {
            AuthorizationActionError::AlreadyConnecting => "Already attempting to connect."@,
            AuthorizationActionError::InvalidMessageOrder(start, action) => {
                "Attempting to transition from "@ + start.text() + " via "@ + action.text() + "."@
            },
            AuthorizationActionError::ConnectionLost => "Connection lost while authorizing peer"@,
        }
    }

    /// The message that describes the error.
    pub fn message(&self) -> (text: String)
        ensures
            text@ == self.text(),
    {
        match self {
            AuthorizationActionError::AlreadyConnecting => {
                "Already attempting to connect.".to_owned()
            },
            AuthorizationActionError::InvalidMessageOrder(start, action) => {
                let mut text = "Attempting to transition from ".to_owned();
                text.append(start.as_str());
                text.append(" via ");
                text.append(action.as_str());
                text.append(".");
                text
            },
            AuthorizationActionError::ConnectionLost => {
                "Connection lost while authorizing peer".to_owned()
            },
        }
    }
}

} // verus!
