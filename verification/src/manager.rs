//! The authorization manager: the state table, the callbacks, and the engine
//! that moves a peer from one state to the next.

use vstd::prelude::*;
use vstd::hash_map::StringHashMap;

use crate::callback::{each_told, AuthorizationCallback, AuthorizationCallbackError};
use crate::endpoint::is_inproc_endpoint;
use crate::network::{texts, Network, NetworkError, NetworkView};
use crate::state::{
    AuthorizationAction, AuthorizationActionError, AuthorizationState, PeerAuthorizationState,
};
use crate::transition::{forget, publish, Notification, Outcome, World};

verus! {

/// What is guarded together: the state of each peer, and the callbacks in the
/// order in which they were registered.
struct ManagedAuthorizations {
    states: StringHashMap<AuthorizationState>,
    callbacks: Vec<Box<dyn AuthorizationCallback>>,
    published: Ghost<Seq<Notification>>,
}

impl ManagedAuthorizations {
    /// The state of each peer that has an entry.
    closed spec fn states(&self) -> Map<Seq<char>, AuthorizationState> {
        self.states@
    }

    /// The callbacks, in the order in which they were registered.
    closed spec fn callbacks(&self) -> Seq<Box<dyn AuthorizationCallback>> {
        self.callbacks@
    }

    /// Every status that the callbacks have been told, oldest first.
    closed spec fn published(&self) -> Seq<Notification> {
        self.published@
    }

    /// A table without entries, and no callbacks.
    fn new() -> (shared: Self)
        ensures
            shared.states() == Map::<Seq<char>, AuthorizationState>::empty(),
            shared.callbacks() == Seq::<Box<dyn AuthorizationCallback>>::empty(),
            shared.published() == Seq::<Notification>::empty(),
    {
        ManagedAuthorizations {
            states: StringHashMap::new(),
            callbacks: Vec::new(),
            published: Ghost(Seq::empty()),
        }
    }
}

/// The manager as a mathematical value.
pub struct ManagerView {
    /// The state table and the registry.
    pub world: World,
    /// Every status that the callbacks have been told, oldest first.
    pub published: Seq<Notification>,
    /// The identity of this node.
    pub identity: Seq<char>,
}

impl ManagerView {
    /// The manager after a transition that came to `outcome`.
    pub open spec fn after(self, outcome: Outcome) -> ManagerView {
        ManagerView {
            world: outcome.world,
            published: publish(self.published, outcome.notification),
            ..self
        }
    }

    /// The manager after the recorded disconnections have been collected.
    pub open spec fn observed(self) -> ManagerView {
        ManagerView { world: self.world.observed(), ..self }
    }

    /// The manager with its registry changed to `network`.
    pub open spec fn with_network(self, network: NetworkView) -> ManagerView {
        ManagerView { world: World { network, ..self.world }, ..self }
    }
}

/// Answers whether a peer is authorized, and takes callbacks for changes of that.
pub trait AuthorizationInquisitor: Send {
    /// The inquisitor's own invariant.
    spec fn valid(&self) -> bool;

    /// Whether `is_authorized` answers that the peer is authorized.
    spec fn authorizes(&self, peer_id: Seq<char>) -> bool;

    /// Register a callback to receive notifications about peer authorization statuses.
    /// Registering changes no answer.
    fn register_callback(&mut self, callback: Box<dyn AuthorizationCallback>) -> (registered:
        Result<(), AuthorizationCallbackError>)
        requires
            old(self).valid(),
        ensures
            final(self).valid(),
            forall|peer_id: Seq<char>|
                final(self).authorizes(peer_id) == old(self).authorizes(peer_id),
    ;

    /// Indicates whether or not a peer is authorized. Asking changes no answer.
    fn is_authorized(&mut self, peer_id: &str) -> (authorized: bool)
        requires
            old(self).valid(),
        ensures
            final(self).valid(),
            authorized == old(self).authorizes(peer_id@),
            forall|peer_id: Seq<char>|
                final(self).authorizes(peer_id) == old(self).authorizes(peer_id),
    ;
}

/// Manages authorization states for connections on a network.
pub struct AuthorizationManager {
    shared: ManagedAuthorizations,
    network: Network,
    identity: String,
}

impl View for AuthorizationManager {
    type V = ManagerView;

    closed spec fn view(&self) -> ManagerView {
        ManagerView {
            world: World { states: self.shared.states(), network: self.network@ },
            published: self.shared.published(),
            identity: self.identity@,
        }
    }
}

impl AuthorizationManager {
    /// The table holds stored states only, and the registry is in step with itself.
    pub open spec fn wf(&self) -> bool {
        self@.world.wf()
    }

    /// The callbacks, in the order in which they were registered.
    pub closed spec fn callbacks(&self) -> Seq<Box<dyn AuthorizationCallback>> {
        self.shared.callbacks()
    }

    /// Constructs an AuthorizationManager on a registry, which from now on records
    /// every disconnection for it.
    pub fn new(network: Network, identity: String) -> (manager: Self)
        requires
            network.wf(),
        ensures
            manager.wf(),
            manager@.world.states == Map::<Seq<char>, AuthorizationState>::empty(),
            manager@.world.network == network@.listened(),
            manager@.published == Seq::<Notification>::empty(),
            manager@.identity == identity@,
            manager.callbacks() == Seq::<Box<dyn AuthorizationCallback>>::empty(),
    {
        let shared = ManagedAuthorizations::new();
        let mut network = network;
        network.add_disconnect_listener();
        AuthorizationManager { shared, network, identity }
    }

    /// The identity of this node, as it is advertised to remote peers.
    pub fn identity(&self) -> (identity: &String)
        ensures
            identity@ == self@.identity,
    {
        &self.identity
    }

    /// The registry that the manager works on, to read. It changes through the
    /// manager only, so nobody else collects what it records as lost.
    pub fn network(&self) -> (network: &Network)
        ensures
            network@ == self@.world.network,
    {
        &self.network
    }

    /// Registers a connection that has been accepted, under `peer_id` and with its
    /// endpoint. An identifier that is already taken is refused and nothing changes.
    pub fn add_peer(&mut self, peer_id: String, endpoint: String) -> (added: Result<
        (),
        NetworkError,
    >)
        requires
            old(self).wf(),
        ensures
            final(self).wf(),
            final(self).callbacks() == old(self).callbacks(),
            old(self)@.world.network.has_peer(peer_id@) ==> added == Err::<(), NetworkError>(
                NetworkError::DuplicatePeer,
            ) && final(self)@ == old(self)@,
            !old(self)@.world.network.has_peer(peer_id@) ==> added == Ok::<(), NetworkError>(())
                && final(self)@ == old(self)@.with_network(
                old(self)@.world.network.admitted(peer_id@, endpoint@),
            ),
    {
        self.network.add_peer(peer_id, endpoint)
    }

    /// Drops a connection that has been lost. The table is left as it is: the
    /// registry records the loss, and the next operation of the manager collects
    /// it. Without a peer under `peer_id` the change is refused and nothing changes.
    pub fn remove_connection(&mut self, peer_id: &str) -> (removed: Result<(), NetworkError>)
        requires
            old(self).wf(),
        ensures
            final(self).wf(),
            final(self).callbacks() == old(self).callbacks(),
            old(self)@.world.network.has_peer(peer_id@) ==> removed == Ok::<(), NetworkError>(())
                && final(self)@ == old(self)@.with_network(
                old(self)@.world.network.removed(peer_id@),
            ),
            !old(self)@.world.network.has_peer(peer_id@) ==> removed == Err::<(), NetworkError>(
                NetworkError::UnknownPeer,
            ) && final(self)@ == old(self)@,
    {
        self.network.remove_connection(peer_id)
    }

    /// Collects the recorded disconnections and takes the entries of the lost
    /// peers out of the table.
    fn collect_disconnected(&mut self)
        requires
            old(self).wf(),
        ensures
            final(self).wf(),
            final(self)@ == old(self)@.observed(),
            final(self).callbacks() == old(self).callbacks(),
    {
        let lost = self.network.take_disconnected();
        let ghost before = self.shared.states@;
        let ghost names = texts(lost@);
        let mut i: usize = 0;
        while i < lost.len()
            invariant
                i <= lost.len(),
                names == texts(lost@),
                names == old(self).network@.pending,
                before == old(self).shared.states@,
                self.identity == old(self).identity,
                self.shared.states@ == forget(before, names.take(i as int)),
                self.shared.callbacks == old(self).shared.callbacks,
                self.shared.published == old(self).shared.published,
                self.network@ == old(self).network@.collected(),
            decreases lost.len() - i,
        {
            self.shared.states.remove(lost[i].as_str());
            proof {
                // One more name is among the lost ones, and no other.
                let shorter = names.take(i as int);
                let longer = names.take(i + 1);
                assert forall|id: Seq<char>| longer.contains(id) <==> (shorter.contains(id) || id
                    == names[i as int]) by {
                    if longer.contains(id) {
                        let k = choose|k: int| 0 <= k < longer.len() && longer[k] == id;
                        if k < i {
                            assert(shorter[k] == id);
                        }
                    }
                    if shorter.contains(id) {
                        let k = choose|k: int| 0 <= k < shorter.len() && shorter[k] == id;
                        assert(longer[k] == id);
                    }
                    if id == names[i as int] {
                        assert(longer[i as int] == id);
                    }
                }
            }
            i = i + 1;
        }
        assert(names.take(lost.len() as int) =~= names);
    }

    /// Transitions from one authorization state to another.
    ///
    /// The recorded disconnections are collected first, so a peer that was lost is
    /// taken as `Unknown`. The transition table then decides from the state of the
    /// peer and the action. A transition that ends in an observable status tells
    /// every callback, after the table and the registry have been changed: the
    /// status is then on the record of each of them, whether or not some of them
    /// failed. A transition without such a status leaves the callbacks alone.
    ///
    /// # Errors
    ///
    /// - `AlreadyConnecting`: `Connecting` for a peer that is connecting.
    /// - `InvalidMessageOrder`: any other action that the state does not allow.
    /// - `ConnectionLost`: the registry refused to rename or to remove the peer;
    ///   the entry of the peer is gone all the same.
    pub fn next_state(&mut self, peer_id: &str, action: AuthorizationAction) -> (result: Result<
        AuthorizationState,
        AuthorizationActionError,
    >)
        requires
            old(self).wf(),
        ensures
            final(self).wf(),
            result == old(self)@.world.step(peer_id@, action).result,
            final(self)@ == old(self)@.after(old(self)@.world.step(peer_id@, action)),
            each_told(
                old(self).callbacks(),
                final(self).callbacks(),
                old(self)@.world.step(peer_id@, action).notification,
            ),
            old(self)@.world.step(peer_id@, action).notification is None ==> final(self).callbacks()
                == old(self).callbacks(),
    {
        self.collect_disconnected();
        let cur_state = match self.shared.states.get(peer_id) {
            Some(state) => *state,
            None => AuthorizationState::Unknown,
        };
        match cur_state {
            AuthorizationState::Unknown => match action {
                AuthorizationAction::Connecting => {
                    if let Some(endpoint) = self.network.get_peer_endpoint(peer_id) {
                        if is_inproc_endpoint(endpoint.as_str()) {
                            // In-process connections are authorized without a handshake.
                            self.shared.states.insert(
                                peer_id.to_owned(),
                                AuthorizationState::Internal,
                            );
                            self.notify_callbacks(peer_id, PeerAuthorizationState::Authorized);
                            return Ok(AuthorizationState::Internal);
                        }
                    }
                    self.shared.states.insert(peer_id.to_owned(), AuthorizationState::Connecting);
                    Ok(AuthorizationState::Connecting)
                },
                AuthorizationAction::Unauthorizing => {
                    match self.network.remove_connection(peer_id) {
                        Ok(()) => Ok(AuthorizationState::Unauthorized),
                        Err(_) => Err(AuthorizationActionError::ConnectionLost),
                    }
                },
                _ => Err(
                    AuthorizationActionError::InvalidMessageOrder(
                        AuthorizationState::Unknown,
                        action,
                    ),
                ),
            },
            AuthorizationState::Connecting => match action {
                AuthorizationAction::Connecting => Err(AuthorizationActionError::AlreadyConnecting),
                AuthorizationAction::TrustIdentifying(new_peer_id) => {
                    self.shared.states.remove(peer_id);
                    match self.network.update_peer_id(peer_id.to_owned(), new_peer_id.clone()) {
                        Ok(()) => {
                            self.shared.states.insert(
                                new_peer_id.clone(),
                                AuthorizationState::Authorized,
                            );
                            self.notify_callbacks(
                                new_peer_id.as_str(),
                                PeerAuthorizationState::Authorized,
                            );
                            Ok(AuthorizationState::Authorized)
                        },
                        Err(_) => Err(AuthorizationActionError::ConnectionLost),
                    }
                },
                AuthorizationAction::Unauthorizing => self.evict(peer_id),
            },
            AuthorizationState::Authorized => match action {
                AuthorizationAction::Unauthorizing => self.evict(peer_id),
                _ => Err(
                    AuthorizationActionError::InvalidMessageOrder(
                        AuthorizationState::Authorized,
                        action,
                    ),
                ),
            },
            _ => Err(AuthorizationActionError::InvalidMessageOrder(cur_state, action)),
        }
    }

    /// Takes the entry of a peer out of the table, has the registry remove its
    /// connection, and tells the callbacks that the peer is unauthorized.
    fn evict(&mut self, peer_id: &str) -> (result: Result<
        AuthorizationState,
        AuthorizationActionError,
    >)
        requires
            old(self).wf(),
        ensures
            final(self).wf(),
            result == old(self)@.world.evict(peer_id@).result,
            final(self)@ == old(self)@.after(old(self)@.world.evict(peer_id@)),
            each_told(
                old(self).callbacks(),
                final(self).callbacks(),
                old(self)@.world.evict(peer_id@).notification,
            ),
            old(self)@.world.evict(peer_id@).notification is None ==> final(self).callbacks()
                == old(self).callbacks(),
    {
        self.shared.states.remove(peer_id);
        match self.network.remove_connection(peer_id) {
            Ok(()) => {
                self.notify_callbacks(peer_id, PeerAuthorizationState::Unauthorized);
                Ok(AuthorizationState::Unauthorized)
            },
            Err(_) => Err(AuthorizationActionError::ConnectionLost),
        }
    }

    /// Tells every callback, in the order of registration, that `peer_id` now has
    /// the status `state`. A callback that fails does not keep the others from
    /// being told: afterwards the change is on the record of each of them.
    fn notify_callbacks(&mut self, peer_id: &str, state: PeerAuthorizationState)
        ensures
            final(self)@ == (ManagerView {
                published: old(self)@.published.push(
                    Notification { peer_id: peer_id@, status: state },
                ),
                ..old(self)@
            }),
            each_told(
                old(self).callbacks(),
                final(self).callbacks(),
                Some(Notification { peer_id: peer_id@, status: state }),
            ),
    {
        let ghost told = Notification { peer_id: peer_id@, status: state };
        let mut i: usize = 0;
        while i < self.shared.callbacks.len()
            invariant
                i <= self.shared.callbacks.len(),
                self.shared.callbacks.len() == old(self).shared.callbacks.len(),
                told == (Notification { peer_id: peer_id@, status: state }),
                forall|j: int|
                    0 <= j < i ==> (#[trigger] self.shared.callbacks@[j]).heard() == old(
                        self,
                    ).shared.callbacks@[j].heard().push(told),
                forall|j: int|
                    i <= j < self.shared.callbacks.len() ==> #[trigger] self.shared.callbacks@[j]
                        == old(self).shared.callbacks@[j],
                self.shared.states == old(self).shared.states,
                self.shared.published == old(self).shared.published,
                self.network == old(self).network,
                self.identity == old(self).identity,
            decreases self.shared.callbacks.len() - i,
        {
            match self.shared.callbacks[i].on_authorization_change(peer_id, state) {
                Ok(()) => {},
                Err(_) => {},
            }
            i = i + 1;
        }
        self.shared.published = Ghost(self.shared.published@.push(told));
    }
}

impl AuthorizationInquisitor for AuthorizationManager {
    open spec fn valid(&self) -> bool {
        self.wf()
    }

    open spec fn authorizes(&self, peer_id: Seq<char>) -> bool {
        self@.world.grants(peer_id)
    }

    /// Appends the callback to those that are told of every change of status. The
    /// callback goes into the list as it came, with the record that it brought.
    fn register_callback(&mut self, callback: Box<dyn AuthorizationCallback>) -> (registered:
        Result<(), AuthorizationCallbackError>)
        ensures
            registered is Ok,
            final(self)@ == old(self)@,
            final(self).callbacks() == old(self).callbacks().push(callback),
    {
        self.shared.callbacks.push(callback);
        Ok(())
    }

    /// Collects the recorded disconnections, and then answers whether the peer has
    /// an entry that is `Authorized` or `Internal`.
    fn is_authorized(&mut self, peer_id: &str) -> (authorized: bool)
        ensures
            final(self)@ == old(self)@.observed(),
            final(self).callbacks() == old(self).callbacks(),
    {
        self.collect_disconnected();
        match self.shared.states.get(peer_id) {
            Some(state) => *state == AuthorizationState::Authorized || *state
                == AuthorizationState::Internal,
            None => false,
        }
    }
}

} // verus!
