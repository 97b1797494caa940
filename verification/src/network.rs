//! The peer registry: which peers are connected, under which identifier, and at
//! which endpoint.
//!
//! A `Network` holds the registry as plain values. It also keeps the record of
//! disconnections that a listener has asked for and not yet collected.

use vstd::prelude::*;
use vstd::hash_map::StringHashMap;

verus! {

/// Why the registry refused a change.
#[derive(Debug, Clone, Copy, PartialEq, Eq, Structural)]
pub enum NetworkError {
    /// No peer is registered under the identifier.
    UnknownPeer,
    /// A peer is already registered under the identifier.
    DuplicatePeer,
}

/// The registry as a mathematical value.
pub struct NetworkView {
    /// The identifiers of the registered peers, in the order in which they are listed.
    pub ids: Seq<Seq<char>>,
    /// The endpoint of each registered peer.
    pub endpoints: Map<Seq<char>, Seq<char>>,
    /// Whether disconnections are recorded for a listener.
    pub listening: bool,
    /// The disconnections recorded and not yet collected, oldest first.
    pub pending: Seq<Seq<char>>,
}

impl NetworkView {
    /// Each registered peer is listed once, and only registered peers are listed.
    pub open spec fn wf(self) -> bool {
        &&& self.ids.no_duplicates()
        &&& forall|id: Seq<char>|
            #![trigger self.ids.contains(id)]
            #![trigger self.endpoints.contains_key(id)]
            self.ids.contains(id) <==> self.endpoints.contains_key(id)
    }

    /// Whether a peer is registered under `id`.
    pub open spec fn has_peer(self, id: Seq<char>) -> bool {
        self.endpoints.contains_key(id)
    }

    /// The endpoint of the peer registered under `id`, if there is one.
    pub open spec fn endpoint_of(self, id: Seq<char>) -> Option<Seq<char>> {
        if self.has_peer(id) {
            Some(self.endpoints[id])
        } else {
            None
        }
    }

    /// The registry with no peer and nothing recorded.
    pub open spec fn empty() -> NetworkView {
        NetworkView {
            ids: Seq::empty(),
            endpoints: Map::empty(),
            listening: false,
            pending: Seq::empty(),
        }
    }

    /// The registry after a peer that was not registered has been added at the end of the list.
    pub open spec fn admitted(self, id: Seq<char>, endpoint: Seq<char>) -> NetworkView {
        NetworkView {
            ids: self.ids.push(id),
            endpoints: self.endpoints.insert(id, endpoint),
            ..self
        }
    }

    /// The registry after the connection of a registered peer has been removed: the
    /// peer leaves the list, and the loss is recorded if a listener asked for it.
    pub open spec fn removed(self, id: Seq<char>) -> NetworkView {
        NetworkView {
            ids: self.ids.remove(self.ids.index_of(id)),
            endpoints: self.endpoints.remove(id),
            pending: if self.listening {
                self.pending.push(id)
            } else {
                self.pending
            },
            ..self
        }
    }

    /// The registry after a registered peer has been renamed. The peer keeps its
    /// endpoint and its place in the list; a peer that held the new name is dropped.
    pub open spec fn renamed(self, old_id: Seq<char>, new_id: Seq<char>) -> NetworkView {
        if old_id == new_id {
            self
        } else {
            let kept = if self.ids.contains(new_id) {
                self.ids.remove(self.ids.index_of(new_id))
            } else {
                self.ids
            };
            NetworkView {
                ids: kept.update(kept.index_of(old_id), new_id),
                endpoints: self.endpoints.remove(old_id).insert(new_id, self.endpoints[old_id]),
                ..self
            }
        }
    }

    /// The registry with disconnections recorded from now on, and none recorded yet.
    pub open spec fn listened(self) -> NetworkView {
        NetworkView { listening: true, pending: Seq::empty(), ..self }
    }

    /// The registry after the recorded disconnections have been handed out.
    pub open spec fn collected(self) -> NetworkView {
        NetworkView { pending: Seq::empty(), ..self }
    }
}

/// The character sequences of a sequence of strings.
pub open spec fn texts(strings: Seq<String>) -> Seq<Seq<char>> {
    Seq::new(strings.len(), |i: int| strings[i]@)
}

/// Removing a registered peer keeps the list and the endpoints in step.
pub proof fn lemma_removed_wf(network: NetworkView, id: Seq<char>)
    requires
        network.wf(),
        network.has_peer(id),
    ensures
        network.removed(id).wf(),
        !network.removed(id).has_peer(id),
{
    let at = network.ids.index_of(id);
    let after = network.removed(id);
    assert(network.ids.contains(id));
    // What stands at `i` afterwards stood at `i` or at `i + 1` before.
    assert forall|i: int, j: int| 0 <= i < j < after.ids.len() implies after.ids[i]
        != after.ids[j] by {
        let oi = if i < at { i } else { i + 1 };
        let oj = if j < at { j } else { j + 1 };
        assert(after.ids[i] == network.ids[oi] && after.ids[j] == network.ids[oj]);
    }
    assert forall|other: Seq<char>| after.ids.contains(other) <==> after.endpoints.contains_key(
        other,
    ) by {
        if after.ids.contains(other) {
            let i = choose|i: int| 0 <= i < after.ids.len() && after.ids[i] == other;
            let oi = if i < at { i } else { i + 1 };
            assert(network.ids[oi] == other);
        }
        if after.endpoints.contains_key(other) {
            let oi = choose|i: int| 0 <= i < network.ids.len() && network.ids[i] == other;
            let i = if oi < at { oi } else { oi - 1 };
            assert(after.ids[i] == other);
        }
    }
}

/// Adding a peer under a free identifier keeps the list and the endpoints in step.
pub proof fn lemma_admitted_wf(network: NetworkView, id: Seq<char>, endpoint: Seq<char>)
    requires
        network.wf(),
        !network.has_peer(id),
    ensures
        network.admitted(id, endpoint).wf(),
{
    let after = network.admitted(id, endpoint);
    let end = network.ids.len() as int;
    assert forall|i: int, j: int| 0 <= i < j < after.ids.len() implies after.ids[i]
        != after.ids[j] by {
        if j == end {
            assert(network.ids.contains(network.ids[i]));
        }
    }
    assert forall|other: Seq<char>| after.ids.contains(other) <==> after.endpoints.contains_key(
        other,
    ) by {
        if after.ids.contains(other) {
            let i = choose|i: int| 0 <= i < after.ids.len() && after.ids[i] == other;
            if i < end {
                assert(network.ids[i] == other);
            }
        }
        if after.endpoints.contains_key(other) {
            if other == id {
                assert(after.ids[end] == id);
            } else {
                let i = choose|i: int| 0 <= i < network.ids.len() && network.ids[i] == other;
                assert(after.ids[i] == other);
            }
        }
    }
}

/// Renaming a registered peer keeps the list and the endpoints in step.
pub proof fn lemma_renamed_wf(network: NetworkView, old_id: Seq<char>, new_id: Seq<char>)
    requires
        network.wf(),
        network.has_peer(old_id),
    ensures
        network.renamed(old_id, new_id).wf(),
        network.renamed(old_id, new_id).has_peer(new_id),
        old_id != new_id ==> !network.renamed(old_id, new_id).has_peer(old_id),
{
    if old_id != new_id {
        let after = network.renamed(old_id, new_id);
        // First the holder of the new name goes, if there is one; then the name changes.
        let dropped = if network.has_peer(new_id) {
            network.removed(new_id)
        } else {
            network
        };
        if network.has_peer(new_id) {
            lemma_removed_wf(network, new_id);
        }
        let at = dropped.ids.index_of(old_id);
        assert(dropped.ids.contains(old_id));
        assert(after.ids == dropped.ids.update(at, new_id));
        assert(after.endpoints =~= dropped.endpoints.remove(old_id).insert(
            new_id,
            network.endpoints[old_id],
        ));
        assert forall|i: int, j: int| 0 <= i < j < after.ids.len() implies after.ids[i]
            != after.ids[j] by {
            if i != at {
                assert(dropped.ids.contains(dropped.ids[i]));
            }
            if j != at {
                assert(dropped.ids.contains(dropped.ids[j]));
            }
        }
        assert forall|other: Seq<char>| after.ids.contains(other)
            <==> after.endpoints.contains_key(other) by {
            if after.ids.contains(other) {
                let i = choose|i: int| 0 <= i < after.ids.len() && after.ids[i] == other;
                if i != at {
                    assert(dropped.ids[i] == other);
                }
            }
            if after.endpoints.contains_key(other) {
                if other == new_id {
                    assert(after.ids[at] == new_id);
                } else {
                    let i = choose|i: int| 0 <= i < dropped.ids.len() && dropped.ids[i] == other;
                    assert(after.ids[i] == other);
                }
            }
        }
    }
}

/// The registry of connected peers.
pub struct Network {
    ids: Vec<String>,
    endpoints: StringHashMap<String>,
    listening: bool,
    disconnected: Vec<String>,
}

impl View for Network {
    type V = NetworkView;

    closed spec fn view(&self) -> NetworkView {
        NetworkView {
            ids: texts(self.ids@),
            endpoints: Map::new(
                |id: Seq<char>| self.endpoints@.contains_key(id),
                |id: Seq<char>| self.endpoints@[id]@,
            ),
            listening: self.listening,
            pending: texts(self.disconnected@),
        }
    }
}

impl Network {
    /// Each registered peer is listed once, and only registered peers are listed.
    pub open spec fn wf(&self) -> bool {
        self@.wf()
    }

    /// A registry without peers, in which nobody listens for disconnections.
    pub fn new() -> (network: Network)
        ensures
            network@ == NetworkView::empty(),
            network.wf(),
    {
        let network = Network {
            ids: Vec::new(),
            endpoints: StringHashMap::new(),
            listening: false,
            disconnected: Vec::new(),
        };
        assert(network@.pending =~= Seq::empty());
        assert(network@.endpoints =~= Map::empty());
        network
    }

    /// Where `peer_id` stands in the list.
    fn position(&self, peer_id: &String) -> (at: Option<usize>)
        ensures
            match at {
                Some(i) => i < self.ids.len() && self@.ids[i as int] == peer_id@,
                None => !self@.ids.contains(peer_id@),
            },
    {
        let mut i: usize = 0;
        while i < self.ids.len()
            invariant
                i <= self.ids.len(),
                forall|j: int| 0 <= j < i ==> self@.ids[j] != peer_id@,
            decreases self.ids.len() - i,
        {
            if self.ids[i] == *peer_id {
                return Some(i);
            }
            i = i + 1;
        }
        None
    }

    /// Registers a peer under `peer_id` with the endpoint of its connection. An
    /// identifier that is already taken is refused and nothing changes.
    pub fn add_peer(&mut self, peer_id: String, endpoint: String) -> (added: Result<
        (),
        NetworkError,
    >)
        requires
            old(self).wf(),
        ensures
            final(self).wf(),
            old(self)@.has_peer(peer_id@) ==> added == Err::<(), NetworkError>(
                NetworkError::DuplicatePeer,
            ) && final(self)@ == old(self)@,
            !old(self)@.has_peer(peer_id@) ==> added == Ok::<(), NetworkError>(()) && final(self)@
                == old(self)@.admitted(peer_id@, endpoint@),
    {
        if self.endpoints.contains_key(peer_id.as_str()) {
            return Err(NetworkError::DuplicatePeer);
        }
        proof {
            lemma_admitted_wf(self@, peer_id@, endpoint@);
        }
        self.ids.push(peer_id.clone());
        self.endpoints.insert(peer_id, endpoint);
        assert(self@.ids =~= old(self)@.admitted(peer_id@, endpoint@).ids);
        assert(self@.endpoints =~= old(self)@.admitted(peer_id@, endpoint@).endpoints);
        Ok(())
    }

    /// The identifiers of the registered peers.
    pub fn peer_ids(&self) -> (ids: Vec<String>)
        ensures
            texts(ids@) == self@.ids,
    {
        let mut ids: Vec<String> = Vec::new();
        let mut i: usize = 0;
        while i < self.ids.len()
            invariant
                i <= self.ids.len(),
                ids.len() == i,
                forall|j: int| 0 <= j < i ==> ids[j]@ == self.ids[j]@,
            decreases self.ids.len() - i,
        {
            ids.push(self.ids[i].clone());
            i = i + 1;
        }
        ids
    }

    /// The endpoint of the peer registered under `peer_id`.
    pub fn get_peer_endpoint(&self, peer_id: &str) -> (endpoint: Option<String>)
        ensures
            endpoint is Some <==> self@.has_peer(peer_id@),
            endpoint is Some ==> endpoint->0@ == self@.endpoints[peer_id@],
    {
        match self.endpoints.get(peer_id) {
            Some(endpoint) => Some(endpoint.clone()),
            None => None,
        }
    }

    /// Renames the peer registered under `old_id` to `new_id`, in one step. Without
    /// such a peer the change is refused and nothing changes.
    pub fn update_peer_id(&mut self, old_id: String, new_id: String) -> (updated: Result<
        (),
        NetworkError,
    >)
        requires
            old(self).wf(),
        ensures
            final(self).wf(),
            old(self)@.has_peer(old_id@) ==> updated == Ok::<(), NetworkError>(()) && final(self)@
                == old(self)@.renamed(old_id@, new_id@),
            !old(self)@.has_peer(old_id@) ==> updated == Err::<(), NetworkError>(
                NetworkError::UnknownPeer,
            ) && final(self)@ == old(self)@,
    {
        let endpoint = match self.endpoints.get(old_id.as_str()) {
            Some(endpoint) => endpoint.clone(),
            None => {
                return Err(NetworkError::UnknownPeer);
            },
        };
        if old_id == new_id {
            return Ok(());
        }
        let ghost before = self@;
        proof {
            lemma_renamed_wf(before, old_id@, new_id@);
        }
        if self.endpoints.contains_key(new_id.as_str()) {
            // The peer that holds the new name gives it up.
            match self.position(&new_id) {
                Some(at) => {
                    assert(before.ids.index_of(new_id@) == at);
                    self.ids.remove(at);
                    assert(texts(self.ids@) =~= before.ids.remove(at as int));
                },
                None => {},
            }
        }
        let ghost kept = texts(self.ids@);
        assert(kept.contains(old_id@) && kept.no_duplicates()) by {
            if before.has_peer(new_id@) {
                lemma_removed_wf(before, new_id@);
            }
        }
        match self.position(&old_id) {
            Some(at) => {
                self.ids.set(at, new_id.clone());
                assert(texts(self.ids@) =~= kept.update(at as int, new_id@));
            },
            None => {},
        }
        self.endpoints.remove(old_id.as_str());
        self.endpoints.insert(new_id, endpoint);
        assert(self@.endpoints =~= before.renamed(old_id@, new_id@).endpoints);
        Ok(())
    }

    /// Removes the connection of the peer registered under `peer_id`, and records
    /// the loss for the listener. Without such a peer the change is refused and
    /// nothing changes.
    pub fn remove_connection(&mut self, peer_id: &str) -> (removed: Result<(), NetworkError>)
        requires
            old(self).wf(),
        ensures
            final(self).wf(),
            old(self)@.has_peer(peer_id@) ==> removed == Ok::<(), NetworkError>(()) && final(self)@
                == old(self)@.removed(peer_id@),
            !old(self)@.has_peer(peer_id@) ==> removed == Err::<(), NetworkError>(
                NetworkError::UnknownPeer,
            ) && final(self)@ == old(self)@,
    {
        if !self.endpoints.contains_key(peer_id) {
            return Err(NetworkError::UnknownPeer);
        }
        let ghost before = self@;
        proof {
            lemma_removed_wf(before, peer_id@);
        }
        let key = peer_id.to_owned();
        match self.position(&key) {
            Some(at) => {
                assert(before.ids.index_of(peer_id@) == at);
                self.ids.remove(at);
                assert(texts(self.ids@) =~= before.ids.remove(at as int));
            },
            None => {},
        }
        self.endpoints.remove(peer_id);
        if self.listening {
            self.disconnected.push(key);
        }
        assert(self@.endpoints =~= before.removed(peer_id@).endpoints);
        assert(self@.pending =~= before.removed(peer_id@).pending);
        Ok(())
    }

    /// Starts the record of disconnections for the one listener, the manager that
    /// takes the registry over: from now on every connection that is removed is
    /// recorded until the manager collects it.
    pub(crate) fn add_disconnect_listener(&mut self)
        ensures
            final(self)@ == old(self)@.listened(),
    {
        self.listening = true;
        self.disconnected = Vec::new();
        assert(self@.pending =~= Seq::empty());
    }

    /// Hands out the disconnections recorded since the last call, oldest first,
    /// without waiting for more. Only the manager collects them.
    pub(crate) fn take_disconnected(&mut self) -> (lost: Vec<String>)
        ensures
            texts(lost@) == old(self)@.pending,
            final(self)@ == old(self)@.collected(),
    {
        let mut lost: Vec<String> = Vec::new();
        std::mem::swap(&mut self.disconnected, &mut lost);
        assert(self@.pending =~= Seq::empty());
        lost
    }
}

} // verus!
