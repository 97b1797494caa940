//! What holds of the transition engine on every table, every registry and every
//! request.

use vstd::prelude::*;

use crate::endpoint::is_inproc;
use crate::network::{lemma_removed_wf, lemma_renamed_wf, NetworkView};
use crate::state::{
    AuthorizationAction, AuthorizationActionError, AuthorizationState, PeerAuthorizationState,
};
use crate::transition::{state_of, stored_states_valid, Notification, Outcome, World};

verus! {

/// Collecting the recorded disconnections only takes entries out: what is left is
/// what was there, and nothing new.
pub proof fn law_observing_only_forgets(world: World, peer_id: Seq<char>)
    ensures
        world.observed().states.contains_key(peer_id) <==> world.states.contains_key(peer_id)
            && !world.network.pending.contains(peer_id),
        world.observed().states.contains_key(peer_id) ==> world.observed().states[peer_id]
            == world.states[peer_id],
        world.observed().network.pending == Seq::<Seq<char>>::empty(),
        world.observed().network.ids == world.network.ids,
        world.observed().network.endpoints == world.network.endpoints,
        world.wf() ==> world.observed().wf(),
{
}

/// A request leaves the table and the registry well formed: the table holds
/// `Connecting`, `Authorized` and `Internal` only, so no entry is ever left in
/// state `Unauthorized`, and the registry lists each peer once.
pub proof fn law_step_keeps_world_well_formed(
    world: World,
    peer_id: Seq<char>,
    action: AuthorizationAction,
)
    requires
        world.wf(),
    ensures
        world.step(peer_id, action).world.wf(),
        forall|id: Seq<char>| #[trigger]
            world.step(peer_id, action).world.states.contains_key(id) ==> world.step(
                peer_id,
                action,
            ).world.states[id] != AuthorizationState::Unauthorized,
{
    let seen = world.observed();
    if seen.network.has_peer(peer_id) {
        lemma_removed_wf(seen.network, peer_id);
        match action {
            AuthorizationAction::TrustIdentifying(new_id) => {
                lemma_renamed_wf(seen.network, peer_id, new_id@);
            },
            _ => {},
        }
    }
}

/// A request changes the entry of its peer and, where it identifies the peer,
/// the entry of the verified identifier, and no other: every other peer keeps
/// the entry that it has once the recorded disconnections are collected.
pub proof fn law_step_leaves_other_peers_alone(
    world: World,
    peer_id: Seq<char>,
    action: AuthorizationAction,
    other: Seq<char>,
)
    requires
        other != peer_id,
        action matches AuthorizationAction::TrustIdentifying(new_id) ==> other != new_id@,
    ensures
        world.step(peer_id, action).world.states.contains_key(other)
            <==> world.observed().states.contains_key(other),
        state_of(world.step(peer_id, action).world.states, other) == state_of(
            world.observed().states,
            other,
        ),
{
}

/// When each result comes. With the state that the request finds for the peer
/// once the recorded disconnections are collected, and the registry as it is:
/// every success and every error is given on the inputs named here, and on no
/// others.
pub proof fn law_results_follow_the_table(
    world: World,
    peer_id: Seq<char>,
    action: AuthorizationAction,
)
    ensures
        ({
            let state = state_of(world.observed().states, peer_id);
            let registered = world.network.has_peer(peer_id);
            let inproc = registered && is_inproc(world.network.endpoints[peer_id]);
            let evictable = state is Unknown || state is Connecting || state is Authorized;
            let result = world.step(peer_id, action).result;
            &&& result == Ok::<AuthorizationState, AuthorizationActionError>(
                AuthorizationState::Internal,
            ) <==> state is Unknown && action is Connecting && inproc
            &&& result == Ok::<AuthorizationState, AuthorizationActionError>(
                AuthorizationState::Connecting,
            ) <==> state is Unknown && action is Connecting && !inproc
            &&& result == Ok::<AuthorizationState, AuthorizationActionError>(
                AuthorizationState::Authorized,
            ) <==> state is Connecting && action is TrustIdentifying && registered
            &&& result == Ok::<AuthorizationState, AuthorizationActionError>(
                AuthorizationState::Unauthorized,
            ) <==> evictable && action is Unauthorizing && registered
            &&& result == Err::<AuthorizationState, AuthorizationActionError>(
                AuthorizationActionError::AlreadyConnecting,
            ) <==> state is Connecting && action is Connecting
            &&& result == Err::<AuthorizationState, AuthorizationActionError>(
                AuthorizationActionError::ConnectionLost,
            ) <==> !registered && ((state is Connecting && action is TrustIdentifying) || (evictable
                && action is Unauthorizing))
            &&& result == Err::<AuthorizationState, AuthorizationActionError>(
                AuthorizationActionError::InvalidMessageOrder(state, action),
            ) <==> (state is Unknown && action is TrustIdentifying) || (state is Authorized
                && !(action is Unauthorizing)) || state is Internal || state is Unauthorized
            &&& result is Ok ==> result->Ok_0 != AuthorizationState::Unknown
            &&& (result is Err && result->Err_0 is InvalidMessageOrder) ==> result == Err::<
                AuthorizationState,
                AuthorizationActionError,
            >(AuthorizationActionError::InvalidMessageOrder(state, action))
        }),
{
}

/// A status is published only by a transition that succeeds, and only the two
/// observable ones: `Authorized` for the peer that the transition has just given
/// an entry that grants access, `Unauthorized` for the peer whose entry it has
/// just taken out. `Connecting` is never published.
pub proof fn law_published_status_matches_transition(
    world: World,
    peer_id: Seq<char>,
    action: AuthorizationAction,
)
    ensures
        ({
            let outcome = world.step(peer_id, action);
            match outcome.notification {
                Some(told) => match told.status {
                    PeerAuthorizationState::Authorized => {
                        &&& (outcome.result == Ok::<
                            AuthorizationState,
                            AuthorizationActionError,
                        >(AuthorizationState::Authorized) || outcome.result == Ok::<
                            AuthorizationState,
                            AuthorizationActionError,
                        >(AuthorizationState::Internal))
                        &&& state_of(outcome.world.states, told.peer_id).grants_access()
                        &&& outcome.world.network.has_peer(told.peer_id)
                    },
                    PeerAuthorizationState::Unauthorized => {
                        &&& outcome.result == Ok::<AuthorizationState, AuthorizationActionError>(
                            AuthorizationState::Unauthorized,
                        )
                        &&& told.peer_id == peer_id
                        &&& world.observed().states.contains_key(peer_id)
                        &&& !outcome.world.states.contains_key(peer_id)
                    },
                },
                None => outcome.result != Ok::<AuthorizationState, AuthorizationActionError>(
                    AuthorizationState::Authorized,
                ) && outcome.result != Ok::<AuthorizationState, AuthorizationActionError>(
                    AuthorizationState::Internal,
                ),
            }
        }),
{
}

/// After `next_state(p, Unauthorizing)` has returned `Unauthorized`, the peer is
/// not authorized and the registry does not hold it.
pub proof fn law_unauthorized_peer_is_gone(world: World, peer_id: Seq<char>)
    ensures
        ({
            let outcome = world.step(peer_id, AuthorizationAction::Unauthorizing);
            outcome.result == Ok::<AuthorizationState, AuthorizationActionError>(
                AuthorizationState::Unauthorized,
            ) ==> !outcome.world.grants(peer_id) && !outcome.world.network.has_peer(peer_id)
        }),
{
}

/// After `next_state(p, TrustIdentifying(q))` has returned `Authorized` for two
/// different identifiers, `p` is not authorized any more and `q` is.
pub proof fn law_identified_peer_is_rekeyed(world: World, peer_id: Seq<char>, new_id: String)
    requires
        peer_id != new_id@,
    ensures
        ({
            let outcome = world.step(peer_id, AuthorizationAction::TrustIdentifying(new_id));
            outcome.result == Ok::<AuthorizationState, AuthorizationActionError>(
                AuthorizationState::Authorized,
            ) ==> !outcome.world.grants(peer_id) && outcome.world.grants(new_id@)
        }),
{
}

/// Once a disconnection of `p` has been recorded, the next operation takes `p`
/// as `Unknown`: `is_authorized(p)` answers no, and `next_state(p, _)` decides as
/// for a peer without an entry.
pub proof fn law_disconnected_peer_is_unknown(
    world: World,
    peer_id: Seq<char>,
    action: AuthorizationAction,
)
    requires
        world.network.pending.contains(peer_id),
    ensures
        state_of(world.observed().states, peer_id) == AuthorizationState::Unknown,
        !world.grants(peer_id),
        world.step(peer_id, action) == match action {
            AuthorizationAction::Connecting => world.observed().connect(peer_id),
            AuthorizationAction::Unauthorizing => world.observed().turn_away(peer_id),
            AuthorizationAction::TrustIdentifying(_) => world.observed().refused(
                AuthorizationActionError::InvalidMessageOrder(AuthorizationState::Unknown, action),
            ),
        },
{
}

/// Two `Connecting` in a row for a peer without an entry, on an endpoint that is
/// not in-process: the first starts the handshake, the second is refused as
/// `AlreadyConnecting`, and the peer stays `Connecting`.
pub proof fn law_connecting_twice(world: World, peer_id: Seq<char>)
    requires
        state_of(world.observed().states, peer_id) == AuthorizationState::Unknown,
        !(world.network.has_peer(peer_id) && is_inproc(world.network.endpoints[peer_id])),
    ensures
        ({
            let first = world.step(peer_id, AuthorizationAction::Connecting);
            let second = first.world.step(peer_id, AuthorizationAction::Connecting);
            &&& first.result == Ok::<AuthorizationState, AuthorizationActionError>(
                AuthorizationState::Connecting,
            )
            &&& second.result == Err::<AuthorizationState, AuthorizationActionError>(
                AuthorizationActionError::AlreadyConnecting,
            )
            &&& state_of(second.world.states, peer_id) == AuthorizationState::Connecting
            &&& second.notification is None
        }),
{
    // Nothing is recorded as lost after the first request, so the second finds its table.
    let first = world.step(peer_id, AuthorizationAction::Connecting);
    assert(first.world.observed().states =~= first.world.states);
}

/// `Unauthorizing` once more after `Unauthorizing`, for a peer that was
/// `Unknown`, `Connecting` or `Authorized`: the registry does not hold the peer
/// any more and refuses, so the second request gives `ConnectionLost`, publishes
/// nothing, and changes neither the table nor the peers of the registry.
pub proof fn law_unauthorizing_twice(world: World, peer_id: Seq<char>)
    requires
        stored_states_valid(world.states),
        state_of(world.observed().states, peer_id) != AuthorizationState::Internal,
    ensures
        ({
            let first = world.step(peer_id, AuthorizationAction::Unauthorizing);
            let second = first.world.step(peer_id, AuthorizationAction::Unauthorizing);
            &&& first.result == Ok::<AuthorizationState, AuthorizationActionError>(
                AuthorizationState::Unauthorized,
            ) <==> world.network.has_peer(peer_id)
            &&& second.result == Err::<AuthorizationState, AuthorizationActionError>(
                AuthorizationActionError::ConnectionLost,
            )
            &&& second.notification is None
            &&& second.world.states == first.world.states
            &&& second.world.network == first.world.network.collected()
        }),
{
    // The only peer that can be recorded as lost after the first request is this
    // one, and it has no entry then.
    let first = world.step(peer_id, AuthorizationAction::Unauthorizing);
    assert(!first.world.states.contains_key(peer_id));
    assert(first.world.observed().states =~= first.world.states);
}

/// A peer whose disconnection has been recorded and that the registry has
/// accepted again under the same identifier, on an endpoint that is not
/// in-process, goes through `Connecting` and `TrustIdentifying` again.
pub proof fn law_reauthorization_after_disconnect(
    world: World,
    peer_id: Seq<char>,
    new_id: String,
)
    requires
        world.network.pending.contains(peer_id),
        world.network.has_peer(peer_id),
        !is_inproc(world.network.endpoints[peer_id]),
    ensures
        ({
            let first = world.step(peer_id, AuthorizationAction::Connecting);
            let second = first.world.step(peer_id, AuthorizationAction::TrustIdentifying(new_id));
            &&& first.result == Ok::<AuthorizationState, AuthorizationActionError>(
                AuthorizationState::Connecting,
            )
            &&& second.result == Ok::<AuthorizationState, AuthorizationActionError>(
                AuthorizationState::Authorized,
            )
            &&& second.world.grants(new_id@)
        }),
{
    // Nothing is recorded as lost after the first request, so the second finds its table.
    let first = world.step(peer_id, AuthorizationAction::Connecting);
    assert(first.world.observed().states =~= first.world.states);
}

/// One request in a history of requests, with the registry as the request finds
/// it. Whatever happens to the registry between two requests, and whatever a
/// query in between has collected, shows in the registry of the later one.
pub struct Call {
    pub network: NetworkView,
    pub peer_id: Seq<char>,
    pub action: AuthorizationAction,
}

/// The state table before the request with number `at`, in a history that starts
/// from the table `initial`.
pub open spec fn table_before(
    initial: Map<Seq<char>, AuthorizationState>,
    calls: Seq<Call>,
    at: nat,
) -> Map<Seq<char>, AuthorizationState>
    decreases at,
{
    if at == 0 {
        initial
    } else {
        let call = calls[at - 1];
        World {
            states: table_before(initial, calls, (at - 1) as nat),
            network: call.network,
        }.step(call.peer_id, call.action).world.states
    }
}

/// What the request with number `at` comes to.
pub open spec fn outcome_at(
    initial: Map<Seq<char>, AuthorizationState>,
    calls: Seq<Call>,
    at: nat,
) -> Outcome {
    let call = calls[at as int];
    World { states: table_before(initial, calls, at), network: call.network }.step(
        call.peer_id,
        call.action,
    )
}

/// In every history of requests, whatever happens to the registry in between:
/// once `Unauthorized` has been published for a peer, nothing more is published
/// for it, neither `Authorized` nor `Unauthorized` again, for as long as no
/// request gives the peer an entry again. So the statuses published for a peer
/// between two admissions are some `Authorized` and then at most one
/// `Unauthorized`.
pub proof fn law_unauthorized_is_published_last(
    initial: Map<Seq<char>, AuthorizationState>,
    calls: Seq<Call>,
    peer_id: Seq<char>,
    revoked_at: nat,
    later: nat,
)
    requires
        revoked_at < later < calls.len(),
        outcome_at(initial, calls, revoked_at).notification == Some(
            Notification { peer_id, status: PeerAuthorizationState::Unauthorized },
        ),
        forall|at: nat|
            revoked_at + 1 < at <= later + 1 ==> !(#[trigger] table_before(
                initial,
                calls,
                at,
            )).contains_key(peer_id),
    ensures
        match outcome_at(initial, calls, later).notification {
            Some(told) => told.peer_id != peer_id,
            None => true,
        },
{
    // The request that published `Unauthorized` took the entry out, and no request
    // up to the later one has brought it back: the later one finds the peer without
    // an entry and leaves it without one.
    let revoked = outcome_at(initial, calls, revoked_at);
    assert(table_before(initial, calls, revoked_at + 1) == revoked.world.states);
    assert(!table_before(initial, calls, later).contains_key(peer_id));
    assert(!table_before(initial, calls, later + 1).contains_key(peer_id));
}

/// Every peer with an entry that grants access is registered.
pub open spec fn granted_peers_registered(world: World) -> bool {
    forall|id: Seq<char>| #[trigger]
        world.observed().states.contains_key(id) && world.observed().states[id].grants_access()
            ==> world.network.has_peer(id)
}

/// A request keeps every peer with an entry that grants access registered.
pub proof fn law_step_keeps_granted_peers_registered(
    world: World,
    peer_id: Seq<char>,
    action: AuthorizationAction,
)
    requires
        granted_peers_registered(world),
    ensures
        granted_peers_registered(world.step(peer_id, action).world),
{
    let after = world.step(peer_id, action).world;
    assert forall|id: Seq<char>| #[trigger]
        after.observed().states.contains_key(id) && after.observed().states[id].grants_access()
        implies after.network.has_peer(id) by {
        assert(after.states.contains_key(id));
    }
}

} // verus!
