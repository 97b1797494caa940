//! Observers of peer authorization, and the error that registering one can give.

use vstd::prelude::*;
use vstd::string::StringExecFns;

use crate::state::PeerAuthorizationState;
use crate::transition::{publish, Notification};

verus! {

/// The error that is handed back when a callback cannot be registered, and that a
/// callback hands back when it fails.
#[derive(Debug)]
pub struct AuthorizationCallbackError(pub String);

impl AuthorizationCallbackError {
    /// The message that describes the error.
    pub open spec fn text(self) -> Seq<char> {
        "unable to register callback: "@ + self.0@
    }

    /// The message that describes the error.
    pub fn message(&self) -> (text: String)
        ensures
            text@ == self.text(),
    {
        let mut text = "unable to register callback: ".to_owned();
        text.append(self.0.as_str());
        text
    }
}

/// A callback for changes in a peer's authorization state.
///
/// A callback keeps a record of what it has been told, so that whoever calls it
/// can say that it was told. It runs while the manager is borrowed mutably, so it
/// cannot reach back into the manager that calls it. A plain function becomes a
/// callback through `FnCallback`, which keeps the record for it.
pub trait AuthorizationCallback: Send {
    /// Every change that the callback has been told of, oldest first.
    spec fn heard(&self) -> Seq<Notification>;

    /// This function is called when a peer's state changes to Authorized or
    /// Unauthorized. Whatever it answers, the change is on its record afterwards.
    fn on_authorization_change(&mut self, peer_id: &str, state: PeerAuthorizationState) -> (told:
        Result<(), AuthorizationCallbackError>)
        ensures
            final(self).heard() == old(self).heard().push(
                Notification { peer_id: peer_id@, status: state },
            ),
    ;
}

/// What every callback of `before` has on its record once it has been told of
/// `notification`: `after` holds the same callbacks in the same places, each with
/// the notification added to what it had heard. Without a notification nothing
/// is added.
pub open spec fn each_told(
    before: Seq<Box<dyn AuthorizationCallback>>,
    after: Seq<Box<dyn AuthorizationCallback>>,
    notification: Option<Notification>,
) -> bool {
    &&& after.len() == before.len()
    &&& forall|i: int|
        0 <= i < before.len() ==> (#[trigger] after[i]).heard() == publish(
            before[i].heard(),
            notification,
        )
}

/// A function used as a callback. The function has to accept every peer and
/// every status.
pub struct FnCallback<F> where
    F: Fn(&str, PeerAuthorizationState) -> Result<(), AuthorizationCallbackError> + Send,
 {
    function: F,
    heard: Ghost<Seq<Notification>>,
}

impl<F> FnCallback<F> where
    F: Fn(&str, PeerAuthorizationState) -> Result<(), AuthorizationCallbackError> + Send,
 {
    #[verifier::type_invariant]
    spec fn accepts_all(self) -> bool {
        forall|peer_id: &str, state: PeerAuthorizationState|
            call_requires(self.function, (peer_id, state))
    }

    /// The function that is called.
    pub closed spec fn function(&self) -> F {
        self.function
    }

    /// Wraps `function` so that it can be registered as a callback that has not
    /// been told anything yet.
    pub fn new(function: F) -> (callback: Self)
        requires
            forall|peer_id: &str, state: PeerAuthorizationState|
                call_requires(function, (peer_id, state)),
        ensures
            callback.function() == function,
            callback.heard() == Seq::<Notification>::empty(),
    {
        FnCallback { function, heard: Ghost(Seq::empty()) }
    }
}

impl<F> AuthorizationCallback for FnCallback<F> where
    F: Fn(&str, PeerAuthorizationState) -> Result<(), AuthorizationCallbackError> + Send,
 {
    closed spec fn heard(&self) -> Seq<Notification> {
        self.heard@
    }

    /// Calls the function and hands back what it returns.
    fn on_authorization_change(&mut self, peer_id: &str, state: PeerAuthorizationState) -> (told:
        Result<(), AuthorizationCallbackError>)
        ensures
            final(self).function() == old(self).function(),
            call_ensures(old(self).function(), (peer_id, state), told),
    {
        proof {
            use_type_invariant(&*self);
        }
        let told = (self.function)(peer_id, state);
        self.heard = Ghost(self.heard@.push(Notification { peer_id: peer_id@, status: state }));
        told
    }
}

} // verus!
