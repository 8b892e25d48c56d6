//! The bridge as a whole: the listener that owns the one-time scheme
//! registration, composed with the router that relays matching activations
//! to the UI session.
//!
//! Activations reach the router only while the listener is active; a failed
//! registration leaves the bridge permanently degraded, and the rest of the
//! application keeps running.

use vstd::prelude::*;

use crate::classify::is_provider_callback;
use crate::event::EventModel;
use crate::event::event_model_of;
use crate::listener::BridgeState;
use crate::listener::Listener;
use crate::listener::RegistrationError;
use crate::listener::is_valid_scheme;
use crate::router::RouteOutcome;
use crate::router::Router;
use crate::router::Session;
use crate::router::published_of;
use crate::router::record_views;

verus! {

/// The deep-link bridge: listener and router, composed linearly.
pub struct Bridge {
    pub listener: Listener,
    pub router: Router,
}

impl Bridge {
    /// The listener's lifecycle state.
    pub open spec fn state(self) -> BridgeState {
        self.listener.state
    }

    /// Is a UI session attached to the router?
    pub open spec fn session_attached(self) -> bool {
        self.router.attached()
    }

    /// Every event the bridge has published to the UI session, in order.
    pub open spec fn published(self) -> Seq<EventModel> {
        self.router.published()
    }

    /// A fresh bridge: unregistered, no session, nothing published.
    pub fn new() -> (bridge: Bridge)
        ensures
            bridge.state() == BridgeState::Unregistered,
            !bridge.session_attached(),
            bridge.published() == Seq::<EventModel>::empty(),
    {
        Bridge { listener: Listener::new(), router: Router::new() }
    }

    /// Capture the UI session handle, once, at setup.
    pub fn attach_session(&mut self, session: Session)
        requires
            !old(self).session_attached(),
        ensures
            final (self).session_attached(),
            final (self).published() == session.queue(),
            final (self).state() == old(self).state(),
    {
        self.router.attach(session);
    }

    /// Attempt the one-time scheme registration; see `Listener::register`.
    /// The router — its session and everything published — is untouched.
    pub fn register(&mut self, scheme: &str, os_accepted: bool) -> (outcome: Result<
        (),
        RegistrationError,
    >)
        ensures
            final (self).router == old(self).router,
            old(self).state() != BridgeState::Unregistered ==> {
                &&& outcome == Result::<(), RegistrationError>::Err(
                    RegistrationError::AlreadyAttempted,
                )
                &&& final (self).state() == old(self).state()
            },
            old(self).state() == BridgeState::Unregistered && !is_valid_scheme(scheme@) ==> {
                &&& outcome == Result::<(), RegistrationError>::Err(
                    RegistrationError::InvalidScheme,
                )
                &&& final (self).state() == BridgeState::Inactive
            },
            old(self).state() == BridgeState::Unregistered && is_valid_scheme(scheme@)
                && !os_accepted ==> {
                &&& outcome == Result::<(), RegistrationError>::Err(RegistrationError::OsRejected)
                &&& final (self).state() == BridgeState::Inactive
            },
            old(self).state() == BridgeState::Unregistered && is_valid_scheme(scheme@)
                && os_accepted ==> {
                &&& outcome == Result::<(), RegistrationError>::Ok(())
                &&& final (self).state() == BridgeState::Active
                &&& final (self).listener.scheme_view() == Option::Some(scheme@)
            },
    {
        self.listener.register(scheme, os_accepted)
    }

    /// One OS activation arrives. It is handed to the router only while the
    /// listener is active; otherwise nothing happens and `None` says so.
    pub fn on_activation(&mut self, record: &str) -> (outcome: Option<RouteOutcome>)
        ensures
            final (self).state() == old(self).state(),
            final (self).session_attached() == old(self).session_attached(),
            !old(self).listener.delivers() ==> {
                &&& outcome == Option::<RouteOutcome>::None
                &&& final (self).published() == old(self).published()
            },
            old(self).listener.delivers() ==> {
                &&& (outcome == Option::Some(RouteOutcome::ClassificationMiss))
                    == !is_provider_callback(record@)
                &&& (outcome == Option::Some(RouteOutcome::Published)) == (is_provider_callback(
                    record@,
                ) && old(self).session_attached())
                &&& (outcome == Option::Some(RouteOutcome::PublishError)) == (is_provider_callback(
                    record@,
                ) && !old(self).session_attached())
                &&& is_provider_callback(record@) && old(self).session_attached()
                    ==> final (self).published() == old(self).published().push(
                    event_model_of(record@),
                )
                &&& !(is_provider_callback(record@) && old(self).session_attached())
                    ==> final (self).published() == old(self).published()
            },
    {
        let deliver = match self.listener.state {
            BridgeState::Active => true,
            _ => false,
        };
        if !deliver {
            return Option::None;
        }
        Option::Some(self.router.route(record))
    }
}

/// Set the bridge up and drive it through one whole delivery sequence: the
/// UI session is captured at setup, the one-time scheme registration is
/// attempted with the operating system's answer `os_accepted`, and then
/// each OS-delivered activation is accepted in delivery order.
///
/// With a valid scheme and an accepting system, the bridge ends active and
/// has published exactly the events of the matching activations, in order;
/// any registration failure leaves it inactive with nothing published, and
/// the run still completes.
pub fn run(scheme: &str, os_accepted: bool, activations: &Vec<String>) -> (bridge: Bridge)
    ensures
        bridge.session_attached(),
        is_valid_scheme(scheme@) && os_accepted ==> {
            &&& bridge.state() == BridgeState::Active
            &&& bridge.published() == published_of(record_views(activations@))
        },
        !(is_valid_scheme(scheme@) && os_accepted) ==> {
            &&& bridge.state() == BridgeState::Inactive
            &&& bridge.published() == Seq::<EventModel>::empty()
        },
{
    let mut bridge = Bridge::new();
    bridge.attach_session(Session::new());
    let registration = bridge.register(scheme, os_accepted);
    match registration {
        Result::Ok(()) => {
            bridge.router.route_all(activations);
            assert(Seq::<EventModel>::empty() + published_of(record_views(activations@)) =~= published_of(record_views(activations@)));
        },
        Result::Err(_) => {},
    }
    bridge
}

} // verus!
