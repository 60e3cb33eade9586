//! The navigation state container: the single source of truth for which
//! screen is showing, together with its change-subscription registry.
//!
//! Subscriptions are held in a `smallvec::SmallVec`, sized for the one
//! internal observer registered at construction. A subscription is
//! identified by the position at which it was registered; notifying a
//! subscriber is an extension point with no behavior of its own, so a
//! mutation reports the identifiers it notified, in registration order.

use vstd::prelude::*;
use smallvec::SmallVec;
use crate::route::Route;

verus! {

/// The subscription registry: a `smallvec::SmallVec` sized for the one
/// subscription registered at construction, behind trusted wrappers.
#[verifier::external_body]
pub struct SubscriptionStore {
    items: SmallVec<[u64; 1]>,
}

/// What a subscription store holds, in registration order.
pub uninterp spec fn subscription_ids(v: SubscriptionStore) -> Seq<u64>;

/// Relies on smallvec::SmallVec::new: constructs an empty vector.
#[verifier::external_body]
fn subscriptions_new() -> (v: SubscriptionStore)
    ensures
        subscription_ids(v) == Seq::<u64>::empty(),
{
    SubscriptionStore { items: SmallVec::new() }
}

/// Relies on smallvec::SmallVec::push: appends the item at the end of the
/// vector. Exhausting the address space aborts the process inside the
/// allocator, as a `Vec` push would.
#[verifier::external_body]
fn subscriptions_push(v: &mut SubscriptionStore, id: u64)
    ensures
        subscription_ids(*final(v)) == subscription_ids(*old(v)).push(id),
{
    v.items.push(id)
}

/// Relies on smallvec::SmallVec::len: the number of items the vector holds.
#[verifier::external_body]
fn subscriptions_len(v: &SubscriptionStore) -> (n: usize)
    ensures
        n == subscription_ids(*v).len(),
{
    v.items.len()
}

/// Relies on smallvec::SmallVec::as_slice: a slice of all items, in order.
#[verifier::external_body]
fn subscriptions_all(v: &SubscriptionStore) -> (ids: Vec<u64>)
    ensures
        ids@ == subscription_ids(*v),
{
    v.items.as_slice().to_vec()
}

/// The singleton holding the currently active route and the registry of
/// change subscriptions.
pub struct AppRoute {
    pub route: Route,
    pub subscriptions: SubscriptionStore,
}

impl AppRoute {
    /// The registered subscription identifiers, in registration order.
    pub open spec fn subs(self) -> Seq<u64> {
        subscription_ids(self.subscriptions)
    }

    /// A subscription's identifier is the position at which it was
    /// registered.
    pub open spec fn wf(self) -> bool {
        forall|i: int| 0 <= i < self.subs().len() ==> self.subs()[i] == i as u64
    }

    /// How a state after `set_route` relates to the state before it: the
    /// given route is current and the subscriptions are untouched.
    pub open spec fn after_set_route(pre: AppRoute, post: AppRoute, route: Route) -> bool {
        &&& post.route == route
        &&& post.subs() == pre.subs()
    }

    /// A fresh container: the default route is `Home`, and the one internal
    /// change observer is registered as subscription `0`.
    pub fn new() -> (s: Self)
        ensures
            s.route == Route::Home,
            s.subs() == seq![0u64],
            s.wf(),
    {
        let mut subscriptions = subscriptions_new();
        subscriptions_push(&mut subscriptions, 0);
        proof {
            assert(Seq::<u64>::empty().push(0u64) =~= seq![0u64]);
        }
        Self { route: Route::Home, subscriptions }
    }

    /// Registers a further change subscriber — a documented extension point
    /// with no behavior of its own — and returns its fresh identifier.
    pub fn subscribe(&mut self) -> (id: u64)
        requires
            old(self).wf(),
        ensures
            final(self).wf(),
            final(self).route == old(self).route,
            id == old(self).subs().len(),
            final(self).subs() == old(self).subs().push(id),
            forall|i: int| 0 <= i < old(self).subs().len() ==> old(self).subs()[i] != id,
    {
        let id = subscriptions_len(&self.subscriptions) as u64;
        subscriptions_push(&mut self.subscriptions, id);
        id
    }

    /// A read-only snapshot of the currently active route.
    pub fn current(&self) -> (r: Route)
        ensures
            r == self.route,
    {
        self.route
    }

    /// Makes `route` the current route and synchronously notifies every
    /// subscriber; returns the identifiers notified, in registration order.
    pub fn set_route(&mut self, route: Route) -> (notified: Vec<u64>)
        ensures
            Self::after_set_route(*old(self), *final(self), route),
            final(self).route == route,
            notified@ == old(self).subs(),
            old(self).wf() ==> final(self).wf(),
    {
        self.route = route;
        subscriptions_all(&self.subscriptions)
    }
}

/// Law: setting a route and then reading the current route back yields
/// exactly the value that was set, from any starting state.
pub proof fn lemma_set_route_round_trip(pre: AppRoute, post: AppRoute, route: Route)
    requires
        AppRoute::after_set_route(pre, post, route),
    ensures
        post.route == route,
{
}

} // verus!
