//! Properties of the registry and of the global lifecycle. The registry laws
//! are stated over the map that the container's contracts use; the lifecycle
//! laws over the state machine of `global`, which
//! `law_claim_follows_lifecycle` ties to what `GlobalContainer::initialize`
//! reports.
use crate::container::{insert_if_absent, resolved_from, scoped_from, singleton_from};
use crate::global::{
    boot_state, boot_step, claim_observed, has_claim, init_result, winners, BootEvent, BootState,
    InitContainerError, InitContainerErrorKind,
};
use crate::key::KeyView;
use crate::provider::Provider;
use crate::resolved::Resolved;
use std::sync::Arc;
use vstd::prelude::*;

verus! {

/// Registering two providers at one key with insert-or-replace
/// ([`Container::add_provider_internal`](crate::Container::add_provider_internal))
/// leaves one provider at that key, the second; the rest of the registry is as
/// if only the second had been registered.
pub proof fn law_replace_keeps_second(m: Map<KeyView, Provider>, k: KeyView, p1: Provider, p2: Provider)
    ensures
        m.insert(k, p1).insert(k, p2) == m.insert(k, p2),
        m.insert(k, p1).insert(k, p2)[k] == p2,
        m.dom().finite() ==> m.insert(k, p1).insert(k, p2).len() == m.insert(k, p1).len(),
{
    assert(m.insert(k, p1).insert(k, p2) =~= m.insert(k, p2));
    if m.dom().finite() {
        assert(m.insert(k, p1).dom().insert(k) =~= m.insert(k, p1).dom());
    }
}

/// Registering two providers at one key with insert-if-absent
/// ([`Container::add_provider_if_absent`](crate::Container::add_provider_if_absent))
/// keeps the first: the second registration changes nothing.
pub proof fn law_first_registration_wins(m: Map<KeyView, Provider>, k: KeyView, p1: Provider, p2: Provider)
    ensures
        insert_if_absent(insert_if_absent(m, k, p1), k, p2) == insert_if_absent(m, k, p1),
        !m.contains_key(k) ==> insert_if_absent(insert_if_absent(m, k, p1), k, p2)[k] == p1,
{
}

/// A scoped lookup at a key whose provider is a singleton gives nothing, and
/// a singleton lookup at a key whose provider is scoped gives nothing.
pub proof fn law_kind_narrowing<T>(
    m: Map<KeyView, Provider>,
    k: KeyView,
    scoped: Option<T>,
    shared: Option<Arc<T>>,
)
    requires
        m.contains_key(k),
        scoped_from(m, k, scoped),
        singleton_from(m, k, shared),
    ensures
        m[k] is Singleton ==> scoped is None,
        m[k] is Scoped ==> shared is None,
{
}

/// After the provider of a key is removed
/// ([`Container::remove`](crate::Container::remove)), every lookup at that key
/// gives nothing, and the registry holds one provider less.
pub proof fn law_removal<T>(
    m: Map<KeyView, Provider>,
    k: KeyView,
    resolved: Option<Resolved<T>>,
    scoped: Option<T>,
    shared: Option<Arc<T>>,
)
    requires
        m.dom().finite(),
        m.contains_key(k),
        resolved_from(m.remove(k), k, resolved),
        scoped_from(m.remove(k), k, scoped),
        singleton_from(m.remove(k), k, shared),
    ensures
        resolved is None,
        scoped is None,
        shared is None,
        m.remove(k).len() == m.len() - 1,
{
}

/// What an initializer reports for the state byte `b` it meets is what the
/// lifecycle says of a claim in that state: it succeeds exactly when the claim
/// wins, reports `Initializing` while the container is being built, and
/// `AlreadyInitialized` once it is published.
pub proof fn law_claim_follows_lifecycle(b: u8)
    ensures
        (init_result(claim_observed(b)) is Ok) == boot_step(boot_state(b), BootEvent::Claim).1,
        boot_state(b) is Initializing ==> init_result(claim_observed(b)) == Err::<(), InitContainerError>(
            InitContainerError(InitContainerErrorKind::Initializing),
        ),
        boot_state(b) is Initialized ==> init_result(claim_observed(b)) == Err::<(), InitContainerError>(
            InitContainerError(InitContainerErrorKind::AlreadyInitialized),
        ),
{
}

proof fn lemma_no_winner_after_claim(s: BootState, events: Seq<BootEvent>)
    requires
        !(s is Uninitialized),
    ensures
        winners(s, events) == 0,
    decreases events.len(),
{
    if events.len() > 0 {
        let (next, won) = boot_step(s, events[0]);
        assert(!won && !(next is Uninitialized));
        lemma_no_winner_after_claim(next, events.drop_first());
    }
}

/// Of any sequence of claims and publications on a fresh lifecycle, exactly
/// one claim succeeds if there is any claim at all; every other claim fails.
pub proof fn law_single_winner(events: Seq<BootEvent>)
    ensures
        winners(BootState::Uninitialized, events) == (if has_claim(events) {
            1nat
        } else {
            0nat
        }),
    decreases events.len(),
{
    if events.len() > 0 {
        let rest = events.drop_first();
        if events[0] is Claim {
            assert(has_claim(events));
            lemma_no_winner_after_claim(BootState::Initializing, rest);
        } else {
            law_single_winner(rest);
            assert(has_claim(events) == has_claim(rest)) by {
                if has_claim(events) {
                    let i = choose|i: int| 0 <= i < events.len() && events[i] is Claim;
                    assert(i > 0);
                    assert(rest[i - 1] is Claim);
                }
                if has_claim(rest) {
                    let i = choose|i: int| 0 <= i < rest.len() && rest[i] is Claim;
                    assert(events[i + 1] is Claim);
                }
            }
        }
    }
}

} // verus!
