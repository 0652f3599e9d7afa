//! A process-wide container, built once by a single winner among concurrent
//! initializers and then read without locks.
use crate::container::Container;
use crate::key::KeyView;
use crate::provider::Provider;
use once_cell::sync::OnceCell;
use std::sync::atomic::{AtomicU8, Ordering};
use vstd::prelude::*;

verus! {

/// No initializer has claimed the container yet.
pub const UNINITIALIZED: u8 = 0;

/// An initializer has claimed the container and is building it.
pub const INITIALIZING: u8 = 1;

/// The container is built and published.
pub const INITIALIZED: u8 = 2;

/// Relies on `once_cell::sync::OnceCell::set`: writes the value if the cell is
/// empty, else gives it back.
pub assume_specification<T>[ once_cell::sync::OnceCell::<T>::set ](
    cell: &once_cell::sync::OnceCell<T>,
    value: T,
) -> (r: Result<(), T>)
    ensures
        r matches Err(v) ==> v == value,
;

/// Container initialization errors.
#[derive(Debug, Clone, Copy, PartialEq, Eq, Structural)]
pub enum InitContainerErrorKind {
    /// The container was initializing.
    Initializing,
    /// The container was already initialized.
    AlreadyInitialized,
}

/// Error returned when the container initialization failed.
#[derive(Debug, Clone, Copy, PartialEq, Eq, Structural)]
pub struct InitContainerError(pub InitContainerErrorKind);

impl InitContainerError {
    /// The kind of this error.
    pub fn kind(&self) -> (r: InitContainerErrorKind)
        ensures
            r == self.0,
    {
        self.0
    }

    /// A description of this error.
    pub fn message(&self) -> (r: &'static str)
        ensures
            self.0 is Initializing ==> r@ == "The container was initializing"@,
            self.0 is AlreadyInitialized ==> r@ == "The container was already initialized"@,
    {
        proof {
            reveal_strlit("The container was initializing");
            reveal_strlit("The container was already initialized");
        }
        match self.0 {
            InitContainerErrorKind::Initializing => "The container was initializing",
            InitContainerErrorKind::AlreadyInitialized => "The container was already initialized",
        }
    }
}

/// The lifecycle of a process-wide container.
pub enum BootState {
    Uninitialized,
    Initializing,
    Initialized,
}

/// What happens to the lifecycle.
pub enum BootEvent {
    /// An initializer tries to claim the container: a compare-and-swap from
    /// uninitialized to initializing.
    Claim,
    /// The claiming initializer publishes the container it built.
    Publish,
}

/// The state of the lifecycle that an atomic byte encodes.
pub open spec fn boot_state(b: u8) -> BootState {
    if b == UNINITIALIZED {
        BootState::Uninitialized
    } else if b == INITIALIZING {
        BootState::Initializing
    } else {
        BootState::Initialized
    }
}

/// One step of the lifecycle: the next state, and whether the event was a
/// claim that succeeded.
pub open spec fn boot_step(s: BootState, e: BootEvent) -> (BootState, bool) {
    match e {
        BootEvent::Claim => match s {
            BootState::Uninitialized => (BootState::Initializing, true),
            _ => (s, false),
        },
        BootEvent::Publish => match s {
            BootState::Initializing => (BootState::Initialized, false),
            _ => (s, false),
        },
    }
}

/// The number of claims that succeed when `events` happen, in order, from `s`.
pub open spec fn winners(s: BootState, events: Seq<BootEvent>) -> nat
    decreases events.len(),
{
    if events.len() == 0 {
        0
    } else {
        let (next, won) = boot_step(s, events[0]);
        (if won {
            1nat
        } else {
            0nat
        }) + winners(next, events.drop_first())
    }
}

/// The first claim among `events` succeeds; every other one fails.
pub open spec fn has_claim(events: Seq<BootEvent>) -> bool {
    exists|i: int| 0 <= i < events.len() && events[i] is Claim
}

/// What the outcome of the claiming compare-and-swap tells an initializer.
pub open spec fn claim_result(observed: Result<u8, u8>) -> Result<(), InitContainerErrorKind> {
    match observed {
        Ok(_) => Ok(()),
        Err(b) => if b == INITIALIZING {
            Err(InitContainerErrorKind::Initializing)
        } else {
            Err(InitContainerErrorKind::AlreadyInitialized)
        },
    }
}

/// What `compare_exchange(UNINITIALIZED, INITIALIZING)` observes on a state
/// byte `b`, as std documents it: `Ok` with the previous value when it was
/// the expected one, else `Err` with the value found.
pub open spec fn claim_observed(b: u8) -> Result<u8, u8> {
    if b == UNINITIALIZED {
        Ok(b)
    } else {
        Err(b)
    }
}

/// The result an initializer reports for what its compare-and-swap observed.
pub open spec fn init_result(observed: Result<u8, u8>) -> Result<(), InitContainerError> {
    match claim_result(observed) {
        Ok(_) => Ok(()),
        Err(kind) => Err(InitContainerError(kind)),
    }
}

/// The state byte shows a published container.
pub fn published(state: u8) -> (r: bool)
    ensures
        r == (state == INITIALIZED),
{
    state == INITIALIZED
}

/// The state byte shows a container being built.
pub fn initializing(state: u8) -> (r: bool)
    ensures
        r == (state == INITIALIZING),
{
    state == INITIALIZING
}

/// Decides what an initializer does after its compare-and-swap from
/// uninitialized to initializing: build the container if the swap succeeded;
/// otherwise report the state it found.
pub fn decide_claim(observed: Result<u8, u8>) -> (r: Result<(), InitContainerErrorKind>)
    ensures
        r == claim_result(observed),
{
    match observed {
        Ok(_) => Ok(()),
        Err(b) => {
            if b == INITIALIZING {
                Err(InitContainerErrorKind::Initializing)
            } else {
                Err(InitContainerErrorKind::AlreadyInitialized)
            }
        },
    }
}

/// A container that is built once and then shared read-only.
pub struct GlobalContainer {
    container: OnceCell<Container>,
    state: AtomicU8,
}

impl GlobalContainer {
    /// Constructs an uninitialized global container.
    pub fn new() -> (r: GlobalContainer) {
        GlobalContainer { container: OnceCell::new(), state: AtomicU8::new(UNINITIALIZED) }
    }

    /// Claims the container and builds it with `init`, then publishes it.
    ///
    /// Only one call can claim it. A call that finds it being built returns
    /// `Initializing` at once; one that finds it built returns
    /// `AlreadyInitialized`; neither runs `init`. Waiting until the builder is
    /// done (polling [`is_initializing`]) is left to the caller: that loop
    /// has no bound that could be proved here.
    ///
    /// [`is_initializing`]: GlobalContainer::is_initializing
    pub fn initialize<F: FnOnce(&mut Container)>(&self, init: F) -> (r: Result<(), InitContainerError>)
        requires
            forall|c: &mut Container| init.requires((c,)),
        ensures
            exists|observed: Result<u8, u8>| r == init_result(observed),
            r is Ok ==> exists|c: &mut Container|
                (*c)@ == Map::<KeyView, Provider>::empty() && call_ensures(init, (c,), ()),
    {
        let observed = self.state.compare_exchange(
            UNINITIALIZED,
            INITIALIZING,
            Ordering::SeqCst,
            Ordering::SeqCst,
        );
        match decide_claim(observed) {
            Ok(()) => {
                let mut container = Container::new();
                init(&mut container);
                let _ = self.container.set(container);
                self.state.store(INITIALIZED, Ordering::SeqCst);
                Ok(())
            },
            Err(kind) => {
                let r = Err(InitContainerError(kind));
                assert(r == init_result(observed));
                r
            },
        }
    }

    /// Returns `true` while the claiming initializer is building the
    /// container.
    pub fn is_initializing(&self) -> (r: bool) {
        initializing(self.state.load(Ordering::SeqCst))
    }

    /// Returns the container once it is published, or `None`; never blocks.
    pub fn get(&self) -> (r: Option<&Container>) {
        if published(self.state.load(Ordering::SeqCst)) {
            self.container.get()
        } else {
            None
        }
    }
}

} // verus!
