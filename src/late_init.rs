//! A single-assignment cell whose one-shot constructor takes an argument that
//! is supplied only at first access.
use once_cell::sync::OnceCell;
use std::sync::Mutex;
use vstd::prelude::*;

verus! {

#[verifier::external_type_specification]
#[verifier::external_body]
#[verifier::reject_recursive_types(T)]
pub struct ExOnceCell<T>(once_cell::sync::OnceCell<T>);

/// Relies on `once_cell::sync::OnceCell::new`: an empty cell.
pub assume_specification<T>[ once_cell::sync::OnceCell::<T>::new ]() -> once_cell::sync::OnceCell<T>;

/// Relies on `once_cell::sync::OnceCell::get`: the value, if the cell has
/// been written; never blocks, never writes.
pub assume_specification<T>[ once_cell::sync::OnceCell::<T>::get ](
    cell: &once_cell::sync::OnceCell<T>,
) -> Option<&T>;

/// Relies on `once_cell::sync::OnceCell::get_or_try_init`: the value of the
/// cell, which `f` writes if the cell was empty; of concurrent callers, only
/// one runs its `f`. An error comes only from `f`, and leaves the cell empty.
///
/// Hazard: an `f` that initializes the same cell again from inside is an
/// error that once_cell leaves unspecified (it currently deadlocks). No
/// precondition can rule that out, so callers must not let `f` reach the cell
/// it initializes.
pub assume_specification<T, F, E>[ once_cell::sync::OnceCell::<T>::get_or_try_init::<F, E> ](
    cell: &once_cell::sync::OnceCell<T>,
    f: F,
) -> (r: Result<&T, E>)
    where
        F: FnOnce() -> Result<T, E>,
    requires
        f.requires(()),
    ensures
        r matches Err(e) ==> f.ensures((), Err(e)),
;

#[verifier::external_type_specification]
#[verifier::external_body]
#[verifier::reject_recursive_types(T)]
pub struct ExMutex<T: ?Sized>(std::sync::Mutex<T>);

/// Relies on `std::sync::Mutex::new`: a lock around the value.
pub assume_specification<T>[ std::sync::Mutex::<T>::new ](value: T) -> std::sync::Mutex<T>;

/// Runs the one-shot constructor of a cell with the argument given.
///
/// Implemented by the constructors that a [`LateInit`] can hold.
pub trait Constructor<Arg, T> {
    /// Consumes the constructor and builds the value.
    fn construct(self, arg: Arg) -> T;
}

/// Relies on `std::sync::Mutex::lock`: moves the stored constructor out of
/// its slot, or nothing if an earlier access took it.
#[verifier::external_body]
fn take_constructor<F>(slot: &Mutex<Option<F>>) -> (r: Option<F>) {
    match slot.lock() {
        Ok(mut guard) => guard.take(),
        Err(poisoned) => poisoned.into_inner().take(),
    }
}

/// The constructor of a cell was taken by an earlier access that did not
/// complete (it panicked, or it reached the same cell again from inside), so
/// the cell can never be written.
#[derive(Debug, Clone, Copy, PartialEq, Eq, Structural)]
pub struct Poisoned;

/// A cell written at most once, by a constructor that receives an argument at
/// first access.
#[verifier::reject_recursive_types(T)]
#[verifier::reject_recursive_types(F)]
pub struct LateInit<T, F> {
    cell: OnceCell<T>,
    init: Mutex<Option<F>>,
}

impl<T, F> LateInit<T, F> {
    /// Constructs an empty cell that will be written by `init`.
    pub fn new(init: F) -> (r: LateInit<T, F>) {
        LateInit { cell: OnceCell::new(), init: Mutex::new(Some(init)) }
    }

    /// Returns the value if the cell has been written; never runs the
    /// constructor.
    #[inline]
    pub fn get(&self) -> (r: Option<&T>) {
        self.cell.get()
    }

    /// Returns `true` if the cell has been written.
    #[inline]
    pub fn is_init(&self) -> (r: bool) {
        self.get().is_some()
    }

    /// Returns the value of the cell, running the constructor with `arg` if
    /// the cell is empty. Of concurrent callers only one runs it; the others
    /// wait and see the same value.
    ///
    /// Returns `None` when the cell is poisoned: an earlier access took the
    /// constructor and did not complete, so it is never run a second time.
    /// The constructor must not resolve the value of this same cell: such a
    /// cycle is not detected, and the cell's own initialization then
    /// deadlocks.
    pub fn get_or_init<Arg>(&self, arg: Arg) -> (r: Option<&T>)
        where
            F: Constructor<Arg, T>,
    {
        let built = self.cell.get_or_try_init(
            || -> (v: Result<T, Poisoned>)
                {
                    match take_constructor(&self.init) {
                        Some(init) => Ok(init.construct(arg)),
                        None => Err(Poisoned),
                    }
                },
        );
        match built {
            Ok(value) => Some(value),
            Err(_) => None,
        }
    }
}

} // verus!
