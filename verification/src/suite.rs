//! The shared suite-state holder: a lazily initialized container for one
//! instance of a user-defined suite type, reused by every test of a group.
//!
//! The holder itself is not synchronized; the generated code places it behind
//! a mutual-exclusion primitive, and each per-test access acquires that
//! primitive independently (no single acquisition spans the before-hook, the
//! test body and the after-hook — a documented limitation, not a guarantee).

use vstd::prelude::*;

verus! {

/// The capability a user-defined suite type must offer: a hook run before
/// each test of its group, and one run after it.
pub trait Suite {
    fn before_test(&mut self);

    fn after_test(&mut self);
}

/// Holds zero or one instance of the suite type `T`. The instance is created
/// by `T`'s default constructor on first access and reused ever after; it is
/// never replaced or dropped by the holder.
pub struct SuiteSingleton<T> where T: Default + Suite {
    value: Option<T>,
}

impl<T> SuiteSingleton<T> where T: Default + Suite {
    /// The instance held so far, if any.
    pub closed spec fn inst(&self) -> Option<T> {
        self.value
    }

    /// A fresh holder, holding no instance yet.
    pub fn new() -> (r: Self)
        ensures
            r.inst() is None,
    {
        Self { value: None }
    }

    /// Ensures the instance exists, constructing it once via `T::default`.
    fn init(&mut self)
        ensures
            final(self).inst() is Some,
            old(self).inst() is Some ==> final(self).inst() == old(self).inst(),
            old(self).inst() is None ==> call_ensures(
                T::default,
                (),
                final(self).inst()->0,
            ),
    {
        if self.value.is_none() {
            self.value = Some(T::default());
        }
    }

    /// A shared reference to the one instance. The first access constructs
    /// it; every later access returns the same instance, unchanged.
    pub fn get(&mut self) -> (r: &T)
        ensures
            final(self).inst() == Some(*r),
            old(self).inst() is Some ==> final(self).inst() == old(self).inst(),
            old(self).inst() is None ==> call_ensures(T::default, (), *r),
    {
        self.init();
        match self.value.as_ref() {
            Some(v) => v,
            None => vstd::pervasive::unreached(),
        }
    }

    /// A mutable reference to the one instance. The first access constructs
    /// it; every later access hands out the same instance, whose new value
    /// the holder keeps.
    pub fn get_mut(&mut self) -> (r: &mut T)
        ensures
            old(self).inst() is Some ==> *r == old(self).inst()->0,
            old(self).inst() is None ==> call_ensures(T::default, (), *r),
            final(self).inst() == Some(*final(r)),
    {
        self.init();
        match self.value.as_mut() {
            Some(v) => v,
            None => vstd::pervasive::unreached(),
        }
    }
}

} // verus!
