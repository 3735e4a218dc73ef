//! The two-step construction protocol for window types.
//!
//! A window type is [`Buildable`]: a context hands out its [`Builder`],
//! the builder collects parameters, and `build` finishes the value. What
//! `build` guarantees is the builder's `builds` relation.

use vstd::prelude::*;

verus! {

/// A parameter collector for one buildable type.
pub trait Builder: Sized {
    /// The context type the builder is obtained from.
    type Context;

    /// What starting the builder takes.
    type InitArgs;

    /// The finished value.
    type Final;

    /// The relation `build` guarantees between the builder and what it
    /// built.
    spec fn builds(self, r: Self::Final) -> bool;

    /// Finishes construction.
    fn build(self) -> (r: Self::Final)
        ensures
            self.builds(r),
    ;
}

/// A type constructed through a [`Builder`].
pub trait Buildable: Sized {
    /// The builder that assembles this type.
    type Builder: Builder;

    /// Starts a builder from the given context and arguments.
    fn builder(
        ctxt: &<Self::Builder as Builder>::Context,
        args: <Self::Builder as Builder>::InitArgs,
    ) -> Self::Builder;
}

} // verus!
