//! The alpha of a gray value: either always opaque, at no cost in memory, or a
//! channel of its own.
use crate::chan::{max_of, mul_of, Channel};
use std::marker::PhantomData;
use vstd::prelude::*;
use vstd::std_specs::convert::FromSpecImpl;

verus! {

/// How much a gray value covers: a channel, or a stand-in for the maximum.
pub trait AlphaValue: Copy + Sized {
    /// Channel type
    type Chan: Channel;

    /// The alpha as a channel.
    spec fn value_spec(self) -> Self::Chan;

    /// The alpha that a value of this type has after `c` was stored in it.
    spec fn stored(c: Self::Chan) -> Self::Chan;

    /// The alpha of full coverage.
    spec fn opaque_spec() -> Self;

    /// Storing the alpha that a value has keeps it.
    proof fn lemma_stored(self)
        ensures
            Self::stored(self.value_spec()) == self.value_spec(),
    ;

    /// Get the alpha as a channel.
    fn value(self) -> (r: Self::Chan)
        ensures
            r == self.value_spec(),
    ;

    /// Full coverage.
    fn opaque() -> (r: Self)
        ensures
            r == Self::opaque_spec(),
            r.value_spec() == max_of::<Self::Chan>(),
    ;

    /// Store a channel as alpha.
    fn with_value(c: Self::Chan) -> (r: Self)
        ensures
            r.value_spec() == Self::stored(c),
    ;

    /// Store the product of two alphas.
    fn mul(self, rhs: Self) -> (r: Self)
        ensures
            r.value_spec() == Self::stored(mul_of(self.value_spec(), rhs.value_spec())),
    ;
}

/// Alpha that is always the maximum, and takes no memory.
#[derive(Copy, Debug, Default, PartialEq)]
pub struct Opaque<C: Channel> {
    value: PhantomData<C>,
}

impl<C: Channel> Clone for Opaque<C> {
    fn clone(&self) -> (r: Self)
        ensures
            r == *self,
    {
        *self
    }
}

impl<C: Channel> AlphaValue for Opaque<C> {
    type Chan = C;

    open spec fn value_spec(self) -> C {
        max_of::<C>()
    }

    open spec fn stored(c: C) -> C {
        max_of::<C>()
    }

    closed spec fn opaque_spec() -> Self {
        Opaque { value: PhantomData }
    }

    proof fn lemma_stored(self) {
    }

    fn value(self) -> (r: C) {
        C::maximum()
    }

    fn opaque() -> (r: Self) {
        Opaque { value: PhantomData }
    }

    fn with_value(c: C) -> (r: Self) {
        Opaque { value: PhantomData }
    }

    fn mul(self, rhs: Self) -> (r: Self) {
        self
    }
}

/// Alpha held in a channel.
#[derive(Copy, Debug, Default, PartialEq)]
pub struct Translucent<C: Channel> {
    /// The alpha.
    pub value: C,
}

impl<C: Channel> Clone for Translucent<C> {
    fn clone(&self) -> (r: Self)
        ensures
            r == *self,
    {
        *self
    }
}

impl<C: Channel> Translucent<C> {
    /// Create an alpha from a channel.
    pub fn new(value: C) -> (r: Self)
        ensures
            r == (Translucent { value }),
    {
        Translucent { value }
    }
}

impl<C: Channel> AlphaValue for Translucent<C> {
    type Chan = C;

    open spec fn value_spec(self) -> C {
        self.value
    }

    open spec fn stored(c: C) -> C {
        c
    }

    open spec fn opaque_spec() -> Self {
        Translucent { value: max_of::<C>() }
    }

    proof fn lemma_stored(self) {
    }

    fn value(self) -> (r: C) {
        self.value
    }

    fn opaque() -> (r: Self) {
        Translucent { value: C::maximum() }
    }

    fn with_value(c: C) -> (r: Self) {
        Translucent { value: c }
    }

    fn mul(self, rhs: Self) -> (r: Self) {
        Translucent { value: self.value.mul(rhs.value) }
    }
}

impl<C: Channel> From<C> for Opaque<C> {
    fn from(value: C) -> (r: Self) {
        Opaque { value: PhantomData }
    }
}

impl<C: Channel> FromSpecImpl<C> for Opaque<C> {
    open spec fn obeys_from_spec() -> bool {
        true
    }

    /// An opaque alpha keeps nothing of the channel.
    open spec fn from_spec(value: C) -> Self {
        Self::opaque_spec()
    }
}

impl<C: Channel> From<C> for Translucent<C> {
    fn from(value: C) -> (r: Self) {
        Translucent { value }
    }
}

impl<C: Channel> FromSpecImpl<C> for Translucent<C> {
    open spec fn obeys_from_spec() -> bool {
        true
    }

    open spec fn from_spec(value: C) -> Self {
        Translucent { value }
    }
}

impl<C: Channel> From<Opaque<C>> for Translucent<C> {
    fn from(value: Opaque<C>) -> (r: Self) {
        Translucent { value: C::maximum() }
    }
}

impl<C: Channel> FromSpecImpl<Opaque<C>> for Translucent<C> {
    open spec fn obeys_from_spec() -> bool {
        true
    }

    open spec fn from_spec(value: Opaque<C>) -> Self {
        Self::opaque_spec()
    }
}

impl<C: Channel> From<Translucent<C>> for Opaque<C> {
    fn from(value: Translucent<C>) -> (r: Self) {
        Opaque { value: PhantomData }
    }
}

impl<C: Channel> FromSpecImpl<Translucent<C>> for Opaque<C> {
    open spec fn obeys_from_spec() -> bool {
        true
    }

    /// An opaque alpha keeps nothing of the translucent one.
    open spec fn from_spec(value: Translucent<C>) -> Self {
        Self::opaque_spec()
    }
}

} // verus!
