//! `Maru`, and the implementations of `Judge` and `Return` for common types.
use vstd::prelude::*;

use crate::{Judge, Moral, Return, ValRet};

verus! {

/// A placeholder type with a single value ◯: the bad value of `Option<T>`, and both the good
/// and the bad value of `bool`. It converts from and to `()`.
#[derive(Copy, Debug, Clone)]
pub struct Maru;

impl From<()> for Maru {
    fn from(_v: ()) -> (r: Self) {
        Maru
    }
}

impl vstd::std_specs::convert::FromSpecImpl<()> for Maru {
    open spec fn obeys_from_spec() -> bool {
        true
    }

    open spec fn from_spec(v: ()) -> Self {
        Maru
    }
}

impl From<Maru> for () {
    fn from(_v: Maru) -> (r: Self) {
    }
}

impl vstd::std_specs::convert::FromSpecImpl<Maru> for () {
    open spec fn obeys_from_spec() -> bool {
        true
    }

    open spec fn from_spec(v: Maru) -> Self {
        ()
    }
}

/// `true` is good and `false` is bad; neither carries a value.
impl Judge for bool {
    type Positive = Maru;

    type Negative = Maru;

    open spec fn moral(&self) -> Moral<Maru, Maru> {
        if *self {
            Moral::Good(Maru)
        } else {
            Moral::Bad(Maru)
        }
    }

    fn into_moral(self) -> (r: Moral<Maru, Maru>) {
        if self {
            Moral::Good(Maru)
        } else {
            Moral::Bad(Maru)
        }
    }

    fn from_good(_v: Maru) -> (r: Self) {
        true
    }

    fn from_bad(_v: Maru) -> (r: Self) {
        false
    }
}

/// Every `Judge` converts into a `ValRet`: the good value is kept, the bad one returned.
impl<T, E, Me> Return for Me where Me: Judge<Positive = T, Negative = E> {
    type Value = T;

    type Returned = E;

    open spec fn valret(&self) -> ValRet<T, E> {
        self.moral().valret_of()
    }

    fn into_valret(self) -> (r: ValRet<T, E>) {
        self.into_moral().into_valret()
    }
}

/// `Some` is good and `None` is bad.
impl<T> Judge for Option<T> {
    type Positive = T;

    type Negative = Maru;

    open spec fn moral(&self) -> Moral<T, Maru> {
        match *self {
            Some(v) => Moral::Good(v),
            None => Moral::Bad(Maru),
        }
    }

    fn into_moral(self) -> (r: Moral<T, Maru>) {
        match self {
            Some(v) => Moral::Good(v),
            None => Moral::Bad(Maru),
        }
    }

    fn from_good(v: T) -> (r: Self) {
        Some(v)
    }

    fn from_bad(_v: Maru) -> (r: Self) {
        None
    }
}

/// `Ok` is good and `Err` is bad.
impl<T, E> Judge for Result<T, E> {
    type Positive = T;

    type Negative = E;

    open spec fn moral(&self) -> Moral<T, E> {
        match *self {
            Ok(v) => Moral::Good(v),
            Err(e) => Moral::Bad(e),
        }
    }

    fn into_moral(self) -> (r: Moral<T, E>) {
        match self {
            Ok(v) => Moral::Good(v),
            Err(e) => Moral::Bad(e),
        }
    }

    fn from_good(v: T) -> (r: Self) {
        Ok(v)
    }

    fn from_bad(v: E) -> (r: Self) {
        Err(v)
    }
}

/// `Val` is good and `Ret` is bad.
impl<T, R> Judge for ValRet<T, R> {
    type Positive = T;

    type Negative = R;

    open spec fn moral(&self) -> Moral<T, R> {
        match *self {
            ValRet::Val(v) => Moral::Good(v),
            ValRet::Ret(r) => Moral::Bad(r),
        }
    }

    fn into_moral(self) -> (r: Moral<T, R>) {
        match self {
            ValRet::Val(v) => Moral::Good(v),
            ValRet::Ret(r) => Moral::Bad(r),
        }
    }

    fn from_good(v: T) -> (r: Self) {
        ValRet::Val(v)
    }

    fn from_bad(r: R) -> (r2: Self) {
        ValRet::Ret(r)
    }
}

/// A `Moral` is its own judgement.
impl<Y, N> Judge for Moral<Y, N> {
    type Positive = Y;

    type Negative = N;

    open spec fn moral(&self) -> Moral<Y, N> {
        *self
    }

    fn into_moral(self) -> (r: Moral<Y, N>) {
        self
    }

    fn from_good(v: Y) -> (r: Self) {
        Moral::Good(v)
    }

    fn from_bad(v: N) -> (r: Self) {
        Moral::Bad(v)
    }
}

} // verus!
