//! Typed early returns and loop control.
//!
//! - `ValRet` is a value to keep (`Val`) or a value to return early with (`Ret`).
//! - `Moral` sorts any two-outcome value into the good one and the bad one (`Judge`).
//! - `Looping` is a loop-control signal: resume with a value, break, break with a value, or
//!   continue, aimed at the innermost loop or at a labelled one.
use vstd::prelude::*;

pub mod extra;
pub mod prelude;
pub mod trait_impl;
pub mod twist_impl;
pub mod util;

pub use trait_impl::Maru;
pub use twist_impl::{BreakKind, BreakValError, TwistError};
pub use twist_impl::Looping;
pub use twist_impl::{BAD_BREAKVAL_TYPE, BREAKVAL_IN_NOT_LOOP, BREAK_WITHOUT_VAL};
pub use twist_impl::{INVALID_BREAKVAL_LABEL, INVALID_BREAK_LABEL, INVALID_CONTINUE_LABEL};
pub use util::gut;

verus! {

/// A usable value, or a value to return early with.
#[derive(PartialEq, Debug, Clone)]
pub enum ValRet<V, R> {
    /// The usable value
    Val(V),
    /// The return value
    Ret(R),
}

impl<V, R> ValRet<V, R> {
    /// Gets the `Val(V)` variant as `Option<V>`
    pub fn val(self) -> (r: Option<V>)
        ensures
            r == (match self {
                ValRet::Val(v) => Some(v),
                ValRet::Ret(_) => None::<V>,
            }),
    {
        match self {
            ValRet::Val(v) => Some(v),
            ValRet::Ret(_) => None,
        }
    }

    /// Gets the `Ret(R)` variant as `Option<R>`
    pub fn ret(self) -> (r: Option<R>)
        ensures
            r == (match self {
                ValRet::Val(_) => None::<R>,
                ValRet::Ret(x) => Some(x),
            }),
    {
        match self {
            ValRet::Val(_) => None,
            ValRet::Ret(x) => Some(x),
        }
    }
}

/// Conversion into `ValRet`
pub trait Return where Self: Sized {
    /// The Val in ValRet
    type Value;

    /// The Ret in ValRet
    type Returned;

    /// The `ValRet` that this value stands for. The implementation in this crate defines it;
    /// elsewhere it is left unspecified, and only the contract below binds it.
    closed spec fn valret(&self) -> ValRet<Self::Value, Self::Returned> {
        arbitrary()
    }

    /// Converts itself to a ValRet
    fn into_valret(self) -> (r: ValRet<Self::Value, Self::Returned>)
        ensures
            r == self.valret(),
    ;
}

/// The outside sum type that `Moral::into_either` and `Judge::side` hand out, so that its
/// combinators can be used. Its two variants are public, so Verus reads them as they are.
#[verifier::external_type_specification]
#[verifier::reject_recursive_types(P)]
#[verifier::reject_recursive_types(Q)]
pub struct ExEither<P, Q>(either::Either<P, Q>);

/// A notion of good and bad: the good value is kept, the bad one is mapped or propagated.
#[derive(PartialEq, Debug, Clone)]
pub enum Moral<Y, N> {
    /// The good
    Good(Y),
    /// And the bad
    Bad(N),
}

impl<Y, N> Moral<Y, N> {
    /// The `ValRet` that keeps the good value and returns the bad one.
    pub open spec fn valret_of(self) -> ValRet<Y, N> {
        match self {
            Moral::Good(v) => ValRet::Val(v),
            Moral::Bad(v) => ValRet::Ret(v),
        }
    }

    /// The `Result` that is `Ok` with the good value and `Err` with the bad one.
    pub open spec fn result_of(self) -> Result<Y, N> {
        match self {
            Moral::Good(v) => Ok(v),
            Moral::Bad(v) => Err(v),
        }
    }

    /// The `Either` that holds the bad value on the left and the good one on the right.
    pub open spec fn either_of(self) -> either::Either<N, Y> {
        match self {
            Moral::Good(v) => either::Either::Right(v),
            Moral::Bad(v) => either::Either::Left(v),
        }
    }

    /// Gets the `Good(Y)` variant as `Option<Y>`
    pub fn good(self) -> (r: Option<Y>)
        ensures
            r == (match self {
                Moral::Good(v) => Some(v),
                Moral::Bad(_) => None::<Y>,
            }),
    {
        match self {
            Moral::Good(v) => Some(v),
            Moral::Bad(_) => None,
        }
    }

    /// Gets the `Bad(N)` variant as `Option<N>`
    pub fn bad(self) -> (r: Option<N>)
        ensures
            r == (match self {
                Moral::Good(_) => None::<N>,
                Moral::Bad(v) => Some(v),
            }),
    {
        match self {
            Moral::Good(_) => None,
            Moral::Bad(v) => Some(v),
        }
    }

    /// Converts to `ValRet`: maps Good to Val and Bad to Ret.
    pub fn into_valret(self) -> (r: ValRet<Y, N>)
        ensures
            r == self.valret_of(),
    {
        match self {
            Moral::Good(v) => ValRet::Val(v),
            Moral::Bad(v) => ValRet::Ret(v),
        }
    }

    /// Converts to `Result`: maps Good to Ok and Bad to Err.
    pub fn into_result(self) -> (r: Result<Y, N>)
        ensures
            r == self.result_of(),
    {
        match self {
            Moral::Good(v) => Ok(v),
            Moral::Bad(v) => Err(v),
        }
    }

    /// Converts to `Either`: maps Good to Right and Bad to Left.
    pub fn into_either(self) -> (r: either::Either<N, Y>)
        ensures
            r == self.either_of(),
    {
        match self {
            Moral::Good(v) => either::Either::Right(v),
            Moral::Bad(v) => either::Either::Left(v),
        }
    }

    /// Converts to a `ValRet` that keeps the good value and returns the bad one wrapped into
    /// the bad side of `R` (see `Judge::from_bad`).
    pub fn ret_error<O, R: Judge<Positive = O, Negative = N>>(self) -> (r: ValRet<Y, R>)
        ensures
            match self {
                Moral::Good(v) => r == ValRet::<Y, R>::Val(v),
                Moral::Bad(v) => r matches ValRet::Ret(x) && x.moral() == Moral::<O, N>::Bad(v),
            },
    {
        match self {
            Moral::Good(v) => ValRet::Val(v),
            Moral::Bad(v) => ValRet::Ret(R::from_bad(v)),
        }
    }

    /// Converts to a `Looping`: the good value resumes, the bad one goes through `f`.
    pub fn resume_or_else<B>(self, f: impl FnOnce(N) -> Looping<Y, B>) -> (r: Looping<Y, B>)
        requires
            self matches Moral::Bad(v) ==> f.requires((v,)),
        ensures
            match self {
                Moral::Good(v) => r == Looping::<Y, B>::Resume(v),
                Moral::Bad(v) => f.ensures((v,), r),
            },
    {
        match self {
            Moral::Good(v) => Looping::Resume(v),
            Moral::Bad(v) => f(v),
        }
    }
}

/// Conversion from and to `Moral`: tells the value to keep from the value to map through a
/// function. Implement it for a two-outcome type to use it wherever a `Judge` is taken.
pub trait Judge: Sized {
    /// This is considered Good
    type Positive;

    /// This is considered Bad
    type Negative;

    /// The good or bad value that this value stands for. Implementations in this crate
    /// define it; elsewhere it is left unspecified, and only the contracts below bind it.
    closed spec fn moral(&self) -> Moral<Self::Positive, Self::Negative> {
        arbitrary()
    }

    /// Converts to Moral
    fn into_moral(self) -> (r: Moral<Self::Positive, Self::Negative>)
        ensures
            r == self.moral(),
    ;

    /// Wraps a good value into itself
    fn from_good(v: Self::Positive) -> (r: Self)
        ensures
            r.moral() == Moral::<Self::Positive, Self::Negative>::Good(v),
    ;

    /// Wraps a bad value into itself
    fn from_bad(v: Self::Negative) -> (r: Self)
        ensures
            r.moral() == Moral::<Self::Positive, Self::Negative>::Bad(v),
    ;

    /// Converts to Result
    fn result(self) -> (r: Result<Self::Positive, Self::Negative>)
        ensures
            r == self.moral().result_of(),
    {
        self.into_moral().into_result()
    }

    /// Converts to Either
    fn side(self) -> (r: either::Either<Self::Negative, Self::Positive>)
        ensures
            r == self.moral().either_of(),
    {
        self.into_moral().into_either()
    }
}

} // verus!
