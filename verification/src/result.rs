use std::fmt::Debug;
use vstd::prelude::*;

verus! {

/// `Result::expect_err` of the standard library: it hands back the error of
/// an `Err` and does not return from an `Ok`, which it reports with `msg`
/// followed by the debug form of the success value. Assumed, not proved.
pub assume_specification<T, E>[ Result::<T, E>::expect_err ](
    container: Result<T, E>,
    msg: &str,
) -> (error: E) where T: Debug
    requires
        container is Err,
    ensures
        error == container->Err_0,
;

/// Clearer names for the `unwrap` family on a success or a failure.
///
/// Every method consumes the container. `or_panic` and `panic_with` take the
/// success out and rule a failure out by precondition; `or_panic_err` and
/// `panic_err_with` are their mirror images for the failure side. The three
/// `panic_or*` methods accept every container and substitute a fallback for a
/// failure.
pub trait BEResult<T, E>: Sized {
    /// The container as a plain success-or-failure value. All contracts of
    /// this trait are stated over it.
    spec fn as_result(self) -> Result<T, E>;

    /// Returns the success value.
    ///
    /// Code that is not verified and calls this on a failure is stopped with
    /// the message ``called `or_panic()` on an `Err` value``, followed by the
    /// debug form of the error.
    fn or_panic(self) -> (value: T)
        requires
            self.as_result() is Ok,
        ensures
            self.as_result() == Ok::<T, E>(value),
    ;

    /// Returns the success value, or `default` on a failure.
    fn panic_or(self, default: T) -> (value: T)
        ensures
            value == (match self.as_result() {
                Ok(held) => held,
                Err(_) => default,
            }),
    ;

    /// Returns the success value, or what `f` makes of the error on a failure.
    ///
    /// `f` has to be callable only on the error that the container holds: on
    /// a success it is dropped without being run.
    fn panic_or_else<F>(self, f: F) -> (value: T) where F: FnOnce(E) -> T
        requires
            self.as_result() matches Err(error) ==> f.requires((error,)),
        ensures
            match self.as_result() {
                Ok(held) => value == held,
                Err(error) => f.ensures((error,), value),
            },
    ;

    /// Returns the success value, or the default of `T` on a failure.
    fn panic_or_default(self) -> (value: T) where T: Default
        ensures
            match self.as_result() {
                Ok(held) => value == held,
                Err(_) => T::default.ensures((), value),
            },
    ;

    /// Returns the success value.
    ///
    /// Code that is not verified and calls this on a failure is stopped with
    /// `msg`, followed by the debug form of the error.
    fn panic_with(self, msg: &str) -> (value: T)
        requires
            self.as_result() is Ok,
        ensures
            self.as_result() == Ok::<T, E>(value),
    ;

    /// Returns the error of a failure.
    ///
    /// Code that is not verified and calls this on a success is stopped with
    /// the message ``called `or_panic_err()` on an `Ok` value``, followed by
    /// the debug form of the success value.
    fn or_panic_err(self) -> (error: E) where T: Debug
        requires
            self.as_result() is Err,
        ensures
            self.as_result() == Err::<T, E>(error),
    ;

    /// Returns the error of a failure.
    ///
    /// Code that is not verified and calls this on a success is stopped with
    /// `msg` as the message.
    fn panic_err_with(self, msg: &str) -> (error: E)
        requires
            self.as_result() is Err,
        ensures
            self.as_result() == Err::<T, E>(error),
    ;
}

impl<T, E: Debug> BEResult<T, E> for Result<T, E> {
    open spec fn as_result(self) -> Result<T, E> {
        self
    }

    fn or_panic(self) -> (value: T)
        ensures
            self == Ok::<T, E>(value),
    {
        self.expect("called `or_panic()` on an `Err` value")
    }

    fn panic_or(self, default: T) -> (value: T)
        ensures
            self matches Ok(held) ==> value == held,
            self is Err ==> value == default,
    {
        match self {
            Ok(held) => held,
            Err(_) => default,
        }
    }

    // Only the trait's contract: Verus loses track of `F` when a generic
    // method of an impl adds clauses of its own and a lemma names the method.
    fn panic_or_else<F>(self, f: F) -> (value: T) where F: FnOnce(E) -> T {
        match self {
            Ok(held) => held,
            Err(error) => f(error),
        }
    }

    fn panic_or_default(self) -> (value: T) where T: Default
        ensures
            self matches Ok(held) ==> value == held,
            self is Err ==> T::default.ensures((), value),
    {
        match self {
            Ok(held) => held,
            Err(_) => T::default(),
        }
    }

    fn panic_with(self, msg: &str) -> (value: T)
        ensures
            self == Ok::<T, E>(value),
    {
        self.expect(msg)
    }

    fn or_panic_err(self) -> (error: E) where T: Debug
        ensures
            self == Err::<T, E>(error),
    {
        self.expect_err("called `or_panic_err()` on an `Ok` value")
    }

    fn panic_err_with(self, msg: &str) -> (error: E)
        ensures
            self == Err::<T, E>(error),
    {
        // The success value is dropped first, so that the message is `msg`
        // alone and `T` needs no debug form.
        self.err().expect(msg)
    }
}

/// A success value passes through every operation that takes the success
/// out unchanged: on `Ok(held)` each such call is allowed, whatever the
/// fallback, the producer or the message, and `held` is the only value it can
/// return.
pub proof fn lemma_success_value_is_returned<T: Default, E: Debug, F: FnOnce(E) -> T>(
    held: T,
    default: T,
    f: F,
    msg: &str,
    value: T,
)
    ensures
        call_requires(<Result<T, E> as BEResult<T, E>>::or_panic, (Ok(held),)),
        call_ensures(<Result<T, E> as BEResult<T, E>>::or_panic, (Ok(held),), value) ==> value
            == held,
        call_requires(<Result<T, E> as BEResult<T, E>>::panic_or, (Ok(held), default)),
        call_ensures(<Result<T, E> as BEResult<T, E>>::panic_or, (Ok(held), default), value)
            ==> value == held,
        call_requires(<Result<T, E> as BEResult<T, E>>::panic_or_else::<F>, (Ok(held), f)),
        call_ensures(<Result<T, E> as BEResult<T, E>>::panic_or_else::<F>, (Ok(held), f), value)
            ==> value == held,
        call_requires(<Result<T, E> as BEResult<T, E>>::panic_or_default, (Ok(held),)),
        call_ensures(<Result<T, E> as BEResult<T, E>>::panic_or_default, (Ok(held),), value)
            ==> value == held,
        call_requires(<Result<T, E> as BEResult<T, E>>::panic_with, (Ok(held), msg)),
        call_ensures(<Result<T, E> as BEResult<T, E>>::panic_with, (Ok(held), msg), value)
            ==> value == held,
{
}

/// On a failure the three substituting operations are always allowed (the
/// producer only has to be callable on the error) and return the fallback:
/// `default` itself, a result of `f` on the error, or a default of `T`.
pub proof fn lemma_failure_is_replaced<T: Default, E: Debug, F: FnOnce(E) -> T>(
    failure: E,
    default: T,
    f: F,
    value: T,
)
    ensures
        call_requires(<Result<T, E> as BEResult<T, E>>::panic_or, (Err(failure), default)),
        call_ensures(<Result<T, E> as BEResult<T, E>>::panic_or, (Err(failure), default), value)
            ==> value == default,
        f.requires((failure,)) ==> call_requires(
            <Result<T, E> as BEResult<T, E>>::panic_or_else::<F>,
            (Err(failure), f),
        ),
        call_ensures(
            <Result<T, E> as BEResult<T, E>>::panic_or_else::<F>,
            (Err(failure), f),
            value,
        ) ==> f.ensures((failure,), value),
        call_requires(<Result<T, E> as BEResult<T, E>>::panic_or_default, (Err(failure),)),
        call_ensures(<Result<T, E> as BEResult<T, E>>::panic_or_default, (Err(failure),), value)
            ==> T::default.ensures((), value),
{
}

/// The error of a failure passes through `or_panic_err` and `panic_err_with`
/// unchanged: on `Err(failure)` both calls are allowed, and `failure` is the
/// only value they can return.
pub proof fn lemma_failure_is_returned<T: Debug, E: Debug>(failure: E, msg: &str, error: E)
    ensures
        call_requires(<Result<T, E> as BEResult<T, E>>::or_panic_err, (Err(failure),)),
        call_ensures(<Result<T, E> as BEResult<T, E>>::or_panic_err, (Err(failure),), error)
            ==> error == failure,
        call_requires(<Result<T, E> as BEResult<T, E>>::panic_err_with, (Err(failure), msg)),
        call_ensures(<Result<T, E> as BEResult<T, E>>::panic_err_with, (Err(failure), msg), error)
            ==> error == failure,
{
}

/// No operation returns from the variant that it rules out: `or_panic` and
/// `panic_with` have no result on a failure, `or_panic_err` and
/// `panic_err_with` have none on a success.
pub proof fn lemma_wrong_variant_is_never_returned<T: Debug, E: Debug>(
    held: T,
    failure: E,
    msg: &str,
    value: T,
    error: E,
)
    ensures
        !call_ensures(<Result<T, E> as BEResult<T, E>>::or_panic, (Err(failure),), value),
        !call_ensures(<Result<T, E> as BEResult<T, E>>::panic_with, (Err(failure), msg), value),
        !call_ensures(<Result<T, E> as BEResult<T, E>>::or_panic_err, (Ok(held),), error),
        !call_ensures(<Result<T, E> as BEResult<T, E>>::panic_err_with, (Ok(held), msg), error),
{
}

} // verus!
