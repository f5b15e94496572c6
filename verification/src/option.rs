use vstd::prelude::*;

verus! {

/// Clearer names for the `unwrap` family on a value that may be absent.
///
/// Every method consumes the container. The two that end the program on an
/// absent value, `or_panic` and `panic_with`, rule that case out by
/// precondition; the three `panic_or*` methods accept every container and
/// substitute a fallback instead.
pub trait BEOption<T>: Sized {
    /// The container as a plain optional value. All contracts of this trait
    /// are stated over it.
    spec fn as_option(self) -> Option<T>;

    /// Returns the contained value.
    ///
    /// Code that is not verified and calls this on an absent value is stopped
    /// with the message ``called `or_panic()` on a `None` value``.
    fn or_panic(self) -> (value: T)
        requires
            self.as_option() is Some,
        ensures
            self.as_option() == Some(value),
    ;

    /// Returns the contained value, or `default` when there is none.
    fn panic_or(self, default: T) -> (value: T)
        ensures
            value == (match self.as_option() {
                Some(held) => held,
                None => default,
            }),
    ;

    /// Returns the contained value, or what `f` produces when there is none.
    ///
    /// `f` has to be callable only for an absent value: on a present one it
    /// is dropped without being run.
    fn panic_or_else<F>(self, f: F) -> (value: T) where F: FnOnce() -> T
        requires
            self.as_option() is None ==> f.requires(()),
        ensures
            match self.as_option() {
                Some(held) => value == held,
                None => f.ensures((), value),
            },
    ;

    /// Returns the contained value, or the default of `T` when there is none.
    fn panic_or_default(self) -> (value: T) where T: Default
        ensures
            match self.as_option() {
                Some(held) => value == held,
                None => T::default.ensures((), value),
            },
    ;

    /// Returns the contained value.
    ///
    /// Code that is not verified and calls this on an absent value is stopped
    /// with `msg` as the message.
    fn panic_with(self, msg: &str) -> (value: T)
        requires
            self.as_option() is Some,
        ensures
            self.as_option() == Some(value),
    ;
}

impl<T> BEOption<T> for Option<T> {
    open spec fn as_option(self) -> Option<T> {
        self
    }

    fn or_panic(self) -> (value: T)
        ensures
            self == Some(value),
    {
        self.expect("called `or_panic()` on a `None` value")
    }

    fn panic_or(self, default: T) -> (value: T)
        ensures
            self matches Some(held) ==> value == held,
            self is None ==> value == default,
    {
        match self {
            Some(held) => held,
            None => default,
        }
    }

    // Only the trait's contract: Verus loses track of `F` when a generic
    // method of an impl adds clauses of its own and a lemma names the method.
    fn panic_or_else<F>(self, f: F) -> (value: T) where F: FnOnce() -> T {
        match self {
            Some(held) => held,
            None => f(),
        }
    }

    fn panic_or_default(self) -> (value: T) where T: Default
        ensures
            self matches Some(held) ==> value == held,
            self is None ==> T::default.ensures((), value),
    {
        match self {
            Some(held) => held,
            None => T::default(),
        }
    }

    fn panic_with(self, msg: &str) -> (value: T)
        ensures
            self == Some(value),
    {
        self.expect(msg)
    }
}

/// A present value passes through every operation unchanged: on `Some(held)`
/// each call is allowed, whatever the fallback, the producer or the message,
/// and `held` is the only value it can return.
pub proof fn lemma_present_value_is_returned<T: Default, F: FnOnce() -> T>(
    held: T,
    default: T,
    f: F,
    msg: &str,
    value: T,
)
    ensures
        call_requires(<Option<T> as BEOption<T>>::or_panic, (Some(held),)),
        call_ensures(<Option<T> as BEOption<T>>::or_panic, (Some(held),), value) ==> value == held,
        call_requires(<Option<T> as BEOption<T>>::panic_or, (Some(held), default)),
        call_ensures(<Option<T> as BEOption<T>>::panic_or, (Some(held), default), value) ==> value
            == held,
        call_requires(<Option<T> as BEOption<T>>::panic_or_else::<F>, (Some(held), f)),
        call_ensures(<Option<T> as BEOption<T>>::panic_or_else::<F>, (Some(held), f), value)
            ==> value == held,
        call_requires(<Option<T> as BEOption<T>>::panic_or_default, (Some(held),)),
        call_ensures(<Option<T> as BEOption<T>>::panic_or_default, (Some(held),), value) ==> value
            == held,
        call_requires(<Option<T> as BEOption<T>>::panic_with, (Some(held), msg)),
        call_ensures(<Option<T> as BEOption<T>>::panic_with, (Some(held), msg), value) ==> value
            == held,
{
}

/// On an absent value the three substituting operations are always allowed
/// (the producer only has to be callable) and return the fallback: `default`
/// itself, a result of `f`, or a default of `T`.
pub proof fn lemma_absent_value_is_replaced<T: Default, F: FnOnce() -> T>(
    default: T,
    f: F,
    value: T,
)
    ensures
        call_requires(<Option<T> as BEOption<T>>::panic_or, (None, default)),
        call_ensures(<Option<T> as BEOption<T>>::panic_or, (None, default), value) ==> value
            == default,
        f.requires(()) ==> call_requires(<Option<T> as BEOption<T>>::panic_or_else::<F>, (None, f)),
        call_ensures(<Option<T> as BEOption<T>>::panic_or_else::<F>, (None, f), value)
            ==> f.ensures((), value),
        call_requires(<Option<T> as BEOption<T>>::panic_or_default, (None,)),
        call_ensures(<Option<T> as BEOption<T>>::panic_or_default, (None,), value)
            ==> T::default.ensures((), value),
{
}

/// `or_panic` and `panic_with` never return from an absent value: no value
/// can be the result of such a call.
pub proof fn lemma_absent_value_is_never_returned<T>(msg: &str, value: T)
    ensures
        !call_ensures(<Option<T> as BEOption<T>>::or_panic, (None,), value),
        !call_ensures(<Option<T> as BEOption<T>>::panic_with, (None, msg), value),
{
}

} // verus!
