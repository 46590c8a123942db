use vstd::prelude::*;

verus! {

/// Every message the engine can receive from its host.
///
/// The set is closed: each variant keeps a fixed discriminant so that the
/// layout stays the same on both sides of the boundary.
#[derive(Clone, Copy, Debug, PartialEq, Eq, Structural)]
pub enum ApiInMsg {
    /// A liveness probe that asks the engine for an acknowledgment.
    Ping,
}

/// Every message the engine can send back to its host.
#[derive(Clone, Copy, Debug, PartialEq, Eq, Structural)]
pub enum ApiOutMsg {
    /// Sent once, when the channels are bound and before the first tick.
    CraniumStarted,
    /// The acknowledgment of a `Ping`.
    Pong,
}

/// An optional value with a two-variant tagged layout, convertible to and
/// from `Option` without loss.
#[derive(Debug)]
pub enum FFIOption<T> {
    Present(T),
    Absent,
}

impl<T> FFIOption<T> {
    /// The `Option` that this value stands for.
    pub open spec fn to_option(self) -> Option<T> {
        match self {
            FFIOption::Present(v) => Option::Some(v),
            FFIOption::Absent => Option::None,
        }
    }

    /// The wrapped form of an `Option`.
    pub open spec fn of_option(o: Option<T>) -> FFIOption<T> {
        match o {
            Option::Some(v) => FFIOption::Present(v),
            Option::None => FFIOption::Absent,
        }
    }

    pub fn is_some(&self) -> (r: bool)
        ensures
            r == self.to_option() is Some,
    {
        match self {
            FFIOption::Present(_) => true,
            FFIOption::Absent => false,
        }
    }

    pub fn is_none(&self) -> (r: bool)
        ensures
            r == self.to_option() is None,
    {
        match self {
            FFIOption::Present(_) => false,
            FFIOption::Absent => true,
        }
    }

    /// Wraps an `Option`.
    pub fn from_option(o: Option<T>) -> (r: FFIOption<T>)
        ensures
            r == FFIOption::of_option(o),
    {
        match o {
            Option::Some(v) => FFIOption::Present(v),
            Option::None => FFIOption::Absent,
        }
    }

    /// Unwraps into an `Option`.
    pub fn into_option(self) -> (r: Option<T>)
        ensures
            r == self.to_option(),
    {
        match self {
            FFIOption::Present(v) => Option::Some(v),
            FFIOption::Absent => Option::None,
        }
    }
}

impl<T> From<Option<T>> for FFIOption<T> {
    fn from(o: Option<T>) -> (r: FFIOption<T>)
        ensures
            r == FFIOption::of_option(o),
    {
        FFIOption::from_option(o)
    }
}

impl<T> vstd::std_specs::convert::FromSpecImpl<Option<T>> for FFIOption<T> {
    open spec fn obeys_from_spec() -> bool {
        true
    }

    open spec fn from_spec(o: Option<T>) -> FFIOption<T> {
        FFIOption::of_option(o)
    }
}

impl<T> From<FFIOption<T>> for Option<T> {
    fn from(v: FFIOption<T>) -> (r: Option<T>)
        ensures
            r == v.to_option(),
    {
        v.into_option()
    }
}

impl<T> vstd::std_specs::convert::FromSpecImpl<FFIOption<T>> for Option<T> {
    open spec fn obeys_from_spec() -> bool {
        true
    }

    open spec fn from_spec(v: FFIOption<T>) -> Option<T> {
        v.to_option()
    }
}

/// Wrapping an `Option` and unwrapping it again gives the same `Option`,
/// and unwrapping a wrapped value and wrapping it again gives the same
/// wrapped value: the two representations are in one-to-one correspondence.
pub proof fn lemma_option_round_trip<T>(x: FFIOption<T>, y: Option<T>)
    ensures
        FFIOption::of_option(x.to_option()) == x,
        FFIOption::of_option(y).to_option() == y,
        x.to_option() is Some <==> x is Present,
{
}

} // verus!
