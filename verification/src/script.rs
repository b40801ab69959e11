//! Values that cross into the script runtime of addons written as scripts.
use crate::table::StringTable;
use vstd::prelude::*;

verus! {

/// A value of one of two types.
#[derive(Debug, PartialEq, Eq)]
pub enum Either<TA, TB> {
    A(TA),
    B(TB),
}

impl<TA: Clone, TB: Clone> Clone for Either<TA, TB> {
    fn clone(&self) -> (copy: Self)
        ensures
            copy is A == self is A,
    {
        match self {
            Either::A(a) => Either::A(a.clone()),
            Either::B(b) => Either::B(b.clone()),
        }
    }
}

impl<TA: Copy, TB: Copy> Copy for Either<TA, TB> {

}

impl<TA, TB> Either<TA, TB> {
    /// A value of the first type.
    pub fn from(value: TA) -> (either: Self)
        ensures
            either == Either::<TA, TB>::A(value),
    {
        Either::A(value)
    }

    /// Whether the value is of the first type.
    pub fn is_a(&self) -> (first: bool)
        ensures
            first == (self is A),
    {
        match self {
            Either::A(_) => true,
            Either::B(_) => false,
        }
    }

    /// The value, if it is of the first type.
    pub fn into_a(self) -> (value: Option<TA>)
        ensures
            value == (match self {
                Either::A(a) => Some(a),
                Either::B(_) => None,
            }),
    {
        match self {
            Either::A(a) => Some(a),
            Either::B(_) => None,
        }
    }

    /// The value, if it is of the second type.
    pub fn into_b(self) -> (value: Option<TB>)
        ensures
            value == (match self {
                Either::A(_) => None,
                Either::B(b) => Some(b),
            }),
    {
        match self {
            Either::A(_) => None,
            Either::B(b) => Some(b),
        }
    }
}

/// What a script passes along with a request: the body, the method and the
/// headers by name.
pub struct FetchOptions {
    pub body: String,
    pub method: String,
    pub headers: StringTable<String>,
}

/// The method of a request: the one that the options name, and `GET` where
/// there are no options.
pub fn method_of(options: &Option<FetchOptions>) -> (method: &str)
    ensures
        method@ == (match options {
            Some(given) => given.method@,
            None => "GET"@,
        }),
{
    match options {
        Some(given) => given.method.as_str(),
        None => "GET",
    }
}

} // verus!
