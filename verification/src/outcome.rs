//! How a request relates the state before it to the state after it.

use vstd::prelude::*;

verus! {

/// What stops a request without an error of its own: the ledger takes back
/// whatever the request had done.
#[derive(Clone, Copy, Debug, PartialEq, Eq, Structural)]
pub enum Trap {
    /// A number left the range of its type.
    Overflow,
    /// A list or map of the host cannot grow.
    CollectionFull,
}

/// A request that was to end in `expected` ended as it should: it left that
/// state behind it, or it failed with that error and changed nothing.
pub open spec fn stepped<S, E>(
    result: Result<(), E>,
    before: S,
    after: S,
    expected: Result<S, E>,
) -> bool {
    match expected {
        Ok(next) => result == Ok::<(), E>(()) && after == next,
        Err(e) => result == Err::<(), E>(e) && after == before,
    }
}

/// As [`stepped`], for a request that gives a value back.
pub open spec fn gave<S, T, E>(
    result: Result<T, E>,
    before: S,
    after: S,
    expected: Result<(S, T), E>,
) -> bool {
    match expected {
        Ok((next, value)) => result == Ok::<T, E>(value) && after == next,
        Err(e) => result == Err::<T, E>(e) && after == before,
    }
}

/// The state that a request that gives a value back leaves behind it.
pub open spec fn state_of<S, T, E>(expected: Result<(S, T), E>) -> Result<S, E> {
    match expected {
        Ok((next, _)) => Ok(next),
        Err(e) => Err(e),
    }
}

/// A request that succeeds leaves the state that it was to leave, and one that fails
/// leaves the state as it was and says why.
pub proof fn requests_end_as_they_should<S, E>(
    result: Result<(), E>,
    before: S,
    after: S,
    expected: Result<S, E>,
)
    requires
        stepped(result, before, after, expected),
    ensures
        result is Ok <==> expected is Ok,
        expected matches Ok(next) ==> after == next,
        expected matches Err(e) ==> after == before && result == Err::<(), E>(e),
{
}

/// The same of a request that gives a value back, which is then the value that it
/// was to give.
pub proof fn answers_are_as_they_should_be<S, T, E>(
    result: Result<T, E>,
    before: S,
    after: S,
    expected: Result<(S, T), E>,
)
    requires
        gave(result, before, after, expected),
    ensures
        result is Ok <==> expected is Ok,
        expected matches Ok((next, value)) ==> after == next && result == Ok::<T, E>(value),
        expected matches Err(e) ==> after == before && result == Err::<T, E>(e),
{
}

} // verus!
