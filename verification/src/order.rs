//! Assertions on the order of two values.
use vstd::prelude::*;
use vstd::std_specs::cmp::PartialOrdIs;
use vstd::std_specs::cmp::PartialOrdSpec;

verus! {

/// Two values that do not stand in the order that was asserted of them.
#[derive(Debug, PartialEq, Eq)]
pub struct OutOfOrder<T> {
    /// the value that was asserted to be the greater one
    pub left: T,
    /// the value that it was compared with
    pub right: T,
}

/// Asserts `a > b`, in the order that the type defines.
pub fn assert_gt<T: PartialOrd>(a: T, b: T) -> (verdict: Result<(), OutOfOrder<T>>)
    ensures
        T::obeys_partial_cmp_spec() ==> (verdict is Ok <==> a.is_gt(&b)),
        verdict is Err ==> verdict->Err_0 == (OutOfOrder { left: a, right: b }),
{
    if a > b {
        Ok(())
    } else {
        Err(OutOfOrder { left: a, right: b })
    }
}

/// Asserts `a >= b`, in the order that the type defines.
pub fn assert_ge<T: PartialOrd>(a: T, b: T) -> (verdict: Result<(), OutOfOrder<T>>)
    ensures
        T::obeys_partial_cmp_spec() ==> (verdict is Ok <==> a.is_ge(&b)),
        verdict is Err ==> verdict->Err_0 == (OutOfOrder { left: a, right: b }),
{
    if a >= b {
        Ok(())
    } else {
        Err(OutOfOrder { left: a, right: b })
    }
}

/// What is greater is also greater or equal.
pub proof fn law_greater_is_greater_or_equal<T: PartialOrd>(a: T, b: T)
    requires
        a.is_gt(&b),
    ensures
        a.is_ge(&b),
{
}

/// Of two generations one is greater, or the other one is greater or equal, and not both.
pub proof fn law_generations_are_ordered(a: u64, b: u64)
    ensures
        a.is_gt(&b) <==> !b.is_ge(&a),
        a.is_gt(&b) <==> a > b,
        a.is_ge(&b) <==> a >= b,
{
}

} // verus!
