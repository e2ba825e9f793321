//! Small arithmetic helpers: addition through references and through the
//! generic `Add` operator.

use vstd::prelude::*;

verus! {

use vstd::std_specs::ops::AddSpec;

/// Adds the two integers behind the references.
pub fn add_with_lifetimes<'a, 'b>(i: &'a i32, j: &'b i32) -> (r: i32)
    requires
        i32::MIN <= *i + *j <= i32::MAX,
    ensures
        r == *i + *j,
{
    *i + *j
}

/// Adds two values of any type whose `+` operator is total on them.
pub fn add<T: core::ops::Add<Output = T>>(i: T, j: T) -> (r: T)
    requires
        i.add_req(j),
    ensures
        T::obeys_add_spec() ==> r == i.add_spec(j),
{
    i + j
}

} // verus!
