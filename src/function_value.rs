//! Function values: closures handed in, closures handed back, and partial
//! application of two-argument functions.
use vstd::prelude::*;

verus! {

/// Calls `closure` on `1` and hands back what it returned.
pub fn receives_closure<F>(closure: F) -> (r: i32)
    where
        F: Fn(i32) -> i32,
    requires
        closure.requires((1i32,)),
    ensures
        closure.ensures((1i32,), r),
{
    closure(1)
}

/// A function value that adds four to its argument.
pub fn returns_closure() -> (r: impl Fn(i32) -> i32)
    ensures
        forall|x: i32| x <= i32::MAX - 4 ==> #[trigger] r.requires((x,)),
        forall|x: i32, y: i32| #[trigger] r.ensures((x,), y) ==> y == x + 4,
{
    |x: i32| -> (y: i32)
        requires
            x <= i32::MAX - 4,
        ensures
            y == x + 4,
        { x + 4 }
}

/// Fixes the first argument of `f` to `x`: calling the result on `y` calls
/// `f(x, y)`, accepts what `f` accepts there and returns what `f` returns.
pub fn curry<F>(f: F, x: i32) -> (r: impl Fn(i32) -> i32)
    where
        F: Fn(i32, i32) -> i32,
    ensures
        forall|y: i32| f.requires((x, y)) ==> #[trigger] r.requires((y,)),
        forall|y: i32, z: i32| #[trigger] r.ensures((y,), z) ==> f.ensures((x, y), z),
{
    move |y: i32| -> (z: i32)
        requires
            f.requires((x, y)),
        ensures
            f.ensures((x, y), z),
        { f(x, y) }
}

/// `curry` for arguments and results of any type.
pub fn generic_curry<F, X, Y, Z>(f: F, x: X) -> (r: impl Fn(Y) -> Z)
    where
        F: Fn(X, Y) -> Z,
        X: Copy,
    ensures
        forall|y: Y| f.requires((x, y)) ==> #[trigger] r.requires((y,)),
        forall|y: Y, z: Z| #[trigger] r.ensures((y,), z) ==> f.ensures((x, y), z),
{
    move |y: Y| -> (z: Z)
        requires
            f.requires((x, y)),
        ensures
            f.ensures((x, y), z),
        { f(x, y) }
}

} // verus!
