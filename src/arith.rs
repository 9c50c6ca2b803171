use vstd::prelude::*;

verus! {

/// Adds two to `a`.
pub fn add_two(a: i32) -> (r: i32)
    requires
        a <= i32::MAX - 2,
    ensures
        r == a + 2,
{
    a + 2
}

/// Adds one to the number given.
pub fn add_one(x: i32) -> (r: i32)
    requires
        x < i32::MAX,
    ensures
        r == x + 1,
{
    x + 1
}

/// Greets `name`: the text `Hello ` followed by the name.
pub fn greeting(name: &str) -> (r: String)
    ensures
        r@ == "Hello "@ + name@,
{
    let mut s = String::from_str("Hello ");
    s.append(name);
    s
}

} // verus!
