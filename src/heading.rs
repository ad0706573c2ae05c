use vstd::prelude::*;

verus! {

/// Relies on `rand::random::<bool>`: one fair coin flip from the thread-local
/// generator. Nothing is promised of which value comes out.
#[verifier::external_body]
fn coin_flip() -> (r: bool) {
    rand::random::<bool>()
}

/// `s` is `1` or `-1`.
pub open spec fn is_unit_sign(s: i8) -> bool {
    s == 1 || s == -1
}

/// The sign that a coin flip stands for: heads is `1`, tails `-1`.
pub fn sign_of_flip(heads: bool) -> (r: i8)
    ensures
        heads ==> r == 1,
        !heads ==> r == -1,
{
    if heads {
        1
    } else {
        -1
    }
}

/// A random axis-aligned starting heading for a new ball: each component is
/// `1` or `-1`, drawn independently.
pub fn initial_heading() -> (r: (i8, i8))
    ensures
        is_unit_sign(r.0),
        is_unit_sign(r.1),
{
    let x = sign_of_flip(coin_flip());
    let y = sign_of_flip(coin_flip());
    (x, y)
}

} // verus!
