use vstd::prelude::*;

verus! {

/// Fewest frequencies at which a magnitude response is sampled.
pub const MIN_RESPONSE_POINTS: usize = 16;

/// Number of frequencies at which the magnitude response is evaluated when
/// `n_points` are asked for: the request, raised to the minimum where it falls short.
pub fn response_grid_len(n_points: usize) -> (r: usize)
    ensures
        r == if n_points < MIN_RESPONSE_POINTS {
            MIN_RESPONSE_POINTS
        } else {
            n_points
        },
{
    if n_points < MIN_RESPONSE_POINTS {
        MIN_RESPONSE_POINTS
    } else {
        n_points
    }
}

} // verus!
