use vstd::prelude::*;
use rand::Rng;

verus! {

/// What a draw over `[lo, hi)` may give: `lo` itself when the range is a
/// single point, otherwise a value of the half-open range.
pub open spec fn in_draw_range(v: int, lo: int, hi: int) -> bool {
    if lo == hi {
        v == lo
    } else {
        lo <= v < hi
    }
}

/// Relies on rand's `Rng::gen_range` over `ThreadRng`: a value of `lo..hi`,
/// which it requires to be non-empty.
#[verifier::external_body]
fn gen_in(lo: i64, hi: i64) -> (r: i64)
    requires
        lo < hi,
    ensures
        lo <= r < hi,
{
    rand::thread_rng().gen_range(lo..hi)
}

/// Relies on rand's `Rng::gen_range` over `ThreadRng`, at `usize`: a value of
/// `lo..hi`, which it requires to be non-empty.
#[verifier::external_body]
fn gen_index(lo: usize, hi: usize) -> (r: usize)
    requires
        lo < hi,
    ensures
        lo <= r < hi,
{
    rand::thread_rng().gen_range(lo..hi)
}

/// A uniformly drawn value of `[fr, to)`; a single-point range (`fr == to`)
/// gives `fr` without drawing.
pub fn get_random_i64(fr: i64, to: i64) -> (r: i64)
    requires
        fr <= to,
    ensures
        in_draw_range(r as int, fr as int, to as int),
{
    if fr == to {
        fr
    } else {
        gen_in(fr, to)
    }
}

/// A uniformly drawn index of `[fr, to)`.
pub fn get_random_usize(fr: usize, to: usize) -> (r: usize)
    requires
        fr < to,
    ensures
        fr <= r < to,
{
    gen_index(fr, to)
}

} // verus!
