use vstd::prelude::*;
use rand::Rng;

verus! {

/// The denominator of a random draw: a draw `r < UNIT` stands for the
/// fraction `r / UNIT` of `[0, 1)`. One draw of a second is `r` microseconds.
pub const UNIT: u32 = 1_000_000;

/// Relies on `rand::Rng::gen_range` over `rand::thread_rng()`: a value drawn
/// from the half-open range `0..UNIT`. The range is never empty, so the call
/// does not panic.
#[verifier::external_body]
pub(crate) fn fraction() -> (r: u32)
    ensures
        r < UNIT,
{
    rand::thread_rng().gen_range(0..UNIT)
}

/// Whether every value of `v` is a draw below `UNIT`.
pub open spec fn all_fractions(v: Seq<u32>) -> bool {
    forall|i: int| 0 <= i < v.len() ==> #[trigger] v[i] < UNIT
}

/// `n` fresh draws from the thread's random source.
pub fn draw_fractions(n: usize) -> (r: Vec<u32>)
    ensures
        r@.len() == n,
        all_fractions(r@),
{
    let mut r: Vec<u32> = Vec::new();
    let mut i: usize = 0;
    while i < n
        invariant
            0 <= i <= n,
            r@.len() == i,
            all_fractions(r@),
        decreases n - i,
    {
        r.push(fraction());
        i = i + 1;
    }
    r
}

/// The random draws that one enemy spawn consumes, each a fraction of `UNIT`.
#[derive(Clone, Copy, Debug, PartialEq, Eq, Structural)]
pub struct SpawnRoll {
    /// Horizontal spawn position.
    pub x: u32,
    /// Jitter of the new enemy's gun cooldown.
    pub cooldown: u32,
    /// Jitter of the upper base of the hover band.
    pub upper: u32,
    /// Jitter of the lower base of the hover band.
    pub lower: u32,
    /// Jitter of the spawn timer's next duration.
    pub rearm: u32,
}

impl SpawnRoll {
    /// Whether every draw lies in `[0, UNIT)`.
    pub open spec fn wf(self) -> bool {
        self.x < UNIT && self.cooldown < UNIT && self.upper < UNIT && self.lower < UNIT
            && self.rearm < UNIT
    }

    /// Five fresh draws from the thread's random source.
    pub fn draw() -> (r: SpawnRoll)
        ensures
            r.wf(),
    {
        let x = fraction();
        let cooldown = fraction();
        let upper = fraction();
        let lower = fraction();
        let rearm = fraction();
        SpawnRoll { x, cooldown, upper, lower, rearm }
    }
}

} // verus!
