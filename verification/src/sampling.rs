//! Probabilities as integer ratios, and the random source that samples them.

use vstd::prelude::*;
use rand::Rng;
use rand::rngs::ThreadRng;

verus! {

/// A probability in `[0, 1]`, held as `numerator / denominator`.
#[derive(Clone, Copy, Debug)]
pub struct Probability {
    numerator: u32,
    denominator: u32,
}

impl View for Probability {
    type V = (nat, nat);

    /// The pair `(numerator, denominator)`.
    closed spec fn view(&self) -> (nat, nat) {
        (self.numerator as nat, self.denominator as nat)
    }
}

impl Probability {
    /// Every value is a ratio between zero and one.
    #[verifier::type_invariant]
    pub open spec fn inv(&self) -> bool {
        Self::is_ratio(self@.0, self@.1)
    }

    /// Whether `numerator / denominator` is a probability: the denominator is
    /// positive and the numerator does not exceed it. Both fit in 32 bits.
    pub open spec fn is_ratio(numerator: nat, denominator: nat) -> bool {
        0 < denominator <= u32::MAX && numerator <= denominator
    }

    /// The event always happens.
    pub open spec fn is_certain(&self) -> bool {
        self@.0 == self@.1
    }

    /// The event never happens.
    pub open spec fn is_impossible(&self) -> bool {
        self@.0 == 0
    }

    /// The probability `numerator / denominator`, or `None` where that is no
    /// probability: with a zero denominator, or a numerator above the denominator.
    pub fn new(numerator: u32, denominator: u32) -> (p: Option<Probability>)
        ensures
            p is Some <==> Self::is_ratio(numerator as nat, denominator as nat),
            p matches Some(q) ==> q@ == (numerator as nat, denominator as nat),
    {
        if denominator == 0 || numerator > denominator {
            None
        } else {
            Some(Probability { numerator, denominator })
        }
    }

    /// One half.
    pub fn half() -> (p: Probability)
        ensures
            p@ == (1nat, 2nat),
    {
        Probability { numerator: 1, denominator: 2 }
    }

    /// The numerator of the ratio.
    pub fn numerator(&self) -> (n: u32)
        ensures
            n == self@.0,
    {
        self.numerator
    }

    /// The denominator of the ratio: positive, and no less than the numerator.
    pub fn denominator(&self) -> (d: u32)
        ensures
            d == self@.1,
            0 < d,
            self@.0 <= d,
    {
        proof {
            use_type_invariant(self);
        }
        self.denominator
    }
}

/// `rand::rngs::ThreadRng`, the handle to a thread's random number
/// generator. Its state is not modelled.
#[verifier::external_type_specification]
#[verifier::external_body]
pub struct ExThreadRng(ThreadRng);

/// `rand::thread_rng`: hands out the calling thread's generator, which the
/// operating system seeds on first use. Nothing is claimed of the handle.
/// rand panics here if the operating system cannot supply a seed.
pub assume_specification[ rand::thread_rng ]() -> (rng: ThreadRng);

/// `rand::Rng::gen_ratio` on the thread's generator: a coin that comes up
/// `true` with probability `numerator / denominator`. The outcome is random;
/// the contract keeps only the two cases that rand documents as fixed:
/// `numerator == denominator` always gives `true`, `numerator == 0` always
/// gives `false`. The call panics on a zero denominator or a numerator above
/// the denominator, which the precondition leaves out.
#[verifier::external_body]
pub(crate) fn gen_ratio(rng: &mut ThreadRng, numerator: u32, denominator: u32) -> (outcome: bool)
    requires
        0 < denominator,
        numerator <= denominator,
    ensures
        numerator == denominator ==> outcome,
        numerator == 0 ==> !outcome,
{
    rng.gen_ratio(numerator, denominator)
}

/// Draws one cell: alive with probability `threshold`.
pub(crate) fn sample_cell(rng: &mut ThreadRng, threshold: Probability) -> (alive: bool)
    ensures
        threshold.is_certain() ==> alive,
        threshold.is_impossible() ==> !alive,
{
    let denominator: u32 = threshold.denominator();
    gen_ratio(rng, threshold.numerator(), denominator)
}

} // verus!
