//! Chance in the game: a fair coin that draws on the `rand` crate and keeps a
//! record, for the proofs alone, of how it has landed.

use rand::rngs::StdRng;
use rand::Rng;
use vstd::prelude::*;

verus! {

/// `rand::rngs::StdRng`, carried through verified code as an opaque value.
#[verifier::external_type_specification]
#[verifier::external_body]
pub struct ExStdRng(StdRng);

/// Calls `rand::Rng::gen_ratio` on the standard generator. Nothing here is
/// proved; the code below relies on this contract.
///
/// `rand` documents that the call panics when `denominator` is zero or
/// `numerator` exceeds it, that equal arguments always give `true` and that a
/// zero numerator always gives `false`. Any other draw may come out either
/// way, so nothing else is claimed of it.
#[verifier::external_body]
fn gen_ratio(rng: &mut StdRng, numerator: u32, denominator: u32) -> (hit: bool)
    requires
        0 < denominator,
        numerator <= denominator,
    ensures
        numerator == denominator ==> hit,
        numerator == 0 ==> !hit,
{
    rng.gen_ratio(numerator, denominator)
}

/// A fair coin. Its view is the record of its tosses so far, oldest first;
/// the record exists in proofs only and costs nothing at run time.
pub struct Coin {
    rng: StdRng,
    tosses: Ghost<Seq<bool>>,
}

impl View for Coin {
    type V = Seq<bool>;

    closed spec fn view(&self) -> Seq<bool> {
        self.tosses@
    }
}

impl Coin {
    /// The generator on which the coin draws, in its present state.
    pub closed spec fn generator(&self) -> StdRng {
        self.rng
    }

    /// A coin that draws on `rng` and has not been tossed yet.
    pub fn new(rng: StdRng) -> (coin: Coin)
        ensures
            coin@ == Seq::<bool>::empty(),
            coin.generator() == rng,
    {
        Coin { rng, tosses: Ghost(Seq::empty()) }
    }

    /// Tosses the coin: one draw of one in two from the generator. How it
    /// lands is up to the generator; the toss joins the record.
    pub fn toss(&mut self) -> (heads: bool)
        ensures
            final(self)@ == old(self)@.push(heads),
    {
        let heads = gen_ratio(&mut self.rng, 1, 2);
        proof {
            self.tosses@ = self.tosses@.push(heads);
        }
        heads
    }

    /// Gives the generator back, in the state in which the last toss left it.
    pub fn into_rng(self) -> (rng: StdRng)
        ensures
            rng == self.generator(),
    {
        self.rng
    }
}

} // verus!
