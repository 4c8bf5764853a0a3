//! The dealer: draws a hand of five distinct cards from the full deck,
//! uniformly without replacement, from a caller-supplied randomness
//! source.

use vstd::prelude::*;
use crate::cards::Card;
use crate::cards::all_cards;
use crate::cards::full_deck;
use crate::cards::lemma_full_deck_distinct;

verus! {

#[verifier::external_type_specification]
#[verifier::external_body]
pub struct ExStdRng(rand::rngs::StdRng);

/// Relies on rand's `RngExt::random_range`: a draw from `lo..hi` lies in
/// that range for every outcome, and the range must not be empty.
#[verifier::external_body]
fn random_in_range(rng: &mut rand::rngs::StdRng, lo: usize, hi: usize) -> (r: usize)
    requires
        lo < hi,
    ensures
        lo <= r < hi,
{
    rand::RngExt::random_range(rng, lo..hi)
}

/// Deals the opening hand: five distinct cards drawn uniformly without
/// replacement from the sixteen, by a partial Fisher-Yates shuffle of
/// the deck driven by the supplied randomness source.
pub fn deal_five_cards(rng: &mut rand::rngs::StdRng) -> (hand: Vec<Card>)
    ensures
        hand@.len() == 5,
        forall|a: int, b: int| 0 <= a < b < 5 ==> hand@[a] != hand@[b],
        forall|a: int| 0 <= a < 5 ==> full_deck().contains(#[trigger] hand@[a]),
{
    let mut deck = all_cards();
    proof {
        lemma_full_deck_distinct();
        assert(forall|a: int| 0 <= a < 16 ==> full_deck().contains(#[trigger] deck@[a]));
    }
    let mut i: usize = 0;
    while i < 5
        invariant
            i <= 5,
            deck@.len() == 16,
            forall|a: int, b: int| 0 <= a < b < 16 ==> deck@[a] != deck@[b],
            forall|a: int| 0 <= a < 16 ==> full_deck().contains(#[trigger] deck@[a]),
        decreases 5 - i,
    {
        let j = random_in_range(rng, i, 16);
        let card_i = deck[i];
        let card_j = deck[j];
        deck.set(i, card_j);
        deck.set(j, card_i);
        i += 1;
    }
    let mut hand: Vec<Card> = Vec::new();
    let mut k: usize = 0;
    while k < 5
        invariant
            k <= 5,
            hand@.len() == k,
            deck@.len() == 16,
            forall|a: int, b: int| 0 <= a < b < 16 ==> deck@[a] != deck@[b],
            forall|a: int| 0 <= a < 16 ==> full_deck().contains(#[trigger] deck@[a]),
            forall|a: int| 0 <= a < k ==> hand@[a] == deck@[a],
        decreases 5 - k,
    {
        hand.push(deck[k]);
        k += 1;
    }
    hand
}

} // verus!
