use onitama_core::Card;
use onitama_core::all_cards;
use onitama_core::deal_five_cards;
use rand::SeedableRng;
use rand::rngs::StdRng;

fn card_index(deck: &[Card], card: Card) -> usize {
    deck.iter().position(|&c| c == card).unwrap()
}

#[test]
fn hand_has_five_distinct_cards() {
    let mut rng = StdRng::seed_from_u64(7);
    let hand = deal_five_cards(&mut rng);
    assert_eq!(hand.len(), 5);
    for i in 0..hand.len() {
        for j in 0..hand.len() {
            if i != j {
                assert_ne!(hand[i], hand[j]);
            }
        }
    }
}

#[test]
fn hands_are_distinct_under_many_seeds() {
    for seed in 0..200u64 {
        let mut rng = StdRng::seed_from_u64(seed);
        let hand = deal_five_cards(&mut rng);
        assert_eq!(hand.len(), 5);
        let mut seen = [false; 16];
        for card in &hand {
            let idx = card_index(&all_cards(), *card);
            assert!(!seen[idx], "duplicate card in hand for seed {}", seed);
            seen[idx] = true;
        }
    }
}

#[test]
fn every_card_appears_over_many_deals() {
    let deck = all_cards();
    let mut counts = [0usize; 16];
    let mut rng = StdRng::seed_from_u64(42);
    let trials = 1600usize;
    for _ in 0..trials {
        for card in deal_five_cards(&mut rng) {
            counts[card_index(&deck, card)] += 1;
        }
    }
    // Each card is expected in 5/16 of the hands: 500 times here. A count
    // far outside that band would betray a biased or constant draw.
    for (i, &count) in counts.iter().enumerate() {
        assert!(
            300 <= count && count <= 700,
            "card {} appeared {} times in {} deals",
            i,
            count,
            trials
        );
    }
}

#[test]
fn same_seed_same_hand() {
    let mut rng_a = StdRng::seed_from_u64(123);
    let mut rng_b = StdRng::seed_from_u64(123);
    assert_eq!(deal_five_cards(&mut rng_a), deal_five_cards(&mut rng_b));
}
