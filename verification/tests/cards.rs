use cribbage::card::{Card, Deck, Rank, Suit};

#[test]
fn sorted_deck() {
    let expected: Vec<Card> = vec![
        Card { suit: Suit::Spade, rank: Rank::Ace },
        Card { suit: Suit::Spade, rank: Rank::Two },
        Card { suit: Suit::Spade, rank: Rank::Three },
        Card { suit: Suit::Spade, rank: Rank::Four },
        Card { suit: Suit::Spade, rank: Rank::Five },
        Card { suit: Suit::Spade, rank: Rank::Six },
        Card { suit: Suit::Spade, rank: Rank::Seven },
        Card { suit: Suit::Spade, rank: Rank::Eight },
        Card { suit: Suit::Spade, rank: Rank::Nine },
        Card { suit: Suit::Spade, rank: Rank::Ten },
        Card { suit: Suit::Spade, rank: Rank::Jack },
        Card { suit: Suit::Spade, rank: Rank::Queen },
        Card { suit: Suit::Spade, rank: Rank::King },
        Card { suit: Suit::Heart, rank: Rank::Ace },
        Card { suit: Suit::Heart, rank: Rank::Two },
        Card { suit: Suit::Heart, rank: Rank::Three },
        Card { suit: Suit::Heart, rank: Rank::Four },
        Card { suit: Suit::Heart, rank: Rank::Five },
        Card { suit: Suit::Heart, rank: Rank::Six },
        Card { suit: Suit::Heart, rank: Rank::Seven },
        Card { suit: Suit::Heart, rank: Rank::Eight },
        Card { suit: Suit::Heart, rank: Rank::Nine },
        Card { suit: Suit::Heart, rank: Rank::Ten },
        Card { suit: Suit::Heart, rank: Rank::Jack },
        Card { suit: Suit::Heart, rank: Rank::Queen },
        Card { suit: Suit::Heart, rank: Rank::King },
        Card { suit: Suit::Diamond, rank: Rank::Ace },
        Card { suit: Suit::Diamond, rank: Rank::Two },
        Card { suit: Suit::Diamond, rank: Rank::Three },
        Card { suit: Suit::Diamond, rank: Rank::Four },
        Card { suit: Suit::Diamond, rank: Rank::Five },
        Card { suit: Suit::Diamond, rank: Rank::Six },
        Card { suit: Suit::Diamond, rank: Rank::Seven },
        Card { suit: Suit::Diamond, rank: Rank::Eight },
        Card { suit: Suit::Diamond, rank: Rank::Nine },
        Card { suit: Suit::Diamond, rank: Rank::Ten },
        Card { suit: Suit::Diamond, rank: Rank::Jack },
        Card { suit: Suit::Diamond, rank: Rank::Queen },
        Card { suit: Suit::Diamond, rank: Rank::King },
        Card { suit: Suit::Club, rank: Rank::Ace },
        Card { suit: Suit::Club, rank: Rank::Two },
        Card { suit: Suit::Club, rank: Rank::Three },
        Card { suit: Suit::Club, rank: Rank::Four },
        Card { suit: Suit::Club, rank: Rank::Five },
        Card { suit: Suit::Club, rank: Rank::Six },
        Card { suit: Suit::Club, rank: Rank::Seven },
        Card { suit: Suit::Club, rank: Rank::Eight },
        Card { suit: Suit::Club, rank: Rank::Nine },
        Card { suit: Suit::Club, rank: Rank::Ten },
        Card { suit: Suit::Club, rank: Rank::Jack },
        Card { suit: Suit::Club, rank: Rank::Queen },
        Card { suit: Suit::Club, rank: Rank::King },
    ];

    assert_eq!(Deck::new_sorted().cards(), expected.as_slice());
}

#[test]
fn suit_iter_lists_all_four() {
    assert_eq!(
        Suit::iter(),
        vec![Suit::Spade, Suit::Heart, Suit::Diamond, Suit::Club]
    );
}

#[test]
fn rank_iter_lists_all_thirteen() {
    let ranks = Rank::iter();
    assert_eq!(ranks.len(), 13);
    assert_eq!(ranks[0], Rank::Ace);
    assert_eq!(ranks[12], Rank::King);
}

#[test]
fn deal_takes_twelve_off_the_top() {
    let mut deck = Deck::new_sorted();
    let (dealer, opponent) = deck.deal();

    assert_eq!(deck.cards().len(), 40);
    // The top of a sorted deck is the king of clubs; the opponent is dealt
    // first, so it gets the odd cards counting down from the top.
    assert_eq!(
        opponent.cards(),
        &[
            Card { suit: Suit::Club, rank: Rank::King },
            Card { suit: Suit::Club, rank: Rank::Jack },
            Card { suit: Suit::Club, rank: Rank::Nine },
            Card { suit: Suit::Club, rank: Rank::Seven },
            Card { suit: Suit::Club, rank: Rank::Five },
            Card { suit: Suit::Club, rank: Rank::Three },
        ]
    );
    assert_eq!(
        dealer.cards(),
        &[
            Card { suit: Suit::Club, rank: Rank::Queen },
            Card { suit: Suit::Club, rank: Rank::Ten },
            Card { suit: Suit::Club, rank: Rank::Eight },
            Card { suit: Suit::Club, rank: Rank::Six },
            Card { suit: Suit::Club, rank: Rank::Four },
            Card { suit: Suit::Club, rank: Rank::Two },
        ]
    );
}

#[test]
fn cut_removes_one_card_that_was_in_the_deck() {
    let mut rng = rand::thread_rng();
    let mut deck = Deck::new_sorted();
    let before: Vec<Card> = deck.cards().to_vec();
    let card = deck.cut(&mut rng);

    assert_eq!(deck.cards().len(), 51);
    assert!(before.contains(&card));
    let count_before = before.iter().filter(|c| **c == card).count();
    let count_after = deck.cards().iter().filter(|c| **c == card).count();
    assert_eq!(count_before, 1);
    assert_eq!(count_after, 0);
}

#[test]
fn shuffle_keeps_exactly_the_same_cards() {
    let mut rng = rand::thread_rng();
    let mut deck = Deck::new_shuffled(&mut rng);
    assert_eq!(deck.cards().len(), 52);
    for card in Deck::new_sorted().cards() {
        assert_eq!(deck.cards().iter().filter(|c| **c == *card).count(), 1);
    }
    deck.shuffle(&mut rng);
    assert_eq!(deck.cards().len(), 52);
    for card in Deck::new_sorted().cards() {
        assert_eq!(deck.cards().iter().filter(|c| **c == *card).count(), 1);
    }
}

#[test]
fn symbol_of_the_ace_of_spades() {
    let card = Card { suit: Suit::Spade, rank: Rank::Ace };
    assert_eq!(card.symbol(), '\u{1F0A1}');
    let card = Card { suit: Suit::Club, rank: Rank::King };
    assert_eq!(card.symbol(), '\u{1F0DE}');
}
