//! Cards, decks, and their components.

use vstd::prelude::*;

use rand::seq::SliceRandom;
use rand::Rng;

verus! {

/// A card suit.
///
/// A card has one of four suits.
#[derive(Clone, Copy, Debug, PartialEq, Eq, Structural)]
pub enum Suit {
    Spade,
    Heart,
    Diamond,
    Club,
}

/// All four suits, in the order decks are built in.
pub open spec fn spec_suits() -> Seq<Suit> {
    seq![Suit::Spade, Suit::Heart, Suit::Diamond, Suit::Club]
}

impl Suit {
    /// Return all suits, in deck-building order.
    pub fn iter() -> (suits: Vec<Suit>)
        ensures
            suits@ == spec_suits(),
    {
        let suits: Vec<Suit> = vec![Suit::Spade, Suit::Heart, Suit::Diamond, Suit::Club];
        assert(suits@ =~= spec_suits());
        suits
    }
}

/// A card's rank.
///
/// A card has one of thirteen ranks, from Ace up to King.
#[derive(Clone, Copy, Debug, PartialEq, Eq, Structural)]
pub enum Rank {
    Ace,
    Two,
    Three,
    Four,
    Five,
    Six,
    Seven,
    Eight,
    Nine,
    Ten,
    Jack,
    Queen,
    King,
}

/// All thirteen ranks, lowest first.
pub open spec fn spec_ranks() -> Seq<Rank> {
    seq![
        Rank::Ace, Rank::Two, Rank::Three, Rank::Four, Rank::Five, Rank::Six, Rank::Seven,
        Rank::Eight, Rank::Nine, Rank::Ten, Rank::Jack, Rank::Queen, Rank::King,
    ]
}

impl Rank {
    /// Return all ranks, lowest first.
    pub fn iter() -> (ranks: Vec<Rank>)
        ensures
            ranks@ == spec_ranks(),
    {
        let ranks: Vec<Rank> = vec![
            Rank::Ace, Rank::Two, Rank::Three, Rank::Four, Rank::Five, Rank::Six, Rank::Seven,
            Rank::Eight, Rank::Nine, Rank::Ten, Rank::Jack, Rank::Queen, Rank::King,
        ];
        assert(ranks@ =~= spec_ranks());
        ranks
    }
}

/// A card, which is a combination of a suit and a rank.
#[derive(Clone, Copy, Debug, PartialEq, Eq, Structural)]
pub struct Card {
    pub suit: Suit,
    pub rank: Rank,
}

/// The playing-card character for each suit and rank.
pub open spec fn spec_symbol(suit: Suit, rank: Rank) -> char {
    match suit {
        Suit::Spade => match rank {
            Rank::Ace => '\u{1F0A1}',
            Rank::Two => '\u{1F0A2}',
            Rank::Three => '\u{1F0A3}',
            Rank::Four => '\u{1F0A4}',
            Rank::Five => '\u{1F0A5}',
            Rank::Six => '\u{1F0A6}',
            Rank::Seven => '\u{1F0A7}',
            Rank::Eight => '\u{1F0A8}',
            Rank::Nine => '\u{1F0A9}',
            Rank::Ten => '\u{1F0AA}',
            Rank::Jack => '\u{1F0AB}',
            Rank::Queen => '\u{1F0AD}',
            Rank::King => '\u{1F0AE}',
        },
        Suit::Heart => match rank {
            Rank::Ace => '\u{1F0B1}',
            Rank::Two => '\u{1F0B2}',
            Rank::Three => '\u{1F0B3}',
            Rank::Four => '\u{1F0B4}',
            Rank::Five => '\u{1F0B5}',
            Rank::Six => '\u{1F0B6}',
            Rank::Seven => '\u{1F0B7}',
            Rank::Eight => '\u{1F0B8}',
            Rank::Nine => '\u{1F0B9}',
            Rank::Ten => '\u{1F0BA}',
            Rank::Jack => '\u{1F0BB}',
            Rank::Queen => '\u{1F0BD}',
            Rank::King => '\u{1F0BE}',
        },
        Suit::Diamond => match rank {
            Rank::Ace => '\u{1F0C1}',
            Rank::Two => '\u{1F0C2}',
            Rank::Three => '\u{1F0C3}',
            Rank::Four => '\u{1F0C4}',
            Rank::Five => '\u{1F0C5}',
            Rank::Six => '\u{1F0C6}',
            Rank::Seven => '\u{1F0C7}',
            Rank::Eight => '\u{1F0C8}',
            Rank::Nine => '\u{1F0C9}',
            Rank::Ten => '\u{1F0CA}',
            Rank::Jack => '\u{1F0CB}',
            Rank::Queen => '\u{1F0CD}',
            Rank::King => '\u{1F0CE}',
        },
        Suit::Club => match rank {
            Rank::Ace => '\u{1F0D1}',
            Rank::Two => '\u{1F0D2}',
            Rank::Three => '\u{1F0D3}',
            Rank::Four => '\u{1F0D4}',
            Rank::Five => '\u{1F0D5}',
            Rank::Six => '\u{1F0D6}',
            Rank::Seven => '\u{1F0D7}',
            Rank::Eight => '\u{1F0D8}',
            Rank::Nine => '\u{1F0D9}',
            Rank::Ten => '\u{1F0DA}',
            Rank::Jack => '\u{1F0DB}',
            Rank::Queen => '\u{1F0DD}',
            Rank::King => '\u{1F0DE}',
        },
    }
}

impl Card {
    /// The playing-card character that displays this card.
    pub fn symbol(&self) -> (c: char)
        ensures
            c == spec_symbol(self.suit, self.rank),
    {
        match (self.suit, self.rank) {
            (Suit::Spade, Rank::Ace) => '\u{1F0A1}',
            (Suit::Spade, Rank::Two) => '\u{1F0A2}',
            (Suit::Spade, Rank::Three) => '\u{1F0A3}',
            (Suit::Spade, Rank::Four) => '\u{1F0A4}',
            (Suit::Spade, Rank::Five) => '\u{1F0A5}',
            (Suit::Spade, Rank::Six) => '\u{1F0A6}',
            (Suit::Spade, Rank::Seven) => '\u{1F0A7}',
            (Suit::Spade, Rank::Eight) => '\u{1F0A8}',
            (Suit::Spade, Rank::Nine) => '\u{1F0A9}',
            (Suit::Spade, Rank::Ten) => '\u{1F0AA}',
            (Suit::Spade, Rank::Jack) => '\u{1F0AB}',
            (Suit::Spade, Rank::Queen) => '\u{1F0AD}',
            (Suit::Spade, Rank::King) => '\u{1F0AE}',
            (Suit::Heart, Rank::Ace) => '\u{1F0B1}',
            (Suit::Heart, Rank::Two) => '\u{1F0B2}',
            (Suit::Heart, Rank::Three) => '\u{1F0B3}',
            (Suit::Heart, Rank::Four) => '\u{1F0B4}',
            (Suit::Heart, Rank::Five) => '\u{1F0B5}',
            (Suit::Heart, Rank::Six) => '\u{1F0B6}',
            (Suit::Heart, Rank::Seven) => '\u{1F0B7}',
            (Suit::Heart, Rank::Eight) => '\u{1F0B8}',
            (Suit::Heart, Rank::Nine) => '\u{1F0B9}',
            (Suit::Heart, Rank::Ten) => '\u{1F0BA}',
            (Suit::Heart, Rank::Jack) => '\u{1F0BB}',
            (Suit::Heart, Rank::Queen) => '\u{1F0BD}',
            (Suit::Heart, Rank::King) => '\u{1F0BE}',
            (Suit::Diamond, Rank::Ace) => '\u{1F0C1}',
            (Suit::Diamond, Rank::Two) => '\u{1F0C2}',
            (Suit::Diamond, Rank::Three) => '\u{1F0C3}',
            (Suit::Diamond, Rank::Four) => '\u{1F0C4}',
            (Suit::Diamond, Rank::Five) => '\u{1F0C5}',
            (Suit::Diamond, Rank::Six) => '\u{1F0C6}',
            (Suit::Diamond, Rank::Seven) => '\u{1F0C7}',
            (Suit::Diamond, Rank::Eight) => '\u{1F0C8}',
            (Suit::Diamond, Rank::Nine) => '\u{1F0C9}',
            (Suit::Diamond, Rank::Ten) => '\u{1F0CA}',
            (Suit::Diamond, Rank::Jack) => '\u{1F0CB}',
            (Suit::Diamond, Rank::Queen) => '\u{1F0CD}',
            (Suit::Diamond, Rank::King) => '\u{1F0CE}',
            (Suit::Club, Rank::Ace) => '\u{1F0D1}',
            (Suit::Club, Rank::Two) => '\u{1F0D2}',
            (Suit::Club, Rank::Three) => '\u{1F0D3}',
            (Suit::Club, Rank::Four) => '\u{1F0D4}',
            (Suit::Club, Rank::Five) => '\u{1F0D5}',
            (Suit::Club, Rank::Six) => '\u{1F0D6}',
            (Suit::Club, Rank::Seven) => '\u{1F0D7}',
            (Suit::Club, Rank::Eight) => '\u{1F0D8}',
            (Suit::Club, Rank::Nine) => '\u{1F0D9}',
            (Suit::Club, Rank::Ten) => '\u{1F0DA}',
            (Suit::Club, Rank::Jack) => '\u{1F0DB}',
            (Suit::Club, Rank::Queen) => '\u{1F0DD}',
            (Suit::Club, Rank::King) => '\u{1F0DE}',
        }
    }
}

/// A fresh, unshuffled deck: all fifty-two cards, grouped by suit in suit
/// order, each group in rank order, bottom of the deck first.
pub open spec fn spec_sorted_deck() -> Seq<Card> {
    Seq::new(52, |i: int| Card { suit: spec_suits()[i / 13], rank: spec_ranks()[i % 13] })
}

/// The thread-local generator of the rand crate, used to shuffle and cut.
/// Declared so that verified code can hold and pass one; nothing is
/// assumed about the values it produces.
#[verifier::external_type_specification]
#[verifier::external_body]
pub struct ExThreadRng(rand::rngs::ThreadRng);

/// Relies on rand's `SliceRandom::shuffle`: a Fisher–Yates pass that
/// swaps elements in place, so the result holds exactly the same cards,
/// rearranged. Nothing is assumed about the order it produces.
#[verifier::external_body]
fn shuffle_cards(cards: &mut Vec<Card>, rng: &mut rand::rngs::ThreadRng)
    ensures
        final(cards)@.len() == old(cards)@.len(),
        final(cards)@.to_multiset() == old(cards)@.to_multiset(),
{
    cards.shuffle(rng)
}

/// Relies on rand's `Rng::gen_range` over `0..n`: it panics only on an
/// empty range, which the precondition rules out, and otherwise returns
/// a value of the range.
#[verifier::external_body]
fn gen_index(rng: &mut rand::rngs::ThreadRng, n: usize) -> (r: usize)
    requires
        n > 0,
    ensures
        r < n,
{
    rng.gen_range(0..n)
}

/// A deck of cards.
#[derive(Clone, Debug, PartialEq, Eq)]
pub struct Deck(Vec<Card>);

impl Deck {
    /// The cards in the deck, bottom first.
    pub closed spec fn view(self) -> Seq<Card> {
        self.0@
    }

    /// Generate a new sorted (i.e., unshuffled) deck.
    pub fn new_sorted() -> (deck: Deck)
        ensures
            deck@ == spec_sorted_deck(),
    {
        let suits = Suit::iter();
        let ranks = Rank::iter();
        let mut cards: Vec<Card> = Vec::new();
        let mut i: usize = 0;
        while i < 52
            invariant
                i <= 52,
                suits@ == spec_suits(),
                ranks@ == spec_ranks(),
                cards@ == spec_sorted_deck().subrange(0, i as int),
            decreases 52 - i,
        {
            cards.push(Card { suit: suits[i / 13], rank: ranks[i % 13] });
            i = i + 1;
            assert(cards@ =~= spec_sorted_deck().subrange(0, i as int));
        }
        assert(cards@ =~= spec_sorted_deck());
        Deck(cards)
    }

    /// Generate a new shuffled deck: the same fifty-two cards as a sorted
    /// deck, in an order nothing is assumed about.
    pub fn new_shuffled(rng: &mut rand::rngs::ThreadRng) -> (deck: Deck)
        ensures
            deck@.len() == 52,
            deck@.to_multiset() == spec_sorted_deck().to_multiset(),
    {
        let mut deck = Deck::new_sorted();
        deck.shuffle(rng);
        deck
    }

    /// Shuffle the deck of cards: the same cards, rearranged.
    pub fn shuffle(&mut self, rng: &mut rand::rngs::ThreadRng)
        ensures
            final(self)@.len() == old(self)@.len(),
            final(self)@.to_multiset() == old(self)@.to_multiset(),
    {
        shuffle_cards(&mut self.0, rng)
    }

    /// Return the cards in the deck.
    ///
    /// The first element of the returned slice is the bottom of the deck
    /// and the last element is the top of the deck.
    pub fn cards(&self) -> (cards: &[Card])
        ensures
            cards@ == self@,
    {
        self.0.as_slice()
    }

    /// Deal out two hands: six cards each off the top of the deck, one at
    /// a time, the opponent's first.
    pub fn deal(&mut self) -> (hands: (Hand, Hand))
        requires
            old(self)@.len() >= 12,
        ensures
            final(self)@ == old(self)@.subrange(0, old(self)@.len() - 12),
            hands.0.unplayed() == seq![
                old(self)@[old(self)@.len() - 2],
                old(self)@[old(self)@.len() - 4],
                old(self)@[old(self)@.len() - 6],
                old(self)@[old(self)@.len() - 8],
                old(self)@[old(self)@.len() - 10],
                old(self)@[old(self)@.len() - 12],
            ],
            hands.1.unplayed() == seq![
                old(self)@[old(self)@.len() - 1],
                old(self)@[old(self)@.len() - 3],
                old(self)@[old(self)@.len() - 5],
                old(self)@[old(self)@.len() - 7],
                old(self)@[old(self)@.len() - 9],
                old(self)@[old(self)@.len() - 11],
            ],
            hands.0.played() == Seq::<Card>::empty(),
            hands.1.played() == Seq::<Card>::empty(),
    {
        let mut dealer: Vec<Card> = Vec::new();
        let mut opponent: Vec<Card> = Vec::new();

        opponent.push(self.0.pop().unwrap());
        dealer.push(self.0.pop().unwrap());
        opponent.push(self.0.pop().unwrap());
        dealer.push(self.0.pop().unwrap());
        opponent.push(self.0.pop().unwrap());
        dealer.push(self.0.pop().unwrap());
        opponent.push(self.0.pop().unwrap());
        dealer.push(self.0.pop().unwrap());
        opponent.push(self.0.pop().unwrap());
        dealer.push(self.0.pop().unwrap());
        opponent.push(self.0.pop().unwrap());
        dealer.push(self.0.pop().unwrap());

        assert(self.0@ =~= old(self)@.subrange(0, old(self)@.len() - 12));

        (
            Hand { unplayed: dealer, played: Vec::new() },
            Hand { unplayed: opponent, played: Vec::new() },
        )
    }

    /// Cut the deck at a place nothing is assumed about and return the
    /// cut card: some card of the deck, which the deck no longer holds.
    pub fn cut(&mut self, rng: &mut rand::rngs::ThreadRng) -> (card: Card)
        requires
            old(self)@.len() > 0,
        ensures
            exists|i: int|
                0 <= i < old(self)@.len() && card == old(self)@[i] && final(self)@ == old(
                    self,
                )@.remove(i),
    {
        let index: usize = gen_index(rng, self.0.len());
        self.0.remove(index)
    }
}

/// A player's hand: the cards not yet played, and those already laid down.
#[derive(Debug, PartialEq, Eq)]
pub struct Hand {
    unplayed: Vec<Card>,
    played: Vec<Card>,
}

impl Hand {
    /// The cards not yet played, in the order they were dealt.
    pub closed spec fn unplayed(self) -> Seq<Card> {
        self.unplayed@
    }

    /// The cards already played.
    pub closed spec fn played(self) -> Seq<Card> {
        self.played@
    }

    /// Return the cards of the hand that have not been played yet.
    pub fn cards(&self) -> (cards: &[Card])
        ensures
            cards@ == self.unplayed(),
    {
        self.unplayed.as_slice()
    }
}

} // verus!
