//! Cards and what surrounds them: the set a card was printed in, its price,
//! its rarity and types, decks and formats.

use vstd::prelude::*;
use chrono::NaiveDate;
use crate::cost::{amounts_sum, lemma_amounts_sum_bounds, lemma_amounts_sum_non_negative,
    lemma_amounts_sum_order_independent, lemma_amounts_sum_step};

verus! {

/// Card supertypes, seen on the left side of the card type, before the dash.
#[derive(Debug)]
pub enum CardType {
    BasicLand,
    Land,
    Creature,
    Artifact,
    Enchantment,
    Planeswalker,
    Instant,
    Sorcery,
}

/// Mana colors, often abbreviated as WUBRG: white being W, blue being U, black
/// being B, red being R and green being G. Colorless is also a color.
#[derive(Debug)]
pub enum ManaColor {
    White,
    Blue,
    Black,
    Red,
    Green,
    Colorless,
}

/// Card rarity.
#[derive(Debug)]
pub enum Rarity {
    Common,
    Uncommon,
    Rare,
    MythicRare,
    Land,
    Special,
    Token,
}

/// Incomplete list of formats that cards are played in.
#[derive(Debug)]
pub enum Format {
    Standard,
    Modern,
    Pioneer,
    Historic,
    Legacy,
    Vintage,
    Pauper,
    Sealed,
    BoosterDraft,
    RochesterDraft,
    Commander,
    CommanderDuel,
}

/// A mana cost, as seen in activated abilities and spells (creatures,
/// instants, sorceries, etc).
#[derive(Debug)]
pub struct ManaCost {
    /// The number of mana of any color (or colorless) required to cast
    /// whatever this cost is attached to.
    pub colorless: i32,
    /// Pairs of a mana color and how many of that color are required.
    pub colored: Vec<(ManaColor, i32)>,
}

impl ManaCost {
    /// The total amount of mana this cost asks for: the generic amount plus
    /// every colored amount.
    pub open spec fn total(&self) -> int {
        self.colorless + amounts_sum(self.colored@)
    }

    /// No amount of this cost is negative.
    pub open spec fn is_non_negative(&self) -> bool {
        &&& self.colorless >= 0
        &&& forall|i: int| 0 <= i < self.colored@.len() ==> (#[trigger] self.colored@[i]).1 >= 0
    }

    /// No color is listed twice among the colored requirements.
    pub open spec fn has_distinct_colors(&self) -> bool {
        forall|i: int, j: int|
            0 <= i < j < self.colored@.len() ==> (#[trigger] self.colored@[i]).0 != (
            #[trigger] self.colored@[j]).0
    }

    /// The cost is one that can be printed on a card: no amount is negative
    /// and each color is listed at most once.
    pub open spec fn well_formed(&self) -> bool {
        self.is_non_negative() && self.has_distinct_colors()
    }
}

/// A set of cards (example: "Portal Second Age (P02)").
#[derive(Debug)]
pub struct CardSet {
    /// (Usually) three letter encoding (example: "P02" for Portal Second Age)
    /// to represent the set.
    pub code: String,
    /// The full name that represents the set (example: "Portal Second Age").
    pub name: String,
    /// The number of cards in the set.
    pub card_count: u32,
    /// The date that the set was released.
    pub release_date: NaiveDate,
}

/// The price of a card at the time it was fetched.
#[derive(Debug)]
pub struct Price {
    /// The price of the card in United States Dollars (USD), held as the bit
    /// pattern of a single-precision number (what `f32::to_bits` gives and
    /// `f32::from_bits` takes), so that the amount is kept exactly as quoted.
    pub usd_bits: u32,
    /// The date the price was last fetched.
    pub fetch_date: NaiveDate,
}

/// A card.
#[derive(Debug)]
pub struct Card {
    /// The name of the card, as seen above the artwork, to the left of the
    /// casting cost.
    pub name: String,
    /// The supertype(s) of the card (example: "Creature", "Enchantment
    /// Creature", "Planeswalker").
    pub supertypes: Vec<CardType>,
    /// The subtypes of the card (example: "God", "Human Soldier", "Elemental
    /// Giant", "Aura").
    pub subtypes: Vec<String>,
    /// Whether the card is legendary or not (seen as the leftmost supertype
    /// of the card).
    pub is_legendary: bool,
    /// The rules, activated abilities, triggered abilities, keywords, etc, of
    /// the card, one paragraph each.
    pub rules: Vec<String>,
    /// The flavor text (in italics) of the card, seen below its rules text.
    pub flavor_text: String,
    /// The power of a creature card, the number before the slash in the
    /// bottom right of the card.
    pub power: i32,
    /// The toughness of a creature card, the number after the slash in the
    /// bottom right of the card.
    pub toughness: i32,
    /// The color identities of the card (seen typically in its border).
    pub colors: Vec<ManaColor>,
    /// The mana cost of the card (which makes it a spell), seen in the top
    /// right of the card.
    pub mana_cost: ManaCost,
    /// The artist of the artwork in the card, seen in the bottom left of the
    /// card in very small text, to the right of a brush symbol.
    pub illustrator: String,
    /// The set of the card (the specific origin of the printing of the card).
    pub set: CardSet,
    /// The index of the card in its set, counted from 1.
    pub set_number: i32,
    /// The rarity of the card, seen as the color of the set symbol on the
    /// right side of the type field of the card.
    pub rarity: Rarity,
    /// (Optional) price of the card: `None` where it was never fetched.
    pub price: Option<Price>,
    /// Whether the card has a foil (appears iridescent) over it or not.
    pub is_foil: bool,
}

/// A deck of cards.
#[derive(Debug)]
pub struct Deck {
    /// (Optional) the name of the deck.
    pub name: Option<String>,
    /// The cards in the main deck.
    pub maindeck: Vec<Card>,
    /// The cards in the sideboard.
    pub sideboard: Vec<Card>,
}

/// A card's number read as an unsigned 32-bit number: a number that is not
/// negative is itself, a negative one is counted down from 2^32.
pub open spec fn unsigned_number(number: i32) -> int {
    if number >= 0 {
        number as int
    } else {
        number + 0x1_0000_0000
    }
}

impl Card {
    /// The converted mana cost of the card: the total of its mana cost.
    pub open spec fn spec_cmc(&self) -> int {
        self.mana_cost.total()
    }

    /// Whether the card's number, read as an unsigned number, lies within the
    /// count of its set.
    pub open spec fn spec_is_in_booster(&self) -> bool {
        unsigned_number(self.set_number) <= self.set.card_count
    }

    /// The card could have been printed: it is numbered from 1 and its mana
    /// cost is well formed.
    pub open spec fn well_formed(&self) -> bool {
        self.set_number >= 1 && self.mana_cost.well_formed()
    }

    /// The converted mana cost to cast the card (not including activated
    /// abilities and any rulings): the generic amount of its mana cost plus
    /// every colored amount. The total has to fit the result.
    pub fn cmc(&self) -> (total: i32)
        requires
            i32::MIN <= self.spec_cmc() <= i32::MAX,
        ensures
            total == self.spec_cmc(),
            self.mana_cost.is_non_negative() ==> total >= 0,
    {
        let n: usize = self.mana_cost.colored.len();
        let mut cmc: i128 = self.mana_cost.colorless as i128;
        let mut i: usize = 0;
        while i < n
            invariant
                i <= n,
                n == self.mana_cost.colored@.len(),
                cmc == self.mana_cost.colorless + amounts_sum(
                    self.mana_cost.colored@.take(i as int),
                ),
            decreases n - i,
        {
            proof {
                lemma_amounts_sum_step(self.mana_cost.colored@, i as int);
                lemma_amounts_sum_bounds(self.mana_cost.colored@.take(i as int));
            }
            cmc = cmc + self.mana_cost.colored[i].1 as i128;
            i = i + 1;
        }
        proof {
            assert(self.mana_cost.colored@.take(n as int) =~= self.mana_cost.colored@);
            if self.mana_cost.is_non_negative() {
                lemma_amounts_sum_non_negative(self.mana_cost.colored@);
            }
        }
        cmc as i32
    }

    /// If true, the card is seen in the boosters sold for the set. If false,
    /// the card is a duplicate reprint of a card in the same set, numbered
    /// beyond the set's count. The last card of the set is still in its
    /// boosters.
    pub fn is_in_booster(&self) -> (in_booster: bool)
        ensures
            in_booster == self.spec_is_in_booster(),
    {
        let number: i32 = self.set_number;
        assert(number >= 0 ==> (number as u32) == number) by (bit_vector);
        assert(number < 0 ==> (number as u32) == number + 0x1_0000_0000) by (bit_vector);
        #[verifier::truncate]
        (self.set_number as u32) <= self.set.card_count
    }
}

/// The converted mana cost does not depend on the order in which the colored
/// requirements are listed: two cards with the same generic amount and the
/// same colored requirements, each listed as often on one as on the other,
/// cost the same.
pub proof fn lemma_cmc_order_independent(a: Card, b: Card)
    requires
        a.mana_cost.colorless == b.mana_cost.colorless,
        a.mana_cost.colored@.to_multiset() == b.mana_cost.colored@.to_multiset(),
    ensures
        a.spec_cmc() == b.spec_cmc(),
{
    lemma_amounts_sum_order_independent(a.mana_cost.colored@, b.mana_cost.colored@);
}

/// The converted mana cost of a card none of whose amounts is negative is not
/// negative.
pub proof fn lemma_cmc_non_negative(card: Card)
    requires
        card.mana_cost.is_non_negative(),
    ensures
        card.spec_cmc() >= 0,
{
    lemma_amounts_sum_non_negative(card.mana_cost.colored@);
}

/// The last card of a set is in its boosters: the bound is inclusive.
pub proof fn lemma_last_card_is_in_booster(card: Card)
    requires
        card.set_number == card.set.card_count,
    ensures
        card.spec_is_in_booster(),
{
}

/// The card numbered one beyond the count of its set is not in its boosters.
pub proof fn lemma_card_beyond_count_is_not_in_booster(card: Card)
    requires
        card.set_number == card.set.card_count + 1,
    ensures
        !card.spec_is_in_booster(),
{
}

/// A card whose number is not negative and lies below the count of its set is
/// in its boosters.
pub proof fn lemma_card_below_count_is_in_booster(card: Card)
    requires
        0 <= card.set_number < card.set.card_count,
    ensures
        card.spec_is_in_booster(),
{
}

/// For a card whose number is not negative, being in the boosters is the
/// plain comparison of its number with the count of its set.
pub proof fn lemma_in_booster_is_comparison(card: Card)
    requires
        card.set_number >= 0,
    ensures
        card.spec_is_in_booster() <==> card.set_number <= card.set.card_count,
{
}

/// Of a well-formed card both derived quantities are what the card shows:
/// its converted mana cost is not negative, and it is in the boosters of its
/// set exactly when its number does not exceed the count of the set.
pub proof fn lemma_well_formed_card(card: Card)
    requires
        card.well_formed(),
    ensures
        card.spec_cmc() >= 0,
        card.spec_is_in_booster() <==> card.set_number <= card.set.card_count,
{
    lemma_cmc_non_negative(card);
}

/// A card holds its field values as they were given: reading a field of a
/// card gives the value that the card was made with, unchanged.
pub proof fn lemma_card_keeps_its_fields(
    name: String,
    supertypes: Vec<CardType>,
    subtypes: Vec<String>,
    is_legendary: bool,
    rules: Vec<String>,
    flavor_text: String,
    power: i32,
    toughness: i32,
    colors: Vec<ManaColor>,
    mana_cost: ManaCost,
    illustrator: String,
    set: CardSet,
    set_number: i32,
    rarity: Rarity,
    price: Option<Price>,
    is_foil: bool,
)
    ensures
        ({
            let card = Card {
                name,
                supertypes,
                subtypes,
                is_legendary,
                rules,
                flavor_text,
                power,
                toughness,
                colors,
                mana_cost,
                illustrator,
                set,
                set_number,
                rarity,
                price,
                is_foil,
            };
            &&& card.name == name
            &&& card.supertypes == supertypes
            &&& card.subtypes == subtypes
            &&& card.is_legendary == is_legendary
            &&& card.rules == rules
            &&& card.flavor_text == flavor_text
            &&& card.power == power
            &&& card.toughness == toughness
            &&& card.colors == colors
            &&& card.mana_cost == mana_cost
            &&& card.illustrator == illustrator
            &&& card.set == set
            &&& card.set_number == set_number
            &&& card.rarity == rarity
            &&& card.price == price
            &&& card.is_foil == is_foil
        }),
{
}

/// A mana cost, a set and a price hold their field values as they were given.
pub proof fn lemma_parts_keep_their_fields(
    colorless: i32,
    colored: Vec<(ManaColor, i32)>,
    code: String,
    name: String,
    card_count: u32,
    release_date: NaiveDate,
    usd_bits: u32,
    fetch_date: NaiveDate,
)
    ensures
        (ManaCost { colorless, colored }).colorless == colorless,
        (ManaCost { colorless, colored }).colored == colored,
        (CardSet { code, name, card_count, release_date }).code == code,
        (CardSet { code, name, card_count, release_date }).name == name,
        (CardSet { code, name, card_count, release_date }).card_count == card_count,
        (CardSet { code, name, card_count, release_date }).release_date == release_date,
        (Price { usd_bits, fetch_date }).usd_bits == usd_bits,
        (Price { usd_bits, fetch_date }).fetch_date == fetch_date,
{
}

/// Every card type is one of the eight listed.
pub proof fn lemma_card_type_is_closed(card_type: CardType)
    ensures
        card_type is BasicLand || card_type is Land || card_type is Creature
            || card_type is Artifact || card_type is Enchantment || card_type is Planeswalker
            || card_type is Instant || card_type is Sorcery,
{
}

/// Every mana color is one of the six listed.
pub proof fn lemma_mana_color_is_closed(color: ManaColor)
    ensures
        color is White || color is Blue || color is Black || color is Red || color is Green
            || color is Colorless,
{
}

/// Every rarity is one of the seven listed.
pub proof fn lemma_rarity_is_closed(rarity: Rarity)
    ensures
        rarity is Common || rarity is Uncommon || rarity is Rare || rarity is MythicRare
            || rarity is Land || rarity is Special || rarity is Token,
{
}

} // verus!
