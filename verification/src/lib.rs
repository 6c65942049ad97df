//! A data model for trading cards: cards, the sets they were printed in, mana
//! costs, prices and rarities, with the two quantities derived from a card:
//! its converted mana cost and whether it is part of its set's boosters.

pub mod cost;
pub mod date;
pub mod model;
