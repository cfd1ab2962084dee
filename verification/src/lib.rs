//! The game rules of a digging bot: items and their values, drop pools and
//! weighted item generation, rarities, inventory pages and sales, dig
//! cooldowns, coin-flip bets, and the texts and queries the bot sends.

pub mod text;
pub mod item;
pub mod location;
pub mod rarity;
pub mod random;
pub mod generator;
pub mod inventory;
pub mod coin_flip;
pub mod commands;
pub mod dig;
pub mod db;
