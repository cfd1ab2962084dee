//! The items that can be dug up, their names, ids, descriptions and values.

use vstd::prelude::*;
use crate::text::{replace, replace_all, space_before_capitals, space_capitals};

verus! {

/// An item that can be found while digging.
#[derive(Clone, Copy, PartialEq, Eq, Structural, Debug)]
pub enum Item {
    Garbage,
    OldCoin,
    BrokenTool,
    Diamond,
    Ruby,
    MetalScraps,
}

/// Every item, in declaration order.
pub open spec fn all_items() -> Seq<Item> {
    seq![Item::Garbage, Item::OldCoin, Item::BrokenTool, Item::Diamond, Item::Ruby, Item::MetalScraps]
}

/// The item whose stored id is `id`, if any.
pub open spec fn item_with_id(id: u16) -> Option<Item> {
    if id == 0 {
        Some(Item::Garbage)
    } else if id == 1 {
        Some(Item::OldCoin)
    } else if id == 2 {
        Some(Item::Diamond)
    } else if id == 3 {
        Some(Item::Ruby)
    } else if id == 4 {
        Some(Item::BrokenTool)
    } else if id == 5 {
        Some(Item::MetalScraps)
    } else {
        None
    }
}

impl Item {
    /// The item's choice name, its variant name.
    pub open spec fn spec_name(self) -> Seq<char> {
        match self {
            Item::Garbage => "Garbage"@,
            Item::OldCoin => "OldCoin"@,
            Item::BrokenTool => "BrokenTool"@,
            Item::Diamond => "Diamond"@,
            Item::Ruby => "Ruby"@,
            Item::MetalScraps => "MetalScraps"@,
        }
    }

    /// The name shown to players: a space before each inner capital.
    pub open spec fn spec_display(self) -> Seq<char> {
        space_capitals(self.spec_name())
    }

    /// The name of the item's image, without extension.
    pub open spec fn spec_asset_name(self) -> Seq<char> {
        replace_all(self.spec_display(), " "@, "_"@)
    }

    /// The id under which the item is stored.
    pub open spec fn spec_item_id(self) -> u16 {
        match self {
            Item::Garbage => 0,
            Item::OldCoin => 1,
            Item::Diamond => 2,
            Item::Ruby => 3,
            Item::BrokenTool => 4,
            Item::MetalScraps => 5,
        }
    }

    /// The base value of the item.
    pub open spec fn spec_item_value(self) -> u64 {
        match self {
            Item::Garbage => 3,
            Item::OldCoin => 8,
            Item::BrokenTool => 20,
            Item::Diamond => 85,
            Item::Ruby => 80,
            Item::MetalScraps => 5,
        }
    }

    /// Whether the item is named as a quantity ("some garbage") rather than
    /// as one thing ("a ruby").
    pub open spec fn spec_is_multiple(self) -> bool {
        match self {
            Item::Garbage | Item::MetalScraps => true,
            _ => false,
        }
    }

    /// Every item, in declaration order.
    pub fn all_values() -> (r: Vec<Item>)
        ensures
            r@ == all_items(),
    {
        let r = vec![Item::Garbage, Item::OldCoin, Item::BrokenTool, Item::Diamond, Item::Ruby, Item::MetalScraps];
        assert(r@ =~= all_items());
        r
    }

    /// The item's choice name, its variant name.
    pub fn name(&self) -> (r: &'static str)
        ensures
            r@ == self.spec_name(),
            r@ == match self {
                Item::Garbage => "Garbage"@,
                Item::OldCoin => "OldCoin"@,
                Item::BrokenTool => "BrokenTool"@,
                Item::Diamond => "Diamond"@,
                Item::Ruby => "Ruby"@,
                Item::MetalScraps => "MetalScraps"@,
            },
    {
        match self {
            Item::Garbage => "Garbage",
            Item::OldCoin => "OldCoin",
            Item::BrokenTool => "BrokenTool",
            Item::Diamond => "Diamond",
            Item::Ruby => "Ruby",
            Item::MetalScraps => "MetalScraps",
        }
    }

    /// The name shown to players, e.g. "Old Coin".
    pub fn to_string(&self) -> (r: String)
        ensures
            r@ == self.spec_display(),
    {
        space_before_capitals(self.name())
    }

    /// A short description of the item.
    pub fn get_description(&self) -> (r: &'static str)
        ensures
            r@ == match self {
                Item::Garbage => "Some garbage left behind"@,
                Item::OldCoin => "An old coin, dulled from its age"@,
                Item::BrokenTool => "A once working tool, now left in pieces"@,
                Item::Diamond => "A shiny diamond"@,
                Item::Ruby => "A beautifully vibrant red ruby"@,
                Item::MetalScraps => "Some metal scraps, a bit more useful than garbage at least"@,
            },
    {
        match self {
            Item::Garbage => "Some garbage left behind",
            Item::OldCoin => "An old coin, dulled from its age",
            Item::BrokenTool => "A once working tool, now left in pieces",
            Item::Diamond => "A shiny diamond",
            Item::Ruby => "A beautifully vibrant red ruby",
            Item::MetalScraps => "Some metal scraps, a bit more useful than garbage at least",
        }
    }

    /// The name of the item's image: the shown name with spaces as
    /// underscores, e.g. "Old_Coin".
    pub fn get_asset_name(&self) -> (r: String)
        ensures
            r@ == self.spec_asset_name(),
    {
        let shown = self.to_string();
        replace(shown.as_str(), " ", "_")
    }

    /// Whether the item is named as a quantity.
    pub fn is_multiple(&self) -> (r: bool)
        ensures
            r == self.spec_is_multiple(),
            r <==> (*self == Item::Garbage || *self == Item::MetalScraps),
    {
        match self {
            Item::Garbage | Item::MetalScraps => true,
            Item::Ruby | Item::Diamond | Item::BrokenTool | Item::OldCoin => false,
        }
    }

    /// The file name of the item's image, e.g. "Old_Coin.png".
    pub fn get_asset_file_name(&self) -> (r: String)
        ensures
            r@ == self.spec_asset_name() + ".png"@,
    {
        let mut r = self.get_asset_name();
        r.append(".png");
        r
    }

    /// The id under which the item is stored.
    pub fn item_id(&self) -> (r: u16)
        ensures
            r == self.spec_item_id(),
            r == match self {
                Item::Garbage => 0u16,
                Item::OldCoin => 1u16,
                Item::Diamond => 2u16,
                Item::Ruby => 3u16,
                Item::BrokenTool => 4u16,
                Item::MetalScraps => 5u16,
            },
    {
        match self {
            Item::Garbage => 0,
            Item::OldCoin => 1,
            Item::Diamond => 2,
            Item::Ruby => 3,
            Item::BrokenTool => 4,
            Item::MetalScraps => 5,
        }
    }

    /// The base value of the item.
    pub fn get_item_value(&self) -> (r: u64)
        ensures
            r == self.spec_item_value(),
            r == match self {
                Item::Garbage => 3u64,
                Item::OldCoin => 8u64,
                Item::BrokenTool => 20u64,
                Item::Diamond => 85u64,
                Item::Ruby => 80u64,
                Item::MetalScraps => 5u64,
            },
    {
        match self {
            Item::Garbage => 3,
            Item::OldCoin => 8,
            Item::BrokenTool => 20,
            Item::Diamond => 85,
            Item::Ruby => 80,
            Item::MetalScraps => 5,
        }
    }

    /// The item stored under `id`, or `None` when no item has that id.
    pub fn from_item_id(id: u16) -> (r: Option<Item>)
        ensures
            r == item_with_id(id),
            r matches Some(item) ==> item.spec_item_id() == id,
            r is None <==> (forall|item: Item| item.spec_item_id() != id),
    {
        let r = if id == 0 {
            Some(Item::Garbage)
        } else if id == 1 {
            Some(Item::OldCoin)
        } else if id == 2 {
            Some(Item::Diamond)
        } else if id == 3 {
            Some(Item::Ruby)
        } else if id == 4 {
            Some(Item::BrokenTool)
        } else if id == 5 {
            Some(Item::MetalScraps)
        } else {
            None
        };
        proof {
            if r is None {
                assert forall|item: Item| item.spec_item_id() != id by {
                    match item {
                        _ => {},
                    }
                }
            } else {
                assert(r->0.spec_item_id() == id);
            }
        }
        r
    }
}

/// Ids and items correspond one to one: looking up the id of an item gives
/// that item back, and an id that names an item is that item's id.
pub proof fn lemma_item_id_round_trip(item: Item, id: u16)
    ensures
        item_with_id(item.spec_item_id()) == Some(item),
        item_with_id(id) matches Some(found) ==> found.spec_item_id() == id,
        item_with_id(id) is Some <==> id < 6,
{
}

/// The table of items: each item's stored id and base value, and which
/// items are named as a quantity (only garbage and metal scraps).
pub proof fn lemma_item_table(item: Item)
    ensures
        item == Item::Garbage ==> item.spec_item_id() == 0 && item.spec_item_value() == 3,
        item == Item::OldCoin ==> item.spec_item_id() == 1 && item.spec_item_value() == 8,
        item == Item::Diamond ==> item.spec_item_id() == 2 && item.spec_item_value() == 85,
        item == Item::Ruby ==> item.spec_item_id() == 3 && item.spec_item_value() == 80,
        item == Item::BrokenTool ==> item.spec_item_id() == 4 && item.spec_item_value() == 20,
        item == Item::MetalScraps ==> item.spec_item_id() == 5 && item.spec_item_value() == 5,
        item.spec_is_multiple() <==> (item == Item::Garbage || item == Item::MetalScraps),
        item.spec_item_value() > 0,
{
}

/// Different items are stored under different ids.
pub proof fn lemma_item_ids_distinct(a: Item, b: Item)
    ensures
        a.spec_item_id() == b.spec_item_id() ==> a == b,
{
}

} // verus!
