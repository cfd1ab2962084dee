//! Digging locations: the channel each one lives in and what can be found there.

use vstd::prelude::*;
use crate::item::Item;
use crate::text::str_eq;

verus! {

/// A place where players can dig; each is a channel of the same name.
#[derive(Clone, Copy, PartialEq, Eq, Structural, Debug, Hash)]
pub enum DiggingLocation {
    Beach,
    Forest,
}

/// The drop pool of the beach: each item with its drop weight.
pub open spec fn beach_drop_pool() -> Seq<(Item, u32)> {
    seq![
        (Item::Garbage, 10u32),
        (Item::OldCoin, 8u32),
        (Item::BrokenTool, 5u32),
        (Item::Diamond, 1u32),
        (Item::Ruby, 1u32),
        (Item::MetalScraps, 8u32),
    ]
}

impl DiggingLocation {
    /// The name of the channel of this location.
    pub open spec fn spec_channel_name(self) -> Seq<char> {
        match self {
            DiggingLocation::Beach => "beach"@,
            DiggingLocation::Forest => "forest"@,
        }
    }

    /// What can be found at this location, each item with its drop weight.
    /// The forest has no weights of its own yet: until it gets them, it
    /// offers what the beach offers.
    pub open spec fn spec_drop_pool(self) -> Seq<(Item, u32)> {
        match self {
            DiggingLocation::Beach => beach_drop_pool(),
            DiggingLocation::Forest => beach_drop_pool(),
        }
    }

    /// The position of the location in declaration order.
    pub open spec fn spec_ordinal(self) -> u16 {
        match self {
            DiggingLocation::Beach => 0,
            DiggingLocation::Forest => 1,
        }
    }

    /// Every location, in declaration order.
    pub fn all_values() -> (r: Vec<DiggingLocation>)
        ensures
            r@ == seq![DiggingLocation::Beach, DiggingLocation::Forest],
    {
        let r = vec![DiggingLocation::Beach, DiggingLocation::Forest];
        assert(r@ =~= seq![DiggingLocation::Beach, DiggingLocation::Forest]);
        r
    }

    /// The name of the channel of this location.
    pub fn get_channel_name(&self) -> (r: &'static str)
        ensures
            r@ == self.spec_channel_name(),
            r@ == match self {
                DiggingLocation::Beach => "beach"@,
                DiggingLocation::Forest => "forest"@,
            },
    {
        match self {
            DiggingLocation::Beach => "beach",
            DiggingLocation::Forest => "forest",
        }
    }

    /// What can be found at this location, each item with its drop weight.
    pub fn get_drop_pool(&self) -> (r: Vec<(Item, u32)>)
        ensures
            r@ == self.spec_drop_pool(),
            r@ == seq![
                (Item::Garbage, 10u32),
                (Item::OldCoin, 8u32),
                (Item::BrokenTool, 5u32),
                (Item::Diamond, 1u32),
                (Item::Ruby, 1u32),
                (Item::MetalScraps, 8u32),
            ],
    {
        match self {
            DiggingLocation::Beach | DiggingLocation::Forest => {
                let r = vec![
                    (Item::Garbage, 10u32),
                    (Item::OldCoin, 8u32),
                    (Item::BrokenTool, 5u32),
                    (Item::Diamond, 1u32),
                    (Item::Ruby, 1u32),
                    (Item::MetalScraps, 8u32),
                ];
                assert(r@ =~= beach_drop_pool());
                r
            },
        }
    }

    /// The position of the location in declaration order.
    pub fn ordinal(&self) -> (r: u16)
        ensures
            r == self.spec_ordinal(),
            r == match self {
                DiggingLocation::Beach => 0u16,
                DiggingLocation::Forest => 1u16,
            },
    {
        match self {
            DiggingLocation::Beach => 0,
            DiggingLocation::Forest => 1,
        }
    }

    /// The location whose channel is called `channel_name`, if any.
    pub fn from_channel_name(channel_name: &str) -> (r: Option<DiggingLocation>)
        ensures
            r matches Some(loc) ==> loc.spec_channel_name() == channel_name@,
            r is None <==> (forall|loc: DiggingLocation| loc.spec_channel_name() != channel_name@),
    {
        if str_eq(channel_name, "beach") {
            Some(DiggingLocation::Beach)
        } else if str_eq(channel_name, "forest") {
            Some(DiggingLocation::Forest)
        } else {
            proof {
                assert forall|loc: DiggingLocation| loc.spec_channel_name() != channel_name@ by {
                    match loc {
                        _ => {},
                    }
                }
            }
            None
        }
    }
}


/// A location's ordinal is its position in declaration order, so different
/// locations have different ordinals.
pub proof fn lemma_ordinal_is_position(a: DiggingLocation, b: DiggingLocation)
    ensures
        seq![DiggingLocation::Beach, DiggingLocation::Forest][a.spec_ordinal() as int] == a,
        a.spec_ordinal() < 2,
        a != b ==> a.spec_ordinal() != b.spec_ordinal(),
{
}

} // verus!
