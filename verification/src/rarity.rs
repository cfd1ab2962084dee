//! Rarity grades of found items: their names, articles and colours.

use vstd::prelude::*;
use crate::text::{ascii_lower, ascii_lowercase};

verus! {

/// How rare a found item is, from the most common to the rarest.
#[derive(Clone, Copy, PartialEq, Eq, Structural, Debug)]
pub enum Rarity {
    Common,
    Uncommon,
    Rare,
    Epic,
    Legendary,
    Perfect,
}

/// The colour value packed from red, green and blue components, as a
/// 24-bit `0xRRGGBB` number.
pub open spec fn rgb_value(red: u8, green: u8, blue: u8) -> int {
    (red as u32) * 65536 + (green as u32) * 256 + (blue as u32)
}

impl Rarity {
    /// The name of the grade.
    pub open spec fn spec_name(self) -> Seq<char> {
        match self {
            Rarity::Common => "Common"@,
            Rarity::Uncommon => "Uncommon"@,
            Rarity::Rare => "Rare"@,
            Rarity::Epic => "Epic"@,
            Rarity::Legendary => "Legendary"@,
            Rarity::Perfect => "Perfect"@,
        }
    }

    /// The red, green and blue components of the grade's colour.
    pub open spec fn spec_rgb(self) -> (u8, u8, u8) {
        match self {
            Rarity::Common => (102, 102, 102),
            Rarity::Uncommon => (98, 117, 48),
            Rarity::Rare => (6, 49, 71),
            Rarity::Epic => (134, 20, 168),
            Rarity::Legendary => (219, 149, 29),
            Rarity::Perfect => (0, 255, 200),
        }
    }

    /// Whether the grade's name begins with a vowel, so that it takes "an".
    pub open spec fn spec_starts_with_vowel(self) -> bool {
        match self {
            Rarity::Uncommon | Rarity::Epic => true,
            _ => false,
        }
    }

    /// The name of the grade, e.g. "Legendary".
    pub fn to_string(&self) -> (r: String)
        ensures
            r@ == self.spec_name(),
            r@ == match self {
                Rarity::Common => "Common"@,
                Rarity::Uncommon => "Uncommon"@,
                Rarity::Rare => "Rare"@,
                Rarity::Epic => "Epic"@,
                Rarity::Legendary => "Legendary"@,
                Rarity::Perfect => "Perfect"@,
            },
    {
        let s = match self {
            Rarity::Common => "Common",
            Rarity::Uncommon => "Uncommon",
            Rarity::Rare => "Rare",
            Rarity::Epic => "Epic",
            Rarity::Legendary => "Legendary",
            Rarity::Perfect => "Perfect",
        };
        String::from_str(s)
    }

    /// The name of the grade in small letters, e.g. "legendary".
    pub fn lowercase_name(&self) -> (r: String)
        ensures
            r@ == ascii_lower(self.spec_name()),
    {
        let name = self.to_string();
        ascii_lowercase(name.as_str())
    }

    /// The red, green and blue components of the grade's colour.
    pub fn get_rarity_rgb(&self) -> (r: (u8, u8, u8))
        ensures
            r == self.spec_rgb(),
            r == match self {
                Rarity::Common => (102u8, 102u8, 102u8),
                Rarity::Uncommon => (98u8, 117u8, 48u8),
                Rarity::Rare => (6u8, 49u8, 71u8),
                Rarity::Epic => (134u8, 20u8, 168u8),
                Rarity::Legendary => (219u8, 149u8, 29u8),
                Rarity::Perfect => (0u8, 255u8, 200u8),
            },
    {
        match self {
            Rarity::Common => (102, 102, 102),
            Rarity::Uncommon => (98, 117, 48),
            Rarity::Rare => (6, 49, 71),
            Rarity::Epic => (134, 20, 168),
            Rarity::Legendary => (219, 149, 29),
            Rarity::Perfect => (0, 255, 200),
        }
    }

    /// The grade's colour as a packed `0xRRGGBB` value.
    pub fn get_rarity_color(&self) -> (r: u32)
        ensures
            r == rgb_value(self.spec_rgb().0, self.spec_rgb().1, self.spec_rgb().2),
    {
        let (red, green, blue) = self.get_rarity_rgb();
        (red as u32) * 65536 + (green as u32) * 256 + (blue as u32)
    }

    /// Whether the grade's name begins with a vowel.
    pub fn starts_with_vowel(&self) -> (r: bool)
        ensures
            r == self.spec_starts_with_vowel(),
            r <==> (*self == Rarity::Uncommon || *self == Rarity::Epic),
    {
        match self {
            Rarity::Uncommon | Rarity::Epic => true,
            Rarity::Common | Rarity::Rare | Rarity::Legendary | Rarity::Perfect => false,
        }
    }
}

/// A grade takes "an" exactly when its name begins with a vowel.
pub proof fn lemma_vowel_matches_name(rarity: Rarity)
    ensures
        rarity.spec_starts_with_vowel() <==> {
            let c = rarity.spec_name()[0];
            c == 'A' || c == 'E' || c == 'I' || c == 'O' || c == 'U'
        },
{
    reveal_strlit("Common");
    reveal_strlit("Uncommon");
    reveal_strlit("Rare");
    reveal_strlit("Epic");
    reveal_strlit("Legendary");
    reveal_strlit("Perfect");
}

} // verus!
