//! Digging: the cooldown between digs, and the texts that announce a find.

use vstd::prelude::*;
use rand::rngs::SmallRng;
use crate::commands::spec_create_time_text;
use crate::item::Item;
use crate::location::DiggingLocation;
use crate::random::random_below;
use crate::rarity::Rarity;
use crate::text::{ascii_lower, decimal, push_decimal, push_signed_decimal, replace, replace_all};

verus! {

/// How long, in seconds, a player waits between digs at one location.
pub const DIG_COOLDOWN_TIME_SECS: i64 = 60;

/// When a player may dig again at a location, given when they last dug
/// there: a cooldown after the last dig, counted from time 0 when they never
/// dug there.
pub open spec fn spec_next_allowed(last_dig_time: Option<i64>) -> int {
    match last_dig_time {
        Some(t) => t + DIG_COOLDOWN_TIME_SECS,
        None => DIG_COOLDOWN_TIME_SECS as int,
    }
}

/// The first time at which a player may dig again.
pub fn next_allowed_dig_time(last_dig_time: Option<i64>) -> (r: i64)
    requires
        last_dig_time matches Some(t) ==> t + DIG_COOLDOWN_TIME_SECS <= i64::MAX,
    ensures
        r == spec_next_allowed(last_dig_time),
{
    let last = match last_dig_time {
        Some(t) => t,
        None => 0,
    };
    last + DIG_COOLDOWN_TIME_SECS
}

/// Whether a player may dig at time `now`: not before the cooldown ends.
pub fn can_dig(now: i64, last_dig_time: Option<i64>) -> (r: bool)
    requires
        last_dig_time matches Some(t) ==> t + DIG_COOLDOWN_TIME_SECS <= i64::MAX,
    ensures
        r == (now >= spec_next_allowed(last_dig_time)),
{
    !(now < next_allowed_dig_time(last_dig_time))
}

/// After a dig at time `t`, the next dig at that location is refused during
/// the cooldown and allowed from its end on.
pub proof fn lemma_cooldown_after_dig(t: i64, now: i64)
    ensures
        now < t + DIG_COOLDOWN_TIME_SECS ==> !(now >= spec_next_allowed(Some(t))),
        now >= t + DIG_COOLDOWN_TIME_SECS ==> now >= spec_next_allowed(Some(t)),
{
}

/// The key under which the time of a player's last dig at a location is
/// kept: the player's id read as a signed number, and the location's place.
pub fn last_dug_key(user_id: u64, location: DiggingLocation) -> (r: (i64, u16))
    ensures
        r.0 == user_id as i64,
        r.1 == location.spec_ordinal(),
{
    (user_id as i64, location.ordinal())
}

/// Each location keeps its own cooldown: one player's last digs at two
/// different locations are kept under different keys, and two players'
/// under different keys at any location.
pub proof fn lemma_last_dug_keys_distinct(user_a: u64, a: DiggingLocation, user_b: u64, b: DiggingLocation)
    ensures
        (user_a as i64, a.spec_ordinal()) == (user_b as i64, b.spec_ordinal()) <==> (user_a == user_b && a == b),
{
    crate::location::lemma_ordinal_is_position(a, b);
    assert((user_a as i64 == user_b as i64) <==> user_a == user_b) by (bit_vector);
}

/// Only items named as a quantity take "some"; every other item takes "an"
/// before a rarity that begins with a vowel and "a" otherwise.
pub proof fn lemma_article(item: Item, rarity: Rarity)
    ensures
        spec_article(item, rarity) == "some"@ <==> (item == Item::Garbage || item == Item::MetalScraps),
        !(item == Item::Garbage || item == Item::MetalScraps) ==> spec_article(item, rarity) == (
            if rarity == Rarity::Uncommon || rarity == Rarity::Epic { "an"@ } else { "a"@ }),
{
    reveal_strlit("some");
    reveal_strlit("an");
    reveal_strlit("a");
}

/// The article before a found item: "some" for items named as a quantity,
/// otherwise "an" or "a" after the rarity's first letter.
pub open spec fn spec_article(item: Item, rarity: Rarity) -> Seq<char> {
    if item.spec_is_multiple() {
        "some"@
    } else if rarity.spec_starts_with_vowel() {
        "an"@
    } else {
        "a"@
    }
}

/// The article before a found item.
pub fn dig_article(item: Item, rarity: Rarity) -> (r: &'static str)
    ensures
        r@ == spec_article(item, rarity),
{
    if item.is_multiple() {
        "some"
    } else if rarity.starts_with_vowel() {
        "an"
    } else {
        "a"
    }
}

/// The announcements of a find, before their placeholders are filled.
pub open spec fn drop_template(index: int) -> Seq<char> {
    if index == 0 {
        "After some digging you found $article $rarity $item!"@
    } else {
        "It was hard work, but you found $article $rarity $item!"@
    }
}

/// The number of announcements of a find.
pub const DROP_TEXT_COUNT: usize = 2;

/// An announcement of a find: the article, the rarity in small letters and
/// the item's shown name put in place of `$article`, `$rarity` and `$item`.
pub open spec fn spec_drop_text(index: int, item: Item, rarity: Rarity) -> Seq<char> {
    replace_all(
        replace_all(
            replace_all(drop_template(index), "$article"@, spec_article(item, rarity)),
            "$rarity"@,
            ascii_lower(rarity.spec_name()),
        ),
        "$item"@,
        item.spec_display(),
    )
}

/// The announcement of a find, with the given template.
pub fn drop_text(index: usize, item: Item, rarity: Rarity) -> (r: String)
    requires
        index < DROP_TEXT_COUNT,
    ensures
        r@ == spec_drop_text(index as int, item, rarity),
{
    let template = if index == 0 {
        "After some digging you found $article $rarity $item!"
    } else {
        "It was hard work, but you found $article $rarity $item!"
    };
    let article = dig_article(item, rarity);
    let rarity_text = rarity.lowercase_name();
    let item_text = item.to_string();
    let first = replace(template, "$article", article);
    let second = replace(first.as_str(), "$rarity", rarity_text.as_str());
    replace(second.as_str(), "$item", item_text.as_str())
}

/// The announcement of a find, with a template drawn at random.
pub fn random_drop_text(rng: &mut SmallRng, item: Item, rarity: Rarity) -> (r: String)
    ensures
        exists|index: int| 0 <= index < DROP_TEXT_COUNT && r@ == spec_drop_text(index, item, rarity),
{
    let index = random_below(rng, DROP_TEXT_COUNT);
    drop_text(index, item, rarity)
}

/// The refusal of a dig during the cooldown, naming when digging may resume.
pub fn dig_cooldown_message(next_allowed: i64) -> (r: String)
    ensures
        r@ == "You cant dig here yet, try another location or here again "@ + spec_create_time_text(next_allowed),
{
    let mut r = String::from_str("You cant dig here yet, try another location or here again <t:");
    push_signed_decimal(&mut r, next_allowed);
    r.append(":R>");
    proof {
        reveal_strlit("You cant dig here yet, try another location or here again <t:");
        reveal_strlit("You cant dig here yet, try another location or here again ");
        reveal_strlit("<t:");
        assert(r@ =~= "You cant dig here yet, try another location or here again "@ + spec_create_time_text(next_allowed));
    }
    r
}

/// The advice given where no digging location is: the beach channel when
/// there is one, otherwise a call to run the setup.
pub fn dig_advice_text(beach_channel_id: Option<u64>) -> (r: String)
    ensures
        r@ == match beach_channel_id {
            Some(id) => "Try the <#"@ + decimal(id as nat) + ">, I heard it's a good place to start out!"@,
            None => "I would recommend the beach to dig, but I can't find the channel!\nHave an admin run `/setup`"@,
        },
{
    match beach_channel_id {
        Some(id) => {
            let mut r = String::from_str("Try the <#");
            push_decimal(&mut r, id);
            r.append(">, I heard it's a good place to start out!");
            r
        },
        None => String::from_str(
            "I would recommend the beach to dig, but I can't find the channel!\nHave an admin run `/setup`",
        ),
    }
}

/// The refusal of a dig outside the digging locations, with the advice.
pub fn cant_dig_message(advice: &str) -> (r: String)
    ensures
        r@ == "You can't dig here!\n"@ + advice@,
{
    let mut r = String::from_str("You can't dig here!\n");
    r.append(advice);
    r
}

/// The path of an item's image.
pub fn item_image_path(item: Item) -> (r: String)
    ensures
        r@ == "./assets/images/items/"@ + item.spec_asset_name() + ".png"@,
{
    let mut r = String::from_str("./assets/images/items/");
    let file = item.get_asset_file_name();
    r.append(file.as_str());
    proof {
        assert(r@ =~= "./assets/images/items/"@ + item.spec_asset_name() + ".png"@);
    }
    r
}

/// The address of an item's image attached to a message.
pub fn item_attachment_url(item: Item) -> (r: String)
    ensures
        r@ == "attachment://"@ + item.spec_asset_name() + ".png"@,
{
    let mut r = String::from_str("attachment://");
    let file = item.get_asset_file_name();
    r.append(file.as_str());
    proof {
        assert(r@ =~= "attachment://"@ + item.spec_asset_name() + ".png"@);
    }
    r
}

/// The description of an item with its base value.
pub fn item_info_text(item: Item) -> (r: String)
    ensures
        r@ == match item {
            Item::Garbage => "Some garbage left behind"@,
            Item::OldCoin => "An old coin, dulled from its age"@,
            Item::BrokenTool => "A once working tool, now left in pieces"@,
            Item::Diamond => "A shiny diamond"@,
            Item::Ruby => "A beautifully vibrant red ruby"@,
            Item::MetalScraps => "Some metal scraps, a bit more useful than garbage at least"@,
        } + "\nBase item value: $"@ + decimal(item.spec_item_value() as nat),
{
    let mut r = String::from_str(item.get_description());
    r.append("\nBase item value: $");
    push_decimal(&mut r, item.get_item_value());
    r
}

} // verus!
