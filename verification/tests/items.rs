use dig_bot::item::Item;
use dig_bot::rarity::Rarity;
use dig_bot::location::DiggingLocation;

#[test]
fn item_display_names_split_words() {
    assert_eq!(Item::Garbage.to_string(), "Garbage");
    assert_eq!(Item::OldCoin.to_string(), "Old Coin");
    assert_eq!(Item::BrokenTool.to_string(), "Broken Tool");
    assert_eq!(Item::MetalScraps.to_string(), "Metal Scraps");
}

#[test]
fn item_asset_names_use_underscores() {
    assert_eq!(Item::OldCoin.get_asset_name(), "Old_Coin");
    assert_eq!(Item::Ruby.get_asset_name(), "Ruby");
    assert_eq!(Item::MetalScraps.get_asset_file_name(), "Metal_Scraps.png");
    assert_eq!(Item::Diamond.get_asset_file_name(), "Diamond.png");
}

#[test]
fn item_ids_round_trip() {
    for item in Item::all_values() {
        assert_eq!(Item::from_item_id(item.item_id()), Some(item));
    }
    assert_eq!(Item::Diamond.item_id(), 2);
    assert_eq!(Item::BrokenTool.item_id(), 4);
    assert_eq!(Item::from_item_id(6), None);
    assert_eq!(Item::from_item_id(u16::MAX), None);
}

#[test]
fn item_values_and_quantities() {
    assert_eq!(Item::Garbage.get_item_value(), 3);
    assert_eq!(Item::Diamond.get_item_value(), 85);
    assert_eq!(Item::Ruby.get_item_value(), 80);
    assert!(Item::Garbage.is_multiple());
    assert!(Item::MetalScraps.is_multiple());
    assert!(!Item::Ruby.is_multiple());
    assert_eq!(Item::Diamond.get_description(), "A shiny diamond");
}

#[test]
fn rarity_names_and_articles() {
    assert_eq!(Rarity::Legendary.to_string(), "Legendary");
    assert_eq!(Rarity::Uncommon.lowercase_name(), "uncommon");
    assert!(Rarity::Epic.starts_with_vowel());
    assert!(Rarity::Uncommon.starts_with_vowel());
    assert!(!Rarity::Rare.starts_with_vowel());
    assert!(!Rarity::Perfect.starts_with_vowel());
}

#[test]
fn rarity_colors_pack_rgb() {
    assert_eq!(Rarity::Common.get_rarity_rgb(), (102, 102, 102));
    assert_eq!(Rarity::Perfect.get_rarity_color(), 0x00ffc8);
    assert_eq!(Rarity::Legendary.get_rarity_color(), (219 << 16) | (149 << 8) | 29);
}

#[test]
fn locations_and_channels() {
    assert_eq!(DiggingLocation::Beach.get_channel_name(), "beach");
    assert_eq!(DiggingLocation::Forest.get_channel_name(), "forest");
    assert_eq!(DiggingLocation::from_channel_name("beach"), Some(DiggingLocation::Beach));
    assert_eq!(DiggingLocation::from_channel_name("forest"), Some(DiggingLocation::Forest));
    assert_eq!(DiggingLocation::from_channel_name("Beach"), None);
    assert_eq!(DiggingLocation::from_channel_name("general"), None);
    assert_eq!(DiggingLocation::Forest.ordinal(), 1);
}

#[test]
fn beach_drop_pool_contents() {
    let pool = DiggingLocation::Beach.get_drop_pool();
    assert_eq!(pool.len(), 6);
    assert_eq!(pool[0], (Item::Garbage, 10));
    assert_eq!(pool[3], (Item::Diamond, 1));
    assert_eq!(DiggingLocation::Forest.get_drop_pool(), pool);
}
