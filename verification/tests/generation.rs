use dig_bot::generator::{is_valid_drop_pool, GeneratorItem, ItemGenerator};
use dig_bot::item::Item;
use dig_bot::location::DiggingLocation;

#[test]
fn beach_generator_sorts_stably_by_weight() {
    let generator = ItemGenerator::new(DiggingLocation::Beach);
    let items: Vec<(Item, u32)> = generator.items().iter().map(|g| (g.item, g.drop_weight)).collect();
    assert_eq!(
        items,
        vec![
            (Item::Garbage, 10),
            (Item::OldCoin, 8),
            (Item::MetalScraps, 8),
            (Item::BrokenTool, 5),
            (Item::Diamond, 1),
            (Item::Ruby, 1),
        ]
    );
    assert_eq!(generator.total_drop_weight(), 33);
}

#[test]
fn every_location_has_a_generator() {
    for location in DiggingLocation::all_values() {
        assert!(is_valid_drop_pool(&location.get_drop_pool()));
        let generator = ItemGenerator::new(location);
        assert_eq!(generator.total_drop_weight(), 33);
        assert_eq!(generator.items().len(), 6);
    }
}

#[test]
fn random_items_come_from_the_pool() {
    let mut generator = ItemGenerator::new(DiggingLocation::Beach);
    for _ in 0..200 {
        let item = generator.random_item();
        assert!(generator.items().iter().any(|g: &GeneratorItem| g.item == item && g.drop_weight > 0));
    }
}

#[test]
fn single_entry_pool_always_gives_that_item() {
    let mut generator = ItemGenerator::from_drop_pool(&vec![(Item::Ruby, 3)]);
    for _ in 0..20 {
        assert_eq!(generator.random_item(), Item::Ruby);
    }
    assert_eq!(generator.total_drop_weight(), 3);
}

#[test]
fn drop_pool_validity() {
    assert!(is_valid_drop_pool(&DiggingLocation::Beach.get_drop_pool()));
    assert!(is_valid_drop_pool(&DiggingLocation::Forest.get_drop_pool()));
    assert!(!is_valid_drop_pool(&vec![(Item::Ruby, 0)]));
    assert!(!is_valid_drop_pool(&vec![(Item::Ruby, u32::MAX), (Item::Garbage, 1)]));
    assert!(is_valid_drop_pool(&vec![(Item::Ruby, u32::MAX - 1), (Item::Garbage, 1)]));
}

#[test]
fn entries_are_read_by_position() {
    let generator = ItemGenerator::new(DiggingLocation::Beach);
    assert_eq!(generator.item_at(0), Item::Garbage);
    assert_eq!(generator.item_at(2), Item::MetalScraps);
    assert_eq!(generator.item_at(5), Item::Ruby);
}
