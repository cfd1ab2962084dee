use dig_bot::commands::{
    find_channel_by_name, plan_setup, setup_report, CasinoRoom, ChannelBasedEnum, ChannelInfo,
    CommandName, CommandRegistry, CreateTime,
};
use dig_bot::db::{
    balance_field, balance_message, def, BAL_TOP_QUERY, dropped_table_message, own_balance_message,
    profile_created_message, schema_query, startup_drop_queries, FieldTy, UserData,
};
use dig_bot::dig::{
    can_dig, cant_dig_message, dig_advice_text, dig_article, dig_cooldown_message, drop_text,
    item_attachment_url, item_image_path, item_info_text, last_dug_key, next_allowed_dig_time,
    random_drop_text,
};
use dig_bot::item::Item;
use dig_bot::location::DiggingLocation;
use dig_bot::rarity::Rarity;
use dig_bot::text::{ascii_lowercase, replace, space_before_capitals, u64_to_decimal};
use rand::SeedableRng;

#[test]
fn time_stamps() {
    let t = CreateTime::new(1234);
    assert_eq!(t.secs, 1234);
    assert_eq!(t.to_string(), "<t:1234:R>");
    assert_eq!(CreateTime::new(-5).to_string(), "<t:-5:R>");
    assert_eq!(CreateTime::new(i64::MIN).to_string(), format!("<t:{}:R>", i64::MIN));
}

#[test]
fn command_registry_puts_help_first() {
    let registry = CommandRegistry::new(&vec!["inventory".to_string(), "dig".to_string()]);
    let names = CommandName::get_names(&registry);
    assert_eq!(names, &vec!["help".to_string(), "inventory".to_string(), "dig".to_string()]);
    let dig = CommandName::from_name(&registry, "dig").unwrap();
    assert_eq!(dig.command_name_index, 2);
    assert_eq!(dig.name(&registry), "dig");
    assert!(CommandName::from_name(&registry, "sell").is_none());
    let first = CommandName::from_index(&registry, 0).unwrap();
    assert_eq!(first.command_name, "help");
    assert!(CommandName::from_index(&registry, 3).is_none());
}

#[test]
fn channel_based_choices() {
    let rooms = ChannelBasedEnum::new(vec![("CoinFlip".to_string(), 1u8), ("Blackjack".to_string(), 2u8)], "Casino");
    let map = rooms.get_map();
    assert_eq!(map, vec![("coinflip".to_string(), 1u8), ("blackjack".to_string(), 2u8)]);
    assert_eq!(rooms.get_by_channel_name("blackjack"), Some(2));
    assert_eq!(rooms.get_by_channel_name("Blackjack"), None);
    let twice = ChannelBasedEnum::new(vec![("Dice".to_string(), 1u8), ("DICE".to_string(), 2u8)], "Casino");
    assert_eq!(twice.get_by_channel_name("dice"), Some(2));
    assert_eq!(CasinoRoom::CoinFlip.get_channel_name(), "coinflip");
}

fn channel(id: u64, name: &str, is_category: bool) -> ChannelInfo {
    ChannelInfo { id, name: name.to_string(), is_category }
}

#[test]
fn setup_plans() {
    let empty = plan_setup(&Vec::new());
    assert_eq!(empty.existing_category, None);
    assert!(empty.create_category && empty.create_beach);
    let channels = vec![channel(1, "Digging", false), channel(2, "Digging", true), channel(3, "beach", false)];
    let plan = plan_setup(&channels);
    assert_eq!(plan.existing_category, Some(2));
    assert!(!plan.create_category && !plan.create_beach);
    assert_eq!(find_channel_by_name(&channels, "beach"), Some(3));
    assert_eq!(
        setup_report(true, false),
        "Successfully created necessary channels!\nCreated digging category: true\nCreated beach channel: false"
    );
}

#[test]
fn table_definitions() {
    assert_eq!(
        def("user", &vec![("balance", FieldTy::Int)]),
        "DEFINE TABLE user SCHEMAFULL;\nDEFINE FIELD balance ON TABLE user TYPE int;"
    );
    assert_eq!(def("empty", &Vec::new()), "DEFINE TABLE empty SCHEMAFULL;");
    let schema = schema_query();
    assert_eq!(
        schema,
        "DEFINE TABLE user SCHEMAFULL;\nDEFINE FIELD balance ON TABLE user TYPE int;\n\
DEFINE TABLE item SCHEMAFULL;\nDEFINE FIELD item_type ON TABLE item TYPE int;\n\
DEFINE FIELD rarity ON TABLE item TYPE float;\nDEFINE FIELD owner ON TABLE item TYPE record;\n\
DEFINE TABLE last_dug SCHEMAFULL;\nDEFINE FIELD ldt ON TABLE last_dug TYPE datetime;"
    );
    assert_eq!(startup_drop_queries(true, false, true), vec!["DELETE user", "DELETE last_dug"]);
    assert!(startup_drop_queries(false, false, false).is_empty());
}

#[test]
fn user_records_and_texts() {
    assert_eq!(UserData::default().balance, 0);
    assert_eq!(UserData::user_resource_by_id(42), ("user", 42));
    assert_eq!(UserData::user_resource_by_id(u64::MAX), ("user", -1));
    assert_eq!(balance_message("ana", 12), "ana's balance is: 12");
    assert_eq!(own_balance_message(0), "Your balance is: 0");
    assert_eq!(profile_created_message(0), "Your user profile has been created! Your starting balance is: 0");
    assert_eq!(balance_field(99), "Balance: 99");
    assert_eq!(BAL_TOP_QUERY, "SELECT * FROM user ORDER BY balance DESC LIMIT 10");
    assert_eq!(dropped_table_message("item"), "Dropped table item successfully");
}

#[test]
fn dig_cooldown() {
    assert_eq!(next_allowed_dig_time(None), 60);
    assert_eq!(next_allowed_dig_time(Some(1000)), 1060);
    assert!(!can_dig(1059, Some(1000)));
    assert!(can_dig(1060, Some(1000)));
    assert!(can_dig(60, None));
    assert!(!can_dig(59, None));
    assert_eq!(last_dug_key(7, DiggingLocation::Forest), (7, 1));
    assert_eq!(
        dig_cooldown_message(1060),
        "You cant dig here yet, try another location or here again <t:1060:R>"
    );
}

#[test]
fn dig_announcements() {
    assert_eq!(dig_article(Item::Garbage, Rarity::Epic), "some");
    assert_eq!(dig_article(Item::Ruby, Rarity::Epic), "an");
    assert_eq!(dig_article(Item::Ruby, Rarity::Rare), "a");
    assert_eq!(drop_text(0, Item::OldCoin, Rarity::Uncommon), "After some digging you found an uncommon Old Coin!");
    assert_eq!(drop_text(1, Item::MetalScraps, Rarity::Common), "It was hard work, but you found some common Metal Scraps!");
    let mut rng = rand::rngs::SmallRng::seed_from_u64(3);
    let text = random_drop_text(&mut rng, Item::Ruby, Rarity::Perfect);
    assert!(
        text == "After some digging you found a perfect Ruby!" || text == "It was hard work, but you found a perfect Ruby!"
    );
}

#[test]
fn dig_texts() {
    assert_eq!(dig_advice_text(Some(55)), "Try the <#55>, I heard it's a good place to start out!");
    assert_eq!(
        dig_advice_text(None),
        "I would recommend the beach to dig, but I can't find the channel!\nHave an admin run `/setup`"
    );
    assert_eq!(cant_dig_message("go"), "You can't dig here!\ngo");
    assert_eq!(item_image_path(Item::OldCoin), "./assets/images/items/Old_Coin.png");
    assert_eq!(item_attachment_url(Item::Ruby), "attachment://Ruby.png");
    assert_eq!(item_info_text(Item::Ruby), "A beautifully vibrant red ruby\nBase item value: $80");
}

#[test]
fn text_helpers() {
    assert_eq!(u64_to_decimal(0), "0");
    assert_eq!(u64_to_decimal(u64::MAX), u64::MAX.to_string());
    assert_eq!(replace("aaa", "aa", "b"), "ba");
    assert_eq!(replace("$x and $x", "$x", "1"), "1 and 1");
    assert_eq!(replace("none", "zz", "y"), "none");
    assert_eq!(replace("ab", "", "-"), "ab".replace("", "-"));
    assert_eq!(replace("", "", "-"), "-");
    assert_eq!(ascii_lowercase("MiXeD Ä"), "mixed Ä");
    assert_eq!(space_before_capitals("ABc"), "A Bc");
    assert_eq!(space_before_capitals(""), "");
}
