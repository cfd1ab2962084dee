use dig_bot::coin_flip::{
    bet_message, challenge_message, check_challenge, check_gamble, check_opponent, choose_bet,
    duel_answer, duel_result_message, flip_message, gamble_won, insufficient_balance_message,
    maximum_bet_message, settle_duel, settle_flip, CoinFlipResult, DuelAnswer, DuelRefusal,
    GambleRefusal,
};
use dig_bot::inventory::{
    inventory_layout, inventory_page, inventory_query, order_by_text, page_count, page_footer,
    inventory_title, invalid_page_message, sale_message, sale_reply, sell_items, sell_option_label,
    InventoryItem, SortMode, UNKNOWN_INTERACTION_MESSAGE,
};
use dig_bot::coin_flip::{duel_answer_message, duel_refusal_message, gamble_refusal_message, FLIPPING_MESSAGE};
use dig_bot::item::Item;
use dig_bot::rarity::Rarity;
use rand::SeedableRng;

#[test]
fn item_value_grows_with_rarity() {
    let plain = InventoryItem { item_type: Item::Diamond.item_id(), rarity_multiplier: 0 };
    let rare = InventoryItem { item_type: Item::Diamond.item_id(), rarity_multiplier: 9 };
    assert_eq!(plain.calculate_item_value(), Some(85));
    assert_eq!(rare.calculate_item_value(), Some(850));
    assert_eq!(rare.get_item_value(), 850);
    let unknown = InventoryItem { item_type: 42, rarity_multiplier: 3 };
    assert_eq!(unknown.calculate_item_value(), None);
}

#[test]
fn selling_adds_every_value() {
    let items = vec![
        InventoryItem { item_type: 0, rarity_multiplier: 1 },
        InventoryItem { item_type: 3, rarity_multiplier: 2 },
    ];
    assert_eq!(sell_items(100, &items), 100 + 6 + 240);
    assert_eq!(sell_items(7, &Vec::new()), 7);
}

#[test]
fn pages_and_counts() {
    let first = inventory_page(None);
    assert_eq!((first.page_number, first.start, first.limit), (1, 0, 5));
    let third = inventory_page(Some(3));
    assert_eq!((third.page_number, third.start), (3, 10));
    assert_eq!(page_count(0), 0);
    assert_eq!(page_count(5), 1);
    assert_eq!(page_count(6), 2);
    assert_eq!(page_footer(2, 7), "Page 2 of 7");
}

#[test]
fn inventory_ordering_and_query() {
    assert_eq!(order_by_text(None), "");
    assert_eq!(order_by_text(Some(SortMode::Default)), "");
    assert_eq!(order_by_text(Some(SortMode::Rarity)), " ORDER BY rarity DESC");
    assert_eq!(order_by_text(Some(SortMode::Item)), " ORDER BY item_type DESC");
    assert_eq!(
        inventory_query(Some(SortMode::Rarity)),
        "\n        SELECT * FROM item WHERE owner = $owner ORDER BY rarity DESC LIMIT $limit START $start;\n        SELECT VALUE count() FROM item WHERE owner = $owner GROUP ALL;\n        "
    );
    assert_eq!(SortMode::Item.name(), "item");
}

#[test]
fn inventory_texts() {
    assert_eq!(sell_option_label(Item::OldCoin, Rarity::Rare, 24), "Old Coin (Rare) $24");
    assert_eq!(sale_message(1, 50), "Item sold successfully! Your balance is now $50");
    assert_eq!(sale_message(3, 50), "Items sold successfully! Your balance is now $50");
    assert_eq!(sale_message(0, 0), "Items sold successfully! Your balance is now $0");
    let layout = inventory_layout(3);
    assert!(layout.show_fields && !layout.show_sell_menu);
    let empty = inventory_layout(0);
    assert!(!empty.show_fields && empty.show_sell_menu);
}

#[test]
fn gamble_checks_in_order() {
    assert_eq!(check_gamble(0, 100), Err(GambleRefusal::ZeroBet));
    assert_eq!(check_gamble(10_001, 1_000_000), Err(GambleRefusal::AboveMaximum));
    assert_eq!(check_gamble(50, 49), Err(GambleRefusal::InsufficientBalance));
    assert_eq!(check_gamble(10_000, 10_000), Ok(()));
    assert_eq!(maximum_bet_message(), "The maximum amount you can bet is: 10000");
}

#[test]
fn only_heads_bets_win_gambles() {
    assert!(gamble_won(CoinFlipResult::Heads, true));
    assert!(!gamble_won(CoinFlipResult::Heads, false));
    assert!(!gamble_won(CoinFlipResult::Tails, false));
    assert!(!gamble_won(CoinFlipResult::Tails, true));
    let mut rng = rand::rngs::SmallRng::seed_from_u64(7);
    assert_eq!(choose_bet(Some(CoinFlipResult::Tails), &mut rng), CoinFlipResult::Tails);
}

#[test]
fn flips_settle_balances() {
    assert_eq!(settle_flip(100, 30, true), 130);
    assert_eq!(settle_flip(100, 30, false), 70);
    assert_eq!(settle_duel(10, 50, 20), (30, 30));
    let (winner, loser) = settle_duel(1_000, 250, 250);
    assert_eq!(winner + loser, 1_250);
    assert_eq!(settle_flip(settle_flip(77, 23, true), 23, false), 77);
    assert_eq!(flip_message(true, 30, 130), "You won the coin flip and just got $30!\nYour balance is now $130");
    assert_eq!(flip_message(false, 30, 70), "You lost the coin flip and $30 :(\nYour balance is now $70");
    assert_eq!(bet_message(25, CoinFlipResult::Heads), "You bet 25 on heads");
    assert_eq!(CoinFlipResult::Tails.to_string(), "tails");
    assert_eq!(
        insufficient_balance_message(4),
        "You don't have enough balance to cover this! Your balance is: 4"
    );
}

#[test]
fn duel_checks_and_answers() {
    assert_eq!(check_challenge(5, 10, 1, Some(2)), Err(DuelRefusal::ChallengerCannotCover));
    assert_eq!(check_challenge(50, 10, 1, Some(1)), Err(DuelRefusal::SelfBet));
    assert_eq!(check_challenge(50, 10, 1, Some(2)), Ok(()));
    assert_eq!(check_challenge(50, 10, 1, None), Ok(()));
    assert_eq!(check_opponent(9, 10), Err(DuelRefusal::OpponentCannotCover));
    assert_eq!(check_opponent(10, 10), Ok(()));
    assert_eq!(duel_answer(Some("a")), DuelAnswer::Accepted);
    assert_eq!(duel_answer(Some("d")), DuelAnswer::Denied);
    assert_eq!(duel_answer(None), DuelAnswer::TimedOut);
}

#[test]
fn duel_texts() {
    assert_eq!(
        challenge_message("<@1>", 20, "<@2>", 1_700_000_060),
        "<@1> would like to coin flip $20 against <@2>.They may accept before the timer ends (<t:1700000060:R>)"
    );
    assert_eq!(
        duel_result_message("<@1>", "<@2>", 40, 0),
        "<@1> won the coin flip!!\n<@1>'s new balance is: 40\n<@2>'s balance is 0"
    );
}

#[test]
fn value_rises_with_rarity_within_bounds() {
    for id in 0..6u16 {
        let base = Item::from_item_id(id).unwrap().get_item_value();
        let mut previous = 0;
        for multiplier in 0..10u64 {
            let value = InventoryItem { item_type: id, rarity_multiplier: multiplier }.calculate_item_value().unwrap();
            assert!(value >= previous);
            assert!(base <= value && value <= 10 * base);
            previous = value;
        }
    }
}

#[test]
fn inventory_replies() {
    assert_eq!(inventory_title("ana"), "ana's Inventory");
    assert_eq!(invalid_page_message(0), Some("Invalid page number provided!"));
    assert_eq!(invalid_page_message(2), None);
    assert_eq!(
        sale_reply(0, 10),
        "An error occurred (could not find item(s) to sell). Your items have not been sold."
    );
    assert_eq!(sale_reply(2, 10), "Items sold successfully! Your balance is now $10");
    assert_eq!(UNKNOWN_INTERACTION_MESSAGE, "Unknown interaction, your item has not been sold");
}

#[test]
fn coin_flip_replies() {
    assert_eq!(
        duel_refusal_message(DuelRefusal::ChallengerCannotCover, 3, "<@2>"),
        "You don't have enough balance to cover this! Your balance is: 3"
    );
    assert_eq!(
        duel_refusal_message(DuelRefusal::SelfBet, 3, "<@2>"),
        "C'mon man you can't bet against yourself :(\nI almost didn't catch this bug lol"
    );
    assert_eq!(
        duel_refusal_message(DuelRefusal::OpponentCannotCover, 3, "<@2>"),
        "<@2> doesn't have enough balance to cover the coin flip!"
    );
    assert_eq!(duel_answer_message(DuelAnswer::TimedOut, "<@2>"), Some("<@2> did not respond in time".to_string()));
    assert_eq!(duel_answer_message(DuelAnswer::Denied, "<@2>"), Some("<@2> denied the coin flip".to_string()));
    assert_eq!(duel_answer_message(DuelAnswer::Accepted, "<@2>"), None);
    assert_eq!(FLIPPING_MESSAGE, "Flipping!");
    assert_eq!(gamble_refusal_message(GambleRefusal::ZeroBet, 5), "You can't bet $0!");
    assert_eq!(gamble_refusal_message(GambleRefusal::AboveMaximum, 5), "The maximum amount you can bet is: 10000");
    assert_eq!(
        gamble_refusal_message(GambleRefusal::InsufficientBalance, 5),
        "You don't have enough balance to cover this! Your balance is: 5"
    );
}
