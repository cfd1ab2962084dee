//! Inventory items, their values, sales, and the paging and ordering of an
//! inventory listing.

use vstd::prelude::*;
use crate::item::{item_with_id, Item};
use crate::rarity::Rarity;
use crate::text::{decimal, push_char, push_decimal};

verus! {

/// How many items an inventory page shows.
pub const INVENTORY_RETURN_LIMIT: u32 = 5;

/// How much the rarity can multiply an item's value.
pub const MAX_RARITY_ADDITIONAL_MUL: u64 = 10;

/// An item in a player's inventory, as the rules read it: the stored item
/// id and the rarity multiplier, the whole part of the item's rarity (a
/// number from 0 to 1) times `MAX_RARITY_ADDITIONAL_MUL`.
#[derive(Clone, Copy, PartialEq, Eq, Structural, Debug)]
pub struct InventoryItem {
    pub item_type: u16,
    pub rarity_multiplier: u64,
}

/// The value of an item with base value `base` and rarity multiplier `mul`:
/// the base value once, plus once more for each unit of the multiplier.
pub open spec fn value_with_rarity(base: u64, mul: u64) -> int {
    base + base * mul
}

impl InventoryItem {
    /// The value of the item, or `None` when its id names no item.
    pub open spec fn spec_value(self) -> Option<int> {
        match item_with_id(self.item_type) {
            Some(item) => Some(value_with_rarity(item.spec_item_value(), self.rarity_multiplier)),
            None => None,
        }
    }

    /// The value of the item fits a `u64` (or the id names no item).
    pub open spec fn value_fits(self) -> bool {
        self.spec_value() matches Some(v) ==> v <= u64::MAX
    }

    /// The item's value: its base value times one plus the rarity
    /// multiplier; `None` when the stored id names no item.
    pub fn calculate_item_value(&self) -> (r: Option<u64>)
        requires
            self.value_fits(),
        ensures
            r matches Some(v) ==> self.spec_value() == Some(v as int),
            r is None <==> self.spec_value() is None,
            r is None <==> self.item_type >= 6,
            r matches Some(v) ==> v == item_with_id(self.item_type).unwrap().spec_item_value() * (1 + self.rarity_multiplier),
    {
        let item = match Item::from_item_id(self.item_type) {
            Some(item) => item,
            None => return None,
        };
        let base_item_value = item.get_item_value();
        proof {
            assert(base_item_value * self.rarity_multiplier <= u64::MAX) by (nonlinear_arith)
                requires
                    base_item_value + base_item_value * self.rarity_multiplier <= u64::MAX;
        }
        let item_value = base_item_value + base_item_value * self.rarity_multiplier;
        Some(item_value)
    }

    /// The item's value, for an item whose id names an item.
    pub fn get_item_value(&self) -> (r: u64)
        requires
            self.spec_value() is Some,
            self.value_fits(),
        ensures
            self.spec_value() == Some(r as int),
    {
        match self.calculate_item_value() {
            Some(v) => v,
            None => 0,
        }
    }
}

/// The higher an item's rarity, the more it is worth. Of two items of one
/// kind, the one with the larger rarity multiplier is worth at least as
/// much. An item is worth at least its base value and, while its multiplier
/// stays below `MAX_RARITY_ADDITIONAL_MUL` (as it does for any rarity below
/// 1), at most `MAX_RARITY_ADDITIONAL_MUL` times its base value.
pub proof fn lemma_value_grows_with_rarity(a: InventoryItem, b: InventoryItem)
    requires
        a.item_type == b.item_type,
        item_with_id(a.item_type) is Some,
        a.rarity_multiplier <= b.rarity_multiplier,
    ensures
        a.spec_value().unwrap() <= b.spec_value().unwrap(),
        item_with_id(a.item_type).unwrap().spec_item_value() <= a.spec_value().unwrap(),
        a.rarity_multiplier < MAX_RARITY_ADDITIONAL_MUL
            ==> a.spec_value().unwrap() <= MAX_RARITY_ADDITIONAL_MUL * item_with_id(a.item_type).unwrap().spec_item_value(),
{
    let base = item_with_id(a.item_type).unwrap().spec_item_value();
    let ma = a.rarity_multiplier;
    let mb = b.rarity_multiplier;
    assert(base * ma <= base * mb && 0 <= base * ma) by (nonlinear_arith)
        requires
            ma <= mb,
            0 <= base,
            0 <= ma;
    if ma < MAX_RARITY_ADDITIONAL_MUL {
        assert(base + base * ma <= 10 * base) by (nonlinear_arith)
            requires
                ma < 10,
                0 <= base;
    }
}

/// An item's value follows its base value and rarity multiplier alone, for
/// every item alike: with no multiplier it is the base value, and each
/// unit of multiplier adds the base value once more.
pub proof fn lemma_value_per_multiplier(item_type: u16, multiplier: u64)
    requires
        item_with_id(item_type) is Some,
        multiplier < u64::MAX,
    ensures
        (InventoryItem { item_type, rarity_multiplier: 0 }).spec_value()
            == Some(item_with_id(item_type).unwrap().spec_item_value() as int),
        (InventoryItem { item_type, rarity_multiplier: (multiplier + 1) as u64 }).spec_value().unwrap()
            == (InventoryItem { item_type, rarity_multiplier: multiplier }).spec_value().unwrap()
                + item_with_id(item_type).unwrap().spec_item_value(),
{
    let base = item_with_id(item_type).unwrap().spec_item_value();
    assert(base * (multiplier + 1) == base * multiplier + base) by (nonlinear_arith);
}

/// The total value of a list of inventory items whose ids all name items.
pub open spec fn items_value(items: Seq<InventoryItem>) -> int
    decreases items.len(),
{
    if items.len() == 0 {
        0
    } else {
        items_value(items.drop_last()) + items.last().spec_value().unwrap()
    }
}

/// Every item of the list names an item, and each value fits a `u64`.
pub open spec fn all_valued(items: Seq<InventoryItem>) -> bool {
    forall|i: int| 0 <= i < items.len() ==> (#[trigger] items[i]).spec_value() is Some && items[i].value_fits()
}

proof fn lemma_items_value_nonneg(items: Seq<InventoryItem>)
    requires
        all_valued(items),
    ensures
        items_value(items) >= 0,
    decreases items.len(),
{
    if items.len() > 0 {
        assert(items.last() == items[items.len() - 1]);
        assert(all_valued(items.drop_last()));
        lemma_items_value_nonneg(items.drop_last());
    }
}

proof fn lemma_items_value_prefix(items: Seq<InventoryItem>, k: int)
    requires
        all_valued(items),
        0 <= k <= items.len(),
    ensures
        items_value(items.take(k)) <= items_value(items),
    decreases items.len(),
{
    if k < items.len() {
        assert(all_valued(items.drop_last()));
        lemma_items_value_prefix(items.drop_last(), k);
        assert(items.drop_last().take(k) =~= items.take(k));
        assert(items.last() == items[items.len() - 1]);
    } else {
        assert(items.take(k) =~= items);
    }
}

/// The balance after selling `items`: each item's value is added to it.
pub fn sell_items(balance: u64, items: &Vec<InventoryItem>) -> (r: u64)
    requires
        all_valued(items@),
        balance + items_value(items@) <= u64::MAX,
    ensures
        r == balance + items_value(items@),
{
    let mut total = balance;
    for i in 0..items.len()
        invariant
            all_valued(items@),
            balance + items_value(items@) <= u64::MAX,
            total == balance + items_value(items@.take(i as int)),
    {
        let item = items[i];
        proof {
            assert(items@.take(i + 1).drop_last() =~= items@.take(i as int));
            assert(items@.take(i + 1).last() == item);
            lemma_items_value_prefix(items@, i + 1);
            lemma_items_value_nonneg(items@.take(i as int));
            assert(all_valued(items@.take(i as int)));
        }
        let value = item.get_item_value();
        total = total + value;
    }
    assert(items@.take(items.len() as int) =~= items@);
    total
}

/// The first page of an inventory listing is shown unless another is asked for.
pub open spec fn spec_page_number(page_number: Option<u32>) -> u32 {
    match page_number {
        Some(p) => p,
        None => 1,
    }
}

/// Where an inventory page starts and how many items it holds.
#[derive(Clone, Copy, PartialEq, Eq, Structural, Debug)]
pub struct InventoryPage {
    pub page_number: u32,
    pub start: u32,
    pub limit: u32,
}

/// The page asked for (the first when none is), the position of its first
/// item, and the page size. Pages are numbered from 1.
pub fn inventory_page(page_number: Option<u32>) -> (r: InventoryPage)
    requires
        spec_page_number(page_number) >= 1,
        (spec_page_number(page_number) - 1) * INVENTORY_RETURN_LIMIT <= u32::MAX,
    ensures
        r.page_number == spec_page_number(page_number),
        r.start == (r.page_number - 1) * INVENTORY_RETURN_LIMIT,
        r.limit == INVENTORY_RETURN_LIMIT,
{
    let page_number = match page_number {
        Some(p) => p,
        None => 1,
    };
    let page_index = page_number - 1;
    let start = page_index * INVENTORY_RETURN_LIMIT;
    InventoryPage { page_number, start, limit: INVENTORY_RETURN_LIMIT }
}

/// The number of pages that `count` items fill.
pub fn page_count(count: u32) -> (r: u32)
    requires
        count + INVENTORY_RETURN_LIMIT <= u32::MAX,
    ensures
        r == (count + INVENTORY_RETURN_LIMIT - 1) / (INVENTORY_RETURN_LIMIT as int),
{
    ((count + INVENTORY_RETURN_LIMIT) - 1) / INVENTORY_RETURN_LIMIT
}

/// The pages hold all items and no page is empty: `count` items fill
/// exactly the pages whose first position is below `count`.
pub proof fn lemma_page_count_covers(count: u32)
    ensures
        ({
            let pages = (count + INVENTORY_RETURN_LIMIT - 1) / (INVENTORY_RETURN_LIMIT as int);
            &&& pages * INVENTORY_RETURN_LIMIT >= count
            &&& pages == 0 || (pages - 1) * INVENTORY_RETURN_LIMIT < count
        }),
{
}

/// The orders an inventory can be listed in.
#[derive(Clone, Copy, PartialEq, Eq, Structural, Debug)]
pub enum SortMode {
    Item,
    Rarity,
    Default,
}

impl SortMode {
    /// The choice name of the order.
    pub fn name(&self) -> (r: &'static str)
        ensures
            r@ == match self {
                SortMode::Item => "item"@,
                SortMode::Rarity => "rarity"@,
                SortMode::Default => "default"@,
            },
    {
        match self {
            SortMode::Item => "item",
            SortMode::Rarity => "rarity",
            SortMode::Default => "default",
        }
    }
}

/// The ordering clause of the inventory query.
pub open spec fn spec_order_by(sort_mode: Option<SortMode>) -> Seq<char> {
    match sort_mode {
        Some(SortMode::Rarity) => " ORDER BY rarity DESC"@,
        Some(SortMode::Item) => " ORDER BY item_type DESC"@,
        _ => Seq::empty(),
    }
}

/// The ordering clause of the inventory query: none for the default order,
/// otherwise descending by rarity or by item id.
pub fn order_by_text(sort_mode: Option<SortMode>) -> (r: String)
    ensures
        r@ == spec_order_by(sort_mode),
{
    match sort_mode {
        Some(SortMode::Rarity) => String::from_str(" ORDER BY rarity DESC"),
        Some(SortMode::Item) => String::from_str(" ORDER BY item_type DESC"),
        _ => String::new(),
    }
}

/// The part of the inventory query before the ordering clause.
pub const INVENTORY_QUERY_HEAD: &'static str = "\n        SELECT * FROM item WHERE owner = $owner";

/// The part of the inventory query after the ordering clause.
pub const INVENTORY_QUERY_TAIL: &'static str =
    " LIMIT $limit START $start;\n        SELECT VALUE count() FROM item WHERE owner = $owner GROUP ALL;\n        ";

/// The query that reads one page of a player's items and counts them all.
pub fn inventory_query(sort_mode: Option<SortMode>) -> (r: String)
    ensures
        r@ == INVENTORY_QUERY_HEAD@ + spec_order_by(sort_mode) + INVENTORY_QUERY_TAIL@,
{
    let mut r = String::from_str(INVENTORY_QUERY_HEAD);
    let order = order_by_text(sort_mode);
    r.append(order.as_str());
    r.append(INVENTORY_QUERY_TAIL);
    r
}

/// The footer of an inventory page: "Page P of N".
pub fn page_footer(page_number: u32, pages: u32) -> (r: String)
    ensures
        r@ == "Page "@ + decimal(page_number as nat) + " of "@ + decimal(pages as nat),
{
    let mut r = String::from_str("Page ");
    push_decimal(&mut r, page_number as u64);
    r.append(" of ");
    push_decimal(&mut r, pages as u64);
    r
}

/// The label of an item in the sell menu: "NAME (RARITY) $VALUE".
pub fn sell_option_label(item: Item, rarity: Rarity, value: u64) -> (r: String)
    ensures
        r@ == item.spec_display() + " ("@ + rarity.spec_name() + ") $"@ + decimal(value as nat),
{
    let mut r = item.to_string();
    r.append(" (");
    let name = rarity.to_string();
    r.append(name.as_str());
    r.append(") $");
    push_decimal(&mut r, value);
    r
}

/// What an inventory page shows, by how many item fields it has: with
/// fields, the description and the fields; with none, the sell menu.
#[derive(Clone, Copy, PartialEq, Eq, Structural, Debug)]
pub struct InventoryLayout {
    pub show_fields: bool,
    pub show_sell_menu: bool,
}

/// The layout of an inventory page holding `field_count` item fields.
pub fn inventory_layout(field_count: usize) -> (r: InventoryLayout)
    ensures
        r.show_fields == (field_count != 0),
        r.show_sell_menu == (field_count == 0),
{
    let empty_inventory = field_count == 0;
    InventoryLayout { show_fields: !empty_inventory, show_sell_menu: empty_inventory }
}

/// The answer to a sale: "Item sold successfully! ..." with an "s" after
/// "Item" unless exactly one item was sold, and the new balance.
pub open spec fn spec_sale_message(sold: usize, balance: u64) -> Seq<char> {
    "Item"@ + (if sold != 1 { "s"@ } else { Seq::empty() })
        + " sold successfully! Your balance is now $"@ + decimal(balance as nat)
}

/// The answer to a sale: "Item sold successfully! ..." with an "s" after
/// "Item" unless exactly one item was sold, and the new balance.
pub fn sale_message(sold: usize, balance: u64) -> (r: String)
    ensures
        r@ == spec_sale_message(sold, balance),
{
    let mut r = String::from_str("Item");
    if sold != 1 {
        push_char(&mut r, 's');
        proof {
            reveal_strlit("s");
        }
    }
    r.append(" sold successfully! Your balance is now $");
    push_decimal(&mut r, balance);
    proof {
        reveal_strlit("s");
        if sold != 1 {
            assert(r@ =~= "Item"@ + "s"@ + " sold successfully! Your balance is now $"@ + decimal(balance as nat));
        } else {
            assert(r@ =~= "Item"@ + Seq::<char>::empty() + " sold successfully! Your balance is now $"@ + decimal(balance as nat));
        }
    }
    r
}


/// The failure reported when none of the chosen items could be sold.
pub const SALE_FAILED_MESSAGE: &'static str =
    "An error occurred (could not find item(s) to sell). Your items have not been sold.";

/// The answer to a menu interaction that is not a choice of items.
pub const UNKNOWN_INTERACTION_MESSAGE: &'static str = "Unknown interaction, your item has not been sold";

/// The answer to a sale of `sold` items that leaves `balance`: the failure
/// when nothing was sold, otherwise the sale message.
pub fn sale_reply(sold: usize, balance: u64) -> (r: String)
    ensures
        sold == 0 ==> r@ == SALE_FAILED_MESSAGE@,
        sold != 0 ==> r@ == spec_sale_message(sold, balance),
{
    if sold == 0 {
        String::from_str(SALE_FAILED_MESSAGE)
    } else {
        sale_message(sold, balance)
    }
}

/// The title of a player's inventory: "NAME's Inventory".
pub fn inventory_title(name: &str) -> (r: String)
    ensures
        r@ == name@ + "'s Inventory"@,
{
    let mut r = String::from_str(name);
    r.append("'s Inventory");
    r
}

/// The refusal of a page that holds no items: a page past the last one.
pub fn invalid_page_message(items_on_page: usize) -> (r: Option<&'static str>)
    ensures
        items_on_page == 0 ==> (r matches Some(m) && m@ == "Invalid page number provided!"@),
        items_on_page != 0 ==> r is None,
{
    if items_on_page == 0 {
        Some("Invalid page number provided!")
    } else {
        None
    }
}

} // verus!
