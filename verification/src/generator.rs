//! Drop pools and the weighted generation of dug-up items.

use vstd::prelude::*;
use rand::rngs::SmallRng;
use crate::item::Item;
use crate::location::DiggingLocation;
use crate::random::{
    new_small_rng, weight_sum, weighted_index_new, weighted_index_sample, weighted_index_weights,
    WeightedDrops,
};

verus! {

/// An item of a drop pool with its drop weight.
#[derive(Clone, Copy, PartialEq, Eq, Structural, Debug)]
pub struct GeneratorItem {
    pub item: Item,
    pub drop_weight: u32,
}

/// The weights of a drop pool, in order.
pub open spec fn pool_weights(pool: Seq<(Item, u32)>) -> Seq<u32> {
    pool.map_values(|entry: (Item, u32)| entry.1)
}

/// A drop pool can feed a generator: it is not empty, no weight is zero and
/// the weights sum to at most `u32::MAX`.
pub open spec fn valid_drop_pool(pool: Seq<(Item, u32)>) -> bool {
    &&& pool.len() > 0
    &&& forall|i: int| 0 <= i < pool.len() ==> #[trigger] pool[i].1 > 0
    &&& weight_sum(pool_weights(pool)) <= u32::MAX
}

/// Entry `x` of the pool comes before entry `y` when it is heavier, or as
/// heavy and earlier in the pool.
pub open spec fn drops_before(pool: Seq<(Item, u32)>, x: int, y: int) -> bool {
    ||| pool[x].1 > pool[y].1
    ||| (pool[x].1 == pool[y].1 && x < y)
}

/// `order` lists the positions of the pool from the heaviest entry to the
/// lightest, entries of equal weight in pool order: the order of a stable
/// sort by descending weight.
pub open spec fn is_drop_order(pool: Seq<(Item, u32)>, order: Seq<usize>) -> bool {
    &&& order.len() == pool.len()
    &&& forall|k: int| 0 <= k < order.len() ==> #[trigger] order[k] < pool.len()
    &&& forall|a: int, b: int|
        0 <= a < b < order.len() ==> drops_before(pool, #[trigger] order[a] as int, #[trigger] order[b] as int)
}

/// The pool's entries taken in the given order.
pub open spec fn arranged(pool: Seq<(Item, u32)>, order: Seq<usize>) -> Seq<(Item, u32)> {
    order.map_values(|k: usize| pool[k as int])
}

/// The entries of a generator's items.
pub open spec fn entries(items: Seq<GeneratorItem>) -> Seq<(Item, u32)> {
    items.map_values(|g: GeneratorItem| (g.item, g.drop_weight))
}

proof fn lemma_weight_sum_nonneg(ws: Seq<u32>)
    ensures
        weight_sum(ws) >= 0,
    decreases ws.len(),
{
    if ws.len() > 0 {
        lemma_weight_sum_nonneg(ws.drop_last());
    }
}

proof fn lemma_weight_sum_push(ws: Seq<u32>, x: u32)
    ensures
        weight_sum(ws.push(x)) == weight_sum(ws) + x,
{
    assert(ws.push(x).drop_last() =~= ws);
}

proof fn lemma_weight_sum_insert(ws: Seq<u32>, p: int, x: u32)
    requires
        0 <= p <= ws.len(),
    ensures
        weight_sum(ws.insert(p, x)) == weight_sum(ws) + x,
    decreases ws.len(),
{
    if p == ws.len() {
        assert(ws.insert(p, x) =~= ws.push(x));
        lemma_weight_sum_push(ws, x);
    } else {
        lemma_weight_sum_insert(ws.drop_last(), p, x);
        assert(ws.insert(p, x).drop_last() =~= ws.drop_last().insert(p, x));
    }
}

proof fn lemma_weight_sum_prefix(ws: Seq<u32>, k: int)
    requires
        0 <= k <= ws.len(),
    ensures
        weight_sum(ws.take(k)) <= weight_sum(ws),
    decreases ws.len(),
{
    if k == ws.len() {
        assert(ws.take(k) =~= ws);
    } else {
        lemma_weight_sum_prefix(ws.drop_last(), k);
        assert(ws.drop_last().take(k) =~= ws.take(k));
    }
}

proof fn lemma_weight_sum_positive(ws: Seq<u32>)
    requires
        ws.len() > 0,
        forall|i: int| 0 <= i < ws.len() ==> #[trigger] ws[i] > 0,
    ensures
        weight_sum(ws) > 0,
{
    lemma_weight_sum_nonneg(ws.drop_last());
}

/// Whether a drop pool can feed a generator (see `valid_drop_pool`).
pub fn is_valid_drop_pool(pool: &Vec<(Item, u32)>) -> (r: bool)
    ensures
        r == valid_drop_pool(pool@),
{
    if pool.len() == 0 {
        return false;
    }
    let mut total: u64 = 0;
    for i in 0..pool.len()
        invariant
            forall|j: int| 0 <= j < i ==> #[trigger] pool@[j].1 > 0,
            total == weight_sum(pool_weights(pool@.take(i as int))),
            total <= u32::MAX,
    {
        let w = pool[i].1;
        proof {
            assert(pool_weights(pool@.take(i + 1)) =~= pool_weights(pool@.take(i as int)).push(w));
            lemma_weight_sum_push(pool_weights(pool@.take(i as int)), w);
        }
        if w == 0 {
            return false;
        }
        total = total + w as u64;
        if total > 0xffff_ffffu64 {
            proof {
                assert(pool@.take(pool@.len() as int) =~= pool@);
                lemma_weight_sum_prefix(pool_weights(pool@), i + 1);
                assert(pool_weights(pool@).take(i + 1) =~= pool_weights(pool@.take(i + 1)));
            }
            return false;
        }
    }
    assert(pool@.take(pool@.len() as int) =~= pool@);
    true
}

/// Every location's drop pool can feed a generator: it is not empty, no
/// weight is zero, no item appears twice, and the weights sum to 33.
pub proof fn lemma_location_pools_valid(location: DiggingLocation)
    ensures
        valid_drop_pool(location.spec_drop_pool()),
        weight_sum(pool_weights(location.spec_drop_pool())) == 33,
        forall|i: int, j: int|
            0 <= i < j < location.spec_drop_pool().len()
                ==> #[trigger] location.spec_drop_pool()[i].0 != #[trigger] location.spec_drop_pool()[j].0,
{
    let pool = location.spec_drop_pool();
    let ws = pool_weights(pool);
    assert(ws =~= seq![10u32, 8u32, 5u32, 1u32, 1u32, 8u32]);
    reveal_with_fuel(weight_sum, 7);
    assert(ws.drop_last() =~= seq![10u32, 8u32, 5u32, 1u32, 1u32]);
    assert(ws.drop_last().drop_last() =~= seq![10u32, 8u32, 5u32, 1u32]);
    assert(ws.drop_last().drop_last().drop_last() =~= seq![10u32, 8u32, 5u32]);
    assert(ws.drop_last().drop_last().drop_last().drop_last() =~= seq![10u32, 8u32]);
    assert(ws.drop_last().drop_last().drop_last().drop_last().drop_last() =~= seq![10u32]);
    assert(ws.drop_last().drop_last().drop_last().drop_last().drop_last().drop_last() =~= Seq::<u32>::empty());
}

/// A generator's entries run from the heaviest to the lightest: arranging a
/// pool in a drop order never puts a lighter entry before a heavier one,
/// and keeps entries of equal weight in pool order.
pub proof fn lemma_drop_order_sorted(pool: Seq<(Item, u32)>, order: Seq<usize>, a: int, b: int)
    requires
        is_drop_order(pool, order),
        0 <= a < b < order.len(),
    ensures
        arranged(pool, order)[a].1 >= arranged(pool, order)[b].1,
        arranged(pool, order)[a].1 == arranged(pool, order)[b].1 ==> order[a] < order[b],
{
    assert(drops_before(pool, order[a] as int, order[b] as int));
}

/// A drop order never lists a position of the pool twice.
pub proof fn lemma_drop_order_is_permutation(pool: Seq<(Item, u32)>, order: Seq<usize>, a: int, b: int)
    requires
        is_drop_order(pool, order),
        0 <= a < order.len(),
        0 <= b < order.len(),
        a != b,
    ensures
        order[a] != order[b],
{
    if a < b {
        assert(drops_before(pool, order[a] as int, order[b] as int));
    } else {
        assert(drops_before(pool, order[b] as int, order[a] as int));
    }
}

/// The positions of the pool in the order of a stable sort by descending
/// weight.
#[verifier::loop_isolation(false)]
fn drop_order(pool: &Vec<(Item, u32)>) -> (order: Vec<usize>)
    ensures
        is_drop_order(pool@, order@),
        weight_sum(pool_weights(arranged(pool@, order@))) == weight_sum(pool_weights(pool@)),
{
    let n = pool.len();
    let mut order: Vec<usize> = Vec::new();
    for i in 0..n
        invariant
            n == pool.len(),
            order.len() == i,
            forall|k: int| 0 <= k < order.len() ==> #[trigger] order@[k] < i,
            forall|a: int, b: int|
                0 <= a < b < order.len() ==> drops_before(pool@, #[trigger] order@[a] as int, #[trigger] order@[b] as int),
            weight_sum(pool_weights(arranged(pool@, order@))) == weight_sum(pool_weights(pool@.take(i as int))),
    {
        let w = pool[i].1;
        let mut p: usize = 0;
        while p < order.len() && pool[order[p]].1 >= w
            invariant
                p <= order.len(),
                forall|q: int| 0 <= q < p ==> pool@[#[trigger] order@[q] as int].1 >= w,
            decreases order.len() - p,
        {
            p = p + 1;
        }
        let ghost old_order = order@;
        order.insert(p, i);
        proof {
            assert forall|k: int| 0 <= k < order.len() implies #[trigger] order@[k] < i + 1 by {
                if k < p {
                    assert(order@[k] == old_order[k]);
                } else if k > p {
                    assert(order@[k] == old_order[k - 1]);
                }
            }
            assert forall|a: int, b: int|
                0 <= a < b < order.len() implies drops_before(pool@, #[trigger] order@[a] as int, #[trigger] order@[b] as int) by {
                if b < p {
                    assert(order@[a] == old_order[a] && order@[b] == old_order[b]);
                } else if b == p {
                    assert(order@[a] == old_order[a]);
                    assert(pool@[old_order[a] as int].1 >= w);
                    assert(old_order[a] < i);
                } else if a < p {
                    assert(order@[a] == old_order[a] && order@[b] == old_order[b - 1]);
                } else if a == p {
                    assert(order@[b] == old_order[b - 1]);
                    assert(pool@[old_order[p as int] as int].1 < w);
                    if b - 1 > p {
                        assert(drops_before(pool@, old_order[p as int] as int, old_order[b - 1] as int));
                    }
                    assert(old_order[b - 1] < i);
                } else {
                    assert(order@[a] == old_order[a - 1] && order@[b] == old_order[b - 1]);
                }
            }
            assert(pool_weights(arranged(pool@, order@))
                =~= pool_weights(arranged(pool@, old_order)).insert(p as int, w));
            lemma_weight_sum_insert(pool_weights(arranged(pool@, old_order)), p as int, w);
            assert(pool_weights(pool@.take(i + 1)) =~= pool_weights(pool@.take(i as int)).push(w));
            lemma_weight_sum_push(pool_weights(pool@.take(i as int)), w);
        }
    }
    assert(pool@.take(n as int) =~= pool@);
    order
}

/// Draws items from a drop pool, each with a chance proportional to its
/// weight. The items are kept from the heaviest to the lightest.
pub struct ItemGenerator {
    rng: SmallRng,
    items: Vec<GeneratorItem>,
    distribution: WeightedDrops,
    total_drop_weight: u32,
}

impl View for ItemGenerator {
    type V = Seq<(Item, u32)>;

    closed spec fn view(&self) -> Seq<(Item, u32)> {
        entries(self.items@)
    }
}

impl ItemGenerator {
    #[verifier::type_invariant]
    closed spec fn inv(self) -> bool {
        &&& weighted_index_weights(self.distribution) == pool_weights(entries(self.items@))
        &&& self.total_drop_weight == weight_sum(pool_weights(entries(self.items@)))
    }

    /// The sum of the drop weights.
    pub closed spec fn spec_total(&self) -> u32 {
        self.total_drop_weight
    }

    /// A generator for the drop pool of a location.
    pub fn new(digging_location: DiggingLocation) -> (g: ItemGenerator)
        requires
            valid_drop_pool(digging_location.spec_drop_pool()),
        ensures
            exists|order: Seq<usize>|
                is_drop_order(digging_location.spec_drop_pool(), order)
                && g@ == arranged(digging_location.spec_drop_pool(), order),
            g.spec_total() == weight_sum(pool_weights(digging_location.spec_drop_pool())),
    {
        let pool = digging_location.get_drop_pool();
        Self::from_drop_pool(&pool)
    }

    /// A generator for a drop pool: its entries sorted by descending weight,
    /// entries of equal weight kept in pool order, and the total weight.
    pub fn from_drop_pool(pool: &Vec<(Item, u32)>) -> (g: ItemGenerator)
        requires
            valid_drop_pool(pool@),
        ensures
            exists|order: Seq<usize>| is_drop_order(pool@, order) && g@ == arranged(pool@, order),
            g.spec_total() == weight_sum(pool_weights(pool@)),
    {
        let order = drop_order(pool);
        let ghost sorted = arranged(pool@, order@);
        let ghost sorted_weights = pool_weights(sorted);
        let n = order.len();
        let mut items: Vec<GeneratorItem> = Vec::new();
        let mut weights: Vec<u32> = Vec::new();
        let mut total: u32 = 0;
        for k in 0..n
            invariant
                n == order.len(),
                n == pool.len(),
                is_drop_order(pool@, order@),
                sorted == arranged(pool@, order@),
                sorted_weights == pool_weights(sorted),
                weight_sum(sorted_weights) == weight_sum(pool_weights(pool@)),
                valid_drop_pool(pool@),
                entries(items@) == sorted.take(k as int),
                weights@ == sorted_weights.take(k as int),
                total == weight_sum(weights@),
        {
            let entry = pool[order[k]];
            proof {
                assert(sorted[k as int] == entry);
                assert(sorted_weights[k as int] == entry.1);
                assert(sorted_weights.take(k + 1) =~= sorted_weights.take(k as int).push(entry.1));
                lemma_weight_sum_push(sorted_weights.take(k as int), entry.1);
                lemma_weight_sum_prefix(sorted_weights, k + 1);
            }
            total = total + entry.1;
            let ghost old_items = items@;
            items.push(GeneratorItem { item: entry.0, drop_weight: entry.1 });
            weights.push(entry.1);
            assert(entries(items@) =~= entries(old_items).push((entry.0, entry.1)));
            assert(entries(items@) =~= sorted.take(k + 1));
            assert(weights@ =~= sorted_weights.take(k + 1));
        }
        proof {
            assert(sorted.take(n as int) =~= sorted);
            assert(sorted_weights.take(n as int) =~= sorted_weights);
            assert forall|i: int| 0 <= i < sorted_weights.len() implies #[trigger] sorted_weights[i] > 0 by {
                assert(pool@[order@[i] as int].1 > 0);
            }
            lemma_weight_sum_positive(sorted_weights);
        }
        let distribution = weighted_index_new(weights).unwrap();
        ItemGenerator { rng: new_small_rng(), items, distribution, total_drop_weight: total }
    }

    /// The generator's items, from the heaviest to the lightest.
    pub fn items(&self) -> (r: &Vec<GeneratorItem>)
        ensures
            entries(r@) == self@,
    {
        &self.items
    }

    /// The sum of the drop weights.
    pub fn total_drop_weight(&self) -> (r: u32)
        ensures
            r == self.spec_total(),
            r == weight_sum(pool_weights(self@)),
    {
        proof {
            use_type_invariant(self);
        }
        self.total_drop_weight
    }

    /// The item of the entry at `index`, counted from the heaviest.
    pub fn item_at(&self, index: usize) -> (r: Item)
        requires
            index < self@.len(),
        ensures
            r == self@[index as int].0,
    {
        self.items[index].item
    }

    /// Draws an item: the item of the entry at a position drawn by the
    /// weighted index, so one of the generator's entries with a weight that is
    /// not zero. Which one comes depends on the generator's random state.
    pub fn random_item(&mut self) -> (r: Item)
        ensures
            final(self)@ == old(self)@,
            final(self).spec_total() == old(self).spec_total(),
            exists|i: int| 0 <= i < old(self)@.len() && old(self)@[i].0 == r && old(self)@[i].1 > 0,
    {
        proof {
            use_type_invariant(&*self);
        }
        let item_index = weighted_index_sample(&self.distribution, &mut self.rng);
        let r = self.item_at(item_index);
        proof {
            assert(pool_weights(entries(self.items@))[item_index as int] == entries(self.items@)[item_index as int].1);
            assert(old(self)@ == entries(self.items@));
            assert(old(self)@[item_index as int].0 == r && old(self)@[item_index as int].1 > 0);
        }
        r
    }
}

} // verus!
