//! The shop's stock: how many items of each group it offers, and which items are on sale.
use vstd::prelude::*;

use crate::rng::{seeded_usize, usize_draw, usize_draw_next};

verus! {

/// The most items on sale at once.
pub const MAX_SHOP_ITEMS: usize = 20;

/// An item, by its number.
pub type ItemId = u16;

/// Whether no item occurs twice in `s`.
pub open spec fn distinct_items(s: Seq<ItemId>) -> bool {
    forall|i: int, j: int| 0 <= i < j < s.len() ==> s[i] != s[j]
}

/// Whether `x` is one of the items of the categories `catas`.
pub open spec fn in_categories(catas: Seq<Vec<ItemId>>, x: ItemId) -> bool {
    exists|c: int| 0 <= c < catas.len() && (#[trigger] catas[c])@.contains(x)
}

/// The number of items of the categories `catas[0..n]`, counted with repeats.
pub open spec fn items_total(catas: Seq<Vec<ItemId>>, n: nat) -> nat
    decreases n,
{
    if n == 0 {
        0
    } else {
        (items_total(catas, (n - 1) as nat) + catas[n - 1].len()) as nat
    }
}

/// The most items a group of categories holding `total` items (with repeats) can add when
/// `count` are asked for: every draw adds at most one, and the drawing stops once `count` are
/// added, but only after the first draw.
pub open spec fn group_bound(count: int, total: int) -> int {
    let c = if count < 1 {
        1
    } else {
        count
    };
    if total < c {
        total
    } else {
        c
    }
}

fn contains_item(s: &Vec<ItemId>, x: ItemId) -> (r: bool)
    ensures
        r == s@.contains(x),
{
    let mut i: usize = 0;
    while i < s.len()
        invariant
            i <= s.len(),
            forall|j: int| 0 <= j < i ==> s@[j] != x,
        decreases s.len() - i,
    {
        if s[i] == x {
            return true;
        }
        i = i + 1;
    }
    false
}

proof fn lemma_items_total_step(catas: Seq<Vec<ItemId>>, n: nat)
    requires
        n < catas.len(),
    ensures
        items_total(catas, n + 1) == items_total(catas, n) + catas[n as int].len(),
{
}

proof fn lemma_items_total_mono(catas: Seq<Vec<ItemId>>, a: nat, b: nat)
    requires
        a <= b <= catas.len(),
    ensures
        items_total(catas, a) <= items_total(catas, b),
    decreases b - a,
{
    if a < b {
        lemma_items_total_mono(catas, a, (b - 1) as nat);
    }
}

/// Whether no item of the categories `catas` is `excluded` or among `prior`.
pub open spec fn all_fresh(catas: Seq<Vec<ItemId>>, prior: Seq<ItemId>, excluded: ItemId) -> bool {
    forall|c: int, x: ItemId|
        0 <= c < catas.len() && #[trigger] catas[c]@.contains(x) ==> x != excluded
            && !prior.contains(x)
}

/// Draws up to `count` items of the categories `catas` into `result`: as many draws as the
/// categories hold items, each an index into all their items in order; an item drawn is
/// added when it is not in `result` yet and is not `excluded`; the drawing stops after the
/// first draw at which `count` items (one, when `count` is zero) have been added. The draws
/// come from the generator whose state is `state`, which is left in the state after them
/// (see `group_draws`). The result holds the number of draws made and the number of items
/// added before the last.
fn pick_from_group(
    state: &mut u64,
    catas: &[Vec<ItemId>],
    count: u32,
    excluded: ItemId,
    result: &mut Vec<ItemId>,
) -> (r: Ghost<(int, int)>)
    requires
        items_total(catas@, catas@.len()) <= usize::MAX,
        old(result).len() + group_bound(count as int, items_total(catas@, catas@.len()) as int)
            <= MAX_SHOP_ITEMS,
    ensures
        final(result).len() >= old(result).len(),
        final(result)@.subrange(0, old(result).len() as int) == old(result)@,
        final(result).len() - old(result).len() <= group_bound(
            count as int,
            items_total(catas@, catas@.len()) as int,
        ),
        distinct_items(old(result)@) ==> distinct_items(final(result)@),
        forall|i: int|
            old(result).len() <= i < final(result).len() ==> final(result)@[i] != excluded
                && in_categories(catas@, #[trigger] final(result)@[i]),
        items_total(catas@, catas@.len()) > 0 && all_fresh(catas@, old(result)@, excluded)
            ==> final(result).len() > old(result).len(),
        ({
            let (draws, before_last) = r@;
            let total = items_total(catas@, catas@.len()) as int;
            let added = final(result).len() - old(result).len();
            &&& 0 <= draws <= total
            &&& total > 0 ==> draws >= 1
            &&& draws < total ==> added >= count
            &&& draws >= 2 ==> before_last < count
            &&& draws >= 1 ==> before_last <= added <= before_last + 1
        }),
        (final(result)@, *final(state)) == group_draws(
            catas@,
            count,
            excluded,
            old(result)@,
            *old(state),
            items_total(catas@, catas@.len()),
            0,
        ),
{
    let ghost start = result@;
    let ghost state0 = *state;
    let ghost mut before_last: int = 0;
    let mut total: usize = 0;
    let mut c: usize = 0;
    while c < catas.len()
        invariant
            c <= catas.len(),
            total == items_total(catas@, c as nat),
            items_total(catas@, catas@.len()) <= usize::MAX,
        decreases catas.len() - c,
    {
        proof {
            lemma_items_total_step(catas@, c as nat);
            lemma_items_total_mono(catas@, (c + 1) as nat, catas@.len());
        }
        total = total + catas[c].len();
        c = c + 1;
    }
    let mut added: u32 = 0;
    let mut draw: usize = 0;
    while draw < total
        invariant_except_break
            draw > 0 ==> added < count,
            group_draws(catas@, count, excluded, result@, *state, (total - draw) as nat, added as nat)
                == group_draws(catas@, count, excluded, start, state0, total as nat, 0),
        invariant
            draw <= total,
            total == items_total(catas@, catas@.len()),
            result.len() == start.len() + added,
            added <= draw,
            added as int <= (if count < 1 {
                1
            } else {
                count as int
            }),
            result@.subrange(0, start.len() as int) == start,
            distinct_items(start) ==> distinct_items(result@),
            forall|i: int|
                start.len() <= i < result.len() ==> result@[i] != excluded && in_categories(
                    catas@,
                    #[trigger] result@[i],
                ),
            start.len() + group_bound(count as int, total as int) <= MAX_SHOP_ITEMS,
            all_fresh(catas@, start, excluded) && draw > 0 ==> added >= 1,
            draw >= 2 ==> before_last < count,
            draw >= 1 ==> before_last <= added <= before_last + 1,
        ensures
            total == 0 || draw > 0,
            all_fresh(catas@, start, excluded) && draw > 0 ==> added >= 1,
            result.len() == start.len() + added,
            draw <= total,
            draw < total ==> added >= count,
            draw >= 2 ==> before_last < count,
            draw >= 1 ==> before_last <= added <= before_last + 1,
            (result@, *state) == group_draws(catas@, count, excluded, start, state0, total as nat, 0),
        decreases total - draw,
    {
        proof {
            before_last = added as int;
        }
        let (next, after) = seeded_usize(usize::BITS, *state, 0, total);
        *state = after;
        proof {
            if added == 0 {
                assert(result@ == result@.subrange(0, start.len() as int));
            }
        }
        let ghost prev = result@;
        let was_added = add_drawn(catas, next, excluded, result);
        if was_added {
            added = added + 1;
            proof {
                assert(result@.subrange(0, start.len() as int) == prev.subrange(
                    0,
                    start.len() as int,
                ));
                assert(result@[result.len() - 1] == flat_items(catas@, catas@.len())[next as int]);
            }
        }
        draw = draw + 1;
        if added >= count {
            break;
        }
    }
    Ghost((draw as int, before_last))
}

/// The items drawn from a group, and the generator's state after the draws: from state
/// `state`, with `left` draws left and `added` items of the group already added to `result`;
/// each draw is an index into all the items of `catas` in order, and the item drawn is added
/// when it is not in `result` yet and is not `excluded`; the group stops after the draw at
/// which `count` items (one, when `count` is zero) have been added.
pub open spec fn group_draws(
    catas: Seq<Vec<ItemId>>,
    count: u32,
    excluded: ItemId,
    result: Seq<ItemId>,
    state: u64,
    left: nat,
    added: nat,
) -> (Seq<ItemId>, u64)
    decreases left,
{
    if left == 0 {
        (result, state)
    } else {
        let total = items_total(catas, catas.len()) as usize;
        let next = usize_draw(usize::BITS, state, 0, total);
        let after = usize_draw_next(usize::BITS, state, 0, total);
        let x = flat_items(catas, catas.len())[next as int];
        let fresh = !result.contains(x) && x != excluded;
        let result2 = if fresh {
            result.push(x)
        } else {
            result
        };
        let added2 = if fresh {
            added + 1
        } else {
            added
        };
        if added2 >= count {
            (result2, after)
        } else {
            group_draws(catas, count, excluded, result2, after, (left - 1) as nat, added2)
        }
    }
}

/// The items of the categories `catas[0..n]`, in order, one after another.
pub open spec fn flat_items(catas: Seq<Vec<ItemId>>, n: nat) -> Seq<ItemId>
    decreases n,
{
    if n == 0 {
        Seq::empty()
    } else {
        flat_items(catas, (n - 1) as nat) + catas[n - 1]@
    }
}

proof fn lemma_flat_items(catas: Seq<Vec<ItemId>>, n: nat, k: int, i: int)
    requires
        n <= catas.len(),
        0 <= k < n,
        0 <= i < catas[k].len(),
    ensures
        flat_items(catas, n).len() == items_total(catas, n),
        flat_items(catas, n)[items_total(catas, k as nat) + i] == catas[k]@[i],
    decreases n,
{
    lemma_flat_len(catas, n);
    if k < n - 1 {
        lemma_flat_items(catas, (n - 1) as nat, k, i);
        lemma_items_total_mono(catas, (k + 1) as nat, (n - 1) as nat);
        lemma_items_total_step(catas, k as nat);
    } else {
        lemma_flat_len(catas, (n - 1) as nat);
    }
}

proof fn lemma_flat_len(catas: Seq<Vec<ItemId>>, n: nat)
    requires
        n <= catas.len(),
    ensures
        flat_items(catas, n).len() == items_total(catas, n),
    decreases n,
{
    if n > 0 {
        lemma_flat_len(catas, (n - 1) as nat);
    }
}

/// One draw: the item at index `next` of all the items of `catas` in order is added to
/// `result` exactly when it is not in `result` yet and is not `excluded`; true when added.
pub fn add_drawn(catas: &[Vec<ItemId>], next: usize, excluded: ItemId, result: &mut Vec<ItemId>) -> (r:
    bool)
    requires
        next < items_total(catas@, catas@.len()),
        items_total(catas@, catas@.len()) <= usize::MAX,
    ensures
        ({
            let x = flat_items(catas@, catas@.len())[next as int];
            &&& r == (!old(result)@.contains(x) && x != excluded)
            &&& final(result)@ == if r {
                old(result)@.push(x)
            } else {
                old(result)@
            }
            &&& in_categories(catas@, x)
        }),
{
    let (k, offset) = locate(catas, next);
    let item = catas[k][offset];
    proof {
        lemma_flat_items(catas@, catas@.len(), k as int, offset as int);
        assert(catas@[k as int]@[offset as int] == item);
        assert(catas@[k as int]@.contains(item));
    }
    if !contains_item(result, item) && item != excluded {
        result.push(item);
        true
    } else {
        false
    }
}

/// The category `k` and the position in it of item `next` of all the items of `catas` in
/// order.
fn locate(catas: &[Vec<ItemId>], next: usize) -> (r: (usize, usize))
    requires
        next < items_total(catas@, catas@.len()),
        items_total(catas@, catas@.len()) <= usize::MAX,
    ensures
        r.0 < catas.len(),
        r.1 < catas@[r.0 as int].len(),
        items_total(catas@, r.0 as nat) + r.1 == next,
{
    let mut max: usize = 0;
    let mut k: usize = 0;
    while k < catas.len()
        invariant
            k <= catas.len(),
            max == items_total(catas@, k as nat),
            next < items_total(catas@, catas@.len()),
            items_total(catas@, catas@.len()) <= usize::MAX,
            max <= next,
        decreases catas.len() - k,
    {
        proof {
            lemma_items_total_step(catas@, k as nat);
            lemma_items_total_mono(catas@, (k + 1) as nat, catas@.len());
        }
        if next < max + catas[k].len() {
            return (k, next - max);
        }
        max = max + catas[k].len();
        k = k + 1;
    }
    (0, 0)
}

/// Whether `r` lists first (up to index `a`) items of the first group, then (up to `b`) items
/// of the second group, then items of the third, each part no longer than the shop's count for
/// its group allows; a group holding items, none of them `excluded` or picked before, gives
/// at least one.
pub open spec fn groups_in_order(
    shop: Shop,
    r: Seq<ItemId>,
    group_0: Seq<Vec<ItemId>>,
    group_1: Seq<Vec<ItemId>>,
    group_2: Seq<Vec<ItemId>>,
    excluded: ItemId,
    a: int,
    b: int,
) -> bool {
    &&& 0 <= a <= b <= r.len()
    &&& a <= group_bound(shop.counts().0 as int, items_total(group_0, group_0.len()) as int)
    &&& b - a <= group_bound(shop.counts().1 as int, items_total(group_1, group_1.len()) as int)
    &&& r.len() - b <= group_bound(shop.counts().2 as int, items_total(group_2, group_2.len()) as int)
    &&& forall|i: int| 0 <= i < a ==> in_categories(group_0, #[trigger] r[i])
    &&& forall|i: int| a <= i < b ==> in_categories(group_1, #[trigger] r[i])
    &&& forall|i: int| b <= i < r.len() ==> in_categories(group_2, #[trigger] r[i])
    &&& items_total(group_0, group_0.len()) > 0 && all_fresh(group_0, Seq::empty(), excluded)
        ==> a >= 1
    &&& items_total(group_1, group_1.len()) > 0 && all_fresh(group_1, r.subrange(0, a), excluded)
        ==> b - a >= 1
    &&& items_total(group_2, group_2.len()) > 0 && all_fresh(group_2, r.subrange(0, b), excluded)
        ==> r.len() - b >= 1
}

/// The items on sale for the day whose seed is `seed`: the draws of the first group from a
/// generator seeded with `seed`, then those of the second and the third group from the states
/// it is left in, each group drawing as many times as its categories hold items.
pub open spec fn shop_stock(
    shop: Shop,
    seed: u64,
    group_0: Seq<Vec<ItemId>>,
    group_1: Seq<Vec<ItemId>>,
    group_2: Seq<Vec<ItemId>>,
    excluded: ItemId,
) -> Seq<ItemId> {
    let (r0, s0) = group_draws(
        group_0,
        shop.counts().0,
        excluded,
        Seq::empty(),
        seed,
        items_total(group_0, group_0.len()),
        0,
    );
    let (r1, s1) = group_draws(
        group_1,
        shop.counts().1,
        excluded,
        r0,
        s0,
        items_total(group_1, group_1.len()),
        0,
    );
    group_draws(group_2, shop.counts().2, excluded, r1, s1, items_total(group_2, group_2.len()), 0).0
}

/// How many items of each group of categories the shop offers.
#[derive(Clone, Copy, Debug, PartialEq, Eq, Structural)]
pub struct Shop {
    cata_0: u32,
    cata_1: u32,
    cata_2: u32,
}

impl Shop {
    pub closed spec fn counts(self) -> (u32, u32, u32) {
        (self.cata_0, self.cata_1, self.cata_2)
    }

    /// Two furniture or usable items, two play things, books or software, one food.
    pub fn new() -> (r: Self)
        ensures
            r.counts() == (2u32, 2u32, 1u32),
    {
        Shop { cata_0: 2, cata_1: 2, cata_2: 1 }
    }

    /// The items on sale for the day whose seed is `seed` (see `shop_stock`): drawn by a
    /// generator seeded with it, up to the shop's count from each of its groups in turn (furniture and usable items,
    /// then play things, books and software, then food), each item once, never `excluded`.
    /// The three groups are given as the item lists of their categories.
    pub fn item_set(
        &self,
        seed: u64,
        group_0: &[Vec<ItemId>],
        group_1: &[Vec<ItemId>],
        group_2: &[Vec<ItemId>],
        excluded: ItemId,
    ) -> (r: Vec<ItemId>)
        requires
            items_total(group_0@, group_0@.len()) <= usize::MAX,
            items_total(group_1@, group_1@.len()) <= usize::MAX,
            items_total(group_2@, group_2@.len()) <= usize::MAX,
            group_bound(self.counts().0 as int, items_total(group_0@, group_0@.len()) as int)
                + group_bound(self.counts().1 as int, items_total(group_1@, group_1@.len()) as int)
                + group_bound(self.counts().2 as int, items_total(group_2@, group_2@.len()) as int)
                <= MAX_SHOP_ITEMS,
        ensures
            r.len() <= MAX_SHOP_ITEMS,
            distinct_items(r@),
            forall|i: int| 0 <= i < r.len() ==> r@[i] != excluded,
            exists|a: int, b: int| #[trigger] groups_in_order(*self, r@, group_0@, group_1@, group_2@, excluded, a, b),
            r@ == shop_stock(*self, seed, group_0@, group_1@, group_2@, excluded),
    {
        let mut state: u64 = seed;
        let mut result: Vec<ItemId> = Vec::new();
        pick_from_group(&mut state, group_0, self.cata_0, excluded, &mut result);
        let a = result.len();
        let ghost after_0 = result@;
        pick_from_group(&mut state, group_1, self.cata_1, excluded, &mut result);
        let b = result.len();
        let ghost after_1 = result@;
        pick_from_group(&mut state, group_2, self.cata_2, excluded, &mut result);
        proof {
            assert(result@.subrange(0, b as int) == after_1);
            assert(after_1.subrange(0, a as int) == after_0);
            assert(result@.subrange(0, a as int) == after_0);
            assert forall|i: int| 0 <= i < a implies in_categories(group_0@, #[trigger] result@[i]) by {
                assert(result@[i] == result@.subrange(0, b as int)[i]);
                assert(result@.subrange(0, b as int)[i] == result@.subrange(0, b as int).subrange(0, a as int)[i]);
            }
            assert forall|i: int| a <= i < b implies in_categories(group_1@, #[trigger] result@[i]) by {
                assert(result@[i] == result@.subrange(0, b as int)[i]);
            }
            assert forall|i: int| 0 <= i < result.len() implies result@[i] != excluded by {
                if i < b {
                    assert(result@[i] == result@.subrange(0, b as int)[i]);
                    if i < a {
                        assert(result@.subrange(0, b as int)[i] == result@.subrange(
                            0,
                            b as int,
                        ).subrange(0, a as int)[i]);
                    }
                }
            }
            assert(distinct_items(Seq::<ItemId>::empty()));
            assert(groups_in_order(*self, result@, group_0@, group_1@, group_2@, excluded, a as int, b as int));
        }
        result
    }

    /// The number of furniture and usable items offered.
    pub fn get_item_count(&self) -> (r: u32)
        ensures
            r == self.counts().0,
    {
        self.cata_0
    }

    /// Sets the number of furniture and usable items offered.
    pub fn set_item_count(&mut self, item_count: u32)
        ensures
            final(self).counts() == (item_count, old(self).counts().1, old(self).counts().2),
    {
        self.cata_0 = item_count;
    }
}

impl Default for Shop {
    fn default() -> (r: Self)
        ensures
            r.counts() == (2u32, 2u32, 1u32),
    {
        Shop::new()
    }
}

} // verus!
