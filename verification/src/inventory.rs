//! Moving through the inventory screen: its category cursor and the choice of the item shown.
use vstd::prelude::*;

use heapless::Vec as HeaplessVec;

verus! {

/// The first index at or after `from` whose entry of `eligible` is set; `eligible.len()`
/// when there is none.
pub open spec fn first_eligible_from(eligible: Seq<bool>, from: int) -> int
    decreases eligible.len() - from,
{
    if from >= eligible.len() {
        eligible.len() as int
    } else if eligible[from] {
        from
    } else {
        first_eligible_from(eligible, from + 1)
    }
}

/// The last index at or before `upto` whose entry of `eligible` is set; -1 when there is
/// none.
pub open spec fn last_eligible_upto(eligible: Seq<bool>, upto: int) -> int
    decreases upto + 1,
{
    if upto < 0 {
        -1
    } else if upto < eligible.len() && eligible[upto] {
        upto
    } else {
        last_eligible_upto(eligible, upto - 1)
    }
}

/// The index a search from `current` moved by `change` starts at among `n` items: the
/// remainder of the sum by `n` (which keeps the sign of the sum), but not below 0.
pub open spec fn search_start(current: int, change: int, n: int) -> int {
    let x = current + change;
    if x < 0 {
        0
    } else {
        x % n
    }
}

/// The item shown after moving by `change` from `current`: moving forward (or staying), the
/// first shown item from the search start on, else the first one; moving back, the last one
/// up to the search start, else the last one.
pub open spec fn changed_item(eligible: Seq<bool>, current: int, change: int) -> int {
    let n = eligible.len() as int;
    let start = search_start(current, change, n);
    if change >= 0 {
        let f = first_eligible_from(eligible, start);
        if f < n {
            f
        } else {
            first_eligible_from(eligible, 0)
        }
    } else {
        let l = last_eligible_upto(eligible, start);
        if l >= 0 {
            l
        } else {
            last_eligible_upto(eligible, n - 1)
        }
    }
}

proof fn lemma_first_eligible(eligible: Seq<bool>, from: int)
    requires
        0 <= from,
    ensures
        from <= first_eligible_from(eligible, from) <= eligible.len() || from > eligible.len(),
        first_eligible_from(eligible, from) < eligible.len() ==> eligible[first_eligible_from(
            eligible,
            from,
        )],
        forall|j: int|
            from <= j < first_eligible_from(eligible, from) && j < eligible.len() ==> !eligible[j],
    decreases eligible.len() - from,
{
    if from < eligible.len() && !eligible[from] {
        lemma_first_eligible(eligible, from + 1);
    }
}

proof fn lemma_last_eligible(eligible: Seq<bool>, upto: int)
    requires
        upto < eligible.len(),
    ensures
        -1 <= last_eligible_upto(eligible, upto) <= upto || upto < -1,
        last_eligible_upto(eligible, upto) >= 0 ==> eligible[last_eligible_upto(eligible, upto)],
        forall|j: int| last_eligible_upto(eligible, upto) < j <= upto && 0 <= j ==> !eligible[j],
    decreases upto + 1,
{
    if upto >= 0 && !eligible[upto] {
        lemma_last_eligible(eligible, upto - 1);
    }
}

proof fn lemma_last_eligible_skips(eligible: Seq<bool>, upto: int, c: int)
    requires
        0 <= c <= upto < eligible.len(),
        eligible[c],
        forall|j: int| c < j <= upto ==> !eligible[j],
    ensures
        last_eligible_upto(eligible, upto) == c,
    decreases upto - c,
{
    if upto > c {
        lemma_last_eligible_skips(eligible, upto - 1, c);
    }
}

/// Moving forward from a shown item and then back returns to it, as long as a shown item
/// follows it (moving forward from the last one wraps around to the first).
pub proof fn lemma_change_item_round_trip(eligible: Seq<bool>, c: int)
    requires
        0 <= c < eligible.len(),
        eligible[c],
        exists|j: int| c < j < eligible.len() && eligible[j],
    ensures
        changed_item(eligible, changed_item(eligible, c, 1), -1) == c,
{
    let n = eligible.len() as int;
    let w = choose|j: int| c < j < n && eligible[j];
    assert(c + 1 < n);
    assert(search_start(c, 1, n) == c + 1) by {
        vstd::arithmetic::div_mod::lemma_small_mod((c + 1) as nat, n as nat);
    }
    lemma_first_eligible(eligible, c + 1);
    let f = first_eligible_from(eligible, c + 1);
    assert(f <= w);
    assert(changed_item(eligible, c, 1) == f);
    assert(search_start(f, -1, n) == f - 1) by {
        vstd::arithmetic::div_mod::lemma_small_mod((f - 1) as nat, n as nat);
    }
    lemma_last_eligible_skips(eligible, f - 1, c);
}

/// The index of the item the inventory screen shows after moving by `change` from
/// `current`; `eligible[i]` tells whether item `i` belongs to the chosen category and is
/// owned. Some item must be eligible: otherwise the search never ends.
pub fn change_item(eligible: &[bool], current: usize, change: i32) -> (r: usize)
    requires
        eligible.len() > 0,
        exists|i: int| 0 <= i < eligible.len() && eligible[i],
        current <= isize::MAX,
        current + change <= isize::MAX,
        eligible.len() <= isize::MAX,
    ensures
        r == changed_item(eligible@, current as int, change as int),
        r < eligible.len(),
        eligible[r as int],
{
    let n: usize = eligible.len();
    let sum: isize = current as isize + change as isize;
    let start: usize = if sum < 0 {
        0
    } else {
        (sum as usize) % n
    };
    assert(start == search_start(current as int, change as int, n as int));
    proof {
        let w = choose|i: int| 0 <= i < eligible.len() && eligible[i];
        lemma_first_eligible(eligible@, start as int);
        lemma_first_eligible(eligible@, 0);
        lemma_last_eligible(eligible@, start as int);
        lemma_last_eligible(eligible@, n - 1);
        assert(first_eligible_from(eligible@, 0) <= w);
        assert(last_eligible_upto(eligible@, n - 1) >= w);
    }
    if change >= 0 {
        let mut i: usize = start;
        while i < n
            invariant
                start <= i <= n,
                n == eligible.len(),
                change >= 0,
                start == search_start(current as int, change as int, n as int),
                first_eligible_from(eligible@, start as int) == first_eligible_from(
                    eligible@,
                    i as int,
                ),
            decreases n - i,
        {
            if eligible[i] {
                return i;
            }
            i = i + 1;
        }
        let mut k: usize = 0;
        while k < n
            invariant
                k <= n,
                n == eligible.len(),
                change >= 0,
                first_eligible_from(eligible@, start as int) == n,
                start == search_start(current as int, change as int, n as int),
                first_eligible_from(eligible@, 0) == first_eligible_from(eligible@, k as int),
                first_eligible_from(eligible@, 0) < n,
            decreases n - k,
        {
            if eligible[k] {
                return k;
            }
            k = k + 1;
        }
        0
    } else {
        let mut i: usize = start + 1;
        while i > 0
            invariant
                i <= start + 1,
                start < n,
                n == eligible.len(),
                change < 0,
                start == search_start(current as int, change as int, n as int),
                last_eligible_upto(eligible@, start as int) == last_eligible_upto(
                    eligible@,
                    i - 1,
                ),
            decreases i,
        {
            if eligible[i - 1] {
                return i - 1;
            }
            i = i - 1;
        }
        let mut k: usize = n;
        while k > 0
            invariant
                k <= n,
                n == eligible.len(),
                change < 0,
                start == search_start(current as int, change as int, n as int),
                last_eligible_upto(eligible@, start as int) == -1,
                last_eligible_upto(eligible@, n - 1) == last_eligible_upto(eligible@, k - 1),
                last_eligible_upto(eligible@, n - 1) >= 0,
            decreases k,
        {
            if eligible[k - 1] {
                return k - 1;
            }
            k = k - 1;
        }
        0
    }
}

/// The category cursor after moving by `change` over `available` categories: -1 stands for
/// the way out, and the cursor wraps between it and the last category.
pub open spec fn category_after(selected: int, change: int, available: int) -> int {
    let s = selected + change;
    let s1 = if s < -1 {
        0
    } else {
        s
    };
    if s1 >= available {
        -1
    } else {
        s1
    }
}

/// Moves the category cursor of the inventory screen by `change` (1 right, -1 left, 0 none).
pub fn category_cursor(selected: isize, change: isize, available: usize) -> (r: isize)
    requires
        -1 <= selected,
        -1 <= change <= 1,
        selected < isize::MAX,
        available <= isize::MAX,
    ensures
        r == category_after(selected as int, change as int, available as int),
        -1 <= r,
        r < available || r == -1,
{
    let mut s: isize = selected + change;
    if s < -1 {
        s = 0;
    }
    if s >= available as isize {
        s = -1;
    }
    s
}

/// The positions `i < n` whose entry of `owned_any` is set, in order.
pub open spec fn owned_prefix(owned_any: Seq<bool>, n: int) -> Seq<usize>
    decreases n,
{
    if n <= 0 {
        Seq::empty()
    } else if owned_any[n - 1] {
        owned_prefix(owned_any, n - 1).push((n - 1) as usize)
    } else {
        owned_prefix(owned_any, n - 1)
    }
}

/// The first ten entries of `p` (all of them when there are no more).
pub open spec fn first_ten(p: Seq<usize>) -> Seq<usize> {
    if p.len() <= 10 {
        p
    } else {
        p.subrange(0, 10)
    }
}

/// The category positions a vector holds, in order.
pub uninterp spec fn category_items(v: HeaplessVec<usize, 10>) -> Seq<usize>;

/// `heapless::Vec::new`: an empty vector.
#[verifier::external_body]
fn category_vec_new() -> (r: HeaplessVec<usize, 10>)
    ensures
        category_items(r) == Seq::<usize>::empty(),
{
    HeaplessVec::new()
}

/// `heapless::Vec::push`: appends `item` when fewer than 10 entries are held (and reports
/// success); a full vector is left as it was.
#[verifier::external_body]
fn category_vec_push(v: &mut HeaplessVec<usize, 10>, item: usize) -> (r: bool)
    ensures
        category_items(*old(v)).len() < 10 ==> category_items(*final(v)) == category_items(
            *old(v),
        ).push(item) && r,
        category_items(*old(v)).len() >= 10 ==> category_items(*final(v)) == category_items(
            *old(v),
        ) && !r,
{
    v.push(item).is_ok()
}

/// The categories the inventory screen offers: those (by position in the selectable
/// categories) of which some item is owned, as `owned_any` tells, in order; at most ten,
/// the room the screen has.
pub fn available_categories(owned_any: &[bool]) -> (r: HeaplessVec<usize, 10>)
    ensures
        category_items(r) == first_ten(owned_prefix(owned_any@, owned_any.len() as int)),
{
    let mut r = category_vec_new();
    let mut i: usize = 0;
    while i < owned_any.len()
        invariant
            i <= owned_any.len(),
            category_items(r) == first_ten(owned_prefix(owned_any@, i as int)),
        decreases owned_any.len() - i,
    {
        let ghost p = owned_prefix(owned_any@, i as int);
        if owned_any[i] {
            category_vec_push(&mut r, i);
            proof {
                assert(owned_prefix(owned_any@, i + 1) == p.push(i));
                if p.len() >= 10 {
                    assert(p.push(i).subrange(0, 10) =~= p.subrange(0, 10));
                }
            }
        }
        i = i + 1;
    }
    r
}

} // verus!
