//! A fixed array of 16 bits, used to hold sets of board squares.
use vstd::prelude::*;

verus! {

/// Number of bits held by a [`PossibleMoves`] (two bytes).
pub const BIT_COUNT: usize = 16;

/// Whether bit `i` of `b` is set (bits outside `0..16` are never set).
pub open spec fn bit_set(b: u16, i: int) -> bool {
    0 <= i < 16 && (b >> (i as u16)) & 1u16 == 1u16
}

/// Index of the lowest set bit of `b` at or after `from`, if any.
pub open spec fn spec_next_set_bit(b: u16, from: int) -> Option<int>
    decreases 16 - from,
{
    if from < 0 || from >= 16 {
        None
    } else if bit_set(b, from) {
        Some(from)
    } else {
        spec_next_set_bit(b, from + 1)
    }
}

/// Setting bit `i` of `b` changes bit `i` and no other.
pub proof fn lemma_bit_or(b: u16, i: u16, j: u16)
    by (bit_vector)
    requires
        i < 16,
        j < 16,
    ensures
        ((b | (1u16 << i)) >> j) & 1u16 == 1u16 <==> (i == j || (b >> j) & 1u16 == 1u16),
{
}

/// Clearing bit `i` of `b` changes bit `i` and no other.
pub proof fn lemma_bit_clear(b: u16, i: u16, j: u16)
    by (bit_vector)
    requires
        i < 16,
        j < 16,
    ensures
        ((b & !(1u16 << i)) >> j) & 1u16 == 1u16 <==> (i != j && (b >> j) & 1u16 == 1u16),
{
}

/// A value is zero exactly when none of its 16 bits is set.
pub proof fn lemma_zero_iff_no_bits(b: u16)
    ensures
        b == 0 <==> forall|i: int| 0 <= i < 16 ==> !bit_set(b, i),
{
    assert forall|i: int| 0 <= i < 16 && b == 0 implies !bit_set(b, i) by {
        let k = i as u16;
        assert(b == 0 ==> (b >> k) & 1u16 == 0u16) by (bit_vector);
    }
    if b != 0 {
        assert(b != 0 ==> ((b >> 0u16) & 1u16 == 1u16 || (b >> 1u16) & 1u16 == 1u16 || (b >> 2u16)
            & 1u16 == 1u16 || (b >> 3u16) & 1u16 == 1u16 || (b >> 4u16) & 1u16 == 1u16 || (b
            >> 5u16) & 1u16 == 1u16 || (b >> 6u16) & 1u16 == 1u16 || (b >> 7u16) & 1u16 == 1u16
            || (b >> 8u16) & 1u16 == 1u16 || (b >> 9u16) & 1u16 == 1u16 || (b >> 10u16) & 1u16
            == 1u16 || (b >> 11u16) & 1u16 == 1u16 || (b >> 12u16) & 1u16 == 1u16 || (b >> 13u16)
            & 1u16 == 1u16 || (b >> 14u16) & 1u16 == 1u16 || (b >> 15u16) & 1u16 == 1u16))
            by (bit_vector);
        assert(bit_set(b, 0) || bit_set(b, 1) || bit_set(b, 2) || bit_set(b, 3) || bit_set(b, 4)
            || bit_set(b, 5) || bit_set(b, 6) || bit_set(b, 7) || bit_set(b, 8) || bit_set(b, 9)
            || bit_set(b, 10) || bit_set(b, 11) || bit_set(b, 12) || bit_set(b, 13) || bit_set(
            b,
            14,
        ) || bit_set(b, 15));
    }
}

/// `spec_next_set_bit(b, from)` is the first set bit at or after `from`, and is `None`
/// exactly when no bit in `from..16` is set.
pub proof fn lemma_next_set_bit(b: u16, from: int)
    requires
        0 <= from,
    ensures
        match spec_next_set_bit(b, from) {
            Some(i) => from <= i < 16 && bit_set(b, i) && forall|j: int|
                from <= j < i ==> !bit_set(b, j),
            None => forall|j: int| from <= j ==> !bit_set(b, j),
        },
    decreases 16 - from,
{
    if from < 16 && !bit_set(b, from) {
        lemma_next_set_bit(b, from + 1);
    }
}

/// A set of up to 16 indices, stored as the bits of a `u16`.
#[derive(Clone, Copy)]
pub struct PossibleMoves {
    bits: u16,
}

impl View for PossibleMoves {
    type V = u16;

    closed spec fn view(&self) -> u16 {
        self.bits
    }
}

impl PossibleMoves {
    /// The empty set.
    pub fn new() -> (r: Self)
        ensures
            r@ == 0u16,
            forall|i: int| !bit_set(r@, i),
    {
        proof {
            lemma_zero_iff_no_bits(0u16);
        }
        PossibleMoves { bits: 0 }
    }

    /// Total number of bits the array can hold.
    pub fn bit_count(&self) -> (r: usize)
        ensures
            r == BIT_COUNT,
    {
        BIT_COUNT
    }

    /// Whether index `index` is in the set.
    pub fn get_bit(&self, index: usize) -> (r: bool)
        requires
            index < BIT_COUNT,
        ensures
            r == bit_set(self@, index as int),
    {
        let k: u16 = index as u16;
        (self.bits >> k) & 1 == 1
    }

    /// Puts `index` in the set (`value` true) or takes it out (`value` false).
    pub fn set_bit(&mut self, index: usize, value: bool)
        requires
            index < BIT_COUNT,
        ensures
            final(self)@ == if value {
                old(self)@ | (1u16 << index as u16)
            } else {
                old(self)@ & !(1u16 << index as u16)
            },
            forall|j: int|
                bit_set(final(self)@, j) == if j == index as int {
                    value
                } else {
                    bit_set(old(self)@, j)
                },
    {
        let k: u16 = index as u16;
        let old_bits = self.bits;
        if value {
            self.bits = self.bits | (1u16 << k);
        } else {
            self.bits = self.bits & !(1u16 << k);
        }
        proof {
            assert forall|j: int|
                bit_set(self.bits, j) == if j == index as int {
                    value
                } else {
                    bit_set(old_bits, j)
                } by {
                if 0 <= j < 16 {
                    if value {
                        lemma_bit_or(old_bits, k, j as u16);
                    } else {
                        lemma_bit_clear(old_bits, k, j as u16);
                    }
                }
            }
        }
    }

    /// Whether the set holds no index.
    pub fn is_empty(&self) -> (r: bool)
        ensures
            r == (self@ == 0u16),
            r <==> forall|i: int| 0 <= i < 16 ==> !bit_set(self@, i),
    {
        proof {
            lemma_zero_iff_no_bits(self.bits);
        }
        let r = self.bits == 0;
        assert(r == (self@ == 0u16));
        r
    }

    /// The lowest index in the set that is at least `from`.
    pub fn next_set_bit(&self, from: usize) -> (r: Option<usize>)
        ensures
            match spec_next_set_bit(self@, from as int) {
                Some(i) => r == Some(i as usize),
                None => r is None,
            },
    {
        let mut i = from;
        while i < BIT_COUNT
            invariant
                from <= i,
                spec_next_set_bit(self@, from as int) == spec_next_set_bit(self@, i as int),
            decreases BIT_COUNT - i,
        {
            if self.get_bit(i) {
                return Some(i);
            }
            i = i + 1;
        }
        None
    }

    /// The indices in the set, in increasing order.
    pub fn set_bits(&self) -> (r: Vec<usize>)
        ensures
            forall|k: int| 0 <= k < r.len() ==> bit_set(self@, r[k] as int),
            forall|k: int, l: int| 0 <= k < l < r.len() ==> r[k] < r[l],
            forall|i: int| bit_set(self@, i) ==> r@.contains(i as usize),
    {
        let mut r: Vec<usize> = Vec::new();
        let mut i: usize = 0;
        while i < BIT_COUNT
            invariant
                i <= BIT_COUNT,
                forall|k: int| 0 <= k < r.len() ==> bit_set(self@, r[k] as int) && r[k] < i,
                forall|k: int, l: int| 0 <= k < l < r.len() ==> r[k] < r[l],
                forall|j: int| 0 <= j < i && bit_set(self@, j) ==> r@.contains(j as usize),
            decreases BIT_COUNT - i,
        {
            let ghost old_r = r@;
            if self.get_bit(i) {
                r.push(i);
                assert(r@[r.len() - 1] == i);
            }
            assert forall|j: int| 0 <= j < i + 1 && bit_set(self@, j) implies r@.contains(
                j as usize,
            ) by {
                if j < i {
                    let k = choose|k: int| 0 <= k < old_r.len() && old_r[k] == j as usize;
                    assert(r@[k] == j as usize);
                } else {
                    assert(r@[r.len() - 1] == i);
                }
            }
            i = i + 1;
        }
        r
    }
}

impl Default for PossibleMoves {
    fn default() -> (r: Self)
        ensures
            r@ == 0u16,
    {
        PossibleMoves::new()
    }
}

} // verus!
