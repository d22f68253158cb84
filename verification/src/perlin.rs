//! The integer half of two-dimensional Perlin noise: a shuffled table of the
//! numbers 0 to 255, the hashes of a grid cell's corners through it, and the
//! gradient that a hash selects.

use vstd::prelude::*;
use crate::rand::{shuffle, shuffled};

verus! {

/// How many entries the table of a noise field has.
pub const TABLE_SIZE: usize = 256;

/// The numbers from 0 up to, but not including, `size`, in order.
pub open spec fn ascending(size: nat) -> Seq<usize> {
    Seq::new(size, |i: int| i as usize)
}

/// Whether `table` holds each of the numbers 0 to 255 exactly once.
pub open spec fn is_permutation(table: Seq<usize>) -> bool {
    table.to_multiset() == ascending(256).to_multiset()
}

/// A table that holds each of the numbers 0 to 255 exactly once has 256
/// entries, each below 256, and every such number at some position.
pub proof fn lemma_permutation_entries(table: Seq<usize>)
    requires
        is_permutation(table),
    ensures
        table.len() == 256,
        forall|i: int| 0 <= i < 256 ==> #[trigger] table[i] < 256,
        forall|v: usize| v < 256 ==> #[trigger] table.to_multiset().count(v) == 1,
{
    broadcast use {vstd::seq_lib::to_multiset_len, vstd::seq_lib::to_multiset_contains};

    let sorted = ascending(256);
    assert(table.len() == table.to_multiset().len());
    assert(sorted.len() == sorted.to_multiset().len());
    assert forall|i: int| 0 <= i < 256 implies #[trigger] table[i] < 256 by {
        assert(table.contains(table[i]));
        assert(sorted.to_multiset().count(table[i]) > 0);
        assert(sorted.contains(table[i]));
    }
    assert(sorted.no_duplicates());
    sorted.lemma_multiset_has_no_duplicates();
    assert forall|v: usize| v < 256 implies #[trigger] table.to_multiset().count(v) == 1 by {
        assert(sorted[v as int] == v);
        assert(sorted.contains(v));
    }
}

/// The hash of the grid point `(x, y)`: the table entry at `x` plus the entry
/// at `y`, both positions taken around the table.
pub open spec fn hashed(table: Seq<usize>, x: int, y: int) -> usize {
    table[(x + table[y % 256]) % 256]
}

/// The hashes of the four corners of the grid cell at `(x, y)`.
pub open spec fn corner_hashes(table: Seq<usize>, x: int, y: int) -> Corners {
    Corners {
        aa: hashed(table, x, y),
        ab: hashed(table, x, y + 1),
        ba: hashed(table, x + 1, y),
        bb: hashed(table, x + 1, y + 1),
    }
}

/// The hashes of the four corners of a grid cell.
#[derive(Debug, Clone, Copy, PartialEq, Eq, Structural)]
pub struct Corners {
    /// The corner at `(x, y)`.
    pub aa: usize,
    /// The corner at `(x, y + 1)`.
    pub ab: usize,
    /// The corner at `(x + 1, y)`.
    pub ba: usize,
    /// The corner at `(x + 1, y + 1)`.
    pub bb: usize,
}

/// One of the two axes of the plane.
#[derive(Debug, Clone, Copy, PartialEq, Eq, Structural)]
pub enum Axis {
    X,
    Y,
}

/// The gradient at a grid point, as the sum it takes with an offset from that
/// point: the offset along `first`, negated if `first_negated`, plus the
/// offset along `second`, negated if `second_negated`, or plus zero where
/// there is no second axis.
#[derive(Debug, Clone, Copy, PartialEq, Eq, Structural)]
pub struct Gradient {
    pub first: Axis,
    pub first_negated: bool,
    pub second: Option<Axis>,
    pub second_negated: bool,
}

/// The gradient that a hash selects, by its low four bits: the lowest bit
/// negates the first term and the next negates the second; the upper two
/// choose the axes.
pub open spec fn gradient_of(hash: usize) -> Gradient {
    let low = hash as int % 16;
    Gradient {
        first: if low < 8 {
            Axis::X
        } else {
            Axis::Y
        },
        first_negated: low % 2 == 1,
        second: if low < 4 {
            Some(Axis::Y)
        } else if low == 12 || low == 14 {
            Some(Axis::X)
        } else {
            None
        },
        second_negated: (low / 2) % 2 == 1,
    }
}

/// The gradient that a hash selects.
pub fn gradient(hash: usize) -> (gradient: Gradient)
    ensures
        gradient == gradient_of(hash),
{
    let low: usize = hash & 15;
    let odd: usize = low & 1;
    let second_bit: usize = low & 2;
    proof {
        assert(hash & 15 == hash % 16) by (bit_vector);
        assert(low < 16 ==> ((low & 1 == 0) <==> (low % 2 == 0))) by (bit_vector);
        assert(low < 16 ==> ((low & 2 == 0) <==> ((low / 2) % 2 == 0))) by (bit_vector);
    }
    Gradient {
        first: if low < 8 {
            Axis::X
        } else {
            Axis::Y
        },
        first_negated: odd != 0,
        second: if low < 4 {
            Some(Axis::Y)
        } else if low == 12 || low == 14 {
            Some(Axis::X)
        } else {
            None
        },
        second_negated: second_bit != 0,
    }
}

/// A noise field: a table that holds each of the numbers 0 to 255 exactly
/// once, fixed when the field is made.
pub struct Perlin {
    size: usize,
    permutation: Vec<usize>,
}

impl Perlin {
    #[verifier::type_invariant]
    spec fn well_formed(&self) -> bool {
        self.size == 256 && is_permutation(self.permutation@)
    }

    /// The table of the field.
    pub closed spec fn table(&self) -> Seq<usize> {
        self.permutation@
    }

    /// Makes a noise field: the numbers 0 to 255 in order, shuffled by 256
    /// draws.
    pub fn new(draws: &[usize]) -> (perlin: Self)
        requires
            draws@.len() == 256,
        ensures
            perlin.table() == shuffled(ascending(256), draws@, 256),
            is_permutation(perlin.table()),
    {
        let size: usize = TABLE_SIZE;
        let mut permutation: Vec<usize> = Vec::new();
        let mut next: usize = 0;
        while next < size
            invariant
                size == 256,
                next <= size,
                permutation@ == ascending(next as nat),
            decreases size - next,
        {
            permutation.push(next);
            proof {
                assert(permutation@ =~= ascending((next + 1) as nat));
            }
            next += 1;
        }
        shuffle(&mut permutation, draws);
        Self { size, permutation }
    }

    /// The table of the field, entry by entry.
    pub fn permutation(&self) -> (table: &Vec<usize>)
        ensures
            table@ == self.table(),
            is_permutation(table@),
    {
        proof {
            use_type_invariant(self);
        }
        &self.permutation
    }

    /// The table entry at `position`, taken around the table.
    fn entry(&self, position: usize) -> (value: usize)
        ensures
            value == self.table()[position as int % 256],
            value < 256,
    {
        proof {
            use_type_invariant(self);
            lemma_permutation_entries(self.permutation@);
        }
        self.permutation[position % self.size]
    }

    /// The hashes of the four corners of the grid cell at `(x, y)`. The grid
    /// repeats every 256 cells along both axes.
    pub fn corners(&self, x: usize, y: usize) -> (corners: Corners)
        ensures
            corners == corner_hashes(self.table(), x as int, y as int),
    {
        let left: usize = x % TABLE_SIZE;
        let low: usize = y % TABLE_SIZE;
        let below: usize = self.entry(low);
        let above: usize = self.entry(low + 1);
        proof {
            lemma_wraps(y as int, 0);
            lemma_wraps(y as int, 1);
            lemma_wraps(x as int, below as int);
            lemma_wraps(x as int, above as int);
            lemma_wraps(x as int, below + 1);
            lemma_wraps(x as int, above + 1);
        }
        Corners {
            aa: self.entry(left + below),
            ab: self.entry(left + above),
            ba: self.entry(left + 1 + below),
            bb: self.entry(left + 1 + above),
        }
    }
}

/// Going around the table before a step or after it comes to the same place.
proof fn lemma_wraps(position: int, step: int)
    requires
        0 <= position,
        0 <= step,
    ensures
        (position % 256 + step) % 256 == (position + step) % 256,
{
}

} // verus!
