//! Path-invariant projection: the fixed permutation group.
//!
//! The projection averages a vector over a hand-picked family of index
//! permutations.  The family is generated once per dimension `d` and consists
//! of, in order: the identity, the `d - 1` non-trivial cyclic shifts, one
//! full reversal, the `d - 1` adjacent transpositions, and (for `d >= 3`) one
//! 3-cycle of the first three indices.  The family is a chosen subset, not a
//! group closed under composition; downstream behaviour depends on this exact
//! generation rule, so the contract of [`Pfadinvarianz::generate_permutations`]
//! pins every entry.  The numeric averaging itself is floating-point work and
//! lives outside this verified core.

use vstd::prelude::*;
use vstd::arithmetic::div_mod::lemma_fundamental_div_mod;

verus! {

/// Number of permutations generated for dimension `d`: identity, `d - 1`
/// shifts, a reversal, `d - 1` adjacent swaps, and a 3-cycle when `d >= 3`.
pub open spec fn group_size(d: nat) -> nat {
    if d == 0 {
        0
    } else if d >= 3 {
        2 * d + 1
    } else {
        2 * d
    }
}

/// Entry `j` of the generated family for dimension `d`.
pub open spec fn group_member(d: nat, j: int) -> Seq<usize>
    recommends
        0 <= j < group_size(d),
{
    if j == 0 {
        // identity
        Seq::new(d, |i: int| i as usize)
    } else if 1 <= j < d {
        // cyclic shift by j
        Seq::new(d, |i: int| ((i + j) % (d as int)) as usize)
    } else if j == d {
        // full reversal
        Seq::new(d, |i: int| (d - 1 - i) as usize)
    } else if d < j && j < 2 * d {
        // adjacent transposition of positions j - d - 1 and j - d
        let k = j - d - 1;
        Seq::new(
            d,
            |i: int|
                if i == k {
                    (k + 1) as usize
                } else if i == k + 1 {
                    k as usize
                } else {
                    i as usize
                },
        )
    } else {
        // 3-cycle of the first three indices
        Seq::new(
            d,
            |i: int|
                if i == 0 {
                    1usize
                } else if i == 1 {
                    2usize
                } else if i == 2 {
                    0usize
                } else {
                    i as usize
                },
        )
    }
}

/// Whether `p` rearranges exactly the indices `0 .. d`: right length, every
/// entry in range, no entry repeated.
pub open spec fn is_permutation(p: Seq<usize>, d: nat) -> bool {
    &&& p.len() == d
    &&& forall|i: int| 0 <= i < d ==> p[i] < d
    &&& forall|i: int, j: int| 0 <= i < j < d ==> p[i] != p[j]
}

/// For `0 <= x < 2 * d`, reduction modulo `d` either keeps `x` or subtracts
/// `d` once.
proof fn lemma_mod_below_twice(x: int, d: int)
    requires
        d > 0,
        0 <= x < 2 * d,
    ensures
        x % d == if x < d {
            x
        } else {
            x - d
        },
{
    lemma_fundamental_div_mod(x, d);
    let q = x / d;
    assert(x == d * q + x % d);
    if x < d {
        assert(q == 0) by (nonlinear_arith)
            requires
                d > 0,
                0 <= x < d,
                x == d * q + x % d,
                0 <= x % d < d,
        ;
    } else {
        assert(q == 1) by (nonlinear_arith)
            requires
                d > 0,
                d <= x < 2 * d,
                x == d * q + x % d,
                0 <= x % d < d,
        ;
    }
}

/// Every member of the generated family is a permutation of `0 .. d`.
pub proof fn lemma_group_members_are_permutations(d: nat, j: int)
    requires
        d <= usize::MAX,
        0 <= j < group_size(d),
    ensures
        is_permutation(group_member(d, j), d),
{
    let p = group_member(d, j);
    if 1 <= j < d {
        assert forall|i: int| 0 <= i < d implies p[i] < d by {
            lemma_mod_below_twice(i + j, d as int);
        }
        assert forall|a: int, b: int| 0 <= a < b < d implies p[a] != p[b] by {
            lemma_mod_below_twice(a + j, d as int);
            lemma_mod_below_twice(b + j, d as int);
        }
    }
}

/// Parameters of the path-invariant projection live in [`crate::types`]; this
/// is the operator itself, holding the generated permutation family.
#[derive(Clone)]
pub struct Pfadinvarianz {
    /// The permutation family, in generation order.
    pub permutations: Vec<Vec<usize>>,
}

impl Pfadinvarianz {
    /// Generate the permutation family for `dimension`, pinned entry by
    /// entry to [`group_member`].
    pub fn generate_permutations(dimension: usize) -> (r: Vec<Vec<usize>>)
        requires
            dimension <= usize::MAX / 2,
        ensures
            r@.len() == group_size(dimension as nat),
            forall|j: int| 0 <= j < r@.len() ==> (#[trigger] r@[j])@ == group_member(
                dimension as nat,
                j,
            ),
    {
        let ghost d = dimension as nat;
        let mut perms: Vec<Vec<usize>> = Vec::new();
        if dimension == 0 {
            return perms;
        }

        // identity
        let mut ident: Vec<usize> = Vec::new();
        let mut i: usize = 0;
        while i < dimension
            invariant
                i <= dimension,
                ident@.len() == i,
                forall|t: int| 0 <= t < i ==> ident@[t] == t as usize,
            decreases dimension - i,
        {
            ident.push(i);
            i = i + 1;
        }
        proof {
            assert(ident@ =~= group_member(d, 0));
        }
        perms.push(ident);

        // cyclic shifts
        let mut shift: usize = 1;
        while shift < dimension
            invariant
                1 <= shift <= dimension,
                dimension <= usize::MAX / 2,
                d == dimension as nat,
                perms@.len() == shift,
                forall|j: int| 0 <= j < perms@.len() ==> (#[trigger] perms@[j])@ == group_member(d, j),
            decreases dimension - shift,
        {
            let mut perm: Vec<usize> = Vec::new();
            let mut i: usize = 0;
            while i < dimension
                invariant
                    i <= dimension,
                    1 <= shift < dimension,
                    dimension <= usize::MAX / 2,
                    perm@.len() == i,
                    forall|t: int| 0 <= t < i ==> perm@[t] == ((t + shift) % (dimension as int)) as usize,
                decreases dimension - i,
            {
                perm.push((i + shift) % dimension);
                i = i + 1;
            }
            proof {
                assert(perm@ =~= group_member(d, shift as int));
            }
            perms.push(perm);
            shift = shift + 1;
        }

        // full reversal
        let mut rev: Vec<usize> = Vec::new();
        let mut i: usize = 0;
        while i < dimension
            invariant
                i <= dimension,
                rev@.len() == i,
                forall|t: int| 0 <= t < i ==> rev@[t] == (dimension - 1 - t) as usize,
            decreases dimension - i,
        {
            rev.push(dimension - 1 - i);
            i = i + 1;
        }
        proof {
            assert(rev@ =~= group_member(d, d as int));
        }
        perms.push(rev);

        // adjacent transpositions
        let mut k: usize = 0;
        while k + 1 < dimension
            invariant
                k + 1 <= dimension,
                dimension <= usize::MAX / 2,
                d == dimension as nat,
                perms@.len() == dimension + 1 + k,
                forall|j: int| 0 <= j < perms@.len() ==> (#[trigger] perms@[j])@ == group_member(d, j),
            decreases dimension - k,
        {
            let mut perm: Vec<usize> = Vec::new();
            let mut i: usize = 0;
            while i < dimension
                invariant
                    i <= dimension,
                    k + 1 < dimension,
                    perm@.len() == i,
                    forall|t: int| 0 <= t < i ==> perm@[t] == (if t == k {
                        (k + 1) as usize
                    } else if t == k + 1 {
                        k as usize
                    } else {
                        t as usize
                    }),
                decreases dimension - i,
            {
                let v = if i == k {
                    k + 1
                } else if i == k + 1 {
                    k
                } else {
                    i
                };
                perm.push(v);
                i = i + 1;
            }
            proof {
                assert(perm@ =~= group_member(d, (dimension + 1 + k) as int));
            }
            perms.push(perm);
            k = k + 1;
        }

        // 3-cycle of the first three indices
        if dimension >= 3 {
            let mut perm: Vec<usize> = Vec::new();
            let mut i: usize = 0;
            while i < dimension
                invariant
                    i <= dimension,
                    3 <= dimension,
                    perm@.len() == i,
                    forall|t: int| 0 <= t < i ==> perm@[t] == (if t == 0 {
                        1usize
                    } else if t == 1 {
                        2usize
                    } else if t == 2 {
                        0usize
                    } else {
                        t as usize
                    }),
                decreases dimension - i,
            {
                let v = if i == 0 {
                    1
                } else if i == 1 {
                    2
                } else if i == 2 {
                    0
                } else {
                    i
                };
                perm.push(v);
                i = i + 1;
            }
            proof {
                assert(perm@ =~= group_member(d, 2 * d as int));
            }
            perms.push(perm);
        }

        perms
    }

    /// Rearrange `v` by `perm`: entry `i` of the result is `v[perm[i]]`.
    /// Entries that `perm` does not address, or whose source index is out of
    /// range, keep `fill` — mirroring a fill-initialised result buffer.  The
    /// projection averages such rearrangements; the averaging arithmetic
    /// itself is numeric work outside this verified core.
    pub fn apply_permutation<T: Copy>(&self, v: &Vec<T>, perm: &Vec<usize>, fill: T) -> (r: Vec<T>)
        ensures
            r@.len() == v@.len(),
            forall|i: int| 0 <= i < r@.len() ==> r@[i] == (if i < perm@.len() && perm@[i] < v@.len() {
                v@[perm@[i] as int]
            } else {
                fill
            }),
    {
        let mut result: Vec<T> = Vec::new();
        let mut i: usize = 0;
        while i < v.len()
            invariant
                i <= v@.len(),
                result@.len() == i,
                forall|t: int| 0 <= t < i ==> result@[t] == (if t < perm@.len() && perm@[t] < v@.len() {
                    v@[perm@[t] as int]
                } else {
                    fill
                }),
            decreases v@.len() - i,
        {
            if i < perm.len() && perm[i] < v.len() {
                let src = perm[i];
                result.push(v[src]);
            } else {
                result.push(fill);
            }
            i = i + 1;
        }
        result
    }

    /// Build the operator for `dimension`, generating its permutation family.
    pub fn new(dimension: usize) -> (r: Self)
        requires
            dimension <= usize::MAX / 2,
        ensures
            r.permutations@.len() == group_size(dimension as nat),
            forall|j: int| 0 <= j < r.permutations@.len() ==> (#[trigger] r.permutations@[j])@
                == group_member(dimension as nat, j),
    {
        let permutations = Self::generate_permutations(dimension);
        Self { permutations }
    }
}

impl Default for Pfadinvarianz {
    /// The reference configuration uses a 5-dimensional vector space.
    fn default() -> (r: Self)
        ensures
            r.permutations@.len() == group_size(5),
            forall|j: int| 0 <= j < r.permutations@.len() ==> (#[trigger] r.permutations@[j])@
                == group_member(5, j),
    {
        Self::new(5)
    }
}

} // verus!
