use vstd::prelude::*;

verus! {

/// Number of `true` entries in a row of the neighbourhood matrix.
pub open spec fn density(row: Seq<bool>) -> nat
    decreases row.len(),
{
    if row.len() == 0 {
        0
    } else {
        density(row.drop_last()) + if row.last() {
            1nat
        } else {
            0nat
        }
    }
}

/// The view of a matrix of booleans.
pub open spec fn rows(m: &Vec<Vec<bool>>) -> Seq<Seq<bool>> {
    m@.map_values(|r: Vec<bool>| r@)
}

/// `k` is the index of the densest candidate; among equally dense ones it is
/// the last.
pub open spec fn is_densest(m: Seq<Seq<bool>>, k: int) -> bool {
    &&& 0 <= k < m.len()
    &&& forall|i: int| 0 <= i < m.len() ==> density(#[trigger] m[i]) <= density(m[k])
    &&& forall|i: int| k < i < m.len() ==> density(#[trigger] m[i]) < density(m[k])
}

fn count_true(row: &Vec<bool>) -> (c: usize)
    ensures
        c == density(row@),
        c == row@.filter(|b: bool| b).len(),
{
    let mut c: usize = 0;
    let mut j: usize = 0;
    while j < row.len()
        invariant
            j <= row.len(),
            c == density(row@.take(j as int)),
            c <= j,
        decreases row.len() - j,
    {
        assert(row@.take(j as int + 1).drop_last() =~= row@.take(j as int));
        if row[j] {
            c = c + 1;
        }
        j = j + 1;
    }
    assert(row@.take(row.len() as int) =~= row@);
    proof {
        law_density_is_count_of_true(row@);
    }
    c
}

/// Picks the candidate with the most candidates around it.
///
/// `within[i][j]` tells whether candidate `j` lies within the explosion
/// radius of candidate `i` (a candidate lies within its own radius). The
/// densest candidate is returned; when several are equally dense the last of
/// them is, as `Iterator::max_by` does. There is none when there are no
/// candidates.
pub fn densest(within: &Vec<Vec<bool>>) -> (r: Option<usize>)
    ensures
        r is None <==> within.len() == 0,
        r matches Some(k) ==> is_densest(rows(within), k as int),
        r matches Some(k) ==> forall|i: int|
            0 <= i < within.len() ==> (#[trigger] within[i]@).filter(|b: bool| b).len()
                <= within[k as int]@.filter(|b: bool| b).len(),
{
    if within.len() == 0 {
        return None;
    }
    let mut best: usize = 0;
    let mut best_count: usize = count_true(&within[0]);
    let mut i: usize = 1;
    assert(rows(within)[0] == within[0]@);
    while i < within.len()
        invariant
            1 <= i <= within.len(),
            best < i,
            best_count == density(rows(within)[best as int]),
            forall|j: int| 0 <= j < i ==> density(#[trigger] rows(within)[j]) <= best_count,
            forall|j: int| best < j < i ==> density(#[trigger] rows(within)[j]) < best_count,
        decreases within.len() - i,
    {
        let c = count_true(&within[i]);
        assert(rows(within)[i as int] == within[i as int]@);
        if c >= best_count {
            best = i;
            best_count = c;
        }
        i = i + 1;
    }
    proof {
        assert forall|i: int| 0 <= i < within.len() implies (#[trigger] within[i]@).filter(
            |b: bool| b,
        ).len() <= within[best as int]@.filter(|b: bool| b).len() by {
            assert(rows(within)[i] == within[i]@);
            assert(rows(within)[best as int] == within[best as int]@);
            law_density_is_count_of_true(within[i]@);
            law_density_is_count_of_true(within[best as int]@);
        }
    }
    Some(best)
}

/// Law: every entry of a row counts: a row with one more `true` entry is
/// one denser, one with one more `false` entry is as dense, and an empty row
/// has density zero.
pub proof fn law_density_counts_each_entry(row: Seq<bool>, b: bool)
    ensures
        density(Seq::<bool>::empty()) == 0,
        density(row.push(b)) == density(row) + if b {
            1nat
        } else {
            0nat
        },
{
    assert(row.push(b).drop_last() =~= row);
}

/// Law: the density of a row is the number of its `true` entries.
pub proof fn law_density_is_count_of_true(row: Seq<bool>)
    ensures
        density(row) == row.filter(|b: bool| b).len(),
    decreases row.len(),
{
    reveal(Seq::filter);
    if row.len() > 0 {
        law_density_is_count_of_true(row.drop_last());
    }
}

/// Law: the chosen candidate is at least as dense as every other, and no
/// later candidate is as dense.
pub proof fn law_densest_beats_the_rest(m: Seq<Seq<bool>>, k: int, i: int)
    requires
        is_densest(m, k),
        0 <= i < m.len(),
    ensures
        m[i].filter(|b: bool| b).len() <= m[k].filter(|b: bool| b).len(),
        k < i ==> m[i].filter(|b: bool| b).len() < m[k].filter(|b: bool| b).len(),
{
    law_density_is_count_of_true(m[i]);
    law_density_is_count_of_true(m[k]);
}

} // verus!
