//! Observation set-up that needs no floating point: the channel width of each
//! array and the order in which baselines are visited.

use vstd::prelude::*;

use crate::names::names_equal;

verus! {

/// Channel width, in hertz, used for the array called `name`: e-MERLIN
/// channels are 50 MHz wide, LOFAR and every other array use 5 MHz.
pub open spec fn channel_width_for(name: Seq<char>) -> u64 {
    if name == "LOFAR"@ {
        5_000_000
    } else if name == "e-MERLIN"@ {
        50_000_000
    } else {
        5_000_000
    }
}

/// The channel width, in hertz, of the array called `array_name`.
pub fn channel_width_hz(array_name: &str) -> (r: u64)
    ensures
        r == channel_width_for(array_name@),
        r == 50_000_000 <==> array_name@ == "e-MERLIN"@,
        r != 50_000_000 ==> r == 5_000_000,
{
    proof {
        lemma_channel_width(array_name@);
    }
    if names_equal(array_name, "LOFAR") {
        5_000_000
    } else if names_equal(array_name, "e-MERLIN") {
        50_000_000
    } else {
        5_000_000
    }
}

/// Only the array called exactly "e-MERLIN" has 50 MHz channels; every other
/// name, LOFAR included, has 5 MHz channels.
pub proof fn lemma_channel_width(name: Seq<char>)
    ensures
        channel_width_for(name) == 50_000_000 <==> name == "e-MERLIN"@,
        channel_width_for(name) != 50_000_000 ==> channel_width_for(name) == 5_000_000,
{
    reveal_strlit("LOFAR");
    reveal_strlit("e-MERLIN");
    assert("LOFAR"@.len() != "e-MERLIN"@.len());
}

/// The baselines that start at antenna `first` among `n` antennas: `first`
/// paired with itself and with each later antenna, in index order.
pub open spec fn baseline_row(first: int, n: int) -> Seq<(usize, usize)> {
    Seq::new((n - first) as nat, |k: int| (first as usize, (first + k) as usize))
}

/// The baselines of the first `rows` rows among `n` antennas, row by row.
pub open spec fn baselines_before(rows: int, n: int) -> Seq<(usize, usize)>
    decreases rows,
{
    if rows <= 0 {
        seq![]
    } else {
        baselines_before(rows - 1, n) + baseline_row(rows - 1, n)
    }
}

/// Every baseline among `n` antennas, autocorrelations included, in the order
/// the simulation visits them: `(i, j)` for each `i` and each `j` from `i` up.
pub open spec fn baselines(n: int) -> Seq<(usize, usize)> {
    baselines_before(n, n)
}

/// The pairs of antenna indices visited for `n` antennas.
pub fn baseline_pairs(n: usize) -> (r: Vec<(usize, usize)>)
    ensures
        r@ == baselines(n as int),
{
    let mut r: Vec<(usize, usize)> = Vec::new();
    let mut i: usize = 0;
    assert(r@ =~= baselines_before(0, n as int));
    while i < n
        invariant
            i <= n,
            r@ == baselines_before(i as int, n as int),
        decreases n - i,
    {
        let mut j: usize = i;
        let ghost done = r@;
        assert(baseline_row(i as int, n as int).take(0) =~= Seq::<(usize, usize)>::empty());
        assert(r@ =~= done + baseline_row(i as int, n as int).take(0));
        while j < n
            invariant
                i <= j <= n,
                done == baselines_before(i as int, n as int),
                r@ == done + baseline_row(i as int, n as int).take(j - i),
            decreases n - j,
        {
            r.push((i, j));
            assert(baseline_row(i as int, n as int).take(j + 1 - i) =~= baseline_row(
                i as int,
                n as int,
            ).take(j - i).push((i, j)));
            j = j + 1;
        }
        assert(baseline_row(i as int, n as int).take(n - i) =~= baseline_row(i as int, n as int));
        i = i + 1;
    }
    r
}

/// Twice the number of baselines in the first `rows` rows among `n` antennas.
pub proof fn lemma_baselines_before_len(rows: int, n: int)
    requires
        0 <= rows <= n,
    ensures
        2 * baselines_before(rows, n).len() == rows * (2 * n - rows + 1),
    decreases rows,
{
    if rows > 0 {
        lemma_baselines_before_len(rows - 1, n);
        assert(baselines_before(rows, n).len() == baselines_before(rows - 1, n).len()
            + baseline_row(rows - 1, n).len());
        assert(baseline_row(rows - 1, n).len() == n - (rows - 1));
        assert(rows * (2 * n - rows + 1) == (rows - 1) * (2 * n - (rows - 1) + 1) + 2 * (n - (rows
            - 1))) by (nonlinear_arith);
    } else {
        assert(rows * (2 * n - rows + 1) == 0) by (nonlinear_arith)
            requires
                rows == 0,
        ;
    }
}

/// `n` antennas make `n(n+1)/2` baselines.
pub proof fn lemma_baseline_count(n: int)
    requires
        0 <= n,
    ensures
        2 * baselines(n).len() == n * (n + 1),
{
    lemma_baselines_before_len(n, n);
}

/// The baselines of fewer rows are the first part of those of more rows.
pub proof fn lemma_baselines_prefix(rows: int, more: int, n: int)
    requires
        0 <= rows <= more <= n,
    ensures
        baselines_before(rows, n).len() <= baselines_before(more, n).len(),
        baselines_before(more, n).take(baselines_before(rows, n).len() as int)
            == baselines_before(rows, n),
    decreases more,
{
    if more > rows {
        lemma_baselines_prefix(rows, more - 1, n);
        let a = baselines_before(more - 1, n);
        let k = baselines_before(rows, n).len() as int;
        assert((a + baseline_row(more - 1, n)).take(k) =~= a.take(k));
    } else {
        let a = baselines_before(more, n);
        assert(a.take(a.len() as int) =~= a);
    }
}

/// Each baseline pairs an antenna with itself or a later one.
pub proof fn lemma_baseline_entries(n: int)
    requires
        0 <= n <= usize::MAX,
    ensures
        forall|k: int|
            0 <= k < baselines(n).len() ==> (#[trigger] baselines(n)[k]).0 <= baselines(n)[k].1 < n,
{
    lemma_baseline_entries_before(n, n);
}

proof fn lemma_baseline_entries_before(rows: int, n: int)
    requires
        0 <= rows <= n <= usize::MAX,
    ensures
        forall|k: int|
            0 <= k < baselines_before(rows, n).len() ==> (#[trigger] baselines_before(rows, n)[k]).0
                <= baselines_before(rows, n)[k].1 < n,
    decreases rows,
{
    if rows > 0 {
        lemma_baseline_entries_before(rows - 1, n);
        let a = baselines_before(rows - 1, n);
        let r = baselines_before(rows, n);
        assert forall|k: int| 0 <= k < r.len() implies (#[trigger] r[k]).0 <= r[k].1 < n by {
            if k < a.len() {
                assert(r[k] == a[k]);
            } else {
                assert(r[k] == baseline_row(rows - 1, n)[k - a.len()]);
            }
        }
    }
}

/// The baseline of antennas `i <= j` stands after the rows of the antennas
/// before `i`, at offset `j - i` in its own row; so each such pair is visited
/// exactly once.
pub proof fn lemma_baseline_position(n: int, i: int, j: int)
    requires
        0 <= i <= j < n <= usize::MAX,
    ensures
        baselines(n)[baselines_before(i, n).len() + (j - i)] == (i as usize, j as usize),
{
    lemma_baselines_prefix(i + 1, n, n);
    lemma_baselines_before_len(i, n);
    lemma_baselines_before_len(i + 1, n);
    let k = baselines_before(i, n).len() + (j - i);
    let b = baselines_before(i + 1, n);
    assert(b[k] == baseline_row(i, n)[j - i]);
    assert(baselines(n).take(b.len() as int)[k] == b[k]);
}

} // verus!
