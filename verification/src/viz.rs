//! The counting behind a histogram: values already placed in raw bins are
//! clamped into the last bin and counted.

use vstd::prelude::*;

verus! {

/// The bin a value lands in: its raw bin, or the last bin when the raw bin
/// lies beyond it (the largest value lands exactly on the upper edge).
pub open spec fn bin_of(raw: usize, bins: usize) -> int {
    if raw < bins - 1 {
        raw as int
    } else {
        bins - 1
    }
}

/// How many of the values land in bin `b`.
pub open spec fn bin_count(raw: Seq<usize>, bins: usize, b: int) -> nat
    decreases raw.len(),
{
    if raw.len() == 0 {
        0
    } else {
        bin_count(raw.drop_last(), bins, b) + if bin_of(raw.last(), bins) == b {
            1nat
        } else {
            0nat
        }
    }
}

proof fn lemma_bin_count_at_most_len(raw: Seq<usize>, bins: usize, b: int)
    ensures
        bin_count(raw, bins, b) <= raw.len(),
    decreases raw.len(),
{
    if raw.len() > 0 {
        lemma_bin_count_at_most_len(raw.drop_last(), bins, b);
    }
}

/// The notice a histogram shows instead of bars: "No numeric data found for
/// histogram" when the column holds no numeric value, and none otherwise.
pub fn histogram_data_notice(value_count: usize) -> (r: Option<String>)
    ensures
        r is Some <==> value_count == 0,
        r matches Some(n) ==> n@ == "No numeric data found for histogram"@,
{
    if value_count == 0 {
        Some(String::from_str("No numeric data found for histogram"))
    } else {
        None
    }
}

/// The counts of a histogram and the largest of them, which the bars are
/// scaled to.
pub struct HistogramCounts {
    pub counts: Vec<usize>,
    pub max_count: usize,
}

/// Counts the values of a histogram by bin, given the raw bin of each value
/// (the offset from the minimum divided by the bin width, rounded down), and
/// finds the largest count.
pub fn histogram_counts(raw: &Vec<usize>, bins: usize) -> (r: HistogramCounts)
    requires
        bins > 0,
    ensures
        r.counts.len() == bins,
        forall|b: int| 0 <= b < bins ==> #[trigger] r.counts[b] == bin_count(raw@, bins, b),
        forall|b: int| 0 <= b < bins ==> #[trigger] r.counts[b] <= r.max_count,
        exists|b: int| 0 <= b < bins && #[trigger] r.counts[b] == r.max_count,
{
    let mut counts: Vec<usize> = Vec::new();
    while counts.len() < bins
        invariant
            counts.len() <= bins,
            forall|b: int| 0 <= b < counts.len() ==> #[trigger] counts[b] == 0,
        decreases bins - counts.len(),
    {
        counts.push(0);
    }
    let mut i: usize = 0;
    while i < raw.len()
        invariant
            bins > 0,
            i <= raw.len(),
            counts.len() == bins,
            forall|b: int| 0 <= b < bins ==> #[trigger] counts[b] == bin_count(raw@.take(i as int), bins, b),
        decreases raw.len() - i,
    {
        let ghost before = raw@.take(i as int);
        let ghost after = raw@.take(i + 1);
        proof {
            assert(after.drop_last() =~= before);
            assert(after.last() == raw@[i as int]);
        }
        let idx: usize = if raw[i] < bins - 1 {
            raw[i]
        } else {
            bins - 1
        };
        proof {
            lemma_bin_count_at_most_len(before, bins, idx as int);
        }
        let c = counts[idx] + 1;
        counts.set(idx, c);
        assert forall|b: int| 0 <= b < bins implies #[trigger] counts[b] == bin_count(after, bins, b) by {
            assert(bin_count(after, bins, b) == bin_count(before, bins, b) + if bin_of(raw@[i as int], bins) == b {
                1nat
            } else {
                0nat
            });
        }
        i = i + 1;
    }
    assert(raw@.take(raw.len() as int) =~= raw@);
    let mut max_count: usize = counts[0];
    let mut at: usize = 0;
    let mut j: usize = 1;
    while j < bins
        invariant
            counts.len() == bins,
            1 <= j <= bins,
            at < j,
            counts[at as int] == max_count,
            forall|b: int| 0 <= b < j ==> #[trigger] counts[b] <= max_count,
        decreases bins - j,
    {
        if counts[j] > max_count {
            max_count = counts[j];
            at = j;
        }
        j = j + 1;
    }
    let r = HistogramCounts { counts, max_count };
    assert(r.counts[at as int] == r.max_count && 0 <= at < bins);
    r
}

/// A value counts in its own raw bin when that bin lies before the last
/// one; the last bin counts every value whose raw bin is at or beyond it;
/// no other bin counts anything.
pub proof fn lemma_bin_count_by_raw_bin(raw: Seq<usize>, bins: usize, b: int)
    requires
        bins > 0,
    ensures
        0 <= b < bins - 1 ==> bin_count(raw, bins, b) == raw.filter(|x: usize| x as int == b).len(),
        b == bins - 1 ==> bin_count(raw, bins, b) == raw.filter(|x: usize| x >= bins - 1).len(),
        (b < 0 || b >= bins) ==> bin_count(raw, bins, b) == 0,
    decreases raw.len(),
{
    reveal(Seq::filter);
    if raw.len() > 0 {
        lemma_bin_count_by_raw_bin(raw.drop_last(), bins, b);
    }
}

/// Every value lands in exactly one bin: the counts of all bins add up to
/// the number of values.
pub proof fn lemma_bin_counts_add_up(raw: Seq<usize>, bins: usize)
    requires
        bins > 0,
    ensures
        counts_total(raw, bins, bins as int) == raw.len(),
    decreases raw.len(),
{
    if raw.len() > 0 {
        lemma_bin_counts_add_up(raw.drop_last(), bins);
        lemma_counts_total_step(raw, bins, bins as int);
        assert(0 <= bin_of(raw.last(), bins) < bins);
    } else {
        lemma_counts_total_of_nothing(raw, bins, bins as int);
    }
}

proof fn lemma_counts_total_of_nothing(raw: Seq<usize>, bins: usize, upto: int)
    requires
        raw.len() == 0,
    ensures
        counts_total(raw, bins, upto) == 0,
    decreases upto,
{
    if upto > 0 {
        lemma_counts_total_of_nothing(raw, bins, upto - 1);
    }
}

/// The sum of the counts of bins `0..upto`.
pub open spec fn counts_total(raw: Seq<usize>, bins: usize, upto: int) -> int
    decreases upto,
{
    if upto <= 0 {
        0
    } else {
        counts_total(raw, bins, upto - 1) + bin_count(raw, bins, upto - 1)
    }
}

proof fn lemma_counts_total_step(raw: Seq<usize>, bins: usize, upto: int)
    requires
        bins > 0,
        raw.len() > 0,
        0 <= upto <= bins,
    ensures
        counts_total(raw, bins, upto) == counts_total(raw.drop_last(), bins, upto) + if bin_of(
            raw.last(),
            bins,
        ) < upto {
            1int
        } else {
            0int
        },
    decreases upto,
{
    if upto > 0 {
        lemma_counts_total_step(raw, bins, upto - 1);
    }
}

} // verus!
