//! Majority-vote classification of a digital input line.
//!
//! A pin is read many times in immediate succession and the low readings
//! are counted; the count decides between a confident `Low`, a confident
//! `High`, and `Indeterminate`. An indeterminate outcome means the vote
//! was too close to call: the caller retries on its next tick and must
//! never emit an event from it.

use vstd::prelude::*;

verus! {

/// Outcome of one majority-vote sampling pass over a digital input line.
#[derive(PartialEq, Eq, Structural, Debug, Copy, Clone)]
pub enum Level {
    Low,
    High,
    Indeterminate,
}

/// What the majority vote decides: `Low` when more than `low_threshold`
/// of the `samples` readings were low, `High` when fewer than
/// `samples - high_threshold` were low, `Indeterminate` otherwise.
pub open spec fn level_of_count(
    low_count: int,
    samples: int,
    low_threshold: int,
    high_threshold: int,
) -> Level {
    if low_count > low_threshold {
        Level::Low
    } else if low_count < samples - high_threshold {
        Level::High
    } else {
        Level::Indeterminate
    }
}

/// Classifies a finished sampling pass from its low-reading count.
pub fn classify_level(low_count: u32, samples: u32, low_threshold: u32, high_threshold: u32) -> (r:
    Level)
    requires
        high_threshold <= samples,
    ensures
        r == level_of_count(
            low_count as int,
            samples as int,
            low_threshold as int,
            high_threshold as int,
        ),
{
    if low_count > low_threshold {
        Level::Low
    } else if low_count < samples - high_threshold {
        Level::High
    } else {
        Level::Indeterminate
    }
}

/// How many readings in the pass were low (`true` stands for a low read).
pub open spec fn count_low(reads: Seq<bool>) -> int
    decreases reads.len(),
{
    if reads.len() == 0 {
        0
    } else {
        count_low(reads.drop_last()) + if reads.last() {
            1int
        } else {
            0int
        }
    }
}

proof fn lemma_count_low_bounds(reads: Seq<bool>)
    ensures
        0 <= count_low(reads) <= reads.len(),
    decreases reads.len(),
{
    if reads.len() > 0 {
        lemma_count_low_bounds(reads.drop_last());
    }
}

/// Counts the low readings of a recorded sampling pass.
pub fn count_low_reads(reads: &Vec<bool>) -> (n: u32)
    requires
        reads@.len() <= u32::MAX,
    ensures
        n == count_low(reads@),
{
    let mut n: u32 = 0;
    let mut i: usize = 0;
    while i < reads.len()
        invariant
            0 <= i <= reads@.len(),
            reads@.len() <= u32::MAX,
            n == count_low(reads@.take(i as int)),
        decreases reads@.len() - i,
    {
        proof {
            assert(reads@.take(i + 1).drop_last() =~= reads@.take(i as int));
            assert(reads@.take(i + 1).last() == reads@[i as int]);
            lemma_count_low_bounds(reads@.take(i as int));
        }
        if reads[i] {
            n = n + 1;
        }
        i = i + 1;
    }
    proof {
        assert(reads@.take(reads@.len() as int) =~= reads@);
    }
    n
}

/// Classifies a recorded sampling pass: counts the low readings, then
/// takes the majority vote over the whole pass.
pub fn sample_level(reads: &Vec<bool>, low_threshold: u32, high_threshold: u32) -> (r: Level)
    requires
        reads@.len() <= u32::MAX,
        high_threshold <= reads@.len(),
    ensures
        r == level_of_count(
            count_low(reads@),
            reads@.len() as int,
            low_threshold as int,
            high_threshold as int,
        ),
{
    let n = count_low_reads(reads);
    classify_level(n, reads.len() as u32, low_threshold, high_threshold)
}

/// Law: a line held low for every reading of the pass is classified
/// `Low`, provided the low threshold leaves that decidable at all.
pub proof fn lemma_all_low_is_low(reads: Seq<bool>, low_threshold: int, high_threshold: int)
    requires
        forall|i: int| 0 <= i < reads.len() ==> reads[i],
        low_threshold < reads.len(),
    ensures
        count_low(reads) == reads.len(),
        level_of_count(count_low(reads), reads.len() as int, low_threshold, high_threshold)
            == Level::Low,
    decreases reads.len(),
{
    if reads.len() > 0 {
        lemma_all_low_is_low(reads.drop_last(), low_threshold - 1, high_threshold);
    }
}

/// Law: a count that sits exactly on the boundary — not past the low
/// threshold, yet not under the high one — is classified `Indeterminate`.
pub proof fn lemma_boundary_is_indeterminate(
    low_count: int,
    samples: int,
    low_threshold: int,
    high_threshold: int,
)
    requires
        low_count <= low_threshold,
        low_count >= samples - high_threshold,
    ensures
        level_of_count(low_count, samples, low_threshold, high_threshold) == Level::Indeterminate,
{
}

} // verus!
