use vstd::prelude::*;

verus! {

/// The sum of a sequence of counts.
pub open spec fn sum(s: Seq<usize>) -> int
    decreases s.len(),
{
    if s.len() == 0 {
        0
    } else {
        sum(s.drop_last()) + s.last()
    }
}

/// A prefix of counts never sums to more than the whole sequence.
pub proof fn lemma_prefix_sum_le(s: Seq<usize>, i: int)
    requires
        0 <= i <= s.len(),
    ensures
        0 <= sum(s.take(i)) <= sum(s),
    decreases s.len(),
{
    if s.len() > 0 {
        if i == s.len() {
            assert(s.take(i) =~= s);
            lemma_prefix_sum_le(s.drop_last(), i - 1);
            assert(s.drop_last().take(i - 1) =~= s.drop_last());
        } else {
            lemma_prefix_sum_le(s.drop_last(), i);
            assert(s.drop_last().take(i) =~= s.take(i));
        }
    }
}

/// The integer mean of `numbers`: their sum divided by how many there are.
pub fn average(numbers: &Vec<usize>) -> (avg: usize)
    requires
        numbers.len() > 0,
        sum(numbers@) <= usize::MAX,
    ensures
        avg == sum(numbers@) / (numbers.len() as int),
{
    let len = numbers.len();
    let mut total: usize = 0;
    let mut i: usize = 0;
    while i < len
        invariant
            len == numbers.len(),
            0 <= i <= len,
            total == sum(numbers@.take(i as int)),
            sum(numbers@) <= usize::MAX,
        decreases len - i,
    {
        proof {
            assert(numbers@.take(i as int + 1).drop_last() =~= numbers@.take(i as int));
            lemma_prefix_sum_le(numbers@, i as int + 1);
        }
        total = total + numbers[i];
        i = i + 1;
    }
    proof {
        assert(numbers@.take(len as int) =~= numbers@);
    }
    total / len
}

/// How many tasks a progress-reporting loop waits for.
pub const TOTAL_TASKS: usize = 100;

/// What a progress-reporting loop does after reading the number of
/// finished tasks.
#[derive(Debug, Clone, Copy, PartialEq, Eq, Structural)]
pub enum Progress {
    /// Every task is done: leave the loop.
    Finished,
    /// Report that this many tasks are done, then wait and read again.
    Working(usize),
}

/// The decision of a progress loop that reads `num_done` finished tasks.
pub fn progress_step(num_done: usize) -> (p: Progress)
    ensures
        num_done == TOTAL_TASKS ==> p == Progress::Finished,
        num_done != TOTAL_TASKS ==> p == Progress::Working(num_done),
{
    if num_done == TOTAL_TASKS {
        Progress::Finished
    } else {
        Progress::Working(num_done)
    }
}

/// What a loop that reports timing statistics does after reading the number
/// of finished tasks.
#[derive(Debug, Clone, Copy, PartialEq, Eq, Structural)]
pub enum StatsStep {
    /// Every task is done: leave the loop.
    Finished,
    /// No task is done yet, so there is no average: read again at once.
    NothingYet,
    /// Report the average and peak time over this many finished tasks.
    Report(usize),
}

/// The decision of a statistics loop that reads `num_done` finished tasks.
pub fn stats_step(num_done: usize) -> (s: StatsStep)
    ensures
        num_done == TOTAL_TASKS ==> s == StatsStep::Finished,
        num_done == 0 ==> s == StatsStep::NothingYet,
        num_done != TOTAL_TASKS && num_done != 0 ==> s == StatsStep::Report(num_done),
{
    if num_done == TOTAL_TASKS {
        StatsStep::Finished
    } else if num_done == 0 {
        StatsStep::NothingYet
    } else {
        StatsStep::Report(num_done)
    }
}

} // verus!
