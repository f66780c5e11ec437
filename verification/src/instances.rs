//! Numbers that tell apart what one process opens and mints.
//!
//! A journal that is opened again from the same files, or a security epoch that is minted
//! again with equal values, is not its predecessor. Each carries a number of its own, and
//! one source hands every number out once.

use vstd::prelude::*;

verus! {

/// Hands out the instance numbers of a process, which keeps one source for its lifetime.
pub struct InstanceSource {
    next: u64,
}

/// One instance number, for the one journal or security epoch that takes it.
///
/// Only a source makes one, and it is neither copied nor cloned.
pub struct InstanceNumber {
    number: u64,
}

impl View for InstanceSource {
    type V = u64;

    /// The next number.
    closed spec fn view(&self) -> u64 {
        self.next
    }
}

impl View for InstanceNumber {
    type V = u64;

    closed spec fn view(&self) -> u64 {
        self.number
    }
}

/// How a source hands out one number: the next, as long as another one follows it.
pub open spec fn hands_out(before: u64, after: u64, number: Option<u64>) -> bool {
    if before < u64::MAX {
        number == Some(before) && after == before + 1
    } else {
        number is None && after == before
    }
}

/// The next number of a source after a count of attempts to draw one.
pub open spec fn after_drawing(before: u64, attempts: nat) -> u64 {
    if before + attempts <= u64::MAX {
        (before + attempts) as u64
    } else {
        u64::MAX
    }
}

impl InstanceSource {
    pub fn new() -> (source: Self)
        ensures
            source@ == 0,
    {
        InstanceSource { next: 0 }
    }

    /// The next number, or none once the numbers are used up.
    pub fn next_instance(&mut self) -> (instance: Option<InstanceNumber>)
        ensures
            hands_out(
                old(self)@,
                final(self)@,
                match instance {
                    Some(instance) => Some(instance@),
                    None => None,
                },
            ),
    {
        if self.next == u64::MAX {
            return None;
        }
        let number: u64 = self.next;
        self.next = number + 1;
        Some(InstanceNumber { number })
    }
}

impl InstanceNumber {
    /// Gives the number up to the instance that carries it from here on.
    pub fn into_number(self) -> (number: u64)
        ensures
            number == self@,
    {
        self.number
    }
}

/// Step `i` of a run of draws from one source.
pub open spec fn hands_out_at(sources: Seq<u64>, numbers: Seq<Option<u64>>, i: int) -> bool {
    hands_out(sources[i], sources[i + 1], numbers[i])
}

/// Whether one source hands out these numbers one after another.
pub open spec fn counts(sources: Seq<u64>, numbers: Seq<Option<u64>>) -> bool {
    &&& sources.len() == numbers.len() + 1
    &&& forall|i: int| 0 <= i < numbers.len() ==> #[trigger] hands_out_at(sources, numbers, i)
}

/// A source never goes back.
proof fn lemma_source_advances(sources: Seq<u64>, numbers: Seq<Option<u64>>, i: int, j: int)
    requires
        counts(sources, numbers),
        0 <= i <= j <= numbers.len(),
    ensures
        sources[i] <= sources[j],
    decreases j,
{
    if i < j {
        assert(hands_out_at(sources, numbers, j - 1));
        lemma_source_advances(sources, numbers, i, j - 1);
    }
}

/// One source never hands a number out twice, and a source that has none left stays so.
pub proof fn instances_of_one_source_differ(
    sources: Seq<u64>,
    numbers: Seq<Option<u64>>,
    i: int,
    j: int,
)
    requires
        counts(sources, numbers),
        0 <= i < j < numbers.len(),
    ensures
        numbers[i] is Some && numbers[j] is Some ==> numbers[i]->Some_0 < numbers[j]->Some_0,
        numbers[i] is None ==> numbers[j] is None,
{
    assert(hands_out_at(sources, numbers, i));
    assert(hands_out_at(sources, numbers, j));
    lemma_source_advances(sources, numbers, i + 1, j);
}

/// Two draws from one source do not give the same number.
pub proof fn lemma_draws_differ(
    sources: Seq<u64>,
    numbers: Seq<Option<u64>>,
    i: int,
    j: int,
)
    requires
        counts(sources, numbers),
        0 <= i < numbers.len(),
        0 <= j < numbers.len(),
        i != j,
        numbers[i] is Some,
    ensures
        numbers[i] != numbers[j],
{
    if i < j {
        instances_of_one_source_differ(sources, numbers, i, j);
    } else {
        instances_of_one_source_differ(sources, numbers, j, i);
    }
}

/// A source gives each number once, in order, and none after the last one.
pub proof fn source_counts_up_to_its_last_number(before: u64, after: u64, number: Option<u64>)
    requires
        hands_out(before, after, number),
    ensures
        number is Some <==> before < u64::MAX,
        number matches Some(number) ==> number == before && after == number + 1,
        number is None ==> after == before,
        after == after_drawing(before, 1),
{
}

/// As many numbers are gone after a run of draws as were drawn, up to the last one.
pub proof fn drawing_takes_one_number_each(before: u64, attempts: nat)
    ensures
        after_drawing(before, 0) == before,
        before + attempts <= u64::MAX ==> after_drawing(before, attempts) - before == attempts,
        before + attempts > u64::MAX ==> after_drawing(before, attempts) == u64::MAX,
{
}

} // verus!
