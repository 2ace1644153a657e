//! The mapping of system call numbers to drivers.

use vstd::prelude::*;

verus! {

/// What a table of numbered drivers answers to `driver_num`: the first driver
/// that is listed under the number, if there is one.
pub open spec fn lookup<D>(table: Seq<(usize, D)>, driver_num: usize) -> Option<D>
    decreases table.len(),
{
    if table.len() == 0 {
        None
    } else if table[0].0 == driver_num {
        Some(table[0].1)
    } else {
        lookup(table.drop_first(), driver_num)
    }
}

/// No number is listed twice.
pub open spec fn numbers_distinct<D>(table: Seq<(usize, D)>) -> bool {
    forall|i: int, j: int|
        #![trigger table[i], table[j]]
        0 <= i < j < table.len() ==> table[i].0 != table[j].0
}

/// A number that is listed is answered by the first driver under it.
pub proof fn law_first_match_answers<D>(table: Seq<(usize, D)>, i: int)
    requires
        0 <= i < table.len(),
        forall|j: int| 0 <= j < i ==> (#[trigger] table[j]).0 != table[i].0,
    ensures
        lookup(table, table[i].0) == Some(table[i].1),
    decreases i,
{
    if i > 0 {
        let rest = table.drop_first();
        assert(rest[i - 1] == table[i]);
        assert forall|j: int| 0 <= j < i - 1 implies (#[trigger] rest[j]).0 != rest[i - 1].0 by {
            assert(rest[j] == table[j + 1]);
        }
        law_first_match_answers(rest, i - 1);
    }
}

/// Where no number is listed twice, every driver answers its own number.
pub proof fn law_every_driver_answers<D>(table: Seq<(usize, D)>, i: int)
    requires
        numbers_distinct(table),
        0 <= i < table.len(),
    ensures
        lookup(table, table[i].0) == Some(table[i].1),
{
    law_first_match_answers(table, i);
}

/// A call gets no driver exactly when its number is not listed.
pub proof fn law_unlisted_number_gets_none<D>(table: Seq<(usize, D)>, driver_num: usize)
    ensures
        lookup(table, driver_num) is None <==> (forall|i: int|
            0 <= i < table.len() ==> (#[trigger] table[i]).0 != driver_num),
    decreases table.len(),
{
    if table.len() > 0 {
        let rest = table.drop_first();
        law_unlisted_number_gets_none(rest, driver_num);
        if table[0].0 != driver_num {
            if forall|i: int| 0 <= i < rest.len() ==> (#[trigger] rest[i]).0 != driver_num {
                assert forall|i: int| 0 <= i < table.len() implies (#[trigger] table[i]).0
                    != driver_num by {
                    if i > 0 {
                        assert(rest[i - 1] == table[i]);
                    }
                }
            } else {
                let i = choose|i: int| 0 <= i < rest.len() && (#[trigger] rest[i]).0 == driver_num;
                assert(table[i + 1] == rest[i]);
            }
        }
    }
}

/// A driver that answers a number is listed under it.
pub proof fn law_answer_is_listed<D>(table: Seq<(usize, D)>, driver_num: usize)
    ensures
        lookup(table, driver_num) matches Some(d) ==> exists|i: int|
            0 <= i < table.len() && #[trigger] table[i] == (driver_num, d),
    decreases table.len(),
{
    if table.len() > 0 {
        if table[0].0 == driver_num {
            assert(table[0] == (driver_num, table[0].1));
        } else {
            let rest = table.drop_first();
            law_answer_is_listed(rest, driver_num);
            if let Some(d) = lookup(rest, driver_num) {
                let i = choose|i: int|
                    0 <= i < rest.len() && #[trigger] rest[i] == (driver_num, d);
                assert(table[i + 1] == rest[i]);
            }
        }
    }
}

/// Two numbers that both get a driver get it from two entries of the table: no entry
/// answers under two numbers.
pub proof fn law_no_driver_under_two_numbers<D>(table: Seq<(usize, D)>, n1: usize, n2: usize)
    requires
        n1 != n2,
        lookup(table, n1) is Some,
        lookup(table, n2) is Some,
    ensures
        exists|i: int, j: int|
            {
                &&& 0 <= i < table.len()
                &&& 0 <= j < table.len()
                &&& i != j
                &&& #[trigger] table[i] == (n1, lookup(table, n1).unwrap())
                &&& #[trigger] table[j] == (n2, lookup(table, n2).unwrap())
            },
        forall|i: int, j: int|
            0 <= i < table.len() && 0 <= j < table.len() && (#[trigger] table[i]).0 == n1 && (
            #[trigger] table[j]).0 == n2 ==> i != j,
{
    law_answer_is_listed(table, n1);
    law_answer_is_listed(table, n2);
    let i = choose|i: int|
        0 <= i < table.len() && #[trigger] table[i] == (n1, lookup(table, n1).unwrap());
    let j = choose|j: int|
        0 <= j < table.len() && #[trigger] table[j] == (n2, lookup(table, n2).unwrap());
    assert(table[i].0 != table[j].0);
}

} // verus!
