//! Files of environment variables: one `NAME=value` to the line.

use crate::environment::{push_pair, Assignments};
use crate::text::{find_char, first_index_of, lemma_first_index_of, pairs, split_around, texts};
use vstd::prelude::*;

verus! {

/// The assignment that a line makes: the name before the first `=` and the value after it.
/// A line without `=` makes none.
pub open spec fn line_assignment(line: Seq<char>) -> Option<(Seq<char>, Seq<char>)> {
    if line.contains('=') {
        let i = first_index_of(line, '=');
        Some((line.take(i), line.skip(i + 1)))
    } else {
        None
    }
}

/// The assignments that the lines of a file make, in the order of the lines.
pub open spec fn file_assignments(lines: Seq<Seq<char>>) -> Assignments
    decreases lines.len(),
{
    if lines.len() == 0 {
        Seq::empty()
    } else {
        let rest = file_assignments(lines.drop_last());
        match line_assignment(lines.last()) {
            Some(kv) => rest.push(kv),
            None => rest,
        }
    }
}

/// One more line adds its assignment, where it makes one, behind those of the lines before.
pub proof fn lemma_file_assignments_push(lines: Seq<Seq<char>>, line: Seq<char>)
    ensures
        file_assignments(lines.push(line)) == match line_assignment(line) {
            Some(kv) => file_assignments(lines).push(kv),
            None => file_assignments(lines),
        },
{
    assert(lines.push(line).drop_last() =~= lines);
}

/// Reads one line of a file of environment variables.
pub fn parse_env_var(line: &str) -> (r: Option<(String, String)>)
    ensures
        match r {
            Some(kv) => line_assignment(line@) == Some((kv.0@, kv.1@)),
            None => line_assignment(line@) is None,
        },
{
    match find_char(line, '=') {
        Some(i) => {
            proof {
                lemma_first_index_of(line@, '=', i as int);
            }
            Some(split_around(line, i))
        },
        None => None,
    }
}

/// Appends to `vars` the assignments that `lines` make. Lines that make none are passed over.
pub fn read_env_file_to(lines: &Vec<String>, vars: &mut Vec<(String, String)>)
    ensures
        pairs(final(vars)@) == pairs(old(vars)@) + file_assignments(texts(lines@)),
{
    let mut i: usize = 0;
    assert(pairs(vars@) =~= pairs(old(vars)@) + file_assignments(texts(lines@).take(0)));
    while i < lines.len()
        invariant
            i <= lines@.len(),
            pairs(vars@) == pairs(old(vars)@) + file_assignments(texts(lines@).take(i as int)),
        decreases lines@.len() - i,
    {
        proof {
            lemma_file_assignments_push(texts(lines@).take(i as int), lines@[i as int]@);
            assert(texts(lines@).take(i as int).push(lines@[i as int]@) =~= texts(lines@).take(
                i + 1,
            ));
        }
        let ghost before = pairs(vars@);
        if let Some(kv) = parse_env_var(lines[i].as_str()) {
            push_pair(vars, kv.0.as_str(), kv.1.as_str());
            assert(before.push((kv.0@, kv.1@)) =~= pairs(old(vars)@) + file_assignments(
                texts(lines@).take(i as int),
            ).push((kv.0@, kv.1@)));
        }
        i += 1;
    }
    assert(texts(lines@).take(lines@.len() as int) =~= texts(lines@));
}

/// The numbers of the lines that make no assignment, counted from 0, in rising order.
pub fn invalid_env_lines(lines: &Vec<String>) -> (r: Vec<usize>)
    ensures
        forall|k: int| 0 <= k < r@.len() ==> #[trigger] r@[k] < lines@.len(),
        forall|k: int|
            0 <= k < r@.len() ==> line_assignment(#[trigger] lines@[r@[k] as int]@) is None,
        forall|k: int, l: int| 0 <= k < l < r@.len() ==> r@[k] < r@[l],
        forall|i: int|
            0 <= i < lines@.len() && line_assignment(#[trigger] lines@[i]@) is None ==> r@.contains(
                i as usize,
            ),
{
    let mut r: Vec<usize> = Vec::new();
    let mut i: usize = 0;
    while i < lines.len()
        invariant
            i <= lines@.len(),
            forall|k: int| 0 <= k < r@.len() ==> #[trigger] r@[k] < i,
            forall|k: int|
                0 <= k < r@.len() ==> line_assignment(#[trigger] lines@[r@[k] as int]@) is None,
            forall|k: int, l: int| 0 <= k < l < r@.len() ==> r@[k] < r@[l],
            forall|j: int|
                0 <= j < i && line_assignment(#[trigger] lines@[j]@) is None ==> r@.contains(
                    j as usize,
                ),
        decreases lines@.len() - i,
    {
        if parse_env_var(lines[i].as_str()).is_none() {
            let ghost before = r@;
            r.push(i);
            assert forall|j: int|
                0 <= j < i + 1 && line_assignment(#[trigger] lines@[j]@) is None implies r@.contains(
                j as usize,
            ) by {
                if j < i {
                    let k = choose|k: int| 0 <= k < before.len() && before[k] == j as usize;
                    assert(r@[k] == j as usize);
                } else {
                    assert(r@[r@.len() - 1] == j as usize);
                }
            }
        }
        i += 1;
    }
    r
}

} // verus!
