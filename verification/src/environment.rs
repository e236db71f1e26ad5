//! Composition of the environment of one engine process.
//!
//! Variables whose names begin with `ARESTICRAT_R_` are the tool's own. One that begins with
//! `ARESTICRAT_R_<REPOSITORY>_` is meant for that repository and reaches its processes without
//! the prefix; the others reach no process.

use crate::name::Name;
use crate::restic_api::{Repository, RepositoryView};
use crate::text::{pairs, skip_chars, starts_with};
use vstd::prelude::*;
use vstd::string::*;

verus! {

/// A list of assignments, in order.
pub type Assignments = Seq<(Seq<char>, Seq<char>)>;

/// The upper-case form of an ASCII letter; any other character is left as it is.
pub open spec fn upper_char(c: char) -> char {
    if 'a' <= c && c <= 'z' {
        ((c as u32) - 32) as char
    } else {
        c
    }
}

/// `s` with its ASCII letters in upper case.
pub open spec fn upper(s: Seq<char>) -> Seq<char> {
    Seq::new(s.len(), |i: int| upper_char(s[i]))
}

/// Calls `str::to_ascii_uppercase`, which maps the letters `a` to `z` to `A` to `Z` and leaves
/// every other character unchanged.
#[verifier::external_body]
fn ascii_uppercase(s: &str) -> (r: String)
    ensures
        r@ == upper(s@),
{
    s.to_ascii_uppercase()
}

/// The prefix of the names that the tool keeps to itself.
pub open spec fn reserved_prefix() -> Seq<char> {
    "ARESTICRAT_R_"@
}

/// The prefix of the names that are meant for the repository `name`.
pub open spec fn repository_prefix(name: Seq<char>) -> Seq<char> {
    reserved_prefix() + upper(name) + seq!['_']
}

/// `key` without `prefix`, where it begins with it.
pub open spec fn without_prefix(key: Seq<char>, prefix: Seq<char>) -> Seq<char> {
    if prefix.is_prefix_of(key) {
        key.skip(prefix.len() as int)
    } else {
        key
    }
}

/// What a process of the repository `name` gets of the inherited variables: each name loses
/// the repository's prefix, and what then still bears the reserved prefix is left out.
pub open spec fn inherited_layer(inherited: Assignments, name: Seq<char>) -> Assignments
    decreases inherited.len(),
{
    if inherited.len() == 0 {
        Seq::empty()
    } else {
        let rest = inherited_layer(inherited.drop_last(), name);
        let key = without_prefix(inherited.last().0, repository_prefix(name));
        if reserved_prefix().is_prefix_of(key) {
            rest
        } else {
            rest.push((key, inherited.last().1))
        }
    }
}

/// One assignment, where `present` holds.
pub open spec fn assigned(present: bool, key: Seq<char>, value: Seq<char>) -> Assignments {
    if present {
        seq![(key, value)]
    } else {
        Seq::empty()
    }
}

/// The variables by which the engine finds and opens the repository.
pub open spec fn connection_layer(repo: RepositoryView) -> Assignments {
    assigned(repo.path.len() > 0, "RESTIC_REPOSITORY"@, repo.path) + assigned(
        repo.password.len() > 0,
        "RESTIC_PASSWORD"@,
        repo.password,
    ) + (match repo.password_file {
        Some(file) => seq![("RESTIC_PASSWORD_FILE"@, file)],
        None => Seq::empty(),
    }) + assigned(
        repo.password_command.len() > 0,
        "RESTIC_PASSWORD_COMMAND"@,
        repo.password_command,
    )
}

/// The setting that slows the engine's progress reports down to one a minute.
pub open spec fn tuning_layer() -> Assignments {
    seq![("RESTIC_PROGRESS_FPS"@, "0.016666"@)]
}

/// The whole environment of a process of `repo`, as assignments in the order of rising
/// precedence: what is inherited, the repository's own variables, the connection, the tuning.
pub open spec fn composed_environment(inherited: Assignments, repo: RepositoryView) -> Assignments {
    inherited_layer(inherited, repo.name) + repo.environment + connection_layer(repo)
        + tuning_layer()
}

/// The variables that a list of assignments leaves set: for each name the value assigned last.
pub open spec fn effective(assignments: Assignments) -> Map<Seq<char>, Seq<char>>
    decreases assignments.len(),
{
    if assignments.len() == 0 {
        Map::empty()
    } else {
        effective(assignments.drop_last()).insert(assignments.last().0, assignments.last().1)
    }
}

/// Assignments one after the other leave set what the later ones set, and of the earlier ones
/// what the later ones do not touch.
pub proof fn lemma_effective_append(earlier: Assignments, later: Assignments)
    ensures
        effective(earlier + later) == effective(earlier).union_prefer_right(effective(later)),
    decreases later.len(),
{
    if later.len() == 0 {
        assert(earlier + later =~= earlier);
        assert(effective(earlier).union_prefer_right(effective(later)) =~= effective(earlier));
    } else {
        lemma_effective_append(earlier, later.drop_last());
        assert((earlier + later).drop_last() =~= earlier + later.drop_last());
        assert((earlier + later).last() == later.last());
        assert(effective(earlier + later) =~= effective(earlier).union_prefer_right(
            effective(later),
        ));
    }
}

/// A name is set exactly when some assignment names it.
pub proof fn lemma_effective_domain(assignments: Assignments, name: Seq<char>)
    ensures
        effective(assignments).contains_key(name) <==> exists|i: int|
            0 <= i < assignments.len() && (#[trigger] assignments[i]).0 == name,
    decreases assignments.len(),
{
    if assignments.len() > 0 {
        lemma_effective_domain(assignments.drop_last(), name);
        if effective(assignments).contains_key(name) {
            if assignments.last().0 == name {
                assert(assignments[assignments.len() - 1].0 == name);
            } else {
                let i = choose|i: int|
                    0 <= i < assignments.drop_last().len() && (
                    #[trigger] assignments.drop_last()[i]).0 == name;
                assert(assignments[i].0 == name);
            }
        }
        if exists|i: int| 0 <= i < assignments.len() && (#[trigger] assignments[i]).0 == name {
            let i = choose|i: int| 0 <= i < assignments.len() && (#[trigger] assignments[i]).0 == name;
            if i < assignments.len() - 1 {
                assert(assignments.drop_last()[i].0 == name);
            }
        }
    }
}

/// Nothing that a process inherits bears the reserved prefix.
pub proof fn lemma_inherited_layer_is_clean(inherited: Assignments, name: Seq<char>, i: int)
    requires
        0 <= i < inherited_layer(inherited, name).len(),
    ensures
        !reserved_prefix().is_prefix_of(inherited_layer(inherited, name)[i].0),
    decreases inherited.len(),
{
    if inherited.len() > 0 {
        let rest = inherited_layer(inherited.drop_last(), name);
        if i < rest.len() {
            lemma_inherited_layer_is_clean(inherited.drop_last(), name, i);
        }
    }
}

/// What a process inherits comes from a variable of the tool's environment that is either
/// not reserved at all or meant for this very repository: a variable that is meant for
/// another repository reaches no process of this one.
pub proof fn law_only_own_variables_are_inherited(inherited: Assignments, name: Seq<char>, i: int)
    requires
        0 <= i < inherited_layer(inherited, name).len(),
    ensures
        exists|j: int|
            {
                &&& 0 <= j < inherited.len()
                &&& inherited_layer(inherited, name)[i].0 == without_prefix(
                    (#[trigger] inherited[j]).0,
                    repository_prefix(name),
                )
                &&& inherited_layer(inherited, name)[i].1 == inherited[j].1
                &&& (repository_prefix(name).is_prefix_of(inherited[j].0)
                    || !reserved_prefix().is_prefix_of(inherited[j].0))
            },
    decreases inherited.len(),
{
    if inherited.len() > 0 {
        let rest = inherited_layer(inherited.drop_last(), name);
        if i < rest.len() {
            law_only_own_variables_are_inherited(inherited.drop_last(), name, i);
            let j = choose|j: int|
                {
                    &&& 0 <= j < inherited.drop_last().len()
                    &&& rest[i].0 == without_prefix(
                        (#[trigger] inherited.drop_last()[j]).0,
                        repository_prefix(name),
                    )
                    &&& rest[i].1 == inherited.drop_last()[j].1
                    &&& (repository_prefix(name).is_prefix_of(inherited.drop_last()[j].0)
                        || !reserved_prefix().is_prefix_of(inherited.drop_last()[j].0))
                };
            assert(inherited[j] == inherited.drop_last()[j]);
        } else {
            let j = inherited.len() - 1;
            assert(inherited[j] == inherited.last());
        }
    }
}

/// The names by which the engine is configured do not bear the reserved prefix.
pub proof fn lemma_engine_names_are_free(repo: RepositoryView, i: int)
    requires
        0 <= i < (connection_layer(repo) + tuning_layer()).len(),
    ensures
        !reserved_prefix().is_prefix_of((connection_layer(repo) + tuning_layer())[i].0),
{
    reveal_strlit("ARESTICRAT_R_");
    reveal_strlit("RESTIC_REPOSITORY");
    reveal_strlit("RESTIC_PASSWORD");
    reveal_strlit("RESTIC_PASSWORD_FILE");
    reveal_strlit("RESTIC_PASSWORD_COMMAND");
    reveal_strlit("RESTIC_PROGRESS_FPS");
    let key = (connection_layer(repo) + tuning_layer())[i].0;
    assert(key == "RESTIC_REPOSITORY"@ || key == "RESTIC_PASSWORD"@ || key
        == "RESTIC_PASSWORD_FILE"@ || key == "RESTIC_PASSWORD_COMMAND"@ || key
        == "RESTIC_PROGRESS_FPS"@);
    assert(key[0] == 'R');
    assert(reserved_prefix()[0] == 'A');
    if reserved_prefix().is_prefix_of(key) {
        assert(key.subrange(0, reserved_prefix().len() as int)[0] == key[0]);
    }
}

/// The layers of an environment take precedence in their order: the repository's own
/// variables over what is inherited, the connection over both, the tuning over all.
pub proof fn law_layers_by_precedence(inherited: Assignments, repo: RepositoryView)
    ensures
        effective(composed_environment(inherited, repo)) == effective(
            inherited_layer(inherited, repo.name),
        ).union_prefer_right(effective(repo.environment)).union_prefer_right(
            effective(connection_layer(repo)),
        ).union_prefer_right(effective(tuning_layer())),
{
    let a = inherited_layer(inherited, repo.name);
    let b = repo.environment;
    let c = connection_layer(repo);
    let d = tuning_layer();
    lemma_effective_append(a, b);
    lemma_effective_append(a + b, c);
    lemma_effective_append(a + b + c, d);
}

/// A variable that the repository's own variables set, and that is none of the engine's,
/// has the value set there, whatever the tool itself inherited.
pub proof fn law_repository_overrides_inherited(
    inherited: Assignments,
    repo: RepositoryView,
    name: Seq<char>,
)
    requires
        effective(repo.environment).contains_key(name),
        !effective(connection_layer(repo)).contains_key(name),
        !effective(tuning_layer()).contains_key(name),
    ensures
        effective(composed_environment(inherited, repo)).contains_key(name),
        effective(composed_environment(inherited, repo))[name] == effective(
            repo.environment,
        )[name],
{
    law_layers_by_precedence(inherited, repo);
}

/// A variable with the reserved prefix reaches a process only where the repository's own
/// variables set it: none is inherited, under any name.
pub proof fn law_reserved_names_do_not_leak(
    inherited: Assignments,
    repo: RepositoryView,
    name: Seq<char>,
)
    requires
        reserved_prefix().is_prefix_of(name),
        !effective(repo.environment).contains_key(name),
    ensures
        !effective(composed_environment(inherited, repo)).contains_key(name),
{
    let a = inherited_layer(inherited, repo.name);
    let c = connection_layer(repo);
    let d = tuning_layer();
    law_layers_by_precedence(inherited, repo);
    lemma_effective_domain(a, name);
    lemma_effective_domain(c, name);
    lemma_effective_domain(d, name);
    if effective(a).contains_key(name) {
        let i = choose|i: int| 0 <= i < a.len() && (#[trigger] a[i]).0 == name;
        lemma_inherited_layer_is_clean(inherited, repo.name, i);
    }
    if effective(c).contains_key(name) {
        let i = choose|i: int| 0 <= i < c.len() && (#[trigger] c[i]).0 == name;
        assert((c + d)[i] == c[i]);
        lemma_engine_names_are_free(repo, i);
    }
    if effective(d).contains_key(name) {
        let i = choose|i: int| 0 <= i < d.len() && (#[trigger] d[i]).0 == name;
        assert((c + d)[c.len() + i] == d[i]);
        lemma_engine_names_are_free(repo, c.len() + i);
    }
}

/// The prefix of the names that are meant for the repository `name`.
pub fn repository_prefix_of(name: &Name) -> (r: String)
    ensures
        r@ == repository_prefix(name@),
{
    let mut r = "ARESTICRAT_R_".to_owned();
    let upper_name = ascii_uppercase(name.as_str());
    r.append(upper_name.as_str());
    r.append("_");
    proof {
        reveal_strlit("_");
        assert("_"@ =~= seq!['_']);
    }
    r
}

/// Takes `prefix` from the front of `s` and says whether it was there.
pub fn remove_prefix(s: &mut String, prefix: &str) -> (removed: bool)
    ensures
        removed == prefix@.is_prefix_of(old(s)@),
        final(s)@ == without_prefix(old(s)@, prefix@),
{
    if starts_with(s.as_str(), prefix) {
        let n = prefix.unicode_len();
        let rest = skip_chars(s.as_str(), n);
        *s = rest;
        true
    } else {
        false
    }
}

/// Appends one assignment.
pub fn push_pair(env: &mut Vec<(String, String)>, key: &str, value: &str)
    ensures
        pairs(final(env)@) == pairs(old(env)@).push((key@, value@)),
{
    env.push((key.to_owned(), value.to_owned()));
    assert(pairs(env@) =~= pairs(old(env)@).push((key@, value@)));
}

/// Appends one assignment where `value` is not empty.
fn push_unless_empty(env: &mut Vec<(String, String)>, key: &str, value: &str)
    ensures
        pairs(final(env)@) == pairs(old(env)@) + assigned(value@.len() > 0, key@, value@),
{
    if !value.is_empty() {
        push_pair(env, key, value);
    }
    assert(pairs(env@) =~= pairs(old(env)@) + assigned(value@.len() > 0, key@, value@));
}

/// Appends every assignment of `more`.
pub fn push_pairs(env: &mut Vec<(String, String)>, more: &Vec<(String, String)>)
    ensures
        pairs(final(env)@) == pairs(old(env)@) + pairs(more@),
{
    let mut i: usize = 0;
    assert(pairs(env@) =~= pairs(old(env)@) + pairs(more@).take(0));
    while i < more.len()
        invariant
            i <= more@.len(),
            pairs(env@) == pairs(old(env)@) + pairs(more@).take(i as int),
        decreases more@.len() - i,
    {
        push_pair(env, more[i].0.as_str(), more[i].1.as_str());
        assert(pairs(env@) =~= pairs(old(env)@) + pairs(more@).take(i + 1));
        i += 1;
    }
    assert(pairs(more@).take(more@.len() as int) =~= pairs(more@));
}

/// Selects and renames the inherited variables for a process of the repository `name`.
pub fn inherited_variables(inherited: &Vec<(String, String)>, name: &Name) -> (r: Vec<
    (String, String),
>)
    ensures
        pairs(r@) == inherited_layer(pairs(inherited@), name@),
{
    let prefix = repository_prefix_of(name);
    let mut r: Vec<(String, String)> = Vec::new();
    let mut i: usize = 0;
    assert(pairs(r@) =~= inherited_layer(pairs(inherited@).take(0), name@));
    while i < inherited.len()
        invariant
            i <= inherited@.len(),
            prefix@ == repository_prefix(name@),
            pairs(r@) == inherited_layer(pairs(inherited@).take(i as int), name@),
        decreases inherited@.len() - i,
    {
        let mut key = inherited[i].0.clone();
        remove_prefix(&mut key, prefix.as_str());
        proof {
            let next = pairs(inherited@).take(i + 1);
            assert(next.drop_last() =~= pairs(inherited@).take(i as int));
            assert(next.last() == (inherited@[i as int].0@, inherited@[i as int].1@));
        }
        if !starts_with(key.as_str(), "ARESTICRAT_R_") {
            push_pair(&mut r, key.as_str(), inherited[i].1.as_str());
        }
        i += 1;
    }
    assert(pairs(inherited@).take(inherited@.len() as int) =~= pairs(inherited@));
    r
}

/// Composes the environment of a process of `repo` from what the tool itself inherited.
pub fn compose_environment(inherited: &Vec<(String, String)>, repo: &Repository) -> (r: Vec<
    (String, String),
>)
    ensures
        pairs(r@) == composed_environment(pairs(inherited@), repo@),
{
    let mut env = inherited_variables(inherited, &repo.name);
    push_pairs(&mut env, &repo.environment);
    push_unless_empty(&mut env, "RESTIC_REPOSITORY", repo.path.as_str());
    push_unless_empty(&mut env, "RESTIC_PASSWORD", repo.password.as_str());
    let ghost before = pairs(env@);
    if let Some(file) = &repo.password_file {
        push_pair(&mut env, "RESTIC_PASSWORD_FILE", file.as_str());
        assert(pairs(env@) =~= before + seq![("RESTIC_PASSWORD_FILE"@, file@)]);
    } else {
        assert(pairs(env@) =~= before + Seq::<(Seq<char>, Seq<char>)>::empty());
    }
    push_unless_empty(&mut env, "RESTIC_PASSWORD_COMMAND", repo.password_command.as_str());
    let ghost before = pairs(env@);
    push_pair(&mut env, "RESTIC_PROGRESS_FPS", "0.016666");
    proof {
        let a = inherited_layer(pairs(inherited@), repo@.name);
        let b = repo@.environment;
        let c1 = assigned(repo@.path.len() > 0, "RESTIC_REPOSITORY"@, repo@.path);
        let c2 = assigned(repo@.password.len() > 0, "RESTIC_PASSWORD"@, repo@.password);
        let c3: Assignments = match repo@.password_file {
            Some(file) => seq![("RESTIC_PASSWORD_FILE"@, file)],
            None => Seq::empty(),
        };
        let c4 = assigned(
            repo@.password_command.len() > 0,
            "RESTIC_PASSWORD_COMMAND"@,
            repo@.password_command,
        );
        assert(before == a + b + c1 + c2 + c3 + c4);
        assert(a + b + c1 + c2 + c3 + c4 =~= a + b + (c1 + c2 + c3 + c4));
        assert(pairs(env@) =~= before + tuning_layer());
    }
    env
}

} // verus!
