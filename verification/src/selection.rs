//! Resolution of a selection of `location[@repository]` tokens against the configuration.
//!
//! A repository is a target of a location when the location declares it and a token of the
//! selection picks it. The empty selection picks everything. A location without targets is
//! not part of the result.

use crate::collections::{names, position, NameMap, NameSet};
use crate::config::{Config, Location};
use crate::name::{is_name, is_token, token_text, LocationRepo, LocationRepoParseError, Name};
use crate::text::texts;
use vstd::prelude::*;

verus! {

/// A token as texts: the location, and the repository where the token names one.
pub type Token = (Seq<char>, Option<Seq<char>>);

/// The tokens of a selection, in order.
pub open spec fn tokens(selection: Seq<LocationRepo>) -> Seq<Token> {
    Seq::new(selection.len(), |i: int| selection[i].parts())
}

/// Whether `token` asks for `repo` of `location`: it names the location and either no
/// repository or this one.
pub open spec fn picks(token: Token, location: Seq<char>, repo: Seq<char>) -> bool {
    token.0 == location && (token.1 is None || token.1 == Some(repo))
}

/// Whether the selection asks for `repo` of `location`. The empty selection asks for all.
pub open spec fn picked(selection: Seq<Token>, location: Seq<char>, repo: Seq<char>) -> bool {
    selection.len() == 0 || exists|i: int|
        0 <= i < selection.len() && picks(#[trigger] selection[i], location, repo)
}

/// Whether `repo` is a target of `location`: the location exists and declares the repository,
/// and the selection asks for it.
pub open spec fn selected(
    locations: Map<Seq<char>, Location>,
    selection: Seq<Token>,
    location: Seq<char>,
    repo: Seq<char>,
) -> bool {
    &&& locations.contains_key(location)
    &&& locations[location].declared().contains(repo)
    &&& picked(selection, location, repo)
}

/// The targets of one location.
pub open spec fn targets_of(
    locations: Map<Seq<char>, Location>,
    selection: Seq<Token>,
    location: Seq<char>,
) -> Set<Seq<char>> {
    Set::new(|repo: Seq<char>| selected(locations, selection, location, repo))
}

/// The locations that have a target, each with its targets.
pub open spec fn resolution(locations: Map<Seq<char>, Location>, selection: Seq<Token>) -> Map<
    Seq<char>,
    Set<Seq<char>>,
> {
    Map::new(
        |location: Seq<char>|
            exists|repo: Seq<char>| selected(locations, selection, location, repo),
        |location: Seq<char>| targets_of(locations, selection, location),
    )
}

/// Whether `token` names a location that the configuration does not declare.
pub open spec fn is_unknown(locations: Map<Seq<char>, Location>, token: Token) -> bool {
    !locations.contains_key(token.0)
}

/// Whether `token` names a repository that its location does not declare.
pub open spec fn is_rejected(locations: Map<Seq<char>, Location>, token: Token) -> bool {
    &&& locations.contains_key(token.0)
    &&& token.1 matches Some(repo) && !locations[token.0].declared().contains(repo)
}

/// The tokens of the selection that are rejected, in order.
pub open spec fn rejected_tokens(locations: Map<Seq<char>, Location>, selection: Seq<Token>) -> Seq<
    Token,
>
    decreases selection.len(),
{
    if selection.len() == 0 {
        Seq::empty()
    } else {
        let rest = rejected_tokens(locations, selection.drop_last());
        if is_rejected(locations, selection.last()) {
            rest.push(selection.last())
        } else {
            rest
        }
    }
}

/// What a map from locations to sets of repositories holds.
pub open spec fn targets_view(targets: NameMap<NameSet>) -> Map<Seq<char>, Set<Seq<char>>> {
    Map::new(|l: Seq<char>| targets@.contains_key(l), |l: Seq<char>| targets@[l]@)
}

/// A selection resolved against the configuration.
#[derive(Debug)]
pub struct Resolution {
    /// The locations to work on, each with the repositories to work on. No set is empty.
    pub targets: NameMap<NameSet>,
    /// The tokens that were passed over because their location does not declare their
    /// repository. Each one calls for a warning.
    pub rejected: Vec<LocationRepo>,
}

/// Why a selection cannot be resolved.
#[derive(Debug)]
pub enum SelectionError {
    /// A token names this location, which the configuration does not declare.
    UnknownLocation(Name),
}

/// Whether `resolved` is what the selection resolves to: every token names a known location,
/// the targets are those of the resolution, none of them an empty set, and the rejected tokens
/// are listed in their order.
pub open spec fn resolves(
    locations: Map<Seq<char>, Location>,
    selection: Seq<Token>,
    resolved: Resolution,
) -> bool {
    &&& forall|j: int| 0 <= j < selection.len() ==> !is_unknown(locations, #[trigger] selection[j])
    &&& targets_view(resolved.targets) == resolution(locations, selection)
    &&& tokens(resolved.rejected@) == rejected_tokens(locations, selection)
    &&& forall|l: Seq<char>| #[trigger]
        targets_view(resolved.targets).contains_key(l) ==> targets_view(resolved.targets)[l]
            != Set::<Seq<char>>::empty()
}

/// Whether `name` is the location of the first token that names an unknown location.
pub open spec fn first_unknown_location(
    locations: Map<Seq<char>, Location>,
    selection: Seq<Token>,
    name: Seq<char>,
) -> bool {
    exists|i: int|
        {
            &&& 0 <= i < selection.len()
            &&& is_unknown(locations, #[trigger] selection[i])
            &&& name == selection[i].0
            &&& forall|j: int| 0 <= j < i ==> !is_unknown(locations, #[trigger] selection[j])
        }
}

/// No location of a resolution is without targets.
pub proof fn law_no_empty_targets(
    locations: Map<Seq<char>, Location>,
    selection: Seq<Token>,
    location: Seq<char>,
)
    requires
        resolution(locations, selection).contains_key(location),
    ensures
        resolution(locations, selection)[location] != Set::<Seq<char>>::empty(),
        exists|repo: Seq<char>| resolution(locations, selection)[location].contains(repo),
{
    let repo = choose|repo: Seq<char>| selected(locations, selection, location, repo);
    assert(resolution(locations, selection)[location].contains(repo));
}

/// A selection of one bare token resolves to its location with all the repositories that the
/// location declares, and to nothing where it declares none.
pub proof fn law_bare_token(locations: Map<Seq<char>, Location>, location: Seq<char>)
    requires
        locations.contains_key(location),
    ensures
        resolution(locations, seq![(location, None::<Seq<char>>)]) == if locations[location].declared()
            == Set::<Seq<char>>::empty() {
            Map::<Seq<char>, Set<Seq<char>>>::empty()
        } else {
            Map::<Seq<char>, Set<Seq<char>>>::empty().insert(
                location,
                locations[location].declared(),
            )
        },
{
    let selection = seq![(location, None::<Seq<char>>)];
    let declared = locations[location].declared();
    let result = resolution(locations, selection);
    assert forall|l: Seq<char>, r: Seq<char>|
        selected(locations, selection, l, r) <==> l == location && declared.contains(r) by {
        if l == location && declared.contains(r) {
            assert(picks(selection[0], l, r));
        }
    }
    assert(targets_of(locations, selection, location) =~= declared);
    if declared == Set::<Seq<char>>::empty() {
        assert(result =~= Map::<Seq<char>, Set<Seq<char>>>::empty());
    } else {
        assert(exists|r: Seq<char>| declared.contains(r)) by {
            if forall|r: Seq<char>| !declared.contains(r) {
                assert(declared =~= Set::<Seq<char>>::empty());
            }
        }
        assert(result =~= Map::<Seq<char>, Set<Seq<char>>>::empty().insert(location, declared));
    }
}

/// The repository of a rejected token is no target of the token's location, whatever else
/// the selection holds.
pub proof fn law_rejected_repository_is_no_target(
    locations: Map<Seq<char>, Location>,
    selection: Seq<Token>,
    token: Token,
)
    requires
        is_rejected(locations, token),
    ensures
        !targets_of(locations, selection, token.0).contains(token.1->0),
        resolution(locations, selection).contains_key(token.0) ==> !resolution(
            locations,
            selection,
        )[token.0].contains(token.1->0),
{
}

/// A rejected token adds nothing: beside other tokens, the result is what it is without that
/// token, wherever the token stands.
pub proof fn law_rejected_token_is_dropped(
    locations: Map<Seq<char>, Location>,
    selection: Seq<Token>,
    i: int,
    token: Token,
)
    requires
        selection.len() > 0,
        0 <= i <= selection.len(),
        is_rejected(locations, token),
    ensures
        resolution(locations, selection.insert(i, token)) == resolution(locations, selection),
{
    let with = selection.insert(i, token);
    assert forall|l: Seq<char>, r: Seq<char>|
        selected(locations, with, l, r) == selected(locations, selection, l, r) by {
        if selected(locations, with, l, r) {
            let j = choose|j: int| 0 <= j < with.len() && picks(#[trigger] with[j], l, r);
            if j < i {
                assert(selection[j] == with[j]);
            } else if j > i {
                assert(selection[j - 1] == with[j]);
            }
        }
        if selected(locations, selection, l, r) {
            let j = choose|j: int| 0 <= j < selection.len() && picks(#[trigger] selection[j], l, r);
            if j < i {
                assert(with[j] == selection[j]);
            } else {
                assert(with[j + 1] == selection[j]);
            }
        }
    }
    assert forall|l: Seq<char>|
        targets_of(locations, with, l) == targets_of(locations, selection, l) by {
        assert(targets_of(locations, with, l) =~= targets_of(locations, selection, l));
    }
    assert(resolution(locations, with) =~= resolution(locations, selection));
}

/// Whether `selection` is what the words say: one token for each word, made of identifiers,
/// whose text is the word.
pub open spec fn reads_as(words: Seq<Seq<char>>, selection: Seq<Token>) -> bool {
    &&& selection.len() == words.len()
    &&& forall|i: int|
        0 <= i < words.len() ==> {
            let token = #[trigger] selection[i];
            &&& token_text(token.0, token.1) == words[i]
            &&& is_name(token.0)
            &&& token.1 matches Some(repo) ==> is_name(repo)
        }
}

/// Reads a selection from the words of a command line: every word must be a token.
pub fn parse_selection(words: &Vec<String>) -> (r: Result<
    Vec<LocationRepo>,
    LocationRepoParseError,
>)
    ensures
        match r {
            Ok(selection) => reads_as(texts(words@), tokens(selection@)),
            Err(e) => e@ == "Invalid name (only [A-Za-z0-9_-] are allowed)."@ && exists|i: int|
                0 <= i < words@.len() && !is_token(#[trigger] texts(words@)[i]),
        },
{
    let mut selection: Vec<LocationRepo> = Vec::new();
    let mut i: usize = 0;
    while i < words.len()
        invariant
            i <= words@.len(),
            selection@.len() == i,
            forall|j: int|
                0 <= j < i ==> {
                    let token = #[trigger] tokens(selection@)[j];
                    &&& token_text(token.0, token.1) == texts(words@)[j]
                    &&& is_name(token.0)
                    &&& token.1 matches Some(repo) ==> is_name(repo)
                },
        decreases words@.len() - i,
    {
        match LocationRepo::parse(words[i].as_str()) {
            Ok(token) => {
                let ghost before = tokens(selection@);
                selection.push(token);
                assert(tokens(selection@) =~= before.push(token.parts()));
            },
            Err(e) => {
                assert(!is_token(texts(words@)[i as int]));
                return Err(e);
            },
        }
        i += 1;
    }
    Ok(selection)
}

/// Whether the selection asks for `repo` of `location`.
fn is_picked(selection: &Vec<LocationRepo>, location: &Name, repo: &Name) -> (b: bool)
    ensures
        b == picked(tokens(selection@), location@, repo@),
{
    if selection.len() == 0 {
        return true;
    }
    let mut i: usize = 0;
    while i < selection.len()
        invariant
            i <= selection@.len(),
            forall|j: int| 0 <= j < i ==> !picks(#[trigger] tokens(selection@)[j], location@, repo@),
        decreases selection@.len() - i,
    {
        let token = &selection[i];
        assert(tokens(selection@)[i as int] == token.parts());
        if *token.location() == *location {
            match token.repo() {
                None => {
                    return true;
                },
                Some(r) => {
                    if *r == *repo {
                        return true;
                    }
                },
            }
        }
        i += 1;
    }
    false
}

/// The targets of `location`, which the configuration declares under `name`.
fn chosen_repos(location: &Location, name: &Name, selection: &Vec<LocationRepo>) -> (r: NameSet)
    ensures
        forall|repo: Seq<char>|
            r@.contains(repo) <==> location.declared().contains(repo) && picked(
                tokens(selection@),
                name@,
                repo,
            ),
{
    let mut set = NameSet::new();
    let mut k: usize = 0;
    while k < location.repos.len()
        invariant
            k <= location.repos@.len(),
            forall|repo: Seq<char>|
                set@.contains(repo) <==> names(location.repos@).take(k as int).contains(repo)
                    && picked(tokens(selection@), name@, repo),
        decreases location.repos@.len() - k,
    {
        let repo = &location.repos[k];
        let ghost done = names(location.repos@).take(k as int);
        let ghost next = names(location.repos@).take(k + 1);
        assert(next =~= done.push(repo@));
        assert forall|x: Seq<char>| next.contains(x) <==> done.contains(x) || x == repo@ by {
            if done.contains(x) {
                let j = choose|j: int| 0 <= j < done.len() && done[j] == x;
                assert(next[j] == x);
            }
            if x == repo@ {
                assert(next[k as int] == x);
            }
            if next.contains(x) {
                let j = choose|j: int| 0 <= j < next.len() && next[j] == x;
                if j < k {
                    assert(done[j] == x);
                }
            }
        }
        if is_picked(selection, name, repo) {
            set.insert(repo.clone());
        }
        k += 1;
    }
    assert(names(location.repos@).take(location.repos@.len() as int) =~= names(location.repos@));
    set
}

/// Adds `name` with its targets to `targets`, where it has any.
fn add_targets(
    targets: &mut NameMap<NameSet>,
    name: &Name,
    location: &Location,
    config: &Config,
    selection: &Vec<LocationRepo>,
)
    requires
        config.locations@.contains_key(name@),
        config.locations@[name@] == *location,
    ensures
        targets_view(*final(targets)) == if resolution(
            config.locations@,
            tokens(selection@),
        ).contains_key(name@) {
            targets_view(*old(targets)).insert(
                name@,
                targets_of(config.locations@, tokens(selection@), name@),
            )
        } else {
            targets_view(*old(targets))
        },
{
    let set = chosen_repos(location, name, selection);
    let ghost wanted = targets_of(config.locations@, tokens(selection@), name@);
    assert(set@ =~= wanted);
    if !set.is_empty() {
        proof {
            assert(set@.contains(set.order()[0]));
            assert(selected(config.locations@, tokens(selection@), name@, set.order()[0]));
        }
        targets.insert(name.clone(), set);
        assert(targets_view(*targets) =~= targets_view(*old(targets)).insert(name@, wanted));
    } else {
        assert forall|repo: Seq<char>|
            !selected(config.locations@, tokens(selection@), name@, repo) by {
            assert(!wanted.contains(repo));
        }
    }
}

/// The first token whose location the configuration does not declare.
fn first_unknown(selection: &Vec<LocationRepo>, config: &Config) -> (r: Option<usize>)
    ensures
        match r {
            Some(i) => {
                &&& i < selection@.len()
                &&& is_unknown(config.locations@, tokens(selection@)[i as int])
                &&& forall|j: int|
                    0 <= j < i ==> !is_unknown(config.locations@, #[trigger] tokens(selection@)[j])
            },
            None => forall|j: int|
                0 <= j < selection@.len() ==> !is_unknown(
                    config.locations@,
                    #[trigger] tokens(selection@)[j],
                ),
        },
{
    let mut i: usize = 0;
    while i < selection.len()
        invariant
            i <= selection@.len(),
            forall|j: int|
                0 <= j < i ==> !is_unknown(config.locations@, #[trigger] tokens(selection@)[j]),
        decreases selection@.len() - i,
    {
        assert(tokens(selection@)[i as int] == selection@[i as int].parts());
        if !config.locations.contains_key(selection[i].location()) {
            return Some(i);
        }
        i += 1;
    }
    None
}

/// The tokens that name a repository which their location does not declare.
fn rejected_of(selection: &Vec<LocationRepo>, config: &Config) -> (r: Vec<LocationRepo>)
    ensures
        tokens(r@) == rejected_tokens(config.locations@, tokens(selection@)),
{
    let mut r: Vec<LocationRepo> = Vec::new();
    let mut i: usize = 0;
    assert(tokens(r@) =~= rejected_tokens(config.locations@, tokens(selection@).take(0)));
    while i < selection.len()
        invariant
            i <= selection@.len(),
            tokens(r@) == rejected_tokens(config.locations@, tokens(selection@).take(i as int)),
        decreases selection@.len() - i,
    {
        let token = &selection[i];
        let ghost next = tokens(selection@).take(i + 1);
        assert(next.drop_last() =~= tokens(selection@).take(i as int));
        assert(next.last() == token.parts());
        let mut reject = false;
        if let Some(location) = config.locations.get(token.location()) {
            if let Some(repo) = token.repo() {
                let found = position(&location.repos, repo);
                proof {
                    if let Some(k) = found {
                        assert(names(location.repos@)[k as int] == repo@);
                    }
                }
                reject = found.is_none();
            }
        }
        if reject {
            let ghost before = tokens(r@);
            r.push(token.clone());
            assert(tokens(r@) =~= before.push(token.parts()));
        }
        i += 1;
    }
    assert(tokens(selection@).take(selection@.len() as int) =~= tokens(selection@));
    r
}

/// Resolves `selection` against `config`.
///
/// Fails on the first token that names an unknown location. Otherwise the result holds every
/// location that has a target, with its targets, and the tokens that were passed over.
pub fn resolve_selection(selection: &Vec<LocationRepo>, config: &Config) -> (r: Result<
    Resolution,
    SelectionError,
>)
    ensures
        match r {
            Ok(resolved) => resolves(config.locations@, tokens(selection@), resolved),
            Err(SelectionError::UnknownLocation(name)) => first_unknown_location(
                config.locations@,
                tokens(selection@),
                name@,
            ),
        },
{
    if let Some(i) = first_unknown(selection, config) {
        assert(tokens(selection@)[i as int] == selection@[i as int].parts());
        return Err(SelectionError::UnknownLocation(selection[i].location().clone()));
    }
    let ghost locations = config.locations@;
    let ghost wanted = resolution(locations, tokens(selection@));
    let mut targets: NameMap<NameSet> = NameMap::new();
    assert(targets_view(targets) =~= wanted.restrict(Set::<Seq<char>>::empty()));
    if selection.len() == 0 {
        let n = config.locations.len();
        let mut j: usize = 0;
        assert(config.locations.keys().take(0).to_set() =~= Set::<Seq<char>>::empty());
        while j < n
            invariant
                n == config.locations.keys().len(),
                j <= n,
                locations == config.locations@,
                wanted == resolution(locations, tokens(selection@)),
                targets_view(targets) == wanted.restrict(
                    config.locations.keys().take(j as int).to_set(),
                ),
            decreases n - j,
        {
            let name = config.locations.key_at(j);
            let location = config.locations.value_at(j);
            let ghost done = config.locations.keys().take(j as int);
            let ghost next = config.locations.keys().take(j + 1);
            add_targets(&mut targets, name, location, config, selection);
            proof {
                assert(next =~= done.push(name@));
                lemma_to_set_push(done, name@);
                assert(targets_view(targets) =~= wanted.restrict(next.to_set()));
            }
            j += 1;
        }
        proof {
            assert(config.locations.keys().take(n as int) =~= config.locations.keys());
            assert(wanted.restrict(config.locations.keys().to_set()) =~= wanted);
        }
    } else {
        let mut i: usize = 0;
        assert(token_locations(tokens(selection@)).take(0).to_set() =~= Set::<Seq<char>>::empty());
        while i < selection.len()
            invariant
                i <= selection@.len(),
                locations == config.locations@,
                wanted == resolution(locations, tokens(selection@)),
                forall|j: int|
                    0 <= j < selection@.len() ==> !is_unknown(
                        config.locations@,
                        #[trigger] tokens(selection@)[j],
                    ),
                targets_view(targets) == wanted.restrict(
                    token_locations(tokens(selection@)).take(i as int).to_set(),
                ),
            decreases selection@.len() - i,
        {
            let name = selection[i].location();
            let ghost done = token_locations(tokens(selection@)).take(i as int);
            let ghost next = token_locations(tokens(selection@)).take(i + 1);
            assert(tokens(selection@)[i as int] == selection@[i as int].parts());
            proof {
                assert(next =~= done.push(name@));
                lemma_to_set_push(done, name@);
            }
            if !targets.contains_key(name) {
                match config.locations.get(name) {
                    Some(location) => {
                        add_targets(&mut targets, name, location, config, selection);
                    },
                    None => {},
                }
            }
            assert(targets_view(targets) =~= wanted.restrict(next.to_set()));
            i += 1;
        }
        proof {
            let all = token_locations(tokens(selection@));
            assert(all.take(selection@.len() as int) =~= all);
            assert forall|l: Seq<char>| wanted.contains_key(l) implies all.to_set().contains(l) by {
                let r = choose|r: Seq<char>| selected(locations, tokens(selection@), l, r);
                let k = choose|k: int|
                    0 <= k < tokens(selection@).len() && picks(
                        #[trigger] tokens(selection@)[k],
                        l,
                        r,
                    );
                assert(all[k] == l);
            }
            assert(wanted.restrict(all.to_set()) =~= wanted);
        }
    }
    proof {
        assert forall|l: Seq<char>| #[trigger] targets_view(targets).contains_key(l) implies targets_view(
            targets,
        )[l] != Set::<Seq<char>>::empty() by {
            law_no_empty_targets(locations, tokens(selection@), l);
        }
    }
    let rejected = rejected_of(selection, config);
    Ok(Resolution { targets, rejected })
}

/// The locations that the tokens name, in order.
pub open spec fn token_locations(selection: Seq<Token>) -> Seq<Seq<char>> {
    Seq::new(selection.len(), |i: int| selection[i].0)
}

/// The set of a sequence with one more element is the set of the sequence with that element.
pub proof fn lemma_to_set_push<A>(s: Seq<A>, a: A)
    ensures
        s.push(a).to_set() == s.to_set().insert(a),
{
    assert forall|x: A| s.push(a).to_set().contains(x) <==> s.to_set().insert(a).contains(x) by {
        if s.contains(x) {
            let j = choose|j: int| 0 <= j < s.len() && s[j] == x;
            assert(s.push(a)[j] == x);
        }
        if x == a {
            assert(s.push(a)[s.len() as int] == x);
        }
        if s.push(a).contains(x) {
            let j = choose|j: int| 0 <= j < s.push(a).len() && s.push(a)[j] == x;
            if j < s.len() {
                assert(s[j] == x);
            }
        }
    }
    assert(s.push(a).to_set() =~= s.to_set().insert(a));
}

} // verus!
