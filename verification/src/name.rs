//! Identifiers of locations and repositories, and the selection tokens built from them.

use crate::text::{find_char, is_first_index_of, lemma_first_index_of, split_around};
use vstd::prelude::*;
use vstd::std_specs::iter::IteratorSpec;
use vstd::string::*;

verus! {

/// The characters an identifier may hold: ASCII letters and digits, `_` and `-`.
pub open spec fn is_name_char(c: char) -> bool {
    ('a' <= c && c <= 'z') || ('A' <= c && c <= 'Z') || ('0' <= c && c <= '9') || c == '_' || c
        == '-'
}

/// An identifier is a non-empty run of identifier characters.
pub open spec fn is_name(s: Seq<char>) -> bool {
    &&& s.len() > 0
    &&& forall|i: int| 0 <= i < s.len() ==> is_name_char(#[trigger] s[i])
}

/// The text of a selection token: a location, optionally followed by `@` and a repository.
pub open spec fn token_text(location: Seq<char>, repo: Option<Seq<char>>) -> Seq<char> {
    match repo {
        None => location,
        Some(r) => location + seq!['@'] + r,
    }
}

/// Whether `s` is the text of some selection token whose parts are identifiers.
pub open spec fn is_token(s: Seq<char>) -> bool {
    exists|location: Seq<char>, repo: Option<Seq<char>>|
        is_name(location) && (repo matches Some(r) ==> is_name(r)) && #[trigger] token_text(
            location,
            repo,
        ) == s
}

/// The name of a location or of a repository.
#[derive(Debug)]
pub struct Name(String);

impl View for Name {
    type V = Seq<char>;

    closed spec fn view(&self) -> Seq<char> {
        self.0@
    }
}

/// Why a text is not an identifier.
#[derive(Debug)]
pub struct NameParseError(String);

impl View for NameParseError {
    type V = Seq<char>;

    closed spec fn view(&self) -> Seq<char> {
        self.0@
    }
}

impl NameParseError {
    /// The explanation for the user.
    pub fn message(&self) -> (r: &str)
        ensures
            r@ == self@,
    {
        self.0.as_str()
    }
}

impl Name {
    #[verifier::type_invariant]
    spec fn well_formed(self) -> bool {
        is_name(self.0@)
    }

    /// Accepts `s` exactly when it is an identifier.
    pub fn parse(s: &str) -> (r: Result<Name, NameParseError>)
        ensures
            match r {
                Ok(name) => is_name(s@) && name@ == s@,
                Err(e) => !is_name(s@) && e@ == "Invalid name (only [A-Za-z0-9_-] are allowed)."@,
            },
    {
        let n = s.unicode_len();
        let mut idx: usize = 0;
        let mut it = s.chars();
        while idx < n
            invariant
                n == s@.len(),
                idx <= n,
                it.remaining() == s@.skip(idx as int),
                forall|j: int| 0 <= j < idx ==> is_name_char(#[trigger] s@[j]),
            decreases n - idx,
        {
            let valid = match it.next() {
                Some(c) => Self::is_valid_char(c),
                None => false,
            };
            if !valid {
                return Err(
                    NameParseError("Invalid name (only [A-Za-z0-9_-] are allowed).".to_owned()),
                );
            }
            idx = idx + 1;
        }
        if n > 0 {
            Ok(Name(s.to_owned()))
        } else {
            Err(NameParseError("Invalid name (only [A-Za-z0-9_-] are allowed).".to_owned()))
        }
    }

    /// Whether `c` may occur in an identifier.
    pub fn is_valid_char(c: char) -> (b: bool)
        ensures
            b == is_name_char(c),
    {
        ('a' <= c && c <= 'z') || ('A' <= c && c <= 'Z') || ('0' <= c && c <= '9') || c == '_' || c
            == '-'
    }

    /// The identifier as text.
    pub fn as_str(&self) -> (r: &str)
        ensures
            r@ == self@,
            is_name(r@),
    {
        proof {
            use_type_invariant(self);
        }
        self.0.as_str()
    }
}

impl Clone for Name {
    fn clone(&self) -> (r: Self)
        ensures
            r@ == self@,
    {
        proof {
            use_type_invariant(self);
        }
        Name(self.0.clone())
    }
}

impl PartialEq for Name {
    fn eq(&self, other: &Self) -> (r: bool) {
        self.0 == other.0
    }
}

impl vstd::std_specs::cmp::PartialEqSpecImpl for Name {
    open spec fn obeys_eq_spec() -> bool {
        true
    }

    open spec fn eq_spec(&self, other: &Self) -> bool {
        self@ == other@
    }
}

/// One selection token: a location, alone or together with one of its repositories.
#[derive(Debug)]
pub struct LocationRepo(Name, Option<Name>);

/// Why a text is not a selection token.
#[derive(Debug)]
pub struct LocationRepoParseError(String);

impl View for LocationRepoParseError {
    type V = Seq<char>;

    closed spec fn view(&self) -> Seq<char> {
        self.0@
    }
}

impl LocationRepoParseError {
    /// The explanation for the user.
    pub fn message(&self) -> (r: &str)
        ensures
            r@ == self@,
    {
        self.0.as_str()
    }
}

/// An identifier holds no `@`.
pub proof fn lemma_name_has_no_at(s: Seq<char>)
    requires
        is_name(s),
    ensures
        !s.contains('@'),
{
    if s.contains('@') {
        let i = choose|i: int| 0 <= i < s.len() && s[i] == '@';
        assert(is_name_char(s[i]));
    }
}

/// A token text splits in one way only: at its first `@`, or not at all.
pub proof fn lemma_token_parts(location: Seq<char>, repo: Option<Seq<char>>)
    requires
        is_name(location),
    ensures
        match repo {
            None => !token_text(location, repo).contains('@'),
            Some(r) => {
                let s = token_text(location, repo);
                &&& is_first_index_of(s, '@', location.len() as int)
                &&& s.take(location.len() as int) == location
                &&& s.skip(location.len() as int + 1) == r
            },
        },
{
    lemma_name_has_no_at(location);
    match repo {
        None => {},
        Some(r) => {
            let s = token_text(location, repo);
            assert(s.take(location.len() as int) =~= location);
            assert(s.skip(location.len() as int + 1) =~= r);
            assert forall|j: int| 0 <= j < location.len() implies s[j] != '@' by {
                assert(s[j] == location[j]);
                assert(is_name_char(location[j]));
            }
        },
    }
}

/// A token text is the text of one token only.
pub proof fn law_token_text_is_unambiguous(
    location: Seq<char>,
    repo: Option<Seq<char>>,
    other_location: Seq<char>,
    other_repo: Option<Seq<char>>,
)
    requires
        is_name(location),
        repo matches Some(r) ==> is_name(r),
        is_name(other_location),
        other_repo matches Some(r) ==> is_name(r),
        token_text(location, repo) == token_text(other_location, other_repo),
    ensures
        location == other_location,
        repo == other_repo,
{
    let s = token_text(location, repo);
    lemma_token_parts(location, repo);
    lemma_token_parts(other_location, other_repo);
    if repo is Some && other_repo is Some {
        lemma_first_index_of(s, '@', location.len() as int);
        lemma_first_index_of(s, '@', other_location.len() as int);
    } else if repo is Some {
        assert(s[location.len() as int] == '@');
    } else if other_repo is Some {
        assert(s[other_location.len() as int] == '@');
    }
}

impl LocationRepo {
    /// The location and the repository of the token, as texts.
    pub closed spec fn parts(&self) -> (Seq<char>, Option<Seq<char>>) {
        (
            self.0@,
            match self.1 {
                Some(r) => Some(r@),
                None => None,
            },
        )
    }

    /// Reads a token: `location` or `location@repository`, both identifiers.
    pub fn parse(s: &str) -> (r: Result<LocationRepo, LocationRepoParseError>)
        ensures
            match r {
                Ok(t) => {
                    &&& token_text(t.parts().0, t.parts().1) == s@
                    &&& is_name(t.parts().0)
                    &&& t.parts().1 matches Some(repo) ==> is_name(repo)
                },
                Err(e) => !is_token(s@) && e@
                    == "Invalid name (only [A-Za-z0-9_-] are allowed)."@,
            },
    {
        match find_char(s, '@') {
            Some(i) => {
                let (head, tail) = split_around(s, i);
                proof {
                    assert(s@ =~= head@ + seq!['@'] + tail@);
                    assert forall|location: Seq<char>, repo: Option<Seq<char>>|
                        is_name(location) && (repo matches Some(r) ==> is_name(r))
                            && #[trigger] token_text(location, repo) == s@ implies location
                        == head@ && repo == Some(tail@) by {
                        lemma_token_parts(location, repo);
                        assert(s@.contains('@'));
                    }
                }
                let loc = match Name::parse(head.as_str()) {
                    Ok(name) => name,
                    Err(e) => {
                        return Err(LocationRepoParseError(e.message().to_owned()));
                    },
                };
                let repo = match Name::parse(tail.as_str()) {
                    Ok(name) => name,
                    Err(e) => {
                        return Err(LocationRepoParseError(e.message().to_owned()));
                    },
                };
                Ok(LocationRepo(loc, Some(repo)))
            },
            None => {
                proof {
                    assert forall|location: Seq<char>, repo: Option<Seq<char>>|
                        is_name(location) && (repo matches Some(r) ==> is_name(r))
                            && #[trigger] token_text(location, repo) == s@ implies location == s@
                        && repo is None by {
                        lemma_token_parts(location, repo);
                        if repo is Some {
                            assert(s@[location.len() as int] == '@');
                        }
                    }
                }
                match Name::parse(s) {
                    Ok(name) => Ok(LocationRepo(name, None)),
                    Err(e) => Err(LocationRepoParseError(e.message().to_owned())),
                }
            },
        }
    }

    /// The location the token names.
    pub fn location(&self) -> (r: &Name)
        ensures
            r@ == self.parts().0,
    {
        &self.0
    }

    /// The repository the token names, if it names one.
    pub fn repo(&self) -> (r: Option<&Name>)
        ensures
            match r {
                Some(name) => self.parts().1 == Some(name@),
                None => self.parts().1 is None,
            },
    {
        self.1.as_ref()
    }
}

impl Clone for LocationRepo {
    fn clone(&self) -> (r: Self)
        ensures
            r.parts() == self.parts(),
    {
        let repo = match &self.1 {
            Some(name) => Some(name.clone()),
            None => None,
        };
        LocationRepo(self.0.clone(), repo)
    }
}

} // verus!
