//! Guard commands: a program followed by its arguments.

use crate::run::{ExecutionContext, ExecutionContextView};
use crate::text::{copy_pairs, pairs, texts};
use vstd::prelude::*;
use vstd::slice::slice_subrange;
use vstd::string::*;

verus! {

/// Declares `shell_words::ParseError`, the error of `shell_words::split`. Nothing is known of
/// a value of it but what `split_error_message` says.
#[verifier::external_type_specification]
#[verifier::external_body]
pub struct ExParseError(shell_words::ParseError);

/// What `shell_words::split` makes of a command line: its words, or nothing where a quote is
/// left open.
pub uninterp spec fn shell_split(line: Seq<char>) -> Option<Seq<Seq<char>>>;

/// Calls `shell_words::split`, which cuts a command line into words by the quoting rules of a
/// POSIX shell and fails on an unmatched quote. The result depends on the line alone and is
/// named `shell_split`.
#[verifier::external_body]
fn split_words(line: &str) -> (r: Result<Vec<String>, shell_words::ParseError>)
    ensures
        match r {
            Ok(words) => shell_split(line@) == Some(texts(words@)),
            Err(_) => shell_split(line@) is None,
        },
{
    shell_words::split(line)
}

/// Calls `to_string` on a `shell_words::ParseError`, whose `Display` writes one fixed sentence.
#[verifier::external_body]
fn split_error_message(e: &shell_words::ParseError) -> (r: String)
    ensures
        r@ == "missing closing quote"@,
{
    e.to_string()
}

/// A command to run: the program first, then its arguments. Never empty.
#[derive(Debug)]
pub struct CommandSeq(Vec<String>);

impl View for CommandSeq {
    type V = Seq<Seq<char>>;

    closed spec fn view(&self) -> Seq<Seq<char>> {
        texts(self.0@)
    }
}

/// Why a text or a list is not a command.
#[derive(Debug)]
pub struct CommandSeqParseError(String);

impl View for CommandSeqParseError {
    type V = Seq<char>;

    closed spec fn view(&self) -> Seq<char> {
        self.0@
    }
}

impl CommandSeqParseError {
    /// The explanation for the user.
    pub fn message(&self) -> (r: &str)
        ensures
            r@ == self@,
    {
        self.0.as_str()
    }
}

/// The process that runs the command `words` in the environment `env`.
pub open spec fn command_process(words: Seq<Seq<char>>, env: Seq<(Seq<char>, Seq<char>)>) -> ExecutionContextView {
    ExecutionContextView { program: words[0], args: words.skip(1), env }
}

/// The views of a list of commands, in order.
pub open spec fn commands(v: Seq<CommandSeq>) -> Seq<Seq<Seq<char>>> {
    Seq::new(v.len(), |i: int| v[i]@)
}

impl CommandSeq {
    #[verifier::type_invariant]
    spec fn well_formed(self) -> bool {
        self.0@.len() > 0
    }

    /// Accepts a list of words exactly when it is not empty.
    pub fn from_vec(v: Vec<String>) -> (r: Result<CommandSeq, CommandSeqParseError>)
        ensures
            match r {
                Ok(c) => v@.len() > 0 && c@ == texts(v@),
                Err(e) => v@.len() == 0 && e@ == "At least one element required."@,
            },
    {
        if v.len() == 0 {
            return Err(CommandSeqParseError("At least one element required.".to_owned()));
        }
        Ok(CommandSeq(v))
    }

    /// Turns the outcome of splitting a command line into a command: the words where there is
    /// at least one, else the reason why there is no command.
    pub fn from_split(words: Result<Vec<String>, shell_words::ParseError>) -> (r: Result<
        CommandSeq,
        CommandSeqParseError,
    >)
        ensures
            match r {
                Ok(c) => words matches Ok(v) && v@.len() > 0 && c@ == texts(v@),
                Err(e) => match words {
                    Ok(v) => v@.len() == 0 && e@ == "At least one element required."@,
                    Err(_) => e@ == "missing closing quote"@,
                },
            },
    {
        match words {
            Ok(v) => Self::from_vec(v),
            Err(e) => Err(CommandSeqParseError(split_error_message(&e))),
        }
    }

    /// Reads a command from one line, split into words as a shell would split it.
    pub fn parse_shell_words(line: &str) -> (r: Result<CommandSeq, CommandSeqParseError>)
        ensures
            match r {
                Ok(c) => shell_split(line@) == Some(c@) && c@.len() > 0,
                Err(e) => match shell_split(line@) {
                    Some(words) => words.len() == 0 && e@ == "At least one element required."@,
                    None => e@ == "missing closing quote"@,
                },
            },
    {
        Self::from_split(split_words(line))
    }

    /// The program to run.
    pub fn program(&self) -> (r: &String)
        ensures
            self@.len() > 0,
            r@ == self@[0],
    {
        proof {
            use_type_invariant(self);
        }
        &self.0[0]
    }

    /// The arguments handed to the program.
    pub fn args(&self) -> (r: &[String])
        ensures
            self@.len() > 0,
            texts(r@) == self@.skip(1),
    {
        proof {
            use_type_invariant(self);
        }
        let r = slice_subrange(self.0.as_slice(), 1, self.0.len());
        assert(texts(r@) =~= self@.skip(1));
        r
    }

    /// The process that runs the command in the environment `env`.
    pub fn to_command(&self, env: &Vec<(String, String)>) -> (r: ExecutionContext)
        ensures
            r@ == command_process(self@, pairs(env@)),
    {
        proof {
            use_type_invariant(self);
        }
        let program = self.0[0].clone();
        let mut args: Vec<String> = Vec::new();
        let mut i: usize = 1;
        assert(texts(args@) =~= self@.subrange(1, 1));
        while i < self.0.len()
            invariant
                1 <= i <= self.0@.len(),
                texts(args@) == self@.subrange(1, i as int),
            decreases self.0@.len() - i,
        {
            let word = self.0[i].clone();
            let ghost before = texts(args@);
            args.push(word);
            assert(texts(args@) =~= before.push(self.0@[i as int]@));
            assert(before.push(self.0@[i as int]@) =~= self@.subrange(1, i + 1));
            i += 1;
        }
        assert(self@.subrange(1, self@.len() as int) =~= self@.skip(1));
        ExecutionContext { program, args, env: copy_pairs(env) }
    }
}

impl Clone for CommandSeq {
    fn clone(&self) -> (r: Self)
        ensures
            r@ == self@,
    {
        proof {
            use_type_invariant(self);
        }
        let words = self.0.clone();
        assert(texts(words@) =~= texts(self.0@));
        CommandSeq(words)
    }
}

/// A copy of a list of commands.
pub fn copy_commands(v: &Vec<CommandSeq>) -> (r: Vec<CommandSeq>)
    ensures
        commands(r@) == commands(v@),
{
    let r = v.clone();
    assert(commands(r@) =~= commands(v@));
    r
}

} // verus!
