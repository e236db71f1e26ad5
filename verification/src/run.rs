//! What is handed to the process launcher and what comes back from it.

use crate::text::{pairs, texts};
use vstd::prelude::*;

verus! {

/// How a process ended: with an exit code, or without one where a signal ended it.
#[derive(Clone, Copy, Debug, PartialEq, Eq, Structural)]
pub struct ExitStatus {
    /// The exit code, where the process returned one.
    pub code: Option<i32>,
}

impl ExitStatus {
    /// A process succeeded exactly when it returned the exit code 0.
    pub open spec fn spec_success(&self) -> bool {
        self.code == Some(0i32)
    }

    /// The status of a process that returned `code`, or of one that returned none.
    pub fn from_code(code: Option<i32>) -> (r: ExitStatus)
        ensures
            r.code == code,
    {
        ExitStatus { code }
    }

    /// Whether the process succeeded.
    #[verifier::when_used_as_spec(spec_success)]
    pub fn success(&self) -> (b: bool)
        ensures
            b == self.spec_success(),
    {
        match self.code {
            Some(c) => c == 0,
            None => false,
        }
    }

    /// The exit code, where the process returned one.
    pub fn code(&self) -> (r: Option<i32>)
        ensures
            r == self.code,
    {
        self.code
    }
}

impl Default for ExitStatus {
    /// The status of a process that succeeded.
    fn default() -> (r: Self)
        ensures
            r.code == Some(0i32),
    {
        ExitStatus { code: Some(0) }
    }
}

/// What a finished process leaves behind.
#[derive(Debug)]
pub struct ExecutionResult {
    /// How the process ended.
    pub status: ExitStatus,
    /// Every byte the process wrote to its standard output, in order.
    pub stdout: Vec<u8>,
    /// Every byte the process wrote to its standard error, in order.
    pub stderr: Vec<u8>,
}

/// What the launcher hands back for one process.
#[derive(Debug)]
pub enum Launch {
    /// The process ran and ended.
    Finished(ExecutionResult),
    /// The process could not be started or waited for; the text says why.
    Failed(String),
}

/// One process to launch. The environment is complete: the process inherits nothing else.
#[derive(Debug)]
pub struct ExecutionContext {
    /// The program to run.
    pub program: String,
    /// The arguments handed to the program, in order.
    pub args: Vec<String>,
    /// The variables of the environment, assigned in order: a later assignment to a name
    /// replaces an earlier one.
    pub env: Vec<(String, String)>,
}

/// What an `ExecutionContext` holds.
pub struct ExecutionContextView {
    pub program: Seq<char>,
    pub args: Seq<Seq<char>>,
    pub env: Seq<(Seq<char>, Seq<char>)>,
}

impl View for ExecutionContext {
    type V = ExecutionContextView;

    open spec fn view(&self) -> ExecutionContextView {
        ExecutionContextView {
            program: self.program@,
            args: texts(self.args@),
            env: pairs(self.env@),
        }
    }
}

/// The bytes of a list of chunks, one chunk after the other.
pub open spec fn joined(chunks: Seq<Vec<u8>>) -> Seq<u8>
    decreases chunks.len(),
{
    if chunks.len() == 0 {
        Seq::empty()
    } else {
        joined(chunks.drop_last()) + chunks.last()@
    }
}

/// What a read on the pipe of a process brought.
#[derive(Debug)]
pub enum ReadEvent {
    /// Some bytes.
    Data(Vec<u8>),
    /// The end of the stream.
    End,
    /// Nothing, the read was interrupted.
    Interrupted,
    /// Nothing, the read failed.
    Failed,
}

/// What to do after a read.
#[derive(Clone, Copy, Debug, PartialEq, Eq, Structural)]
pub enum TeeStep {
    /// Write the bytes just read to the console, then read on.
    Relay,
    /// Read on.
    Continue,
    /// The stream is at its end: stop.
    Finish,
    /// Give up with the failure of the read.
    Abort,
}

/// One output stream of a process: what was read of it so far, and whether it is shown on
/// the console while it is read.
#[derive(Debug)]
pub struct Tee {
    captured: Vec<u8>,
    echo: bool,
}

impl Tee {
    /// The bytes read so far, in the order in which they came.
    pub closed spec fn captured(&self) -> Seq<u8> {
        self.captured@
    }

    /// Whether the stream is shown on the console.
    pub closed spec fn echo(&self) -> bool {
        self.echo
    }

    /// A stream of which nothing is read yet.
    pub fn new(echo: bool) -> (r: Tee)
        ensures
            r.captured() == Seq::<u8>::empty(),
            r.echo() == echo,
    {
        Tee { captured: Vec::new(), echo }
    }

    /// Takes in what a read brought and says what to do next. Bytes are kept whether or not
    /// they are shown; an interrupted read changes nothing.
    pub fn on_read(&mut self, event: &ReadEvent) -> (step: TeeStep)
        ensures
            final(self).echo() == old(self).echo(),
            final(self).captured() == match event {
                ReadEvent::Data(chunk) => old(self).captured() + chunk@,
                _ => old(self).captured(),
            },
            step == match event {
                ReadEvent::Data(_) => if old(self).echo() {
                    TeeStep::Relay
                } else {
                    TeeStep::Continue
                },
                ReadEvent::End => TeeStep::Finish,
                ReadEvent::Interrupted => TeeStep::Continue,
                ReadEvent::Failed => TeeStep::Abort,
            },
    {
        match event {
            ReadEvent::Data(chunk) => {
                let mut copy = chunk.clone();
                self.captured.append(&mut copy);
                if self.echo {
                    TeeStep::Relay
                } else {
                    TeeStep::Continue
                }
            },
            ReadEvent::End => TeeStep::Finish,
            ReadEvent::Interrupted => TeeStep::Continue,
            ReadEvent::Failed => TeeStep::Abort,
        }
    }

    /// The bytes read of the stream.
    pub fn into_captured(self) -> (r: Vec<u8>)
        ensures
            r@ == self.captured(),
    {
        self.captured
    }
}

/// Reads a stream that comes in the chunks `chunks` to its end. Returns what was captured and
/// what was shown: the capture is every byte in order, whether `echo` is set or not.
pub fn tee_all(chunks: &Vec<Vec<u8>>, echo: bool) -> (r: (Vec<u8>, Vec<u8>))
    ensures
        r.0@ == joined(chunks@),
        r.1@ == if echo {
            joined(chunks@)
        } else {
            Seq::<u8>::empty()
        },
{
    let mut tee = Tee::new(echo);
    let mut shown: Vec<u8> = Vec::new();
    let mut i: usize = 0;
    assert(chunks@.take(0) =~= Seq::<Vec<u8>>::empty());
    while i < chunks.len()
        invariant
            i <= chunks@.len(),
            tee.echo() == echo,
            tee.captured() == joined(chunks@.take(i as int)),
            shown@ == if echo {
                joined(chunks@.take(i as int))
            } else {
                Seq::<u8>::empty()
            },
        decreases chunks@.len() - i,
    {
        assert(chunks@.take(i + 1).drop_last() =~= chunks@.take(i as int));
        let event = ReadEvent::Data(chunks[i].clone());
        let step = tee.on_read(&event);
        if step == TeeStep::Relay {
            let mut copy = chunks[i].clone();
            shown.append(&mut copy);
        }
        i += 1;
    }
    assert(chunks@.take(chunks@.len() as int) =~= chunks@);
    tee.on_read(&ReadEvent::End);
    (tee.into_captured(), shown)
}

} // verus!
