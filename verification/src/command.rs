//! The description of a process to create: what the launcher asks of the
//! operating system.

use vstd::prelude::*;
use crate::platform::Console;

verus! {

/// The program that a new process runs. `P` is the type of a filesystem path.
#[derive(Clone, Debug, PartialEq, Eq)]
pub enum Program<P> {
    /// The executable at this path.
    Executable(P),
    /// A utility that the system finds by its name.
    Utility(String),
}

/// A program, with text as a sequence of characters.
pub ghost enum ProgramView<P> {
    Executable(P),
    Utility(Seq<char>),
}

impl<P> View for Program<P> {
    type V = ProgramView<P>;

    open spec fn view(&self) -> ProgramView<P> {
        match *self {
            Program::Executable(path) => ProgramView::Executable(path),
            Program::Utility(name) => ProgramView::Utility(name@),
        }
    }
}

/// One argument on the command line of a new process.
#[derive(Clone, Debug, PartialEq, Eq)]
pub enum Argument<P> {
    /// Literal text, such as a flag.
    Text(String),
    /// A filesystem path.
    Path(P),
}

/// An argument, with text as a sequence of characters.
pub ghost enum ArgumentView<P> {
    Text(Seq<char>),
    Path(P),
}

impl<P> View for Argument<P> {
    type V = ArgumentView<P>;

    open spec fn view(&self) -> ArgumentView<P> {
        match *self {
            Argument::Text(text) => ArgumentView::Text(text@),
            Argument::Path(path) => ArgumentView::Path(path),
        }
    }
}

/// A request to create one process. The launcher decides it; whoever holds it
/// creates the process, once, and does not wait for it to exit.
#[derive(Clone, Debug, PartialEq, Eq)]
pub struct SpawnRequest<P> {
    /// The program to run.
    pub program: Program<P>,
    /// Its arguments, in order.
    pub arguments: Vec<Argument<P>>,
    /// The console that the process is given.
    pub console: Console,
}

/// A request, with text as sequences of characters.
pub ghost struct SpawnRequestView<P> {
    pub program: ProgramView<P>,
    pub arguments: Seq<ArgumentView<P>>,
    pub console: Console,
}

impl<P> View for SpawnRequest<P> {
    type V = SpawnRequestView<P>;

    open spec fn view(&self) -> SpawnRequestView<P> {
        SpawnRequestView {
            program: self.program@,
            arguments: self.arguments@.map_values(|argument: Argument<P>| argument@),
            console: self.console,
        }
    }
}

} // verus!
