//! The producer: which program a command names, and what follows from each
//! thing that happens while the program runs.
//!
//! The producer runs beside the viewer and hands it one line at a time. It
//! owns the running program; here stand its decisions and nothing else.

use crate::text::{chars_of, split_words, string_of, string_views, words};
use vstd::prelude::*;

verus! {

/// The program to run and what is handed to it.
#[derive(Debug)]
pub struct SpawnPlan {
    pub program: String,
    pub arguments: Vec<String>,
}

/// The program that a command names and its arguments: the first word and
/// the other words, parted at ASCII white space. Quotes and escapes mean
/// nothing. A command without a word names no program.
pub open spec fn planned(command: Seq<char>) -> Option<(Seq<char>, Seq<Seq<char>>)> {
    let parts = words(command);
    if parts.len() == 0 {
        None
    } else {
        Some((parts[0], parts.skip(1)))
    }
}

/// Takes a command apart into the program and its arguments.
pub fn plan_spawn(command: &str) -> (plan: Option<SpawnPlan>)
    ensures
        plan is Some <==> planned(command@) is Some,
        plan matches Some(p) ==> planned(command@) == Some(
            (p.program@, string_views(p.arguments@)),
        ),
{
    let parts = split_words(&chars_of(command));
    if parts.len() == 0 {
        return None;
    }
    let program = string_of(&parts[0]);
    let mut arguments: Vec<String> = Vec::new();
    let mut i: usize = 1;
    while i < parts.len()
        invariant
            1 <= i <= parts.len(),
            parts@.len() == words(command@).len(),
            forall|j: int| 0 <= j < parts@.len() ==> (#[trigger] parts@[j])@ == words(command@)[j],
            string_views(arguments@) == words(command@).subrange(1, i as int),
        decreases parts.len() - i,
    {
        let ghost before = string_views(arguments@);
        arguments.push(string_of(&parts[i]));
        assert(words(command@).subrange(1, i + 1) =~= before.push(parts@[i as int]@));
        i = i + 1;
    }
    Some(SpawnPlan { program, arguments })
}

/// What an attempt to read the next line of the program's output gave.
#[derive(Debug)]
pub enum Reading {
    /// A line, without its end.
    Line(String),
    /// Bytes that are no text.
    Unreadable,
    /// The output has ended.
    EndOfStream,
}

/// What the producer does next.
#[derive(Debug)]
pub enum WorkerAction {
    /// Read the next line.
    Read,
    /// Send the line to the viewer.
    Send(String),
    /// Wait for the program to end, ignore how it ended, and finish.
    Reap,
    /// Finish; there is no program to wait for.
    Finish,
}

/// After the attempt to start the program: a program that runs is read; one
/// that did not start ends the producer without a word.
pub fn after_spawn(running: bool) -> (action: WorkerAction)
    ensures
        action == if running {
            WorkerAction::Read
        } else {
            WorkerAction::Finish
        },
{
    if running {
        WorkerAction::Read
    } else {
        WorkerAction::Finish
    }
}

/// After an attempt to read: a line is sent on, what cannot be read is
/// dropped and reading goes on, and the end of the output ends the producer.
pub fn after_read(reading: Reading) -> (action: WorkerAction)
    ensures
        action == match reading {
            Reading::Line(line) => WorkerAction::Send(line),
            Reading::Unreadable => WorkerAction::Read,
            Reading::EndOfStream => WorkerAction::Reap,
        },
{
    match reading {
        Reading::Line(line) => WorkerAction::Send(line),
        Reading::Unreadable => WorkerAction::Read,
        Reading::EndOfStream => WorkerAction::Reap,
    }
}

/// After a line was sent: reading goes on while the viewer listens; a viewer
/// that has let go of the channel ends the producer.
pub fn after_send(delivered: bool) -> (action: WorkerAction)
    ensures
        action == if delivered {
            WorkerAction::Read
        } else {
            WorkerAction::Reap
        },
{
    if delivered {
        WorkerAction::Read
    } else {
        WorkerAction::Reap
    }
}

} // verus!
