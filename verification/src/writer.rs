//! Replacing a configuration file without ever exposing a half-written one.
//!
//! A write is a fixed sequence of steps on the file system: create the
//! directory, find a staging path that is free, open it, write the text,
//! flush, and rename the staging file onto the target. The target is named
//! by the last step alone. Each step is a type of its own here: a value of
//! it says what to do next, and takes the outcome of doing it to give the
//! following step or the failure that ends the write. The value is encoded
//! after the directory exists and before any file is opened, so a value that
//! cannot be encoded leaves every file as it was.

use vstd::prelude::*;
use crate::codec::encode;
use crate::error::ConfyError;
use crate::location::{parent, parent_of, quote, quoted, replace_extension, with_extension};
use crate::stamp::{stamp, stamp_text, tick_of};

verus! {

/// What a placement knows: the file to replace and the directory to create.
pub ghost struct Plan {
    pub target: Seq<char>,
    pub directory: Seq<char>,
}

/// What a write carries once the value is encoded: the file to replace, the
/// text to put there, and the staging path that holds it meanwhile.
pub ghost struct Transfer {
    pub target: Seq<char>,
    pub text: Seq<char>,
    pub staging: Seq<char>,
}

/// A transfer whose staging path is still a candidate, with what the next
/// candidate is drawn from.
pub ghost struct Draw {
    pub transfer: Transfer,
    pub process: nat,
    pub thread: nat,
    pub attempt: nat,
}

/// First step: the directory of the target is to be created, with all its
/// ancestors.
pub struct Placement {
    target: String,
    directory: String,
}

/// Second step: the directory exists and the value is to be encoded.
pub struct Prepared {
    target: String,
}

/// Third step: the staging path is to be looked up on disk.
pub struct Candidate {
    target: String,
    text: String,
    staging: String,
    process: u32,
    thread: u64,
    attempt: u128,
}

/// Fourth step: the staging path is free and is to be opened for writing,
/// created, and emptied if it has come to exist meanwhile.
pub struct Opening {
    target: String,
    text: String,
    staging: String,
}

/// Fifth step: the whole text is to be written to the staging file.
pub struct Writing {
    target: String,
    text: String,
    staging: String,
}

/// Sixth step: the staging file is to be flushed, then closed.
pub struct Flushing {
    target: String,
    text: String,
    staging: String,
}

/// Last step: the staging file is to be renamed onto the target.
pub struct Renaming {
    target: String,
    text: String,
    staging: String,
}

impl View for Placement {
    type V = Plan;

    closed spec fn view(&self) -> Plan {
        Plan { target: self.target@, directory: self.directory@ }
    }
}

impl View for Candidate {
    type V = Draw;

    closed spec fn view(&self) -> Draw {
        Draw {
            transfer: Transfer { target: self.target@, text: self.text@, staging: self.staging@ },
            process: self.process as nat,
            thread: self.thread as nat,
            attempt: self.attempt as nat,
        }
    }
}

impl View for Opening {
    type V = Transfer;

    closed spec fn view(&self) -> Transfer {
        Transfer { target: self.target@, text: self.text@, staging: self.staging@ }
    }
}

impl View for Writing {
    type V = Transfer;

    closed spec fn view(&self) -> Transfer {
        Transfer { target: self.target@, text: self.text@, staging: self.staging@ }
    }
}

impl View for Flushing {
    type V = Transfer;

    closed spec fn view(&self) -> Transfer {
        Transfer { target: self.target@, text: self.text@, staging: self.staging@ }
    }
}

impl View for Renaming {
    type V = Transfer;

    closed spec fn view(&self) -> Transfer {
        Transfer { target: self.target@, text: self.text@, staging: self.staging@ }
    }
}

/// The staging path of an attempt: the target with the attempt's stamp as
/// its extension.
pub open spec fn staging_of(
    target: Seq<char>,
    process: nat,
    thread: nat,
    clock: Option<u128>,
    attempt: u128,
) -> Seq<char> {
    with_extension(target, stamp(process, thread, tick_of(clock, attempt)))
}

/// The number of the attempt after this one. It stays at the largest
/// number once that is reached.
pub open spec fn next_attempt(attempt: nat) -> nat {
    if attempt < u128::MAX {
        attempt + 1
    } else {
        attempt
    }
}

/// Starts a write to `path`. A path without a parent, a root or a prefix,
/// has no directory to hold the file: the write ends there with a
/// bad-directory failure that shows the path. The root `/` and the empty
/// path are such paths. Every other path gives the first step. The value
/// to be written plays no part in this.
pub fn place(path: &str) -> (step: Result<Placement, ConfyError>)
    ensures
        match parent_of(path@) {
            Some(directory) => step is Ok && step->Ok_0@ == (Plan {
                target: path@,
                directory: directory,
            }),
            None => step is Err && step->Err_0.is_bad_directory(
                quoted(path@) + " is a root or prefix"@,
            ),
        },
        path@ == seq!['/'] || path@.len() == 0 ==> step is Err && step->Err_0.is_bad_directory(
            quoted(path@) + " is a root or prefix"@,
        ),
{
    match parent(path) {
        Some(directory) => Ok(Placement { target: String::from_str(path), directory }),
        None => Err(ConfyError::BadConfigDirectory(quote(path).concat(" is a root or prefix"))),
    }
}

impl Placement {
    /// The directory to create.
    pub fn directory(&self) -> (directory: &str)
        ensures
            directory@ == self@.directory,
    {
        self.directory.as_str()
    }

    /// The file to replace.
    pub fn target(&self) -> (target: &str)
        ensures
            target@ == self@.target,
    {
        self.target.as_str()
    }

    /// Takes the outcome of creating the directory. A failure ends the
    /// write and keeps its cause.
    pub fn created(self, outcome: Result<(), std::io::Error>) -> (step: Result<
        Prepared,
        ConfyError,
    >)
        ensures
            match outcome {
                Ok(_) => step is Ok && step->Ok_0.target() == self@.target,
                Err(cause) => step is Err && step->Err_0
                    == ConfyError::DirectoryCreationFailed(cause),
            },
    {
        match outcome {
            Ok(_) => Ok(Prepared { target: self.target }),
            Err(cause) => Err(ConfyError::DirectoryCreationFailed(cause)),
        }
    }
}

impl Prepared {
    /// The file to replace.
    pub closed spec fn target(&self) -> Seq<char> {
        self.target@
    }

    /// Takes the encoded text and draws the first staging path.
    pub fn draft(self, text: String, process: u32, thread: u64, clock: Option<u128>) -> (step:
        Candidate)
        ensures
            step@ == (Draw {
                transfer: Transfer {
                    target: self.target(),
                    text: text@,
                    staging: staging_of(self.target(), process as nat, thread as nat, clock, 1),
                },
                process: process as nat,
                thread: thread as nat,
                attempt: 1,
            }),
    {
        let extension = stamp_text(process, thread, clock, 1);
        let staging = replace_extension(self.target.as_str(), extension.as_str());
        Candidate { target: self.target, text, staging, process, thread, attempt: 1 }
    }

    /// Encodes the value and draws the first staging path. A value that
    /// cannot be encoded ends the write here, before any file is opened.
    pub fn stage<T: serde::Serialize>(
        self,
        value: &T,
        process: u32,
        thread: u64,
        clock: Option<u128>,
    ) -> (step: Result<Candidate, ConfyError>)
        ensures
            step is Err ==> step->Err_0 is SerializeTomlError,
            step is Ok ==> step->Ok_0@.transfer.target == self.target()
                && step->Ok_0@.transfer.staging == staging_of(
                self.target(),
                process as nat,
                thread as nat,
                clock,
                1,
            ) && step->Ok_0@.process == process && step->Ok_0@.thread == thread
                && step->Ok_0@.attempt == 1,
    {
        match encode(value) {
            Ok(text) => Ok(self.draft(text, process, thread, clock)),
            Err(failure) => Err(failure),
        }
    }
}

impl Candidate {
    /// The path to look up: the write goes on to open it only if nothing is
    /// there.
    pub fn staging(&self) -> (staging: &str)
        ensures
            staging@ == self@.transfer.staging,
    {
        self.staging.as_str()
    }

    /// The staging path is taken: draws the next one, from the next
    /// attempt's number and a new reading of the clock.
    pub fn redraw(self, clock: Option<u128>) -> (step: Candidate)
        ensures
            step@ == (Draw {
                transfer: Transfer {
                    staging: with_extension(
                        self@.transfer.target,
                        stamp(
                            self@.process,
                            self@.thread,
                            match clock {
                                Some(reading) => reading as nat,
                                None => next_attempt(self@.attempt),
                            },
                        ),
                    ),
                    ..self@.transfer
                },
                attempt: next_attempt(self@.attempt),
                ..self@
            }),
    {
        let attempt: u128 = if self.attempt < u128::MAX {
            self.attempt + 1
        } else {
            self.attempt
        };
        let extension = stamp_text(self.process, self.thread, clock, attempt);
        let staging = replace_extension(self.target.as_str(), extension.as_str());
        Candidate {
            target: self.target,
            text: self.text,
            staging,
            process: self.process,
            thread: self.thread,
            attempt,
        }
    }

    /// Nothing is at the staging path: the write goes on with it.
    pub fn vacant(self) -> (step: Opening)
        ensures
            step@ == self@.transfer,
    {
        Opening { target: self.target, text: self.text, staging: self.staging }
    }
}

impl Opening {
    /// The path to open.
    pub fn staging(&self) -> (staging: &str)
        ensures
            staging@ == self@.staging,
    {
        self.staging.as_str()
    }

    /// Takes the outcome of opening the staging file. A failure ends the
    /// write and keeps its cause.
    pub fn opened(self, outcome: Result<(), std::io::Error>) -> (step: Result<Writing, ConfyError>)
        ensures
            match outcome {
                Ok(_) => step is Ok && step->Ok_0@ == self@,
                Err(cause) => step is Err && step->Err_0
                    == ConfyError::OpenConfigurationFileError(cause),
            },
    {
        match outcome {
            Ok(_) => Ok(Writing { target: self.target, text: self.text, staging: self.staging }),
            Err(cause) => Err(ConfyError::OpenConfigurationFileError(cause)),
        }
    }
}

impl Writing {
    /// The path of the open staging file.
    pub fn staging(&self) -> (staging: &str)
        ensures
            staging@ == self@.staging,
    {
        self.staging.as_str()
    }

    /// The text to write, all of it.
    pub fn text(&self) -> (text: &str)
        ensures
            text@ == self@.text,
    {
        self.text.as_str()
    }

    /// Takes the outcome of writing the text. A failure ends the write and
    /// keeps its cause.
    pub fn written(self, outcome: Result<(), std::io::Error>) -> (step: Result<
        Flushing,
        ConfyError,
    >)
        ensures
            match outcome {
                Ok(_) => step is Ok && step->Ok_0@ == self@,
                Err(cause) => step is Err && step->Err_0
                    == ConfyError::WriteConfigurationFileError(cause),
            },
    {
        match outcome {
            Ok(_) => Ok(Flushing { target: self.target, text: self.text, staging: self.staging }),
            Err(cause) => Err(ConfyError::WriteConfigurationFileError(cause)),
        }
    }
}

impl Flushing {
    /// Takes the outcome of flushing the staging file. A failure ends the
    /// write and keeps its cause.
    pub fn flushed(self, outcome: Result<(), std::io::Error>) -> (step: Result<
        Renaming,
        ConfyError,
    >)
        ensures
            match outcome {
                Ok(_) => step is Ok && step->Ok_0@ == self@,
                Err(cause) => step is Err && step->Err_0
                    == ConfyError::WriteConfigurationFileError(cause),
            },
    {
        match outcome {
            Ok(_) => Ok(Renaming { target: self.target, text: self.text, staging: self.staging }),
            Err(cause) => Err(ConfyError::WriteConfigurationFileError(cause)),
        }
    }
}

impl Renaming {
    /// The path to rename: the staging file, closed.
    pub fn source(&self) -> (source: &str)
        ensures
            source@ == self@.staging,
    {
        self.staging.as_str()
    }

    /// The path to rename it to: the target.
    pub fn destination(&self) -> (destination: &str)
        ensures
            destination@ == self@.target,
    {
        self.target.as_str()
    }

    /// Takes the outcome of the rename, which is the outcome of the write.
    /// A failure keeps its cause.
    pub fn renamed(self, outcome: Result<(), std::io::Error>) -> (done: Result<(), ConfyError>)
        ensures
            match outcome {
                Ok(_) => done is Ok,
                Err(cause) => done is Err && done->Err_0
                    == ConfyError::WriteConfigurationFileError(cause),
            },
    {
        match outcome {
            Ok(_) => Ok(()),
            Err(cause) => Err(ConfyError::WriteConfigurationFileError(cause)),
        }
    }
}

} // verus!
