//! How the installer talks to the machine.
//!
//! Every procedure here is a function of the answers that the machine has given so far. Where the
//! answers run out, it stops and names the action that it needs next. Whoever drives it performs
//! that action, puts the answer behind the others, and calls again: the procedure reads the old
//! answers, arrives at the same place and goes on.

use vstd::prelude::*;

use crate::command_helpers::{CommandLine, ProcessOutput};
use crate::command_helpers::{attempt_view, CommandView, OutputView};
use crate::options::{UsageError, UsageErrorView};

verus! {

/// Something that only the machine can do.
#[derive(Debug, PartialEq, Eq)]
pub enum Action {
    /// Find out who runs the process. Answered by [`Answer::UserId`].
    ReadUserId,
    /// Read the command line of the process. Answered by [`Answer::Arguments`].
    ReadArguments,
    /// Read the environment variable `TMPDIR`. Answered by [`Answer::TempDirectory`].
    ReadTempDirectory,
    /// Read `/proc/mounts`. Answered by [`Answer::Mounts`].
    ReadMounts,
    /// List `/dev/disk/by-id`. Answered by [`Answer::DiskIds`].
    ListDiskIds,
    /// Find out what a path leads to. Answered by [`Answer::Drive`].
    InspectDrive(String),
    /// Find out whether a path exists. Answered by [`Answer::Exists`].
    CheckPath(String),
    /// Create a directory and the directories above it. Answered by [`Answer::Created`].
    CreateDirectory(String),
    /// Run a command and collect what it writes. Answered by [`Answer::Process`].
    Run(CommandLine),
    /// Run a command that writes to the terminal. Answered by [`Answer::Status`].
    RunAttached(CommandLine),
    /// Wait for a second. Answered by [`Answer::Paused`].
    Pause,
    /// Ask the user whether to go on, and read a line. Answered by [`Answer::Line`].
    Confirm,
}

/// The texts of an [`Action`].
pub enum ActionView {
    ReadUserId,
    ReadArguments,
    ReadTempDirectory,
    ReadMounts,
    ListDiskIds,
    InspectDrive(Seq<char>),
    CheckPath(Seq<char>),
    CreateDirectory(Seq<char>),
    Run(CommandView),
    RunAttached(CommandView),
    Pause,
    Confirm,
}

impl DeepView for Action {
    type V = ActionView;

    open spec fn deep_view(&self) -> ActionView {
        match self {
            Action::ReadUserId => ActionView::ReadUserId,
            Action::ReadArguments => ActionView::ReadArguments,
            Action::ReadTempDirectory => ActionView::ReadTempDirectory,
            Action::ReadMounts => ActionView::ReadMounts,
            Action::ListDiskIds => ActionView::ListDiskIds,
            Action::InspectDrive(path) => ActionView::InspectDrive(path@),
            Action::CheckPath(path) => ActionView::CheckPath(path@),
            Action::CreateDirectory(path) => ActionView::CreateDirectory(path@),
            Action::Run(command) => ActionView::Run(command.deep_view()),
            Action::RunAttached(command) => ActionView::RunAttached(command.deep_view()),
            Action::Pause => ActionView::Pause,
            Action::Confirm => ActionView::Confirm,
        }
    }
}

/// An entry of `/dev/disk/by-id`: its path and, where it can be found out and is valid Unicode,
/// the path of the device that it leads to.
#[derive(Debug, PartialEq, Eq)]
pub struct DiskId {
    pub path: String,
    pub device: Option<String>,
}

/// What a path leads to: the real path, as text where it is valid Unicode and in any case as it is
/// displayed; whether that path exists; and whether it is a block device.
#[derive(Debug, PartialEq, Eq)]
pub struct DriveReport {
    pub real_path: Option<String>,
    pub displayed_path: String,
    pub exists: bool,
    pub is_block_device: Result<bool, String>,
}

/// What the machine answers to an [`Action`]. Where something failed, the text says why.
#[derive(Debug, PartialEq, Eq)]
pub enum Answer {
    UserId(Result<u32, String>),
    Arguments(Vec<String>),
    TempDirectory(Option<String>),
    Mounts(Result<String, String>),
    DiskIds(Result<Vec<DiskId>, String>),
    Drive(Result<DriveReport, String>),
    Exists(bool),
    Created(Result<(), String>),
    Process(Result<ProcessOutput, String>),
    Status(Result<Option<i32>, String>),
    Paused,
    Line(Result<String, String>),
}

/// Why the installer gives up.
#[derive(Debug, PartialEq, Eq)]
pub enum Failure {
    /// For the reason that the text gives.
    Message(String),
    /// The machine could not do what was asked of it; the text is the machine's own.
    Io(String),
    /// The command line is malformed.
    Usage(UsageError),
    /// A JSON text lacks what is looked for in it; the text is the `Debug` form of the error.
    Json(String),
    /// The command line leaves something open or contradicts itself.
    BadArguments { problems: Vec<String>, message: String },
}

/// The texts of a [`Failure`].
pub enum FailureView {
    Message(Seq<char>),
    Io(Seq<char>),
    Usage(UsageErrorView),
    Json(Seq<char>),
    BadArguments { problems: Seq<Seq<char>>, message: Seq<char> },
}

impl DeepView for Failure {
    type V = FailureView;

    open spec fn deep_view(&self) -> FailureView {
        match self {
            Failure::Message(text) => FailureView::Message(text@),
            Failure::Io(text) => FailureView::Io(text@),
            Failure::Usage(error) => FailureView::Usage(error.deep_view()),
            Failure::Json(text) => FailureView::Json(text@),
            Failure::BadArguments { problems, message } => FailureView::BadArguments {
                problems: problems.deep_view(),
                message: message@,
            },
        }
    }
}

/// Why a procedure stopped before its end.
#[derive(Debug, PartialEq, Eq)]
pub enum Stop {
    /// It needs the answer to this action.
    Waiting(Action),
    /// It gives up.
    Failed(Failure),
    /// An answer in the journal is not of the kind that the action calls for.
    Misfit,
    /// It would have to format a ZFS root file system, for which there is no procedure.
    NoZfsFormat,
}

/// The texts of a [`Stop`].
pub enum StopView {
    Waiting(ActionView),
    Failed(FailureView),
    Misfit,
    NoZfsFormat,
}

impl DeepView for Stop {
    type V = StopView;

    open spec fn deep_view(&self) -> StopView {
        match self {
            Stop::Waiting(action) => StopView::Waiting(action.deep_view()),
            Stop::Failed(failure) => StopView::Failed(failure.deep_view()),
            Stop::Misfit => StopView::Misfit,
            Stop::NoZfsFormat => StopView::NoZfsFormat,
        }
    }
}

/// A stop that gives up for the reason that `text` gives.
pub open spec fn failed<T>(text: Seq<char>) -> Outcome<T> {
    Err(StopView::Failed(FailureView::Message(text)))
}

/// A stop that gives up because the machine could not do what was asked of it.
pub open spec fn failed_io<T>(text: Seq<char>) -> Outcome<T> {
    Err(StopView::Failed(FailureView::Io(text)))
}

/// A stop that gives up for the reason that `text` gives.
pub fn give_up(text: String) -> (r: Stop)
    ensures
        r.deep_view() == StopView::Failed(FailureView::Message(text@)),
{
    Stop::Failed(Failure::Message(text))
}

/// A stop that gives up because the machine could not do what was asked of it.
pub fn give_up_io(text: &str) -> (r: Stop)
    ensures
        r.deep_view() == StopView::Failed(FailureView::Io(text@)),
{
    Stop::Failed(Failure::Io(text.to_string()))
}

/// The answers of the machine, and how many of them have been read.
pub struct Journal<'a> {
    answers: &'a Vec<Answer>,
    read: usize,
}

/// The contents of a [`Journal`].
pub struct JournalView {
    pub answers: Seq<Answer>,
    pub read: int,
}

/// What a procedure comes to: a value and the journal that is left, or a stop.
pub type Outcome<T> = Result<(T, JournalView), StopView>;

impl<'a> View for Journal<'a> {
    type V = JournalView;

    closed spec fn view(&self) -> JournalView {
        JournalView { answers: self.answers@, read: self.read as int }
    }
}

/// The journal whose next answer has been read.
pub open spec fn advanced(journal: JournalView) -> JournalView {
    JournalView { answers: journal.answers, read: journal.read + 1 }
}

/// What comes of asking for an action: the next answer, or a stop where there is none yet.
pub open spec fn asked(action: ActionView, journal: JournalView) -> Outcome<Answer> {
    if journal.read < journal.answers.len() {
        Ok((journal.answers[journal.read], advanced(journal)))
    } else {
        Err(StopView::Waiting(action))
    }
}

/// Whether a procedure that was started with the journal `before` and left the journal `after`
/// with the result `r` came to `expected`.
pub open spec fn comes_to<T: DeepView>(
    r: Result<T, Stop>,
    before: JournalView,
    after: JournalView,
    expected: Outcome<T::V>,
) -> bool {
    &&& after.answers == before.answers
    &&& match r {
        Ok(value) => expected == Ok::<(T::V, JournalView), StopView>((value.deep_view(), after)),
        Err(stop) => expected == Err::<(T::V, JournalView), StopView>(stop.deep_view()),
    }
}

/// Whether a reader that was started with the journal `before` and left the journal `after` with
/// the result `r` came to `expected`.
pub open spec fn reads_as<T>(
    r: Result<&T, Stop>,
    before: JournalView,
    after: JournalView,
    expected: Outcome<T>,
) -> bool {
    &&& after.answers == before.answers
    &&& match r {
        Ok(value) => expected == Ok::<(T, JournalView), StopView>((*value, after)),
        Err(stop) => expected == Err::<(T, JournalView), StopView>(stop.deep_view()),
    }
}

/// Who runs the process.
pub open spec fn user_id_read(journal: JournalView) -> Outcome<Result<u32, String>> {
    match asked(ActionView::ReadUserId, journal) {
        Err(stop) => Err(stop),
        Ok((Answer::UserId(value), rest)) => Ok((value, rest)),
        Ok(_) => Err(StopView::Misfit),
    }
}

/// The command line of the process.
pub open spec fn arguments_read(journal: JournalView) -> Outcome<Vec<String>> {
    match asked(ActionView::ReadArguments, journal) {
        Err(stop) => Err(stop),
        Ok((Answer::Arguments(value), rest)) => Ok((value, rest)),
        Ok(_) => Err(StopView::Misfit),
    }
}

/// The environment variable `TMPDIR`, where it is set to valid Unicode.
pub open spec fn temp_directory_read(journal: JournalView) -> Outcome<Option<String>> {
    match asked(ActionView::ReadTempDirectory, journal) {
        Err(stop) => Err(stop),
        Ok((Answer::TempDirectory(value), rest)) => Ok((value, rest)),
        Ok(_) => Err(StopView::Misfit),
    }
}

/// The text of `/proc/mounts`.
pub open spec fn mounts_read(journal: JournalView) -> Outcome<Result<String, String>> {
    match asked(ActionView::ReadMounts, journal) {
        Err(stop) => Err(stop),
        Ok((Answer::Mounts(value), rest)) => Ok((value, rest)),
        Ok(_) => Err(StopView::Misfit),
    }
}

/// The entries of `/dev/disk/by-id`.
pub open spec fn disk_ids_read(journal: JournalView) -> Outcome<Result<Vec<DiskId>, String>> {
    match asked(ActionView::ListDiskIds, journal) {
        Err(stop) => Err(stop),
        Ok((Answer::DiskIds(value), rest)) => Ok((value, rest)),
        Ok(_) => Err(StopView::Misfit),
    }
}

/// The line that the user enters.
pub open spec fn line_read(journal: JournalView) -> Outcome<Result<String, String>> {
    match asked(ActionView::Confirm, journal) {
        Err(stop) => Err(stop),
        Ok((Answer::Line(value), rest)) => Ok((value, rest)),
        Ok(_) => Err(StopView::Misfit),
    }
}

/// What a path leads to.
pub open spec fn drive_read(path: Seq<char>, journal: JournalView) -> Outcome<Result<DriveReport, String>> {
    match asked(ActionView::InspectDrive(path), journal) {
        Err(stop) => Err(stop),
        Ok((Answer::Drive(value), rest)) => Ok((value, rest)),
        Ok(_) => Err(StopView::Misfit),
    }
}

/// Whether a path exists.
pub open spec fn existence_read(path: Seq<char>, journal: JournalView) -> Outcome<bool> {
    match asked(ActionView::CheckPath(path), journal) {
        Err(stop) => Err(stop),
        Ok((Answer::Exists(value), rest)) => Ok((value, rest)),
        Ok(_) => Err(StopView::Misfit),
    }
}

/// What comes of creating a directory and the directories above it.
pub open spec fn creation_read(path: Seq<char>, journal: JournalView) -> Outcome<Result<(), String>> {
    match asked(ActionView::CreateDirectory(path), journal) {
        Err(stop) => Err(stop),
        Ok((Answer::Created(value), rest)) => Ok((value, rest)),
        Ok(_) => Err(StopView::Misfit),
    }
}

/// The exit code of a command that writes to the terminal.
pub open spec fn status_read(command: CommandView, journal: JournalView) -> Outcome<
    Result<Option<i32>, String>,
> {
    match asked(ActionView::RunAttached(command), journal) {
        Err(stop) => Err(stop),
        Ok((Answer::Status(value), rest)) => Ok((value, rest)),
        Ok(_) => Err(StopView::Misfit),
    }
}

/// A second gone by.
pub open spec fn paused(journal: JournalView) -> Outcome<()> {
    match asked(ActionView::Pause, journal) {
        Err(stop) => Err(stop),
        Ok((Answer::Paused, rest)) => Ok(((), rest)),
        Ok(_) => Err(StopView::Misfit),
    }
}

/// What comes of running a command: what the process left behind, or why it could not be run.
pub open spec fn ran(command: CommandView, journal: JournalView) -> Outcome<
    Result<OutputView, Seq<char>>,
> {
    match asked(ActionView::Run(command), journal) {
        Err(stop) => Err(stop),
        Ok((Answer::Process(Ok(output)), rest)) => Ok((Ok(output.deep_view()), rest)),
        Ok((Answer::Process(Err(error)), rest)) => Ok((Err(error@), rest)),
        Ok(_) => Err(StopView::Misfit),
    }
}

/// Whether a procedure that runs a command came to `expected`, when it was started with the
/// journal `before` and left the journal `after` with the result `r`.
pub open spec fn attempts_as(
    r: Result<Result<&ProcessOutput, String>, Stop>,
    before: JournalView,
    after: JournalView,
    expected: Outcome<Result<OutputView, Seq<char>>>,
) -> bool {
    &&& after.answers == before.answers
    &&& match r {
        Ok(attempt) => expected == Ok::<(Result<OutputView, Seq<char>>, JournalView), StopView>(
            (attempt_view(attempt), after),
        ),
        Err(stop) => expected == Err::<(Result<OutputView, Seq<char>>, JournalView), StopView>(
            stop.deep_view(),
        ),
    }
}

impl<'a> Journal<'a> {
    /// Whether no more answers have been read than there are.
    pub closed spec fn wf(self) -> bool {
        self.read <= self.answers@.len()
    }

    /// No more answers have been read than there are.
    pub proof fn wf_means_in_range(self)
        requires
            self.wf(),
        ensures
            0 <= self@.read <= self@.answers.len(),
    {
    }

    /// A journal of which nothing has been read.
    pub fn new(answers: &'a Vec<Answer>) -> (r: Journal<'a>)
        ensures
            r@ == (JournalView { answers: answers@, read: 0 }),
            r.wf(),
    {
        Journal { answers, read: 0 }
    }

    /// The answer to an action.
    fn ask(&mut self, action: Action) -> (r: Result<&'a Answer, Stop>)
        requires
            old(self).wf(),
        ensures
            final(self).wf(),
            reads_as(r, old(self)@, final(self)@, asked(action.deep_view(), old(self)@)),
    {
        let answers: &'a Vec<Answer> = self.answers;
        if self.read < answers.len() {
            let i: usize = self.read;
            self.read = i + 1;
            Ok(&answers[i])
        } else {
            Err(Stop::Waiting(action))
        }
    }

    /// Finds out who runs the process.
    pub fn user_id(&mut self) -> (r: Result<&'a Result<u32, String>, Stop>)
        requires
            old(self).wf(),
        ensures
            final(self).wf(),
            reads_as(r, old(self)@, final(self)@, user_id_read(old(self)@)),
    {
        match self.ask(Action::ReadUserId)? {
            Answer::UserId(value) => Ok(value),
            _ => Err(Stop::Misfit),
        }
    }

    /// Reads the command line of the process.
    pub fn arguments(&mut self) -> (r: Result<&'a Vec<String>, Stop>)
        requires
            old(self).wf(),
        ensures
            final(self).wf(),
            reads_as(r, old(self)@, final(self)@, arguments_read(old(self)@)),
    {
        match self.ask(Action::ReadArguments)? {
            Answer::Arguments(value) => Ok(value),
            _ => Err(Stop::Misfit),
        }
    }

    /// Reads the environment variable `TMPDIR`.
    pub fn temp_directory(&mut self) -> (r: Result<&'a Option<String>, Stop>)
        requires
            old(self).wf(),
        ensures
            final(self).wf(),
            reads_as(r, old(self)@, final(self)@, temp_directory_read(old(self)@)),
    {
        match self.ask(Action::ReadTempDirectory)? {
            Answer::TempDirectory(value) => Ok(value),
            _ => Err(Stop::Misfit),
        }
    }

    /// Reads `/proc/mounts`.
    pub fn mounts(&mut self) -> (r: Result<&'a Result<String, String>, Stop>)
        requires
            old(self).wf(),
        ensures
            final(self).wf(),
            reads_as(r, old(self)@, final(self)@, mounts_read(old(self)@)),
    {
        match self.ask(Action::ReadMounts)? {
            Answer::Mounts(value) => Ok(value),
            _ => Err(Stop::Misfit),
        }
    }

    /// Lists `/dev/disk/by-id`.
    pub fn disk_ids(&mut self) -> (r: Result<&'a Result<Vec<DiskId>, String>, Stop>)
        requires
            old(self).wf(),
        ensures
            final(self).wf(),
            reads_as(r, old(self)@, final(self)@, disk_ids_read(old(self)@)),
    {
        match self.ask(Action::ListDiskIds)? {
            Answer::DiskIds(value) => Ok(value),
            _ => Err(Stop::Misfit),
        }
    }

    /// Asks the user whether to go on, and reads a line.
    pub fn line(&mut self) -> (r: Result<&'a Result<String, String>, Stop>)
        requires
            old(self).wf(),
        ensures
            final(self).wf(),
            reads_as(r, old(self)@, final(self)@, line_read(old(self)@)),
    {
        match self.ask(Action::Confirm)? {
            Answer::Line(value) => Ok(value),
            _ => Err(Stop::Misfit),
        }
    }

    /// Finds out what a path leads to.
    pub fn drive(&mut self, path: &str) -> (r: Result<&'a Result<DriveReport, String>, Stop>)
        requires
            old(self).wf(),
        ensures
            final(self).wf(),
            reads_as(r, old(self)@, final(self)@, drive_read(path@, old(self)@)),
    {
        match self.ask(Action::InspectDrive(path.to_string()))? {
            Answer::Drive(value) => Ok(value),
            _ => Err(Stop::Misfit),
        }
    }

    /// Finds out whether a path exists.
    pub fn existence(&mut self, path: &str) -> (r: Result<&'a bool, Stop>)
        requires
            old(self).wf(),
        ensures
            final(self).wf(),
            reads_as(r, old(self)@, final(self)@, existence_read(path@, old(self)@)),
    {
        match self.ask(Action::CheckPath(path.to_string()))? {
            Answer::Exists(value) => Ok(value),
            _ => Err(Stop::Misfit),
        }
    }

    /// Creates a directory and the directories above it.
    pub fn creation(&mut self, path: &str) -> (r: Result<&'a Result<(), String>, Stop>)
        requires
            old(self).wf(),
        ensures
            final(self).wf(),
            reads_as(r, old(self)@, final(self)@, creation_read(path@, old(self)@)),
    {
        match self.ask(Action::CreateDirectory(path.to_string()))? {
            Answer::Created(value) => Ok(value),
            _ => Err(Stop::Misfit),
        }
    }

    /// Runs a command that writes to the terminal.
    pub fn status(&mut self, command: &CommandLine) -> (r: Result<
        &'a Result<Option<i32>, String>,
        Stop,
    >)
        requires
            old(self).wf(),
        ensures
            final(self).wf(),
            reads_as(r, old(self)@, final(self)@, status_read(command.deep_view(), old(self)@)),
    {
        match self.ask(Action::RunAttached(command.copy()))? {
            Answer::Status(value) => Ok(value),
            _ => Err(Stop::Misfit),
        }
    }

    /// Waits for a second.
    pub fn pause(&mut self) -> (r: Result<(), Stop>)
        requires
            old(self).wf(),
        ensures
            final(self).wf(),
            comes_to(r, old(self)@, final(self)@, paused(old(self)@)),
    {
        match self.ask(Action::Pause)? {
            Answer::Paused => Ok(()),
            _ => Err(Stop::Misfit),
        }
    }

    /// Runs a command and collects what it writes.
    pub fn run(&mut self, command: &CommandLine) -> (r: Result<
        Result<&'a ProcessOutput, String>,
        Stop,
    >)
        requires
            old(self).wf(),
        ensures
            final(self).wf(),
            attempts_as(r, old(self)@, final(self)@, ran(command.deep_view(), old(self)@)),
    {
        match self.ask(Action::Run(command.copy()))? {
            Answer::Process(Ok(output)) => Ok(Ok(output)),
            Answer::Process(Err(error)) => Ok(Err(error.clone())),
            _ => Err(Stop::Misfit),
        }
    }
}

} // verus!
