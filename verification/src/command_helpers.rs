//! Command lines, what a finished process leaves behind, and when a command is tried again.

use vstd::prelude::*;
use vstd::utf8::{decode_utf8, valid_utf8};

use crate::journal::{give_up, give_up_io, Journal, Stop};
use crate::journal::{
    attempts_as, comes_to, paused, ran, ActionView, FailureView, JournalView, Outcome, StopView,
};
use crate::text::{contains, decode_lossy, to_lowercase, trim};
use crate::text::{
    in_small_letters, is_ascii_text, lossy_text, lowercase, occurs_in, trimmed,
};

verus! {

/// A program and the arguments it is started with.
#[derive(Debug, PartialEq, Eq)]
pub struct CommandLine {
    pub program: String,
    pub args: Vec<String>,
}

/// The texts of a [`CommandLine`].
#[verifier::ext_equal]
pub struct CommandView {
    pub program: Seq<char>,
    pub args: Seq<Seq<char>>,
}

impl DeepView for CommandLine {
    type V = CommandView;

    open spec fn deep_view(&self) -> CommandView {
        CommandView { program: self.program@, args: self.args.deep_view() }
    }
}

/// The command line of `program` with `args`.
pub open spec fn command(program: Seq<char>, args: Seq<Seq<char>>) -> CommandView {
    CommandView { program, args }
}

impl CommandLine {
    /// The program without arguments.
    pub fn new(program: &str) -> (r: CommandLine)
        ensures
            r.deep_view() == command(program@, seq![]),
    {
        let r = CommandLine { program: program.to_string(), args: Vec::new() };
        assert(r.deep_view().args =~= seq![]);
        r
    }

    /// The command line with one more argument behind the others.
    pub fn arg(self, argument: &str) -> (r: CommandLine)
        ensures
            r.deep_view() == command(
                self.deep_view().program,
                self.deep_view().args.push(argument@),
            ),
    {
        let mut r = self;
        r.args.push(argument.to_string());
        assert(r.deep_view().args =~= self.deep_view().args.push(argument@));
        r
    }

    /// A second command line with the same texts.
    pub fn copy(&self) -> (r: CommandLine)
        ensures
            r.deep_view() == self.deep_view(),
    {
        let mut args: Vec<String> = Vec::new();
        let mut i: usize = 0;
        while i < self.args.len()
            invariant
                i <= self.args@.len(),
                args.deep_view() == self.args.deep_view().take(i as int),
            decreases self.args@.len() - i,
        {
            let ghost before = args.deep_view();
            args.push(self.args[i].clone());
            assert(args.deep_view() =~= before.push(self.args.deep_view()[i as int]));
            assert(args.deep_view() =~= self.args.deep_view().take(i + 1));
            i = i + 1;
        }
        assert(args.deep_view() =~= self.args.deep_view());
        CommandLine { program: self.program.clone(), args }
    }
}

/// What a finished process leaves behind: its exit code, which a process that a signal ended does
/// not have, and what it wrote.
#[derive(Debug, PartialEq, Eq)]
pub struct ProcessOutput {
    pub code: Option<i32>,
    pub stdout: Vec<u8>,
    pub stderr: Vec<u8>,
}

/// The contents of a [`ProcessOutput`].
pub struct OutputView {
    pub code: Option<i32>,
    pub stdout: Seq<u8>,
    pub stderr: Seq<u8>,
}

impl DeepView for ProcessOutput {
    type V = OutputView;

    open spec fn deep_view(&self) -> OutputView {
        OutputView { code: self.code, stdout: self.stdout@, stderr: self.stderr@ }
    }
}

/// The contents of an attempt to run a process: what it left behind, or why it could not be run.
pub open spec fn attempt_view(attempt: Result<&ProcessOutput, String>) -> Result<
    OutputView,
    Seq<char>,
> {
    match attempt {
        Ok(output) => Ok(output.deep_view()),
        Err(error) => Err(error@),
    }
}

/// Whether an attempt ran the process and the process exited with the code zero.
pub open spec fn succeeded(attempt: Result<OutputView, Seq<char>>) -> bool {
    attempt matches Ok(output) && output.code == Some(0i32)
}

/// Whether an attempt ran the process and the process exited with the code zero.
pub fn did_command_exit_successfully(process_result: &Result<&ProcessOutput, String>) -> (r: bool)
    ensures
        r == succeeded(attempt_view(*process_result)),
{
    match process_result {
        Err(_) => false,
        Ok(output) => match output.code {
            None => false,
            Some(code) => code == 0,
        },
    }
}

/// The arguments that let `nix` take its newer subcommands.
pub open spec fn nix3_args() -> Seq<Seq<char>> {
    seq![
        "--extra-experimental-features"@,
        "nix-command"@,
        "--extra-experimental-features"@,
        "flakes"@,
    ]
}

/// `nix`, ready for its newer subcommands.
pub fn create_nix3_command() -> (r: CommandLine)
    ensures
        r.deep_view() == command("nix"@, nix3_args()),
{
    CommandLine::new("nix").arg("--extra-experimental-features").arg("nix-command").arg(
        "--extra-experimental-features",
    ).arg("flakes")
}

/// The arguments that let `nix-instantiate` evaluate flakes.
pub open spec fn nix_instantiate_args() -> Seq<Seq<char>> {
    seq!["--option"@, "extra-experimental-features"@, "flakes"@]
}

/// `nix-instantiate`, ready to evaluate flakes.
pub fn create_nix_instantiate_command() -> (r: CommandLine)
    ensures
        r.deep_view() == command("nix-instantiate"@, nix_instantiate_args()),
{
    CommandLine::new("nix-instantiate").arg("--option").arg("extra-experimental-features").arg(
        "flakes",
    )
}

/// The program and its arguments as one list.
pub fn get_command_argv(command: &CommandLine) -> (r: Vec<String>)
    ensures
        r.deep_view() == seq![command.deep_view().program] + command.deep_view().args,
{
    let mut argv: Vec<String> = Vec::new();
    argv.push(command.program.clone());
    let mut i: usize = 0;
    assert(argv.deep_view() =~= seq![command.deep_view().program]
        + command.deep_view().args.take(0));
    while i < command.args.len()
        invariant
            i <= command.args@.len(),
            argv.deep_view() == seq![command.deep_view().program]
                + command.deep_view().args.take(i as int),
        decreases command.args@.len() - i,
    {
        let ghost before = argv.deep_view();
        argv.push(command.args[i].clone());
        assert(argv.deep_view() =~= before.push(command.deep_view().args[i as int]));
        assert(argv.deep_view() =~= seq![command.deep_view().program]
            + command.deep_view().args.take(i + 1));
        i = i + 1;
    }
    assert(command.deep_view().args.take(i as int) =~= command.deep_view().args);
    argv
}

/// What a process wrote to its standard output, as text without the white space around it.
pub open spec fn stdout_text(output: OutputView) -> Seq<char> {
    trimmed(lossy_text(output.stdout))
}

/// What a process wrote to its standard output, as text without the white space around it.
pub fn process_stdout(output: &ProcessOutput) -> (r: String)
    ensures
        r@ == stdout_text(output.deep_view()),
        valid_utf8(output.stdout@) ==> lossy_text(output.stdout@) == decode_utf8(output.stdout@),
{
    trim(decode_lossy(output.stdout.as_slice()).as_str())
}

/// An error set off from the text before it.
pub open spec fn fenced(error: Seq<char>) -> Seq<char> {
    "\n```\n"@ + error + "\n```"@
}

/// An error set off from the text before it.
pub fn formatted_error(error: &str) -> (r: String)
    ensures
        r@ == fenced(error@),
{
    let mut r = "\n```\n".to_string();
    r.append(error);
    r.append("\n```");
    r
}

/// What a process wrote to its standard error, set off from the text before it.
pub open spec fn fenced_stderr(output: OutputView) -> Seq<char> {
    fenced(trimmed(lossy_text(output.stderr)))
}

/// What a process wrote to its standard error, set off from the text before it.
pub fn formatted_process_stderr(output: &ProcessOutput) -> (r: String)
    ensures
        r@ == fenced_stderr(output.deep_view()),
        valid_utf8(output.stderr@) ==> lossy_text(output.stderr@) == decode_utf8(output.stderr@),
{
    formatted_error(trim(decode_lossy(output.stderr.as_slice()).as_str()).as_str())
}

/// Whether an error text in lower case says that a device or a mount point is in use.
pub open spec fn says_busy(text: Seq<char>) -> bool {
    ||| occurs_in("ebusy"@, text)
    ||| occurs_in("device or resource busy"@, text)
    ||| occurs_in("mount point is busy"@, text)
    ||| occurs_in("resource temporarily unavailable"@, text)
    ||| occurs_in("target is busy"@, text)
}

/// Whether an error text in lower case says that a device or a mount point is in use.
pub fn text_says_busy(text: &str) -> (r: bool)
    ensures
        r == says_busy(text@),
{
    contains(text, "ebusy") || contains(text, "device or resource busy") || contains(
        text,
        "mount point is busy",
    ) || contains(text, "resource temporarily unavailable") || contains(text, "target is busy")
}

/// Whether what a process wrote to its standard error says, in whatever case, that a device or a
/// mount point is in use.
pub open spec fn indicates_ebusy(stderr: Seq<u8>) -> bool {
    says_busy(lowercase(lossy_text(stderr)))
}

/// Whether what a process wrote to its standard error says that a device or a mount point is in
/// use. In a text of ASCII characters it makes no difference which letters are capital ones.
pub fn stderr_indicates_ebusy(stderr: &[u8]) -> (r: bool)
    ensures
        r == indicates_ebusy(stderr@),
        valid_utf8(stderr@) ==> lossy_text(stderr@) == decode_utf8(stderr@),
        valid_utf8(stderr@) && is_ascii_text(decode_utf8(stderr@)) ==> r == says_busy(
            in_small_letters(decode_utf8(stderr@)),
        ),
{
    text_says_busy(to_lowercase(decode_lossy(stderr).as_str()).as_str())
}

/// Whether an attempt ran the process and the process said that something is in use.
pub open spec fn is_busy(attempt: Result<OutputView, Seq<char>>) -> bool {
    attempt matches Ok(output) && indicates_ebusy(output.stderr)
}

/// What comes of running a command, and of running it again after a second for as long as it says
/// that something is in use, when `tried` of `max_attempts` attempts have been made.
pub open spec fn retried(
    max_attempts: nat,
    tried: nat,
    command: CommandView,
    journal: JournalView,
) -> Outcome<Result<OutputView, Seq<char>>>
    decreases max_attempts - tried,
{
    if tried >= max_attempts {
        Ok((Err("No attempts were made"@), journal))
    } else {
        match ran(command, journal) {
            Err(stop) => Err(stop),
            Ok((attempt, rest)) => if is_busy(attempt) && tried + 1 < max_attempts {
                match paused(rest) {
                    Err(stop) => Err(stop),
                    Ok((_, later)) => retried(max_attempts, tried + 1, command, later),
                }
            } else {
                Ok((attempt, rest))
            },
        }
    }
}

/// Runs a command, and runs it again after a second for as long as it says that something is in
/// use, up to `max_attempts` times. The result is that of the last attempt.
pub fn retry_command_on_ebusy<'a>(
    max_attempts: u8,
    command: &CommandLine,
    journal: &mut Journal<'a>,
) -> (r: Result<Result<&'a ProcessOutput, String>, Stop>)
    requires
        old(journal).wf(),
    ensures
        final(journal).wf(),
        attempts_as(
            r,
            old(journal)@,
            final(journal)@,
            retried(max_attempts as nat, 0, command.deep_view(), old(journal)@),
        ),
{
    let mut tried: u8 = 0;
    while tried < max_attempts
        invariant
            tried <= max_attempts,
            journal.wf(),
            journal@.answers == old(journal)@.answers,
            retried(max_attempts as nat, 0, command.deep_view(), old(journal)@) == retried(
                max_attempts as nat,
                tried as nat,
                command.deep_view(),
                journal@,
            ),
        decreases max_attempts - tried,
    {
        let attempt = journal.run(command)?;
        let busy: bool = match attempt {
            Ok(output) => stderr_indicates_ebusy(output.stderr.as_slice()),
            Err(_) => false,
        };
        if busy && tried + 1 < max_attempts {
            journal.pause()?;
        } else {
            return Ok(attempt);
        }
        tried = tried + 1;
    }
    Ok(Err("No attempts were made".to_string()))
}

/// A command is run at most `max_attempts` times, with a second between two attempts, and nothing
/// but that is asked for. The last attempt says that something is in use only where all attempts
/// have been made.
pub proof fn retrying_is_bounded(
    max_attempts: nat,
    tried: nat,
    command: CommandView,
    journal: JournalView,
)
    requires
        tried < max_attempts,
    ensures
        match retried(max_attempts, tried, command, journal) {
            Err(StopView::Waiting(action)) => action == ActionView::Run(command) || action
                == ActionView::Pause,
            Err(stop) => stop == StopView::Misfit,
            Ok((attempt, rest)) => {
                &&& rest.answers == journal.answers
                &&& journal.read < rest.read < journal.read + 2 * (max_attempts - tried)
                &&& is_busy(attempt) ==> rest.read == journal.read + 2 * (max_attempts - tried) - 1
            },
        },
    decreases max_attempts - tried,
{
    if let Ok((attempt, rest)) = ran(command, journal) {
        if is_busy(attempt) && tried + 1 < max_attempts {
            if let Ok((_, later)) = paused(rest) {
                retrying_is_bounded(max_attempts, tried + 1, command, later);
            }
        }
    }
}

/// What a process left behind, where it exited with the code zero; otherwise a stop, for which
/// `complaint` and the process's standard error give the reason.
pub open spec fn accepted(
    attempt: Result<OutputView, Seq<char>>,
    complaint: Seq<char>,
) -> Result<OutputView, StopView> {
    match attempt {
        Err(error) => Err(StopView::Failed(FailureView::Io(error))),
        Ok(output) => if succeeded(attempt) {
            Ok(output)
        } else {
            Err(StopView::Failed(FailureView::Message(complaint + fenced_stderr(output))))
        },
    }
}

/// What a process left behind, where it exited with the code zero.
pub fn accept<'a>(attempt: Result<&'a ProcessOutput, String>, complaint: &str) -> (r: Result<
    &'a ProcessOutput,
    Stop,
>)
    ensures
        match r {
            Ok(output) => accepted(attempt_view(attempt), complaint@) == Ok::<OutputView, StopView>(
                output.deep_view(),
            ),
            Err(stop) => accepted(attempt_view(attempt), complaint@) == Err::<OutputView, StopView>(
                stop.deep_view(),
            ),
        },
{
    let success: bool = did_command_exit_successfully(&attempt);
    match attempt {
        Err(error) => Err(give_up_io(error.as_str())),
        Ok(output) => if success {
            Ok(output)
        } else {
            let mut text = complaint.to_string();
            text.append(formatted_process_stderr(output).as_str());
            Err(give_up(text))
        },
    }
}

/// What comes of running a command that has to succeed.
pub open spec fn demanded(
    command: CommandView,
    complaint: Seq<char>,
    journal: JournalView,
) -> Outcome<OutputView> {
    match ran(command, journal) {
        Err(stop) => Err(stop),
        Ok((attempt, rest)) => match accepted(attempt, complaint) {
            Err(stop) => Err(stop),
            Ok(output) => Ok((output, rest)),
        },
    }
}

/// Runs a command that has to succeed.
pub fn demand<'a>(command: &CommandLine, complaint: &str, journal: &mut Journal<'a>) -> (r: Result<
    &'a ProcessOutput,
    Stop,
>)
    requires
        old(journal).wf(),
    ensures
        final(journal).wf(),
        comes_to(
            r,
            old(journal)@,
            final(journal)@,
            demanded(command.deep_view(), complaint@, old(journal)@),
        ),
{
    let attempt = journal.run(command)?;
    accept(attempt, complaint)
}

/// What comes of running a command that has to succeed and whose output is of no interest.
pub open spec fn performed(
    command: CommandView,
    complaint: Seq<char>,
    journal: JournalView,
) -> Outcome<()> {
    match demanded(command, complaint, journal) {
        Err(stop) => Err(stop),
        Ok((_, rest)) => Ok(((), rest)),
    }
}

/// Runs a command that has to succeed and whose output is of no interest.
pub fn perform<'a>(command: &CommandLine, complaint: &str, journal: &mut Journal<'a>) -> (r: Result<
    (),
    Stop,
>)
    requires
        old(journal).wf(),
    ensures
        final(journal).wf(),
        comes_to(
            r,
            old(journal)@,
            final(journal)@,
            performed(command.deep_view(), complaint@, old(journal)@),
        ),
{
    demand(command, complaint, journal)?;
    Ok(())
}

/// How often a command is tried where something is in use.
pub const MAX_ATTEMPTS: u8 = 10;

/// What comes of running a command that has to succeed, in several attempts where something is in
/// use.
pub open spec fn performed_with_retries(
    command: CommandView,
    complaint: Seq<char>,
    journal: JournalView,
) -> Outcome<()> {
    match retried(MAX_ATTEMPTS as nat, 0, command, journal) {
        Err(stop) => Err(stop),
        Ok((attempt, rest)) => match accepted(attempt, complaint) {
            Err(stop) => Err(stop),
            Ok(_) => Ok(((), rest)),
        },
    }
}

/// Runs a command that has to succeed, in several attempts where something is in use.
pub fn perform_with_retries<'a>(
    command: &CommandLine,
    complaint: &str,
    journal: &mut Journal<'a>,
) -> (r: Result<(), Stop>)
    requires
        old(journal).wf(),
    ensures
        final(journal).wf(),
        comes_to(
            r,
            old(journal)@,
            final(journal)@,
            performed_with_retries(command.deep_view(), complaint@, old(journal)@),
        ),
{
    let attempt = retry_command_on_ebusy(MAX_ATTEMPTS, command, journal)?;
    accept(attempt, complaint)?;
    Ok(())
}

} // verus!
