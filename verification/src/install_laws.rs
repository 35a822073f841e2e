//! How commands are run and NixOS is installed, said of the machine's answers and the actions asked
//! for.

use vstd::prelude::*;

use crate::command_helpers::{performed, retried, CommandView};
use crate::config::ConfigView;
use crate::disk_laws::is_success;
use crate::installer::nixos_installed;
use crate::journal::{
    advanced, failed, ActionView, Answer, FailureView, JournalView, Outcome, StopView,
};
use crate::lookup_laws::written;
use crate::replay::in_range;
use crate::safety::{
    archives_flake, brings_system, copies_flake, evaluates_system, install_commands_are_called,
    installing_is_install_work, installs_system, program_names_differ,
};
use crate::text::{lossy_text, lowercase, occurs_in, trimmed};
use crate::transcript::{cut, waits_for};

verus! {

/// A command that has to succeed does so exactly with the exit code zero. Otherwise the reason is the
/// complaint with what the process wrote to its standard error behind it, or the machine's own where
/// the process could not be run.
pub proof fn commands_succeed_with_the_code_zero(
    command: CommandView,
    complaint: Seq<char>,
    journal: JournalView,
)
    requires
        0 <= journal.read < journal.answers.len(),
        journal.answers[journal.read] is Process,
    ensures
        waits_for(performed(command, complaint, cut(journal, journal.read)), ActionView::Run(command)),
        is_success(journal.answers[journal.read]) ==> performed(command, complaint, journal) == Ok::<
            ((), JournalView),
            StopView,
        >(((), advanced(journal))),
        journal.answers[journal.read] matches Answer::Process(Ok(output)) ==> (output.code != Some(
            0i32,
        ) ==> performed(command, complaint, journal) == failed::<()>(
            complaint + ("\n```\n"@ + trimmed(lossy_text(output.stderr@)) + "\n```"@),
        )),
        journal.answers[journal.read] matches Answer::Process(Err(error)) ==> performed(
            command,
            complaint,
            journal,
        ) == Err::<((), JournalView), StopView>(StopView::Failed(FailureView::Io(error@))),
{
}

/// Whether a process says that something is in use.
pub open spec fn says_it_is_busy(answer: Answer) -> bool {
    answer matches Answer::Process(Ok(output)) && {
        let text = lowercase(lossy_text(output.stderr@));
        ||| occurs_in("ebusy"@, text)
        ||| occurs_in("device or resource busy"@, text)
        ||| occurs_in("mount point is busy"@, text)
        ||| occurs_in("resource temporarily unavailable"@, text)
        ||| occurs_in("target is busy"@, text)
    }
}

/// A command is tried again exactly where it says that something is in use and an attempt is left: after
/// a second, and with one attempt less. Otherwise what came of it stands.
pub proof fn only_busy_commands_are_tried_again(
    max_attempts: nat,
    tried: nat,
    command: CommandView,
    journal: JournalView,
)
    requires
        0 <= journal.read < journal.answers.len(),
        journal.answers[journal.read] is Process,
        tried < max_attempts,
    ensures
        waits_for(
            retried(max_attempts, tried, command, cut(journal, journal.read)),
            ActionView::Run(command),
        ),
        says_it_is_busy(journal.answers[journal.read]) && tried + 1 < max_attempts ==> {
            &&& waits_for(
                retried(max_attempts, tried, command, cut(journal, journal.read + 1)),
                ActionView::Pause,
            )
            &&& journal.read + 1 < journal.answers.len() && journal.answers[journal.read + 1]
                == Answer::Paused ==> retried(max_attempts, tried, command, journal) == retried(
                max_attempts,
                tried + 1,
                command,
                advanced(advanced(journal)),
            )
        },
        !(says_it_is_busy(journal.answers[journal.read]) && tried + 1 < max_attempts) ==> {
            &&& retried(max_attempts, tried, command, journal) matches Ok((attempt, rest))
            &&& rest == advanced(journal)
            &&& match attempt {
                Ok(output) => journal.answers[journal.read] matches Answer::Process(Ok(left))
                    && left.deep_view() == output,
                Err(error) => journal.answers[journal.read] matches Answer::Process(Err(left))
                    && left@ == error,
            }
        },
{
}

/// What installing NixOS comes to with so many answers.
#[verifier::opaque]
pub open spec fn install_work(config: ConfigView, journal: JournalView) -> spec_fn(
    int,
) -> Outcome<()> {
    |count: int| nixos_installed(config, cut(journal, count))
}

/// How many answers prepare the store for a build.
pub open spec fn preparations(config: ConfigView) -> int {
    if config.substitute_only {
        0
    } else {
        3
    }
}

/// Whether the answer is that of a command that wrote to the terminal and exited with the code zero.
pub open spec fn is_exit_zero(answer: Answer) -> bool {
    answer matches Answer::Status(Ok(Some(code))) && code == 0
}

/// Whether the store below the mount path is prepared from the answer `start` on: the flake and its inputs
/// are brought there, and the derivation of the system there is the one of the configuration.
pub open spec fn is_store_prepared_at(
    procedure: spec_fn(int) -> Outcome<()>,
    answers: Seq<Answer>,
    start: int,
    config: ConfigView,
) -> bool {
    &&& exists|command: CommandView| #[trigger]
        copies_flake(config, command) && waits_for(procedure(start), ActionView::Run(command))
    &&& is_success(answers[start])
    &&& exists|command: CommandView| #[trigger]
        archives_flake(config, command) && waits_for(
            procedure(start + 1),
            ActionView::RunAttached(command),
        )
    &&& is_exit_zero(answers[start + 1])
    &&& exists|command: CommandView| #[trigger]
        evaluates_system(
            config.mount_path,
            config.flake_store_path,
            config.hostname,
            command,
        ) && waits_for(procedure(start + 2), ActionView::Run(command))
    &&& is_success(answers[start + 2])
    &&& written(answers[start + 2]) == config.nixos_system_derivation_path
}

/// Whether NixOS is installed from the answer `start` on: the store is prepared where the system may be
/// built, the system is brought into it, it is installed, and what is mounted is looked up to be
/// unmounted. Each command has succeeded before the next is asked for.
pub open spec fn are_install_steps(
    procedure: spec_fn(int) -> Outcome<()>,
    answers: Seq<Answer>,
    start: int,
    config: ConfigView,
) -> bool {
    let built = start + preparations(config);
    &&& 0 <= start
    &&& built + 2 < answers.len()
    &&& config.substitute_only || is_store_prepared_at(procedure, answers, start, config)
    &&& exists|command: CommandView| #[trigger]
        brings_system(config, command) && waits_for(
            procedure(built),
            ActionView::RunAttached(command),
        )
    &&& is_exit_zero(answers[built])
    &&& exists|command: CommandView| #[trigger]
        installs_system(config, command) && waits_for(
            procedure(built + 1),
            ActionView::Run(command),
        )
    &&& is_success(answers[built + 1])
    &&& waits_for(procedure(built + 2), ActionView::ReadMounts)
}

/// Installing NixOS takes all its steps, in their order.
#[verifier::spinoff_prover]
pub proof fn installing_takes_these_steps(config: ConfigView, journal: JournalView)
    requires
        in_range(journal),
        nixos_installed(config, journal) is Ok,
    ensures
        are_install_steps(
            install_work(config, journal),
            journal.answers,
            journal.read,
            config,
        ),
{
    reveal(install_work);
    install_commands_are_called(config);
}

/// Whatever is asked for behind `--root` of `nixos-install` is the mount path, and behind `--store-path`
/// the output path of the system.
pub proof fn nixos_is_installed_to_the_mount_path(
    config: ConfigView,
    journal: JournalView,
    command: CommandView,
)
    requires
        waits_for(nixos_installed(config, journal), ActionView::Run(command)),
        command.program == "nixos-install"@,
    ensures
        exists|i: int|
            {
                &&& 0 <= i < command.args.len() - 1
                &&& #[trigger] command.args[i] == "--root"@
                &&& command.args[i + 1] == config.mount_path
            },
        exists|i: int|
            {
                &&& 0 <= i < command.args.len() - 1
                &&& #[trigger] command.args[i] == "--store-path"@
                &&& command.args[i + 1] == config.nixos_system_out_path
            },
{
    installing_is_install_work(config, journal);
    program_names_differ();
    assert(command.args[7] == "--root"@);
    assert(command.args[9] == "--store-path"@);
}

} // verus!
