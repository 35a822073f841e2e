//! An installation from its first question to its last command.

use vstd::prelude::*;

use crate::config::{configure, NixOSInstallerConfig};
use crate::config::{configured, ConfigView};
use crate::disk_helpers::perform_disk_ops;
use crate::disk_helpers::disk_ops_performed;
use crate::installer::install_nixos;
use crate::installer::nixos_installed;
use crate::journal::{give_up, give_up_io, Journal, Stop};
use crate::journal::{comes_to, failed, failed_io, line_read, JournalView, Outcome};
use crate::journal::{Answer, StopView};
use crate::text::{same_text, trim};
use crate::text::{trimmed, trimming_drops_what_follows};

verus! {

/// What a line tells of the user's choice.
#[derive(Debug, PartialEq, Eq, Clone, Copy)]
pub enum Choice {
    GoOn,
    Abort,
    Unclear,
}

/// What a line tells of the user's choice.
pub open spec fn choice_in(line: Seq<char>) -> Choice {
    if trimmed(line) == "y"@ || trimmed(line) == "Y"@ {
        Choice::GoOn
    } else if trimmed(line) == "n"@ || trimmed(line) == "N"@ {
        Choice::Abort
    } else {
        Choice::Unclear
    }
}

/// What a line tells of the user's choice.
pub fn read_choice(line: &str) -> (r: Choice)
    ensures
        r == choice_in(line@),
{
    let word = trim(line);
    if same_text(word.as_str(), "y") || same_text(word.as_str(), "Y") {
        Choice::GoOn
    } else if same_text(word.as_str(), "n") || same_text(word.as_str(), "N") {
        Choice::Abort
    } else {
        Choice::Unclear
    }
}

/// The end of a line makes no difference to the choice: `y` and `Y` tell to go on, `n` and `N` to
/// abort, with or without it.
pub proof fn line_ends_make_no_difference(line: Seq<char>)
    ensures
        choice_in(line.push('\n')) == choice_in(line),
        choice_in(line.push('\r').push('\n')) == choice_in(line),
        choice_in("y"@) == Choice::GoOn && choice_in("Y"@) == Choice::GoOn,
        choice_in("n"@) == Choice::Abort && choice_in("N"@) == Choice::Abort,
{
    trimming_drops_what_follows(line, '\n');
    trimming_drops_what_follows(line, '\r');
    trimming_drops_what_follows(line.push('\r'), '\n');
    reveal_strlit("y");
    reveal_strlit("Y");
    reveal_strlit("n");
    reveal_strlit("N");
    assert("y"@[0] != "n"@[0] && "y"@[0] != "N"@[0] && "Y"@[0] != "n"@[0] && "Y"@[0] != "N"@[0]);
    assert("y"@.len() == 1 && "Y"@.len() == 1 && "n"@.len() == 1 && "N"@.len() == 1);
}

/// Only `y` and `Y` tell to go on and only `n` and `N` to abort, whatever white space is around them.
pub proof fn other_words_tell_nothing(line: Seq<char>)
    ensures
        choice_in(line) == Choice::GoOn <==> trimmed(line) == "y"@ || trimmed(line) == "Y"@,
        choice_in(line) == Choice::Abort <==> trimmed(line) == "n"@ || trimmed(line) == "N"@,
{
    reveal_strlit("y");
    reveal_strlit("Y");
    reveal_strlit("n");
    reveal_strlit("N");
    assert("y"@[0] != "n"@[0] && "y"@[0] != "N"@[0] && "Y"@[0] != "n"@[0] && "Y"@[0] != "N"@[0]);
}

/// What comes of asking the user to confirm the installation, who may be asked `chances` times.
pub open spec fn installation_confirmed(chances: nat, journal: JournalView) -> Outcome<()>
    decreases chances,
{
    if chances == 0 {
        failed("You have exhausted the number of interactions allowed"@)
    } else {
        match line_read(journal) {
            Err(stop) => Err(stop),
            Ok((Err(error), _)) => failed_io(error@),
            Ok((Ok(line), rest)) => match choice_in(line@) {
                Choice::GoOn => Ok(((), rest)),
                Choice::Abort => failed("Aborted due to user choice"@),
                Choice::Unclear => installation_confirmed((chances - 1) as nat, rest),
            },
        }
    }
}

/// Asks the user to confirm the installation, at most `chances` times.
pub fn confirm_installation<'a>(chances: u8, journal: &mut Journal<'a>) -> (r: Result<(), Stop>)
    requires
        old(journal).wf(),
    ensures
        final(journal).wf(),
        comes_to(
            r,
            old(journal)@,
            final(journal)@,
            installation_confirmed(chances as nat, old(journal)@),
        ),
{
    let mut left: u8 = chances;
    while left > 0
        invariant
            journal.wf(),
            journal@.answers == old(journal)@.answers,
            installation_confirmed(chances as nat, old(journal)@) == installation_confirmed(
                left as nat,
                journal@,
            ),
        decreases left,
    {
        match journal.line()? {
            Err(error) => {
                return Err(give_up_io(error.as_str()));
            },
            Ok(line) => match read_choice(line.as_str()) {
                Choice::GoOn => {
                    return Ok(());
                },
                Choice::Abort => {
                    return Err(give_up("Aborted due to user choice".to_string()));
                },
                Choice::Unclear => {},
            },
        }
        left = left - 1;
    }
    Err(give_up("You have exhausted the number of interactions allowed".to_string()))
}

/// What comes of an installation of a known configuration, once the user has been asked.
pub open spec fn carried_out(config: ConfigView, journal: JournalView) -> Outcome<()> {
    match disk_ops_performed(config, journal) {
        Err(stop) => Err(stop),
        Ok((_, ready)) => nixos_installed(config, ready),
    }
}

/// What comes of an installation on a machine of the given Nix system.
#[verifier::opaque]
pub open spec fn session_held(system: Seq<char>, journal: JournalView) -> Outcome<()> {
    match configured(system, journal) {
        Err(stop) => Err(stop),
        Ok((config, known)) => match installation_confirmed(2, known) {
            Err(stop) => Err(stop),
            Ok((_, confirmed)) => carried_out(config, confirmed),
        },
    }
}

/// Carries out an installation of a known configuration.
pub fn carry_out<'a>(
    nixos_installer_config: &NixOSInstallerConfig,
    journal: &mut Journal<'a>,
) -> (r: Result<(), Stop>)
    requires
        old(journal).wf(),
    ensures
        final(journal).wf(),
        comes_to(
            r,
            old(journal)@,
            final(journal)@,
            carried_out(nixos_installer_config.deep_view(), old(journal)@),
        ),
{
    perform_disk_ops(nixos_installer_config, journal)?;
    install_nixos(nixos_installer_config, journal)
}

/// Holds an installation on a machine of the given Nix system: configures it, has the user confirm
/// it, and carries it out.
pub fn hold_session<'a>(system: &str, journal: &mut Journal<'a>) -> (r: Result<(), Stop>)
    requires
        old(journal).wf(),
    ensures
        final(journal).wf(),
        comes_to(r, old(journal)@, final(journal)@, session_held(system@, old(journal)@)),
{
    proof {
        reveal(session_held);
    }
    let nixos_installer_config = configure(system, journal)?;
    confirm_installation(2, journal)?;
    carry_out(&nixos_installer_config, journal)
}

/// A user has two lines to choose in. A line that says yes sets the installation going with what has been
/// configured, a line that says no gives it up, and after two lines that say neither it is given up too.
#[verifier::spinoff_prover]
#[verifier::rlimit(50)]
pub proof fn two_lines_decide(
    system: Seq<char>,
    journal: JournalView,
    config: ConfigView,
    known: JournalView,
    first: String,
    second: String,
)
    requires
        configured(system, journal) == Ok::<(ConfigView, JournalView), StopView>((config, known)),
        0 <= known.read < known.answers.len() - 1,
        known.answers[known.read] == Answer::Line(Ok(first)),
        known.answers[known.read + 1] == Answer::Line(Ok(second)),
    ensures
        says_yes(first@) ==> session_held(system, journal) == carried_out(
            config,
            JournalView { answers: known.answers, read: known.read + 1 },
        ),
        says_no(first@) ==> session_held(system, journal) == failed::<()>(
            "Aborted due to user choice"@,
        ),
        !says_yes(first@) && !says_no(first@) && says_yes(second@) ==> session_held(system, journal)
            == carried_out(
            config,
            JournalView { answers: known.answers, read: known.read + 2 },
        ),
        !says_yes(first@) && !says_no(first@) && says_no(second@) ==> session_held(system, journal)
            == failed::<()>("Aborted due to user choice"@),
        !says_yes(first@) && !says_no(first@) && !says_yes(second@) && !says_no(second@)
            ==> session_held(system, journal) == failed::<()>(
            "You have exhausted the number of interactions allowed"@,
        ),
{
    reveal(session_held);
    reveal_with_fuel(installation_confirmed, 3);
    other_words_tell_nothing(first@);
    other_words_tell_nothing(second@);
}

/// Whether a line says yes.
pub open spec fn says_yes(line: Seq<char>) -> bool {
    trimmed(line) == "y"@ || trimmed(line) == "Y"@
}

/// Whether a line says no.
pub open spec fn says_no(line: Seq<char>) -> bool {
    trimmed(line) == "n"@ || trimmed(line) == "N"@
}

/// A session that succeeds has been configured, has been told to go on by one of two lines, has done the
/// work on the disk, and has then installed the system, in this order and with one configuration.
#[verifier::spinoff_prover]
#[verifier::rlimit(50)]
pub proof fn sessions_take_these_parts(system: Seq<char>, journal: JournalView)
    ensures
        session_held(system, journal) matches Ok((_, rest)) ==> {
            &&& configured(system, journal) matches Ok((config, known))
            &&& exists|confirmed: JournalView|
                {
                    &&& confirmed.answers == known.answers
                    &&& confirmed.read == known.read + 1 || confirmed.read == known.read + 2
                    &&& known.answers[confirmed.read - 1] matches Answer::Line(Ok(line)) && says_yes(
                        line@,
                    )
                    &&& (#[trigger] disk_ops_performed(config, confirmed)) matches Ok((_, ready))
                    &&& nixos_installed(config, ready) == Ok::<((), JournalView), StopView>(
                        ((), rest),
                    )
                }
        },
{
    reveal(session_held);
    reveal_with_fuel(installation_confirmed, 3);
    if let Ok((done, rest)) = session_held(system, journal) {
        assert(done == ());
        let (config, known) = configured(system, journal)->Ok_0;
        let confirmed = installation_confirmed(2, known)->Ok_0.1;
        let ready = disk_ops_performed(config, confirmed)->Ok_0.1;
        assert(nixos_installed(config, ready)->Ok_0.0 == ());
        if let Answer::Line(Ok(first)) = known.answers[known.read] {
            other_words_tell_nothing(first@);
        }
        if let Answer::Line(Ok(second)) = known.answers[known.read + 1] {
            other_words_tell_nothing(second@);
        }
        assert(disk_ops_performed(config, confirmed) is Ok);
    }
}

} // verus!
