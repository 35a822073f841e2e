//! The flake with the NixOS configuration, and what is evaluated from it.

use vstd::prelude::*;

use crate::command_helpers::{
    create_nix3_command, create_nix_instantiate_command, demand, formatted_process_stderr, perform,
    process_stdout, CommandLine,
};
use crate::command_helpers::{
    command, demanded, fenced_stderr, nix3_args, nix_instantiate_args, performed, stdout_text,
    CommandView,
};
use crate::journal::{give_up, give_up_io, Failure, Journal, Stop};
use crate::journal::{
    comes_to, creation_read, failed_io, temp_directory_read, FailureView, JournalView, Outcome,
    StopView,
};
use crate::text::same_text;

verus! {

/// `git`, to bring the flake up to date.
pub open spec fn git_pull_command(flake_path: Seq<char>) -> CommandView {
    command("git"@, seq!["-C"@, flake_path, "pull"@, "--ff-only"@])
}

/// `git`, to bring the flake up to date.
fn git_pull(flake_path: &str) -> (r: CommandLine)
    ensures
        r.deep_view() == git_pull_command(flake_path@),
{
    CommandLine::new("git").arg("-C").arg(flake_path).arg("pull").arg("--ff-only")
}

/// What comes of bringing the flake up to date.
pub open spec fn git_pulled(flake_path: Seq<char>, journal: JournalView) -> Outcome<()> {
    performed(git_pull_command(flake_path), "The `git pull` command failed"@, journal)
}

/// Brings the flake up to date.
pub fn perform_git_pull<'a>(flake_path: &str, journal: &mut Journal<'a>) -> (r: Result<(), Stop>)
    requires
        old(journal).wf(),
    ensures
        final(journal).wf(),
        comes_to(r, old(journal)@, final(journal)@, git_pulled(flake_path@, old(journal)@)),
{
    perform(&git_pull(flake_path), "The `git pull` command failed", journal)
}

/// `nix flake update`, to bring the lock file up to date.
pub open spec fn flake_update_command(flake_path: Seq<char>) -> CommandView {
    command("nix"@, nix3_args() + seq!["flake"@, "update"@, "--flake"@, flake_path])
}

/// `nix flake update`, to bring the lock file up to date.
fn flake_update(flake_path: &str) -> (r: CommandLine)
    ensures
        r.deep_view() == flake_update_command(flake_path@),
{
    create_nix3_command().arg("flake").arg("update").arg("--flake").arg(flake_path)
}

/// What comes of bringing the lock file up to date, where that is wanted.
pub open spec fn lockfile_updated(
    flake_path: Seq<char>,
    update_lockfile: bool,
    journal: JournalView,
) -> Outcome<()> {
    if update_lockfile {
        performed(
            flake_update_command(flake_path),
            "The `nix flake update` command failed"@,
            journal,
        )
    } else {
        Ok(((), journal))
    }
}

/// Brings the lock file up to date, where that is wanted.
pub fn do_lockfile_update<'a>(
    flake_path: &str,
    update_lockfile: bool,
    journal: &mut Journal<'a>,
) -> (r: Result<(), Stop>)
    requires
        old(journal).wf(),
    ensures
        final(journal).wf(),
        comes_to(
            r,
            old(journal)@,
            final(journal)@,
            lockfile_updated(flake_path@, update_lockfile, old(journal)@),
        ),
{
    if update_lockfile {
        perform(&flake_update(flake_path), "The `nix flake update` command failed", journal)
    } else {
        Ok(())
    }
}

/// What `nojson` finds when it looks for a string under a name in a JSON object: nothing at all
/// where the text is no JSON, otherwise the string, or why there is none.
pub uninterp spec fn json_string_member(text: Seq<char>, member: Seq<char>) -> Option<
    Result<Seq<char>, Seq<char>>,
>;

/// The texts of the result of looking for a string in a JSON object.
pub open spec fn lookup_view(lookup: Option<Result<String, String>>) -> Option<
    Result<Seq<char>, Seq<char>>,
> {
    match lookup {
        None => None,
        Some(Ok(text)) => Some(Ok(text@)),
        Some(Err(error)) => Some(Err(error@)),
    }
}

/// `nojson::RawJson::parse`, `nojson::RawJsonValue::to_member`, `nojson::RawJsonMember::required` and
/// the conversion of a `nojson::RawJsonValue` into a `String`, one after the other. What comes out
/// depends on the two texts alone.
#[verifier::external_body]
fn find_json_string(text: &str, member: &str) -> (r: Option<Result<String, String>>)
    ensures
        lookup_view(r) == json_string_member(text@, member@),
{
    match nojson::RawJson::parse(text) {
        Err(_) => None,
        Ok(json) => {
            let found = json.value().to_member(member).and_then(nojson::RawJsonMember::required);
            match found.and_then(String::try_from) {
                Ok(text) => Some(Ok(text)),
                Err(error) => Some(Err(format!("{error:?}"))),
            }
        },
    }
}

/// The store path of the flake, or why there is none, from what was found in the output of
/// `nix flake archive`.
pub open spec fn store_path_from(
    lookup: Option<Result<Seq<char>, Seq<char>>>,
    stderr: Seq<char>,
) -> Result<Seq<char>, StopView> {
    match lookup {
        None => Err(
            StopView::Failed(
                FailureView::Message("Could not parse the archived flake's output"@ + stderr),
            ),
        ),
        Some(Err(error)) => Err(StopView::Failed(FailureView::Json(error))),
        Some(Ok(path)) => if path.len() == 0 {
            Err(StopView::Failed(FailureView::Message("Could not determine the flake store path"@)))
        } else {
            Ok(path)
        },
    }
}

/// The store path of the flake, or why there is none, from what was found in the output of
/// `nix flake archive`.
pub fn accept_store_path(lookup: Option<Result<String, String>>, stderr: &str) -> (r: Result<
    String,
    Stop,
>)
    ensures
        match r {
            Ok(path) => store_path_from(lookup_view(lookup), stderr@) == Ok::<Seq<char>, StopView>(
                path@,
            ),
            Err(stop) => store_path_from(lookup_view(lookup), stderr@) == Err::<
                Seq<char>,
                StopView,
            >(stop.deep_view()),
        },
{
    match lookup {
        None => {
            let mut text = "Could not parse the archived flake's output".to_string();
            text.append(stderr);
            Err(give_up(text))
        },
        Some(Err(error)) => Err(Stop::Failed(Failure::Json(error))),
        Some(Ok(path)) => if path.as_str().is_empty() {
            Err(give_up("Could not determine the flake store path".to_string()))
        } else {
            Ok(path)
        },
    }
}

/// `nix flake archive`, to copy the flake to the Nix store.
pub open spec fn flake_archive_command(flake_path: Seq<char>) -> CommandView {
    command("nix"@, nix3_args() + seq!["flake"@, "archive"@, "--json"@, flake_path])
}

/// `nix flake archive`, to copy the flake to the Nix store.
fn flake_archive(flake_path: &str) -> (r: CommandLine)
    ensures
        r.deep_view() == flake_archive_command(flake_path@),
{
    create_nix3_command().arg("flake").arg("archive").arg("--json").arg(flake_path)
}

/// The directory for the installer's own files.
pub open spec fn work_directory(temp_directory: Option<Seq<char>>) -> Seq<char> {
    (match temp_directory {
        Some(path) => path,
        None => "/tmp"@,
    }) + "/nixos-install-tfg"@
}

/// `nix build`, to keep the flake's store path from being collected.
pub open spec fn gc_root_command(
    directory: Seq<char>,
    flake_store_path: Seq<char>,
) -> CommandView {
    command(
        "nix"@,
        nix3_args() + seq![
            "build"@,
            "--out-link"@,
            directory + "/result-flake-store-path"@,
            flake_store_path,
        ],
    )
}

/// `nix build`, to keep the flake's store path from being collected.
fn gc_root(directory: &str, flake_store_path: &str) -> (r: CommandLine)
    ensures
        r.deep_view() == gc_root_command(directory@, flake_store_path@),
{
    let mut link = directory.to_string();
    link.append("/result-flake-store-path");
    create_nix3_command().arg("build").arg("--out-link").arg(link.as_str()).arg(flake_store_path)
}

/// What comes of keeping the flake's store path from being collected.
pub open spec fn gc_rooted(flake_store_path: Seq<char>, journal: JournalView) -> Outcome<()> {
    match temp_directory_read(journal) {
        Err(stop) => Err(stop),
        Ok((temp_directory, found)) => {
            let directory = work_directory(temp_directory.deep_view());
            match creation_read(directory, found) {
                Err(stop) => Err(stop),
                Ok((Err(error), _)) => failed_io(error@),
                Ok((Ok(_), created)) => performed(
                    gc_root_command(directory, flake_store_path),
                    "The `nix build` command to create a GC root for the flake store path failed"@,
                    created,
                ),
            }
        },
    }
}

/// Keeps the flake's store path from being collected.
fn create_gc_root<'a>(flake_store_path: &str, journal: &mut Journal<'a>) -> (r: Result<(), Stop>)
    requires
        old(journal).wf(),
    ensures
        final(journal).wf(),
        comes_to(r, old(journal)@, final(journal)@, gc_rooted(flake_store_path@, old(journal)@)),
{
    let mut directory = match journal.temp_directory()? {
        Some(path) => path.clone(),
        None => "/tmp".to_string(),
    };
    directory.append("/nixos-install-tfg");
    match journal.creation(directory.as_str())? {
        Err(error) => Err(give_up_io(error.as_str())),
        Ok(_) => perform(
            &gc_root(directory.as_str(), flake_store_path),
            "The `nix build` command to create a GC root for the flake store path failed",
            journal,
        ),
    }
}

/// What comes of copying the flake to the Nix store: the flake's store path.
pub open spec fn flake_stored(
    flake_path: Seq<char>,
    update_lockfile: bool,
    flake_store_path_gc_root: bool,
    journal: JournalView,
) -> Outcome<Seq<char>> {
    match git_pulled(flake_path, journal) {
        Err(stop) => Err(stop),
        Ok((_, pulled)) => match lockfile_updated(flake_path, update_lockfile, pulled) {
            Err(stop) => Err(stop),
            Ok((_, locked)) => match demanded(
                flake_archive_command(flake_path),
                "The `nix flake archive` command failed"@,
                locked,
            ) {
                Err(stop) => Err(stop),
                Ok((output, archived)) => match store_path_from(
                    json_string_member(stdout_text(output), "path"@),
                    fenced_stderr(output),
                ) {
                    Err(stop) => Err(stop),
                    Ok(path) => if flake_store_path_gc_root {
                        match gc_rooted(path, archived) {
                            Err(stop) => Err(stop),
                            Ok((_, rest)) => Ok((path, rest)),
                        }
                    } else {
                        Ok((path, archived))
                    },
                },
            },
        },
    }
}

/// Copies the flake to the Nix store.
pub fn get_flake_store_path<'a>(
    flake_path: &str,
    update_lockfile: bool,
    flake_store_path_gc_root: bool,
    journal: &mut Journal<'a>,
) -> (r: Result<String, Stop>)
    requires
        old(journal).wf(),
    ensures
        final(journal).wf(),
        comes_to(
            r,
            old(journal)@,
            final(journal)@,
            flake_stored(
                flake_path@,
                update_lockfile,
                flake_store_path_gc_root,
                old(journal)@,
            ),
        ),
{
    perform_git_pull(flake_path, journal)?;
    do_lockfile_update(flake_path, update_lockfile, journal)?;
    let output = demand(
        &flake_archive(flake_path),
        "The `nix flake archive` command failed",
        journal,
    )?;
    let lookup = find_json_string(process_stdout(output).as_str(), "path");
    let path = accept_store_path(lookup, formatted_process_stderr(output).as_str())?;
    if flake_store_path_gc_root {
        create_gc_root(path.as_str(), journal)?;
    }
    Ok(path)
}

/// `nix-instantiate`, to evaluate an expression.
pub open spec fn eval_command(expression: Seq<char>) -> CommandView {
    command("nix-instantiate"@, nix_instantiate_args() + seq!["--eval"@, "--expr"@, expression])
}

/// `nix-instantiate`, to evaluate an expression.
fn eval(expression: &str) -> (r: CommandLine)
    ensures
        r.deep_view() == eval_command(expression@),
{
    create_nix_instantiate_command().arg("--eval").arg("--expr").arg(expression)
}

/// `nix-instantiate`, to evaluate an expression whose value is a text.
pub open spec fn raw_eval_command(expression: Seq<char>) -> CommandView {
    command(
        "nix-instantiate"@,
        nix_instantiate_args() + seq!["--eval"@, "--raw"@, "--expr"@, expression],
    )
}

/// `nix-instantiate`, to evaluate an expression whose value is a text.
pub(crate) fn raw_eval(expression: &str) -> (r: CommandLine)
    ensures
        r.deep_view() == raw_eval_command(expression@),
{
    create_nix_instantiate_command().arg("--eval").arg("--raw").arg("--expr").arg(expression)
}

/// The Nix expression for the NixOS configuration of a host.
pub open spec fn configuration_of(flake_store_path: Seq<char>, hostname: Seq<char>) -> Seq<char> {
    "(builtins.getFlake \""@ + flake_store_path + "\").outputs.nixosConfigurations."@ + hostname
}

/// The Nix expression for the NixOS configuration of a host.
pub(crate) fn configuration(flake_store_path: &str, hostname: &str) -> (r: String)
    ensures
        r@ == configuration_of(flake_store_path@, hostname@),
{
    let mut r = "(builtins.getFlake \"".to_string();
    r.append(flake_store_path);
    r.append("\").outputs.nixosConfigurations.");
    r.append(hostname);
    r
}

/// Whether a NixOS configuration for the host exists, as a Nix expression.
pub open spec fn hostname_expression(flake_store_path: Seq<char>, hostname: Seq<char>) -> Seq<
    char,
> {
    "builtins.elem \""@ + hostname + "\" (builtins.attrNames (builtins.getFlake \""@
        + flake_store_path + "\").outputs.nixosConfigurations)"@
}

/// Whether a NixOS configuration is for the given system, as a Nix expression.
pub open spec fn platform_expression(
    flake_store_path: Seq<char>,
    hostname: Seq<char>,
    system: Seq<char>,
) -> Seq<char> {
    configuration_of(flake_store_path, hostname) + ".pkgs.stdenv.hostPlatform.system == \""@
        + system + "\""@
}

/// What the value of a Nix expression says: go on where it is true, give up for the reason `denial`
/// where it is false, and complain of anything else.
pub open spec fn verdict(value: Seq<char>, stderr: Seq<char>, denial: Seq<char>) -> Result<
    (),
    StopView,
> {
    if value == "true"@ {
        Ok(())
    } else if value == "false"@ {
        Err(StopView::Failed(FailureView::Message(denial)))
    } else {
        Err(
            StopView::Failed(
                FailureView::Message("Invalid result: '"@ + value + "'"@ + stderr),
            ),
        )
    }
}

/// What the value of a Nix expression says.
pub fn judge(value: &str, stderr: &str, denial: &str) -> (r: Result<(), Stop>)
    ensures
        match r {
            Ok(_) => verdict(value@, stderr@, denial@) == Ok::<(), StopView>(()),
            Err(stop) => verdict(value@, stderr@, denial@) == Err::<(), StopView>(
                stop.deep_view(),
            ),
        },
{
    if same_text(value, "true") {
        Ok(())
    } else if same_text(value, "false") {
        Err(give_up(denial.to_string()))
    } else {
        let mut text = "Invalid result: '".to_string();
        text.append(value);
        text.append("'");
        text.append(stderr);
        Err(give_up(text))
    }
}

/// What comes of asking Nix whether something holds.
pub open spec fn confirmed(
    expression: Seq<char>,
    complaint: Seq<char>,
    denial: Seq<char>,
    journal: JournalView,
) -> Outcome<()> {
    match demanded(eval_command(expression), complaint, journal) {
        Err(stop) => Err(stop),
        Ok((output, rest)) => match verdict(stdout_text(output), fenced_stderr(output), denial) {
            Err(stop) => Err(stop),
            Ok(_) => Ok(((), rest)),
        },
    }
}

/// Asks Nix whether something holds.
fn confirm<'a>(expression: &str, complaint: &str, denial: &str, journal: &mut Journal<'a>) -> (r:
    Result<(), Stop>)
    requires
        old(journal).wf(),
    ensures
        final(journal).wf(),
        comes_to(
            r,
            old(journal)@,
            final(journal)@,
            confirmed(expression@, complaint@, denial@, old(journal)@),
        ),
{
    let output = demand(&eval(expression), complaint, journal)?;
    judge(
        process_stdout(output).as_str(),
        formatted_process_stderr(output).as_str(),
        denial,
    )
}

/// What comes of verifying that the flake has a NixOS configuration for the host and that it is
/// for the given system.
pub open spec fn hostname_verified(
    hostname: Seq<char>,
    flake_store_path: Seq<char>,
    system: Seq<char>,
    journal: JournalView,
) -> Outcome<()> {
    match confirmed(
        hostname_expression(flake_store_path, hostname),
        "The `nix-instantiate` command to check whether the specified hostname exists in your Nix flake, failed"@,
        "There is no NixOS configuration for your hostname in your flake"@,
        journal,
    ) {
        Err(stop) => Err(stop),
        Ok((_, known)) => confirmed(
            platform_expression(flake_store_path, hostname, system),
            "The `nix-instantiate` command to determine the NixOS configuration's hostPlatform failed"@,
            "The target NixOS configuration's Nix system is different than your host's system"@,
            known,
        ),
    }
}

/// Verifies that the flake has a NixOS configuration for the host and that it is for the given
/// system.
pub fn verify_hostname<'a>(
    hostname: &str,
    flake_store_path: &str,
    system: &str,
    journal: &mut Journal<'a>,
) -> (r: Result<(), Stop>)
    requires
        old(journal).wf(),
    ensures
        final(journal).wf(),
        comes_to(
            r,
            old(journal)@,
            final(journal)@,
            hostname_verified(hostname@, flake_store_path@, system@, old(journal)@),
        ),
{
    let mut known = "builtins.elem \"".to_string();
    known.append(hostname);
    known.append("\" (builtins.attrNames (builtins.getFlake \"");
    known.append(flake_store_path);
    known.append("\").outputs.nixosConfigurations)");
    confirm(
        known.as_str(),
        "The `nix-instantiate` command to check whether the specified hostname exists in your Nix flake, failed",
        "There is no NixOS configuration for your hostname in your flake",
        journal,
    )?;
    let mut fits = configuration(flake_store_path, hostname);
    fits.append(".pkgs.stdenv.hostPlatform.system == \"");
    fits.append(system);
    fits.append("\"");
    confirm(
        fits.as_str(),
        "The `nix-instantiate` command to determine the NixOS configuration's hostPlatform failed",
        "The target NixOS configuration's Nix system is different than your host's system",
        journal,
    )
}

} // verus!
