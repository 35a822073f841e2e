//! How the configuration of an installation comes about, said of the machine's answers and the
//! actions asked for.

use vstd::prelude::*;

use crate::command_helpers::CommandView;
use crate::config::{
    args_verified, config_made, configured, drive_by_id_found, id_of_device,
    mandatory_args_enforced, no_problem_means_complete_options, target_drive_verified,
    user_checked, ConfigView, MandatoryArgsView, VerifiedArgsView,
};
use crate::disk_laws::{asks, is_success};
use crate::evaluation::{
    device_expression, fs_type_expression, instantiate_command, mount_options_expression,
    mount_paths_expression, toplevel_expression,
};
use crate::file_systems::SupportedFileSystems;
use crate::flake::{flake_stored, hostname_verified, json_string_member, raw_eval_command};
use crate::journal::{
    failed, ActionView, Answer, DiskId, FailureView, JournalView, Outcome, StopView,
};
use crate::options::{default_options, options_from, without_program, OptionsView};
use crate::paths::{path_components, sorted_paths};
use crate::safety::evaluates_system;
use crate::text::{
    joined, lines_of, lossy_text, split_on, splitting_is_undone_by_joining, trimmed,
};
use crate::transcript::{cut, waits_for};

verus! {

/// What a process wrote to its standard output, without the white space around it.
pub open spec fn written(answer: Answer) -> Seq<char> {
    match answer {
        Answer::Process(Ok(output)) => trimmed(lossy_text(output.stdout@)),
        _ => Seq::empty(),
    }
}

/// The superuser, and nobody else, gets past the check of the user.
pub proof fn only_the_superuser_passes(journal: JournalView)
    requires
        0 <= journal.read < journal.answers.len(),
    ensures
        user_checked(journal) is Ok <==> journal.answers[journal.read] == Answer::UserId(Ok(0)),
        journal.answers[journal.read] matches Answer::UserId(Ok(uid)) && uid != 0
            ==> user_checked(journal) == failed::<()>("The installer needs superuser privileges"@),
        waits_for(user_checked(cut(journal, journal.read)), ActionView::ReadUserId),
{
}

/// The target drive is accepted exactly where the machine says that it leads somewhere that exists, that
/// this is a block device, and that the drive is named by its real path.
pub proof fn drives_are_accepted_by_their_real_path(drive: Seq<char>, journal: JournalView)
    requires
        0 <= journal.read < journal.answers.len(),
        journal.answers[journal.read] is Drive,
    ensures
        waits_for(
            target_drive_verified(drive, cut(journal, journal.read)),
            ActionView::InspectDrive(drive),
        ),
        target_drive_verified(drive, journal) is Ok <==> (journal.answers[journal.read] matches
            Answer::Drive(Ok(report)) && report.exists && (report.is_block_device matches Ok(block)
            && block) && (report.real_path matches Some(path) && path@ == drive)),
        target_drive_verified(drive, journal) matches Err(stop) ==> stop is Failed,
        journal.answers[journal.read] matches Answer::Drive(Ok(report)) ==> (report.exists && (
        report.is_block_device matches Ok(block) && block) && (report.real_path matches Some(path)
            && path@ != drive) ==> target_drive_verified(drive, journal) == failed::<()>(
            "The real path of the target drive is '"@ + report.displayed_path@ + "', not '"@ + drive
                + "'"@,
        )),
        journal.answers[journal.read] matches Answer::Drive(Err(error)) ==> target_drive_verified(
            drive,
            journal,
        ) == failed::<()>(
            "Could not canonicalize '"@ + drive + "'"@ + ("\n```\n"@ + error@ + "\n```"@),
        ),
        journal.answers[journal.read] matches Answer::Drive(Ok(report)) ==> (!report.exists
            ==> target_drive_verified(drive, journal) == failed::<()>(
            "The target drive is not even a valid path"@,
        )),
        journal.answers[journal.read] matches Answer::Drive(Ok(report)) ==> (report.exists
            && report.is_block_device == Ok::<bool, String>(false) ==> target_drive_verified(
            drive,
            journal,
        ) == failed::<()>("The target drive is not a block device"@)),
{
}

/// Whether an entry leads to a device.
pub open spec fn is_entry_of(id: DiskId, device: Seq<char>) -> bool {
    id.device matches Some(path) && path_components(path@) == path_components(device)
}

/// Of the entries that lead to the drive the first is taken, and without one there is a failure.
pub proof fn the_first_entry_of_the_drive_is_taken(
    drive: Seq<char>,
    ids: Vec<DiskId>,
    journal: JournalView,
)
    requires
        0 <= journal.read < journal.answers.len(),
        journal.answers[journal.read] == Answer::DiskIds(Ok(ids)),
    ensures
        match drive_by_id_found(drive, journal) {
            Ok((path, _)) => exists|i: int|
                {
                    &&& 0 <= i < ids@.len()
                    &&& path == ids@[i].path@
                    &&& #[trigger] is_entry_of(ids@[i], drive)
                    &&& forall|k: int| 0 <= k < i ==> !is_entry_of(#[trigger] ids@[k], drive)
                },
            Err(stop) => {
                &&& stop == StopView::Failed(
                    FailureView::Message(
                        "Could not determine the by-id path of the target drive"@,
                    ),
                )
                &&& forall|k: int| 0 <= k < ids@.len() ==> !is_entry_of(#[trigger] ids@[k], drive)
            },
        },
{
    first_entry(ids@, drive);
}

/// The first of some entries that leads to a device is the one that is found.
pub(crate) proof fn first_entry(ids: Seq<DiskId>, drive: Seq<char>)
    ensures
        match id_of_device(ids, drive) {
            Some(path) => exists|i: int|
                {
                    &&& 0 <= i < ids.len()
                    &&& path == ids[i].path@
                    &&& #[trigger] is_entry_of(ids[i], drive)
                    &&& forall|k: int| 0 <= k < i ==> !is_entry_of(#[trigger] ids[k], drive)
                },
            None => forall|k: int| 0 <= k < ids.len() ==> !is_entry_of(#[trigger] ids[k], drive),
        },
    decreases ids.len(),
{
    if ids.len() > 0 {
        let rest = ids.skip(1);
        first_entry(rest, drive);
        if is_entry_of(ids[0], drive) {
            assert(id_of_device(ids, drive) == Some(ids[0].path@));
        } else {
            assert forall|k: int| 0 < k < ids.len() implies ids[k] == #[trigger] rest[k - 1] by {}
            if let Some(path) = id_of_device(rest, drive) {
                let i = choose|i: int|
                    {
                        &&& 0 <= i < rest.len()
                        &&& path == rest[i].path@
                        &&& #[trigger] is_entry_of(rest[i], drive)
                        &&& forall|k: int| 0 <= k < i ==> !is_entry_of(#[trigger] rest[k], drive)
                    };
                assert(is_entry_of(ids[i + 1], drive));
                assert forall|k: int| 0 <= k < i + 1 implies !is_entry_of(#[trigger] ids[k], drive) by {
                    if k > 0 {
                        assert(ids[k] == rest[k - 1]);
                    }
                }
            } else {
                assert forall|k: int| 0 <= k < ids.len() implies !is_entry_of(
                    #[trigger] ids[k],
                    drive,
                ) by {
                    if k > 0 {
                        assert(ids[k] == rest[k - 1]);
                    }
                }
            }
        }
    }
}

/// Whether a procedure that came to `short` asks `nix-instantiate` to evaluate an expression.
pub open spec fn asks_nix<T>(
    short: Outcome<T>,
    flags: Seq<Seq<char>>,
    expression: Seq<char>,
) -> bool {
    asks(
        short,
        "nix-instantiate"@,
        seq!["--option"@, "extra-experimental-features"@, "flakes"@] + (flags + seq![expression]),
    )
}

/// A host is accepted exactly where Nix says, of two questions, that the flake has a configuration for
/// the host and that this configuration is for the system of the machine.
pub proof fn hosts_are_accepted_by_two_answers(
    hostname: Seq<char>,
    flake: Seq<char>,
    system: Seq<char>,
    journal: JournalView,
)
    requires
        0 <= journal.read,
        journal.read + 2 <= journal.answers.len(),
    ensures
        asks_nix(
            hostname_verified(hostname, flake, system, cut(journal, journal.read)),
            seq!["--eval"@, "--expr"@],
            "builtins.elem \""@ + hostname + "\" (builtins.attrNames (builtins.getFlake \""@ + flake
                + "\").outputs.nixosConfigurations)"@,
        ),
        is_success(journal.answers[journal.read]) && written(journal.answers[journal.read])
            == "true"@ ==> asks_nix(
            hostname_verified(hostname, flake, system, cut(journal, journal.read + 1)),
            seq!["--eval"@, "--expr"@],
            "(builtins.getFlake \""@ + flake + "\").outputs.nixosConfigurations."@ + hostname
                + ".pkgs.stdenv.hostPlatform.system == \""@ + system + "\""@,
        ),
        hostname_verified(hostname, flake, system, journal) is Ok <==> {
            &&& is_success(journal.answers[journal.read])
            &&& written(journal.answers[journal.read]) == "true"@
            &&& is_success(journal.answers[journal.read + 1])
            &&& written(journal.answers[journal.read + 1]) == "true"@
        },
        is_success(journal.answers[journal.read]) && written(journal.answers[journal.read])
            == "false"@ ==> hostname_verified(hostname, flake, system, journal) == failed::<()>(
            "There is no NixOS configuration for your hostname in your flake"@,
        ),
        is_success(journal.answers[journal.read]) && written(journal.answers[journal.read])
            == "true"@ && is_success(journal.answers[journal.read + 1]) && written(
            journal.answers[journal.read + 1],
        ) == "false"@ ==> hostname_verified(hostname, flake, system, journal) == failed::<()>(
            "The target NixOS configuration's Nix system is different than your host's system"@,
        ),
{
    reveal_strlit("true");
    reveal_strlit("false");
    assert("true"@.len() != "false"@.len());
    let args = seq!["--option"@, "extra-experimental-features"@, "flakes"@];
    assert(forall|expression: Seq<char>|
        args + seq!["--eval"@, "--expr"@, expression] =~= args + (seq!["--eval"@, "--expr"@]
            + #[trigger] seq![expression]));
}

/// Whether a procedure that came to `short` asks for `nix` with arguments behind those that let it take
/// its newer subcommands.
pub open spec fn asks_nix3<T>(short: Outcome<T>, args: Seq<Seq<char>>) -> bool {
    asks(
        short,
        "nix"@,
        seq![
            "--extra-experimental-features"@,
            "nix-command"@,
            "--extra-experimental-features"@,
            "flakes"@,
        ] + args,
    )
}

/// How many commands bring the lock file up to date.
pub open spec fn lock_updates(update_lockfile: bool) -> int {
    if update_lockfile {
        1
    } else {
        0
    }
}

/// The flake is pulled, its lock file is brought up to date exactly where that is wanted, and it is
/// copied to the Nix store: its store path is the text under `path` in what that command writes. Exactly
/// where it is wanted, the store path is kept from being collected. Each command has succeeded before
/// the next is asked for.
#[verifier::spinoff_prover]
pub proof fn storing_the_flake_takes_these_steps(
    flake_path: Seq<char>,
    update_lockfile: bool,
    gc_root: bool,
    journal: JournalView,
)
    requires
        0 <= journal.read,
    ensures
        flake_stored(flake_path, update_lockfile, gc_root, journal) matches Ok((path, rest)) ==> {
            let stored = |count: int|
                flake_stored(flake_path, update_lockfile, gc_root, cut(journal, count));
            let archived = journal.read + 1 + lock_updates(update_lockfile);
            &&& rest.answers == journal.answers
            &&& path.len() > 0
            &&& json_string_member(written(journal.answers[archived]), "path"@) == Some(
                Ok::<Seq<char>, Seq<char>>(path),
            )
            &&& asks(
                stored(journal.read),
                "git"@,
                seq!["-C"@, flake_path, "pull"@, "--ff-only"@],
            )
            &&& is_success(journal.answers[journal.read])
            &&& update_lockfile ==> {
                &&& asks_nix3(
                    stored(journal.read + 1),
                    seq!["flake"@, "update"@, "--flake"@, flake_path],
                )
                &&& is_success(journal.answers[journal.read + 1])
            }
            &&& asks_nix3(
                stored(archived),
                seq!["flake"@, "archive"@, "--json"@, flake_path],
            )
            &&& is_success(journal.answers[archived])
            &&& !gc_root ==> rest.read == archived + 1
            &&& gc_root ==> {
                &&& rest.read == archived + 4
                &&& waits_for(stored(archived + 1), ActionView::ReadTempDirectory)
                &&& journal.answers[archived + 1] matches Answer::TempDirectory(directory) && {
                    let place = (match directory {
                        Some(path) => path@,
                        None => "/tmp"@,
                    }) + "/nixos-install-tfg"@;
                    &&& waits_for(stored(archived + 2), ActionView::CreateDirectory(place))
                    &&& asks_nix3(
                        stored(archived + 3),
                        seq![
                            "build"@,
                            "--out-link"@,
                            place + "/result-flake-store-path"@,
                            path,
                        ],
                    )
                    &&& is_success(journal.answers[archived + 3])
                }
            }
        },
{
}

/// Whether a device is the path of a thing with a name: the name itself, or the name behind a slash.
pub open spec fn is_last_part(name: Seq<char>, device: Seq<char>) -> bool {
    &&& !name.contains('/')
    &&& device == name || exists|before: Seq<char>| device == #[trigger] before.push('/') + name
}

/// What stands behind the last slash is the last part.
proof fn last_piece_is_last_part(device: Seq<char>)
    ensures
        is_last_part(split_on(device, '/').last(), device),
{
    splitting_is_undone_by_joining(device, '/');
    let pieces = split_on(device, '/');
    assert(!pieces[pieces.len() - 1].contains('/'));
    if pieces.len() > 1 {
        let before = joined(pieces.drop_last(), '/');
        assert(device == before.push('/') + pieces.last());
    } else {
        assert(joined(pieces, '/') == pieces[0]);
    }
}

/// The Nix expression for something of a host's NixOS configuration.
pub open spec fn of_host(args: VerifiedArgsView, what: Seq<char>) -> Seq<char> {
    "(builtins.getFlake \""@ + args.flake_store_path + "\").outputs.nixosConfigurations."@
        + args.hostname + what
}

/// Each part of a configuration comes from an answer of its own: the UUIDs are the last parts of the
/// devices, the mount options and the derivation path are as written, the file system is the one that is
/// written, the mount paths are those with commas between them, in their order, and the output path is
/// the first line.
#[verifier::spinoff_prover]
pub proof fn configurations_are_read_from_the_answers(
    args: VerifiedArgsView,
    journal: JournalView,
)
    requires
        0 <= journal.read,
    ensures
        config_made(args, journal) matches Ok((config, rest)) ==> {
            let start = journal.read;
            &&& rest.answers == journal.answers
            &&& rest.read == start + 8
            &&& forall|i: int| start <= i < start + 8 ==> is_success(#[trigger] journal.answers[i])
            &&& is_last_part(config.efi_part_uuid, written(journal.answers[start]))
            &&& config.efi_part_mount_opts == written(journal.answers[start + 1])
            &&& is_last_part(config.root_part_uuid, written(journal.answers[start + 2]))
            &&& config.root_part_mount_opts == written(journal.answers[start + 3])
            &&& match config.root_part_fs_type {
                SupportedFileSystems::Btrfs => written(journal.answers[start + 4]) == "btrfs"@,
                SupportedFileSystems::Zfs => written(journal.answers[start + 4]) == "zfs"@,
            }
            &&& config.non_efi_mount_paths == sorted_paths(
                split_on(written(journal.answers[start + 5]), ','),
                false,
            )
            &&& config.nixos_system_derivation_path == written(journal.answers[start + 6])
            &&& config.nixos_system_out_path == lines_of(written(journal.answers[start + 7]))[0]
            &&& config.hostname == args.hostname
            &&& config.canonical_target_drive == args.canonical_target_drive
            &&& config.mount_path == args.mount_path
            &&& config.partition_drive == args.partition_drive
            &&& config.format_partitions == args.format_partitions
            &&& config.substitute_only == args.substitute_only
            &&& config.target_drive_by_id == args.target_drive_by_id
            &&& config.flake_store_path == args.flake_store_path
        },
{
    if config_made(args, journal) is Ok {
        last_piece_is_last_part(written(journal.answers[journal.read]));
        last_piece_is_last_part(written(journal.answers[journal.read + 2]));
    }
}

/// The parts of a configuration are asked for one after the other, each of the host's configuration in
/// the flake.
#[verifier::spinoff_prover]
pub proof fn configurations_are_asked_for_in_parts(args: VerifiedArgsView, journal: JournalView)
    requires
        0 <= journal.read,
        config_made(args, journal) is Ok,
    ensures
        asks_raw(
            config_made(args, cut(journal, journal.read)),
            of_host(args, ".config.fileSystems.\""@ + "/boot"@ + "\".device"@),
        ),
        asks_raw(
            config_made(args, cut(journal, journal.read + 2)),
            of_host(args, ".config.fileSystems.\""@ + "/"@ + "\".device"@),
        ),
        asks_raw(
            config_made(args, cut(journal, journal.read + 4)),
            of_host(args, ".config.fileSystems.\"/\".fsType"@),
        ),
        exists|command: CommandView|
            {
                &&& #[trigger] evaluates_system(
                    "local:///"@,
                    args.flake_store_path,
                    args.hostname,
                    command,
                )
                &&& waits_for(
                    config_made(args, cut(journal, journal.read + 6)),
                    ActionView::Run(command),
                )
            },
        asks(
            config_made(args, cut(journal, journal.read + 7)),
            "nix-store"@,
            seq!["--query"@, "--outputs"@, written(journal.answers[journal.read + 6])],
        ),
{
    raw_questions_are_asked();
    let flake = args.flake_store_path;
    let host = args.hostname;
    assert(device_expression(flake, host, "/boot"@) =~= of_host(
        args,
        ".config.fileSystems.\""@ + "/boot"@ + "\".device"@,
    ));
    assert(device_expression(flake, host, "/"@) =~= of_host(
        args,
        ".config.fileSystems.\""@ + "/"@ + "\".device"@,
    ));
    assert(fs_type_expression(flake, host) =~= of_host(
        args,
        ".config.fileSystems.\"/\".fsType"@,
    ));
    assert(evaluates_system(
        "local:///"@,
        flake,
        host,
        instantiate_command("local:///"@, toplevel_expression(flake, host)),
    ));
}

/// The mount options and the mount paths are asked for, each of the host's configuration in the flake.
#[verifier::spinoff_prover]
pub proof fn mount_options_and_paths_are_asked_for(args: VerifiedArgsView, journal: JournalView)
    requires
        0 <= journal.read,
    ensures
        config_made(args, journal) matches Ok((config, _)) ==> {
            &&& asks_raw(
                config_made(args, cut(journal, journal.read + 1)),
                options_question(args, "/boot"@),
            )
            &&& asks_raw(
                config_made(args, cut(journal, journal.read + 3)),
                options_question(args, "/"@),
            )
            &&& asks_raw(
                config_made(args, cut(journal, journal.read + 5)),
                paths_question(
                    args,
                    match config.root_part_fs_type {
                        SupportedFileSystems::Btrfs => "btrfs"@,
                        SupportedFileSystems::Zfs => "zfs"@,
                    },
                ),
            )
        },
{
    raw_questions_are_asked();
    let flake = args.flake_store_path;
    let host = args.hostname;
    assert(mount_options_expression(flake, host, "/boot"@) =~= options_question(args, "/boot"@));
    assert(mount_options_expression(flake, host, "/"@) =~= options_question(args, "/"@));
    assert(mount_paths_expression(flake, host, SupportedFileSystems::Btrfs) =~= paths_question(
        args,
        "btrfs"@,
    ));
    assert(mount_paths_expression(flake, host, SupportedFileSystems::Zfs) =~= paths_question(
        args,
        "zfs"@,
    ));
}

/// The options of a mount path but for the subvolume, with commas between them, as a Nix expression.
pub open spec fn options_question(args: VerifiedArgsView, path: Seq<char>) -> Seq<char> {
    "let
            startsWith = stringPrefix: stringToMatch: builtins.substring 0 (builtins.stringLength stringPrefix) stringToMatch == stringPrefix;
            fsOptions = "@
        + of_host(args, ".config.fileSystems.\""@ + path + "\".options;
            filteredFsOptions = builtins.filter (fsOption: !(startsWith \"subvol=\" fsOption)) fsOptions;
            in builtins.concatStringsSep \",\" filteredFsOptions"@)
}

/// The mount paths of the file systems of a kind, with commas between them, as a Nix expression.
pub open spec fn paths_question(args: VerifiedArgsView, kind: Seq<char>) -> Seq<char> {
    "let
            config = "@ + of_host(args, ".config;
            filteredFileSystems = builtins.filter (fs: config.fileSystems.${fs}.fsType == \""@
        + kind + "\") (builtins.attrNames config.fileSystems);
            in builtins.concatStringsSep \",\" filteredFileSystems"@)
}

/// Whether a procedure that came to `short` asks `nix-instantiate` for a text.
pub open spec fn asks_raw<T>(short: Outcome<T>, expression: Seq<char>) -> bool {
    asks_nix(short, seq!["--eval"@, "--raw"@, "--expr"@], expression)
}

/// The command that evaluates a text asks for it.
proof fn raw_questions_are_asked()
    ensures
        forall|expression: Seq<char>|
            (#[trigger] raw_eval_command(expression)).args == seq![
                "--option"@,
                "extra-experimental-features"@,
                "flakes"@,
            ] + (seq!["--eval"@, "--raw"@, "--expr"@] + seq![expression]),
{
    assert forall|expression: Seq<char>| (#[trigger] raw_eval_command(expression)).args == seq![
        "--option"@,
        "extra-experimental-features"@,
        "flakes"@,
    ] + (seq!["--eval"@, "--raw"@, "--expr"@] + seq![expression]) by {
        assert(raw_eval_command(expression).args =~= seq![
            "--option"@,
            "extra-experimental-features"@,
            "flakes"@,
        ] + (seq!["--eval"@, "--raw"@, "--expr"@] + seq![expression]));
    }
}

/// Arguments are verified by four answers: that the flake has a configuration for the host, that it is for
/// the system, that the drive is a block device named by its real path, and that an entry leads to the
/// drive. Everything else stays as it was.
#[verifier::spinoff_prover]
pub proof fn arguments_are_verified_by_four_answers(
    args: MandatoryArgsView,
    mount_path: Seq<char>,
    system: Seq<char>,
    journal: JournalView,
)
    requires
        0 <= journal.read,
    ensures
        args_verified(args, mount_path, system, journal) matches Ok((verified, rest)) ==> {
            let start = journal.read;
            &&& rest.answers == journal.answers
            &&& rest.read == start + 4
            &&& is_success(journal.answers[start]) && written(journal.answers[start]) == "true"@
            &&& is_success(journal.answers[start + 1]) && written(journal.answers[start + 1])
                == "true"@
            &&& asks_nix(
                args_verified(args, mount_path, system, cut(journal, start)),
                seq!["--eval"@, "--expr"@],
                "builtins.elem \""@ + args.hostname
                    + "\" (builtins.attrNames (builtins.getFlake \""@ + args.flake_store_path
                    + "\").outputs.nixosConfigurations)"@,
            )
            &&& asks_nix(
                args_verified(args, mount_path, system, cut(journal, start + 1)),
                seq!["--eval"@, "--expr"@],
                "(builtins.getFlake \""@ + args.flake_store_path
                    + "\").outputs.nixosConfigurations."@ + args.hostname
                    + ".pkgs.stdenv.hostPlatform.system == \""@ + system + "\""@,
            )
            &&& waits_for(
                args_verified(args, mount_path, system, cut(journal, start + 2)),
                ActionView::InspectDrive(args.canonical_target_drive),
            )
            &&& journal.answers[start + 2] matches Answer::Drive(Ok(report)) && report.exists && (
            report.is_block_device matches Ok(block) && block) && (report.real_path matches Some(
                path,
            ) && path@ == args.canonical_target_drive)
            &&& waits_for(
                args_verified(args, mount_path, system, cut(journal, start + 3)),
                ActionView::ListDiskIds,
            )
            &&& journal.answers[start + 3] matches Answer::DiskIds(Ok(ids)) && exists|i: int|
                {
                    &&& 0 <= i < ids@.len()
                    &&& verified.target_drive_by_id == ids@[i].path@
                    &&& #[trigger] is_entry_of(ids@[i], args.canonical_target_drive)
                    &&& forall|k: int|
                        0 <= k < i ==> !is_entry_of(#[trigger] ids@[k], args.canonical_target_drive)
                }
            &&& verified.hostname == args.hostname
            &&& verified.canonical_target_drive == args.canonical_target_drive
            &&& verified.partition_drive == args.partition_drive
            &&& verified.format_partitions == args.format_partitions
            &&& verified.substitute_only == args.substitute_only
            &&& verified.flake_store_path == args.flake_store_path
            &&& verified.mount_path == mount_path
        },
{
    if let Ok((verified, rest)) = args_verified(args, mount_path, system, journal) {
        hosts_are_accepted_by_two_answers(args.hostname, args.flake_store_path, system, journal);
        if let Answer::DiskIds(Ok(ids)) = journal.answers[journal.read + 3] {
            first_entry(ids@, args.canonical_target_drive);
        }
    }
}

/// The flake that the command line names is the one that is stored, with its lock file brought up to
/// date and its store path kept from being collected as the command line says.
pub proof fn the_named_flake_is_stored(options: OptionsView, journal: JournalView)
    ensures
        mandatory_args_enforced(options, journal) matches Ok((args, rest)) ==> {
            &&& options.flake_path matches Some(flake_path)
            &&& flake_stored(
                flake_path,
                options.update_lockfile,
                options.create_flake_store_path_gc_root,
                journal,
            ) == Ok::<(Seq<char>, JournalView), StopView>((args.flake_store_path, rest))
            &&& options.hostname == Some(args.hostname)
            &&& options.canonical_target_drive == Some(args.canonical_target_drive)
            &&& options.partition_drive == Some(args.partition_drive)
            &&& options.format_partitions == Some(args.format_partitions)
            &&& options.substitute_only == Some(args.substitute_only)
        },
{
    no_problem_means_complete_options(options);
}

/// A configuration comes about in four parts, each of which takes up what the ones before it gave: the
/// command line is read, the flake is stored, the arguments are verified, and the configuration of the
/// host is looked up.
#[verifier::spinoff_prover]
pub proof fn configuring_takes_these_parts(system: Seq<char>, journal: JournalView)
    requires
        0 <= journal.read,
    ensures
        configured(system, journal) matches Ok((config, rest)) ==> {
            &&& journal.answers[journal.read] == Answer::UserId(Ok(0))
            &&& journal.answers[journal.read + 1] matches Answer::Arguments(argv)
            &&& options_from(without_program(argv.deep_view()), default_options()) matches Ok(options)
            &&& mandatory_args_enforced(
                options,
                JournalView { answers: journal.answers, read: journal.read + 2 },
            ) matches Ok((args, complete))
            &&& args_verified(args, options.mount_path, system, complete) matches Ok(
                (verified, known),
            )
            &&& config_made(verified, known) == Ok::<(ConfigView, JournalView), StopView>(
                (config, rest),
            )
        },
        waits_for(configured(system, cut(journal, journal.read)), ActionView::ReadUserId)
            || journal.read > journal.answers.len(),
{
}

} // verus!
