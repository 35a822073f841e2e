//! The configuration of an installation: what the command line asks for, verified and completed
//! with what the NixOS configuration and the machine say.

use vstd::prelude::*;
use vstd::relations::sorted_by;

use crate::command_helpers::formatted_error;
use crate::command_helpers::{fenced, stdout_text, OutputView};
use crate::evaluation::{
    evaluate_nixos_system_derivation_path, evaluate_nixos_system_out_path,
    evaluate_non_efi_mount_paths, evaluate_partition_mount_options, evaluate_partition_uuid,
    evaluate_root_part_fs_type,
};
use crate::evaluation::{
    derivation_path_evaluated, mount_options_evaluated, mount_paths_evaluated, mount_paths_listed,
    out_path_evaluated, partition_uuid_evaluated, root_fs_type_evaluated,
};
use crate::file_systems::{NixOSFileSystemMountPath, SupportedFileSystems};
use crate::flake::{get_flake_store_path, verify_hostname};
use crate::flake::{flake_stored, hostname_verified};
use crate::journal::{give_up, give_up_io, Answer, DiskId, DriveReport, Failure, Journal, Stop};
use crate::journal::{
    arguments_read, comes_to, disk_ids_read, drive_read, failed, failed_io, user_id_read,
    FailureView, JournalView, Outcome, StopView,
};
use crate::options::{read_options, Options};
use crate::options::{default_options, options_from, without_program, OptionsView};
use crate::paths::same_path;
use crate::paths::{path_components, path_le, sorted_paths_are_ordered};
use crate::text::same_text;
use crate::text::{
    first_lines_of_trimmed_texts_are_not_empty, lines_of, lossy_text, split_on,
    splitting_is_undone_by_joining, trimmed_texts_have_no_space_around_them,
};

verus! {

/// The arguments that an installation cannot do without.
#[derive(Debug, PartialEq, Eq)]
pub struct MandatoryArgsUnwrapped {
    pub hostname: String,
    pub canonical_target_drive: String,
    pub partition_drive: bool,
    pub format_partitions: bool,
    pub substitute_only: bool,
    pub flake_store_path: String,
}

/// The contents of [`MandatoryArgsUnwrapped`].
pub struct MandatoryArgsView {
    pub hostname: Seq<char>,
    pub canonical_target_drive: Seq<char>,
    pub partition_drive: bool,
    pub format_partitions: bool,
    pub substitute_only: bool,
    pub flake_store_path: Seq<char>,
}

impl DeepView for MandatoryArgsUnwrapped {
    type V = MandatoryArgsView;

    open spec fn deep_view(&self) -> MandatoryArgsView {
        MandatoryArgsView {
            hostname: self.hostname@,
            canonical_target_drive: self.canonical_target_drive@,
            partition_drive: self.partition_drive,
            format_partitions: self.format_partitions,
            substitute_only: self.substitute_only,
            flake_store_path: self.flake_store_path@,
        }
    }
}

/// Arguments that have been verified.
#[derive(Debug, PartialEq, Eq)]
pub struct VerifiedArgs {
    pub hostname: String,
    pub canonical_target_drive: String,
    pub partition_drive: bool,
    pub format_partitions: bool,
    pub substitute_only: bool,
    pub flake_store_path: String,
    pub mount_path: String,
    pub target_drive_by_id: String,
}

/// The contents of [`VerifiedArgs`].
pub struct VerifiedArgsView {
    pub hostname: Seq<char>,
    pub canonical_target_drive: Seq<char>,
    pub partition_drive: bool,
    pub format_partitions: bool,
    pub substitute_only: bool,
    pub flake_store_path: Seq<char>,
    pub mount_path: Seq<char>,
    pub target_drive_by_id: Seq<char>,
}

impl DeepView for VerifiedArgs {
    type V = VerifiedArgsView;

    open spec fn deep_view(&self) -> VerifiedArgsView {
        VerifiedArgsView {
            hostname: self.hostname@,
            canonical_target_drive: self.canonical_target_drive@,
            partition_drive: self.partition_drive,
            format_partitions: self.format_partitions,
            substitute_only: self.substitute_only,
            flake_store_path: self.flake_store_path@,
            mount_path: self.mount_path@,
            target_drive_by_id: self.target_drive_by_id@,
        }
    }
}

/// All that an installation needs to know.
#[derive(PartialEq, Eq)]
pub struct NixOSInstallerConfig {
    /// The host whose NixOS configuration is installed.
    pub hostname: String,
    /// The device of the drive that is installed to.
    pub canonical_target_drive: String,
    /// Where the drive is mounted during the installation.
    pub mount_path: String,
    /// Whether the drive is partitioned anew.
    pub partition_drive: bool,
    /// Whether the partitions get new file systems.
    pub format_partitions: bool,
    /// Whether the system comes from substituters only, with nothing built.
    pub substitute_only: bool,
    /// The drive under `/dev/disk/by-id`.
    pub target_drive_by_id: String,
    pub flake_store_path: String,
    pub efi_part_uuid: String,
    pub efi_part_mount_opts: String,
    pub root_part_uuid: String,
    pub root_part_mount_opts: String,
    pub root_part_fs_type: SupportedFileSystems,
    /// The mount paths on the root partition, from the root to the leaves.
    pub non_efi_mount_paths: Vec<String>,
    pub nixos_system_derivation_path: String,
    pub nixos_system_out_path: String,
}

/// The contents of a [`NixOSInstallerConfig`].
pub struct ConfigView {
    pub hostname: Seq<char>,
    pub canonical_target_drive: Seq<char>,
    pub mount_path: Seq<char>,
    pub partition_drive: bool,
    pub format_partitions: bool,
    pub substitute_only: bool,
    pub target_drive_by_id: Seq<char>,
    pub flake_store_path: Seq<char>,
    pub efi_part_uuid: Seq<char>,
    pub efi_part_mount_opts: Seq<char>,
    pub root_part_uuid: Seq<char>,
    pub root_part_mount_opts: Seq<char>,
    pub root_part_fs_type: SupportedFileSystems,
    pub non_efi_mount_paths: Seq<Seq<char>>,
    pub nixos_system_derivation_path: Seq<char>,
    pub nixos_system_out_path: Seq<char>,
}

impl DeepView for NixOSInstallerConfig {
    type V = ConfigView;

    open spec fn deep_view(&self) -> ConfigView {
        ConfigView {
            hostname: self.hostname@,
            canonical_target_drive: self.canonical_target_drive@,
            mount_path: self.mount_path@,
            partition_drive: self.partition_drive,
            format_partitions: self.format_partitions,
            substitute_only: self.substitute_only,
            target_drive_by_id: self.target_drive_by_id@,
            flake_store_path: self.flake_store_path@,
            efi_part_uuid: self.efi_part_uuid@,
            efi_part_mount_opts: self.efi_part_mount_opts@,
            root_part_uuid: self.root_part_uuid@,
            root_part_mount_opts: self.root_part_mount_opts@,
            root_part_fs_type: self.root_part_fs_type,
            non_efi_mount_paths: self.non_efi_mount_paths.deep_view(),
            nixos_system_derivation_path: self.nixos_system_derivation_path@,
            nixos_system_out_path: self.nixos_system_out_path@,
        }
    }
}

/// What comes of verifying that the superuser runs the process.
pub open spec fn user_checked(journal: JournalView) -> Outcome<()> {
    match user_id_read(journal) {
        Err(stop) => Err(stop),
        Ok((Err(error), _)) => failed(
            "Could not determine the metadata of `/proc/self` to determine the UID of user running the process"@
                + fenced(error@),
        ),
        Ok((Ok(uid), rest)) => if uid == 0 {
            Ok(((), rest))
        } else {
            failed("The installer needs superuser privileges"@)
        },
    }
}

/// Verifies that the superuser runs the process.
pub fn user_check<'a>(journal: &mut Journal<'a>) -> (r: Result<(), Stop>)
    requires
        old(journal).wf(),
    ensures
        final(journal).wf(),
        comes_to(r, old(journal)@, final(journal)@, user_checked(old(journal)@)),
{
    match journal.user_id()? {
        Ok(uid) => if *uid == 0 {
            Ok(())
        } else {
            Err(give_up("The installer needs superuser privileges".to_string()))
        },
        Err(error) => {
            let mut text =
                "Could not determine the metadata of `/proc/self` to determine the UID of user running the process".to_string();
            text.append(formatted_error(error.as_str()).as_str());
            Err(give_up(text))
        },
    }
}

/// One problem where there is one, none otherwise.
pub open spec fn problem_if(wrong: bool, problem: Seq<char>) -> Seq<Seq<char>> {
    if wrong {
        seq![problem]
    } else {
        seq![]
    }
}

/// What the command line leaves open, and where it contradicts itself.
pub open spec fn problems_of(options: OptionsView) -> Seq<Seq<char>> {
    problem_if(options.hostname is None, "`--hostname` must be specified"@) + problem_if(
        options.canonical_target_drive is None,
        "`--target-drive` must be specified"@,
    ) + problem_if(
        options.format_partitions is None,
        "`--format-partitions` or `--no-format-partitions` must be specified"@,
    ) + problem_if(
        options.partition_drive == Some(true) && options.format_partitions != Some(true),
        "`--no-format-partitions` and `--partition-drive` are mutually exclusive"@,
    ) + problem_if(
        options.partition_drive is None,
        "`--partition-drive` or `--no-partition-drive` must be specified"@,
    ) + problem_if(
        options.substitute_only is None,
        "`--substitute-only` or `--do-build` must be specified"@,
    ) + problem_if(options.flake_path is None, "`--flake-path` must be specified"@)
}

/// Puts a problem behind the others, where there is one.
fn note(problems: &mut Vec<String>, wrong: bool, problem: &str)
    ensures
        final(problems).deep_view() == old(problems).deep_view() + problem_if(wrong, problem@),
{
    if wrong {
        problems.push(problem.to_string());
    }
    assert(problems.deep_view() =~= old(problems).deep_view() + problem_if(wrong, problem@));
}

/// What the command line leaves open, and where it contradicts itself.
pub fn find_problems(options: &Options) -> (r: Vec<String>)
    ensures
        r.deep_view() == problems_of(options.deep_view()),
{
    let mut problems: Vec<String> = Vec::new();
    assert(problems.deep_view() =~= seq![]);
    note(&mut problems, options.hostname.is_none(), "`--hostname` must be specified");
    assert(problems.deep_view() =~= problem_if(
        options.hostname is None,
        "`--hostname` must be specified"@,
    ));
    note(
        &mut problems,
        options.canonical_target_drive.is_none(),
        "`--target-drive` must be specified",
    );
    note(
        &mut problems,
        options.format_partitions.is_none(),
        "`--format-partitions` or `--no-format-partitions` must be specified",
    );
    let exclusive: bool = match options.partition_drive {
        Some(true) => match options.format_partitions {
            Some(true) => false,
            _ => true,
        },
        _ => false,
    };
    note(
        &mut problems,
        exclusive,
        "`--no-format-partitions` and `--partition-drive` are mutually exclusive",
    );
    note(
        &mut problems,
        options.partition_drive.is_none(),
        "`--partition-drive` or `--no-partition-drive` must be specified",
    );
    note(
        &mut problems,
        options.substitute_only.is_none(),
        "`--substitute-only` or `--do-build` must be specified",
    );
    note(&mut problems, options.flake_path.is_none(), "`--flake-path` must be specified");
    problems
}

/// There is no problem exactly where everything mandatory is there and a drive that is partitioned
/// is formatted too.
pub proof fn no_problem_means_complete_options(options: OptionsView)
    ensures
        problems_of(options).len() == 0 <==> {
            &&& options.hostname is Some
            &&& options.canonical_target_drive is Some
            &&& options.format_partitions is Some
            &&& options.partition_drive is Some
            &&& options.substitute_only is Some
            &&& options.flake_path is Some
            &&& options.partition_drive == Some(true) ==> options.format_partitions == Some(true)
        },
{
}

/// What comes of completing the command line: the flake is copied to the Nix store only where the
/// command line has no problems.
pub open spec fn mandatory_args_enforced(
    options: OptionsView,
    journal: JournalView,
) -> Outcome<MandatoryArgsView> {
    if problems_of(options).len() > 0 {
        Err(
            StopView::Failed(
                FailureView::BadArguments {
                    problems: problems_of(options),
                    message: "Please look at the errors above"@,
                },
            ),
        )
    } else {
        match flake_stored(
            options.flake_path->0,
            options.update_lockfile,
            options.create_flake_store_path_gc_root,
            journal,
        ) {
            Err(stop) => Err(stop),
            Ok((flake_store_path, rest)) => Ok(
                (
                    MandatoryArgsView {
                        hostname: options.hostname->0,
                        canonical_target_drive: options.canonical_target_drive->0,
                        partition_drive: options.partition_drive->0,
                        format_partitions: options.format_partitions->0,
                        substitute_only: options.substitute_only->0,
                        flake_store_path,
                    },
                    rest,
                ),
            ),
        }
    }
}

/// Completes the command line, where it has no problems.
pub fn enforce_mandatory_args<'a>(current_args: Options, journal: &mut Journal<'a>) -> (r: Result<
    MandatoryArgsUnwrapped,
    Stop,
>)
    requires
        old(journal).wf(),
    ensures
        final(journal).wf(),
        comes_to(
            r,
            old(journal)@,
            final(journal)@,
            mandatory_args_enforced(current_args.deep_view(), old(journal)@),
        ),
{
    let problems = find_problems(&current_args);
    proof {
        no_problem_means_complete_options(current_args.deep_view());
    }
    assert(problems@.len() == problems.deep_view().len());
    if problems.len() > 0 {
        let message = "Please look at the errors above".to_string();
        return Err(Stop::Failed(Failure::BadArguments { problems, message }));
    }
    match (
        current_args.hostname,
        current_args.canonical_target_drive,
        current_args.partition_drive,
        current_args.format_partitions,
        current_args.substitute_only,
        current_args.flake_path,
    ) {
        (
            Some(hostname),
            Some(canonical_target_drive),
            Some(partition_drive),
            Some(format_partitions),
            Some(substitute_only),
            Some(flake_path),
        ) => {
            let flake_store_path = get_flake_store_path(
                flake_path.as_str(),
                current_args.update_lockfile,
                current_args.create_flake_store_path_gc_root,
                journal,
            )?;
            Ok(
                MandatoryArgsUnwrapped {
                    hostname,
                    canonical_target_drive,
                    partition_drive,
                    format_partitions,
                    substitute_only,
                    flake_store_path,
                },
            )
        },
        // Without problems nothing mandatory is missing.
        _ => Err(Stop::Misfit),
    }
}

/// Whether the target drive, of which `report` tells what it leads to, is a block device and named
/// by its real path; otherwise what is wrong with it.
pub open spec fn drive_verdict(
    canonical_target_drive: Seq<char>,
    report: Result<DriveReport, String>,
) -> Result<(), Seq<char>> {
    match report {
        Err(error) => Err(
            "Could not canonicalize '"@ + canonical_target_drive + "'"@ + fenced(error@),
        ),
        Ok(found) => if !found.exists {
            Err("The target drive is not even a valid path"@)
        } else {
            match found.is_block_device {
                Err(error) => Err(
                    "Could not determine the metadata for target drive"@ + fenced(error@),
                ),
                Ok(false) => Err("The target drive is not a block device"@),
                Ok(true) => match found.real_path {
                    None => Err(
                        "Could not convert the value of `PathBuf` type from '"@
                            + found.displayed_path@ + "' to the `&str` type"@,
                    ),
                    Some(real_path) => if canonical_target_drive == real_path@ {
                        Ok(())
                    } else {
                        Err(
                            "The real path of the target drive is '"@ + found.displayed_path@
                                + "', not '"@ + canonical_target_drive + "'"@,
                        )
                    },
                },
            }
        },
    }
}

/// Whether the target drive is a block device and named by its real path.
pub fn judge_drive(canonical_target_drive: &str, report: &Result<DriveReport, String>) -> (r:
    Result<(), String>)
    ensures
        match r {
            Ok(_) => drive_verdict(canonical_target_drive@, *report) == Ok::<(), Seq<char>>(()),
            Err(text) => drive_verdict(canonical_target_drive@, *report) == Err::<(), Seq<char>>(
                text@,
            ),
        },
{
    match report {
        Err(error) => {
            let mut text = "Could not canonicalize '".to_string();
            text.append(canonical_target_drive);
            text.append("'");
            text.append(formatted_error(error.as_str()).as_str());
            Err(text)
        },
        Ok(found) => if !found.exists {
            Err("The target drive is not even a valid path".to_string())
        } else {
            match &found.is_block_device {
                Err(error) => {
                    let mut text =
                        "Could not determine the metadata for target drive".to_string();
                    text.append(formatted_error(error.as_str()).as_str());
                    Err(text)
                },
                Ok(false) => Err("The target drive is not a block device".to_string()),
                Ok(true) => match &found.real_path {
                    None => {
                        let mut text =
                            "Could not convert the value of `PathBuf` type from '".to_string();
                        text.append(found.displayed_path.as_str());
                        text.append("' to the `&str` type");
                        Err(text)
                    },
                    Some(real_path) => if same_text(canonical_target_drive, real_path.as_str()) {
                        Ok(())
                    } else {
                        let mut text = "The real path of the target drive is '".to_string();
                        text.append(found.displayed_path.as_str());
                        text.append("', not '");
                        text.append(canonical_target_drive);
                        text.append("'");
                        Err(text)
                    },
                },
            }
        },
    }
}

/// What comes of verifying the target drive.
pub open spec fn target_drive_verified(
    canonical_target_drive: Seq<char>,
    journal: JournalView,
) -> Outcome<()> {
    match drive_read(canonical_target_drive, journal) {
        Err(stop) => Err(stop),
        Ok((report, rest)) => match drive_verdict(canonical_target_drive, report) {
            Err(text) => failed(text),
            Ok(_) => Ok(((), rest)),
        },
    }
}

/// Verifies that the target drive is a block device and named by its real path.
pub fn verify_target_drive<'a>(canonical_target_drive: &str, journal: &mut Journal<'a>) -> (r:
    Result<(), Stop>)
    requires
        old(journal).wf(),
    ensures
        final(journal).wf(),
        comes_to(
            r,
            old(journal)@,
            final(journal)@,
            target_drive_verified(canonical_target_drive@, old(journal)@),
        ),
{
    let report = journal.drive(canonical_target_drive)?;
    match judge_drive(canonical_target_drive, report) {
        Err(text) => Err(give_up(text)),
        Ok(_) => Ok(()),
    }
}

/// Whether an entry leads to the given device.
pub open spec fn leads_to(id: DiskId, device: Seq<char>) -> bool {
    id.device matches Some(path) && path_components(path@) == path_components(device)
}

/// The first of some entries that leads to the given device.
pub open spec fn id_of_device(ids: Seq<DiskId>, device: Seq<char>) -> Option<Seq<char>>
    decreases ids.len(),
{
    if ids.len() == 0 {
        None
    } else if leads_to(ids[0], device) {
        Some(ids[0].path@)
    } else {
        id_of_device(ids.skip(1), device)
    }
}

/// The first of some entries that leads to the given device.
pub fn find_id_of_device(ids: &Vec<DiskId>, device: &str) -> (r: Option<String>)
    ensures
        r.deep_view() == id_of_device(ids@, device@),
{
    let mut i: usize = 0;
    assert(ids@.skip(0) =~= ids@);
    while i < ids.len()
        invariant
            i <= ids@.len(),
            id_of_device(ids@, device@) == id_of_device(ids@.skip(i as int), device@),
        decreases ids@.len() - i,
    {
        let leads: bool = match &ids[i].device {
            Some(path) => same_path(path.as_str(), device),
            None => false,
        };
        if leads {
            return Some(ids[i].path.clone());
        }
        assert(ids@.skip(i as int).skip(1) =~= ids@.skip(i + 1));
        i = i + 1;
    }
    None
}

/// What comes of looking up the drive under `/dev/disk/by-id`.
pub open spec fn drive_by_id_found(
    canonical_target_drive: Seq<char>,
    journal: JournalView,
) -> Outcome<Seq<char>> {
    match disk_ids_read(journal) {
        Err(stop) => Err(stop),
        Ok((Err(error), _)) => failed_io(error@),
        Ok((Ok(ids), rest)) => match id_of_device(ids@, canonical_target_drive) {
            None => failed("Could not determine the by-id path of the target drive"@),
            Some(path) => Ok((path, rest)),
        },
    }
}

/// Looks up the drive under `/dev/disk/by-id`.
pub fn get_target_drive_by_id<'a>(canonical_target_drive: &str, journal: &mut Journal<'a>) -> (r:
    Result<String, Stop>)
    requires
        old(journal).wf(),
    ensures
        final(journal).wf(),
        comes_to(
            r,
            old(journal)@,
            final(journal)@,
            drive_by_id_found(canonical_target_drive@, old(journal)@),
        ),
{
    match journal.disk_ids()? {
        Err(error) => Err(give_up_io(error.as_str())),
        Ok(ids) => match find_id_of_device(ids, canonical_target_drive) {
            None => Err(
                give_up("Could not determine the by-id path of the target drive".to_string()),
            ),
            Some(path) => Ok(path),
        },
    }
}

/// What comes of verifying the arguments.
pub open spec fn args_verified(
    args: MandatoryArgsView,
    mount_path: Seq<char>,
    system: Seq<char>,
    journal: JournalView,
) -> Outcome<VerifiedArgsView> {
    match hostname_verified(args.hostname, args.flake_store_path, system, journal) {
        Err(stop) => Err(stop),
        Ok((_, known)) => match target_drive_verified(args.canonical_target_drive, known) {
            Err(stop) => Err(stop),
            Ok((_, seen)) => match drive_by_id_found(args.canonical_target_drive, seen) {
                Err(stop) => Err(stop),
                Ok((target_drive_by_id, rest)) => Ok(
                    (
                        VerifiedArgsView {
                            hostname: args.hostname,
                            canonical_target_drive: args.canonical_target_drive,
                            partition_drive: args.partition_drive,
                            format_partitions: args.format_partitions,
                            substitute_only: args.substitute_only,
                            flake_store_path: args.flake_store_path,
                            mount_path,
                            target_drive_by_id,
                        },
                        rest,
                    ),
                ),
            },
        },
    }
}

/// Verifies the arguments.
pub fn verify_args<'a>(
    current_args: MandatoryArgsUnwrapped,
    mount_path: String,
    system: &str,
    journal: &mut Journal<'a>,
) -> (r: Result<VerifiedArgs, Stop>)
    requires
        old(journal).wf(),
    ensures
        final(journal).wf(),
        comes_to(
            r,
            old(journal)@,
            final(journal)@,
            args_verified(current_args.deep_view(), mount_path@, system@, old(journal)@),
        ),
{
    verify_hostname(
        current_args.hostname.as_str(),
        current_args.flake_store_path.as_str(),
        system,
        journal,
    )?;
    verify_target_drive(current_args.canonical_target_drive.as_str(), journal)?;
    let target_drive_by_id = get_target_drive_by_id(
        current_args.canonical_target_drive.as_str(),
        journal,
    )?;
    Ok(
        VerifiedArgs {
            hostname: current_args.hostname,
            canonical_target_drive: current_args.canonical_target_drive,
            partition_drive: current_args.partition_drive,
            format_partitions: current_args.format_partitions,
            substitute_only: current_args.substitute_only,
            flake_store_path: current_args.flake_store_path,
            mount_path,
            target_drive_by_id,
        },
    )
}

/// What comes of completing verified arguments with what the NixOS configuration says.
pub open spec fn config_made(args: VerifiedArgsView, journal: JournalView) -> Outcome<ConfigView> {
    let flake = args.flake_store_path;
    let host = args.hostname;
    match partition_uuid_evaluated(flake, host, NixOSFileSystemMountPath::Efi, journal) {
        Err(stop) => Err(stop),
        Ok((efi_part_uuid, j1)) => match mount_options_evaluated(
            flake,
            host,
            NixOSFileSystemMountPath::Efi,
            j1,
        ) {
            Err(stop) => Err(stop),
            Ok((efi_part_mount_opts, j2)) => match partition_uuid_evaluated(
                flake,
                host,
                NixOSFileSystemMountPath::Root,
                j2,
            ) {
                Err(stop) => Err(stop),
                Ok((root_part_uuid, j3)) => match mount_options_evaluated(
                    flake,
                    host,
                    NixOSFileSystemMountPath::Root,
                    j3,
                ) {
                    Err(stop) => Err(stop),
                    Ok((root_part_mount_opts, j4)) => match root_fs_type_evaluated(
                        flake,
                        host,
                        j4,
                    ) {
                        Err(stop) => Err(stop),
                        Ok((root_part_fs_type, j5)) => match mount_paths_evaluated(
                            flake,
                            host,
                            root_part_fs_type,
                            j5,
                        ) {
                            Err(stop) => Err(stop),
                            Ok((non_efi_mount_paths, j6)) => match derivation_path_evaluated(
                                "local:///"@,
                                flake,
                                host,
                                j6,
                            ) {
                                Err(stop) => Err(stop),
                                Ok((nixos_system_derivation_path, j7)) => match out_path_evaluated(
                                    nixos_system_derivation_path,
                                    j7,
                                ) {
                                    Err(stop) => Err(stop),
                                    Ok((nixos_system_out_path, j8)) => Ok(
                                        (
                                            ConfigView {
                                                hostname: args.hostname,
                                                canonical_target_drive: args.canonical_target_drive,
                                                mount_path: args.mount_path,
                                                partition_drive: args.partition_drive,
                                                format_partitions: args.format_partitions,
                                                substitute_only: args.substitute_only,
                                                target_drive_by_id: args.target_drive_by_id,
                                                flake_store_path: args.flake_store_path,
                                                efi_part_uuid,
                                                efi_part_mount_opts,
                                                root_part_uuid,
                                                root_part_mount_opts,
                                                root_part_fs_type,
                                                non_efi_mount_paths,
                                                nixos_system_derivation_path,
                                                nixos_system_out_path,
                                            },
                                            j8,
                                        ),
                                    ),
                                },
                            },
                        },
                    },
                },
            },
        },
    }
}

/// Completes verified arguments with what the NixOS configuration says.
pub fn make_nixos_installer_config<'a>(
    verified_args: VerifiedArgs,
    journal: &mut Journal<'a>,
) -> (r: Result<NixOSInstallerConfig, Stop>)
    requires
        old(journal).wf(),
    ensures
        final(journal).wf(),
        comes_to(
            r,
            old(journal)@,
            final(journal)@,
            config_made(verified_args.deep_view(), old(journal)@),
        ),
{
    let flake = verified_args.flake_store_path.as_str();
    let host = verified_args.hostname.as_str();
    let efi_part_uuid = evaluate_partition_uuid(
        flake,
        host,
        &NixOSFileSystemMountPath::Efi,
        journal,
    )?;
    let efi_part_mount_opts = evaluate_partition_mount_options(
        flake,
        host,
        &NixOSFileSystemMountPath::Efi,
        journal,
    )?;
    let root_part_uuid = evaluate_partition_uuid(
        flake,
        host,
        &NixOSFileSystemMountPath::Root,
        journal,
    )?;
    let root_part_mount_opts = evaluate_partition_mount_options(
        flake,
        host,
        &NixOSFileSystemMountPath::Root,
        journal,
    )?;
    let root_part_fs_type = evaluate_root_part_fs_type(flake, host, journal)?;
    let non_efi_mount_paths = evaluate_non_efi_mount_paths(
        flake,
        host,
        &root_part_fs_type,
        journal,
    )?;
    let nixos_system_derivation_path = evaluate_nixos_system_derivation_path(
        "local:///",
        flake,
        host,
        journal,
    )?;
    let nixos_system_out_path = evaluate_nixos_system_out_path(
        nixos_system_derivation_path.as_str(),
        journal,
    )?;
    Ok(
        NixOSInstallerConfig {
            hostname: verified_args.hostname,
            canonical_target_drive: verified_args.canonical_target_drive,
            mount_path: verified_args.mount_path,
            partition_drive: verified_args.partition_drive,
            format_partitions: verified_args.format_partitions,
            substitute_only: verified_args.substitute_only,
            target_drive_by_id: verified_args.target_drive_by_id,
            flake_store_path: verified_args.flake_store_path,
            efi_part_uuid,
            efi_part_mount_opts,
            root_part_uuid,
            root_part_mount_opts,
            root_part_fs_type,
            non_efi_mount_paths,
            nixos_system_derivation_path,
            nixos_system_out_path,
        },
    )
}

/// What comes of configuring an installation.
pub open spec fn configured(system: Seq<char>, journal: JournalView) -> Outcome<ConfigView> {
    match user_checked(journal) {
        Err(stop) => Err(stop),
        Ok((_, allowed)) => match arguments_read(allowed) {
            Err(stop) => Err(stop),
            Ok((argv, started)) => match options_from(
                without_program(argv.deep_view()),
                default_options(),
            ) {
                Err(error) => Err(StopView::Failed(FailureView::Usage(error))),
                Ok(options) => match mandatory_args_enforced(options, started) {
                    Err(stop) => Err(stop),
                    Ok((args, complete)) => match args_verified(
                        args,
                        options.mount_path,
                        system,
                        complete,
                    ) {
                        Err(stop) => Err(stop),
                        Ok((verified, rest)) => config_made(verified, rest),
                    },
                },
            },
        },
    }
}

/// Configures an installation on a machine of the given Nix system.
pub fn configure<'a>(system: &str, journal: &mut Journal<'a>) -> (r: Result<
    NixOSInstallerConfig,
    Stop,
>)
    requires
        old(journal).wf(),
    ensures
        final(journal).wf(),
        comes_to(r, old(journal)@, final(journal)@, configured(system@, old(journal)@)),
{
    user_check(journal)?;
    let argv = journal.arguments()?;
    let options = match read_options(argv) {
        Err(error) => {
            return Err(Stop::Failed(Failure::Usage(error)));
        },
        Ok(options) => options,
    };
    let mount_path = options.mount_path.clone();
    let args = enforce_mandatory_args(options, journal)?;
    let verified = verify_args(args, mount_path, system, journal)?;
    make_nixos_installer_config(verified, journal)
}

/// Whether nothing is missing from a configuration, a drive that is partitioned is formatted too,
/// the UUIDs are single parts of a path, and the mount paths stand in the order from the root to the
/// leaves.
pub open spec fn is_complete(config: ConfigView) -> bool {
    &&& config.partition_drive ==> config.format_partitions
    &&& config.flake_store_path.len() > 0
    &&& config.efi_part_mount_opts.len() > 0
    &&& config.root_part_mount_opts.len() > 0
    &&& !config.efi_part_uuid.contains('/')
    &&& !config.root_part_uuid.contains('/')
    &&& config.nixos_system_derivation_path.len() > 0
    &&& config.nixos_system_out_path.len() > 0
    &&& config.non_efi_mount_paths.len() > 0
    &&& sorted_by(config.non_efi_mount_paths, path_le(false))
}

/// Whether the machine has said that the target drive is a block device named by its real path, and
/// that `/dev/disk/by-id` has an entry for it.
pub open spec fn is_known_drive(
    answers: Seq<Answer>,
    canonical_target_drive: Seq<char>,
    target_drive_by_id: Seq<char>,
) -> bool {
    &&& exists|i: int|
        0 <= i < answers.len() && (#[trigger] answers[i] matches Answer::Drive(report)
            && drive_verdict(canonical_target_drive, report) is Ok && (report matches Ok(found)
            && found.exists && found.is_block_device == Ok::<bool, String>(true) && (
        found.real_path matches Some(path) && path@ == canonical_target_drive)))
    &&& exists|i: int|
        0 <= i < answers.len() && (#[trigger] answers[i] matches Answer::DiskIds(Ok(ids))
            && id_of_device(ids@, canonical_target_drive) == Some(target_drive_by_id))
}

/// Completed arguments have a flake, and a drive that is partitioned is formatted too.
proof fn enforced_args_are_complete(options: OptionsView, journal: JournalView)
    ensures
        mandatory_args_enforced(options, journal) matches Ok((args, rest)) ==> {
            &&& args.partition_drive ==> args.format_partitions
            &&& args.flake_store_path.len() > 0
            &&& rest.answers == journal.answers
            &&& journal.read <= rest.read
        },
{
    no_problem_means_complete_options(options);
}

/// Arguments are verified only for a drive that the machine knows.
proof fn verified_drives_are_known(
    args: MandatoryArgsView,
    mount_path: Seq<char>,
    system: Seq<char>,
    journal: JournalView,
)
    requires
        0 <= journal.read,
    ensures
        args_verified(args, mount_path, system, journal) matches Ok((verified, rest)) ==> {
            &&& verified.partition_drive == args.partition_drive
            &&& verified.format_partitions == args.format_partitions
            &&& verified.flake_store_path == args.flake_store_path
            &&& is_known_drive(
                journal.answers,
                verified.canonical_target_drive,
                verified.target_drive_by_id,
            )
        },
{
    if let Ok((_, known)) = hostname_verified(
        args.hostname,
        args.flake_store_path,
        system,
        journal,
    ) {
        assert(known.answers == journal.answers && journal.read <= known.read);
        if let Ok((report, seen)) = drive_read(args.canonical_target_drive, known) {
            assert(journal.answers[known.read] == Answer::Drive(report));
            if let Ok((ids, _)) = disk_ids_read(seen) {
                assert(journal.answers[seen.read] == Answer::DiskIds(ids));
            }
        }
    }
}

/// What the NixOS configuration says is complete.
proof fn made_configs_are_complete(args: VerifiedArgsView, journal: JournalView)
    ensures
        config_made(args, journal) matches Ok((config, _)) ==> {
            &&& config.partition_drive == args.partition_drive
            &&& config.format_partitions == args.format_partitions
            &&& config.flake_store_path == args.flake_store_path
            &&& config.canonical_target_drive == args.canonical_target_drive
            &&& config.target_drive_by_id == args.target_drive_by_id
            &&& config.efi_part_mount_opts.len() > 0
            &&& config.root_part_mount_opts.len() > 0
            &&& !config.efi_part_uuid.contains('/')
            &&& !config.root_part_uuid.contains('/')
            &&& config.nixos_system_derivation_path.len() > 0
            &&& config.nixos_system_out_path.len() > 0
            &&& config.non_efi_mount_paths.len() > 0
            &&& sorted_by(config.non_efi_mount_paths, path_le(false))
        },
{
    if let Ok((config, _)) = config_made(args, journal) {
        let efi_device = choose|device: Seq<char>|
            config.efi_part_uuid == (#[trigger] split_on(device, '/')).last();
        splitting_is_undone_by_joining(efi_device, '/');
        let root_device = choose|device: Seq<char>|
            config.root_part_uuid == (#[trigger] split_on(device, '/')).last();
        splitting_is_undone_by_joining(root_device, '/');
        let output = choose|output: OutputView| {
            &&& #[trigger] stdout_text(output).len() > 0
            &&& config.nixos_system_out_path == lines_of(stdout_text(output))[0]
        };
        trimmed_texts_have_no_space_around_them(lossy_text(output.stdout));
        first_lines_of_trimmed_texts_are_not_empty(stdout_text(output));
        let list = choose|list: Seq<char>|
            config.non_efi_mount_paths == #[trigger] mount_paths_listed(list);
        splitting_is_undone_by_joining(list, ',');
        sorted_paths_are_ordered(split_on(list, ','), false);
    }
}

/// A configuration comes about only for the superuser, only where nothing is missing, and only for
/// a drive that the machine knows.
pub proof fn configurations_are_complete(system: Seq<char>, journal: JournalView)
    requires
        0 <= journal.read,
    ensures
        configured(system, journal) matches Ok((config, rest)) ==> {
            &&& journal.read < journal.answers.len()
            &&& journal.answers[journal.read] matches Answer::UserId(Ok(0))
            &&& is_complete(config)
            &&& is_known_drive(
                journal.answers,
                config.canonical_target_drive,
                config.target_drive_by_id,
            )
        },
{
    if let Ok((_, allowed)) = user_checked(journal) {
        if let Ok((argv, started)) = arguments_read(allowed) {
            if let Ok(options) = options_from(
                without_program(argv.deep_view()),
                default_options(),
            ) {
                enforced_args_are_complete(options, started);
                if let Ok((args, complete)) = mandatory_args_enforced(options, started) {
                    verified_drives_are_known(args, options.mount_path, system, complete);
                    if let Ok((verified, rest)) = args_verified(
                        args,
                        options.mount_path,
                        system,
                        complete,
                    ) {
                        made_configs_are_complete(verified, rest);
                    }
                }
            }
        }
    }
}

/// A configuration holds what the command line asks for.
pub proof fn configurations_follow_the_command_line(system: Seq<char>, journal: JournalView)
    ensures
        configured(system, journal) matches Ok((config, _)) ==> {
            &&& journal.answers[journal.read + 1] matches Answer::Arguments(argv)
            &&& options_from(without_program(argv.deep_view()), default_options()) matches Ok(options)
            &&& options.hostname == Some(config.hostname)
            &&& options.canonical_target_drive == Some(config.canonical_target_drive)
            &&& options.mount_path == config.mount_path
            &&& options.partition_drive == Some(config.partition_drive)
            &&& options.format_partitions == Some(config.format_partitions)
            &&& options.substitute_only == Some(config.substitute_only)
        },
{
    if let Ok((_, allowed)) = user_checked(journal) {
        if let Ok((argv, _)) = arguments_read(allowed) {
            if let Ok(options) = options_from(
                without_program(argv.deep_view()),
                default_options(),
            ) {
                no_problem_means_complete_options(options);
            }
        }
    }
}

} // verus!
