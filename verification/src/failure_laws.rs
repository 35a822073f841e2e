//! What failures come from: the installer gives up only where an answer of the machine is one to give up
//! for, or where the command line leaves something open.

use vstd::prelude::*;

use crate::command_helpers::{
    performed, performed_with_retries, retried, CommandView, MAX_ATTEMPTS, OutputView,
    ProcessOutput,
};
use crate::config::{
    args_verified, config_made, mandatory_args_enforced, problem_if, problems_of, ConfigView,
    MandatoryArgsView, VerifiedArgsView,
};
use crate::disk_helpers::{
    all_unmounted, disk_ops_performed, drive_partitioned, efi_filesystem_made, filesystem_mounted,
    limit_command, mkfs_btrfs_command, mkfs_fat_command, mount_command, parted_command,
    partprobe_command, repartitioned, root_filesystem_made, root_filesystems_mounted, size_limit,
    snapshot_command, snapshot_made, subvolume_command, subvolume_made, subvolume_mounted,
    subvolume_prepared, subvolumes_mounted, subvolumes_prepared, udev_settled, udevadm_command,
    umount_command, wipefs_command,
};
use crate::disk_laws::{are_the_partitions, drives_have_exactly_two_partitions, is_success};
use crate::file_systems::SupportedFileSystems;
use crate::flake::{flake_stored, json_string_member};
use crate::install_laws::{is_exit_zero, says_it_is_busy};
use crate::installer::nixos_installed;
use crate::journal::{
    creation_read, existence_read, failed, paused, ran, ActionView, Answer, FailureView,
    JournalView, Outcome, StopView,
};
use crate::lookup_laws::{first_entry, is_entry_of, lock_updates, written};
use crate::options::OptionsView;
use crate::paths::subvolume_name;
use crate::text::{lossy_text, trimmed};
use crate::transcript::{cut, waits_for};

verus! {

/// Whether an answer says that something could not be done, or that a drive has other partitions than
/// two.
pub open spec fn is_trouble(answer: Answer, drive: Seq<char>) -> bool {
    match answer {
        Answer::Process(Ok(output)) => output.code != Some(0i32),
        Answer::Process(Err(_)) => true,
        Answer::Status(Ok(code)) => code != Some(0i32),
        Answer::Status(Err(_)) => true,
        Answer::Mounts(Err(_)) => true,
        Answer::Created(Err(_)) => true,
        Answer::DiskIds(Err(_)) => true,
        Answer::DiskIds(Ok(ids)) => !exists|a: int, b: int| #[trigger]
            are_the_partitions(ids@, drive, a, b),
        _ => false,
    }
}

/// Whether one of the answers that are still to be read is trouble.
pub open spec fn has_trouble(journal: JournalView, drive: Seq<char>) -> bool {
    exists|i: int|
        journal.read <= i < journal.answers.len() && is_trouble(
            #[trigger] journal.answers[i],
            drive,
        )
}

/// Whether a procedure reads on in the journal where it ends well, and fails only where one of the
/// answers is trouble. It never stops for want of a way to make a file system of ZFS.
pub open spec fn fails_by_trouble<T>(
    came_to: Outcome<T>,
    journal: JournalView,
    drive: Seq<char>,
) -> bool {
    match came_to {
        Ok((_, rest)) => rest.answers == journal.answers && journal.read <= rest.read,
        Err(StopView::Failed(_)) => has_trouble(journal, drive),
        Err(stop) => stop != StopView::NoZfsFormat,
    }
}

/// Trouble further on in the journal is trouble in the journal.
proof fn trouble_stays(journal: JournalView, rest: JournalView, drive: Seq<char>)
    requires
        rest.answers == journal.answers,
        journal.read <= rest.read,
    ensures
        has_trouble(rest, drive) ==> has_trouble(journal, drive),
{
}

proof fn performed_fails_by_trouble(
    command: CommandView,
    complaint: Seq<char>,
    journal: JournalView,
    drive: Seq<char>,
)
    requires
        0 <= journal.read,
    ensures
        fails_by_trouble(performed(command, complaint, journal), journal, drive),
{
    if 0 <= journal.read < journal.answers.len() {
        assert(is_trouble(journal.answers[journal.read], drive) || !is_trouble(
            journal.answers[journal.read],
            drive,
        ));
    }
}

proof fn retried_reads_the_last_answer(
    max_attempts: nat,
    tried: nat,
    command: CommandView,
    journal: JournalView,
)
    requires
        0 <= journal.read,
        tried < max_attempts,
    ensures
        match retried(max_attempts, tried, command, journal) {
            Ok((attempt, rest)) => {
                &&& rest.answers == journal.answers
                &&& journal.read < rest.read <= journal.answers.len()
                &&& match attempt {
                    Ok(output) => rest.answers[rest.read - 1] matches Answer::Process(Ok(left))
                        && left.deep_view() == output,
                    Err(_) => rest.answers[rest.read - 1] is Process
                        && rest.answers[rest.read - 1]->Process_0 is Err,
                }
            },
            Err(stop) => !(stop is Failed) && stop != StopView::NoZfsFormat,
        },
    decreases max_attempts - tried,
{
    if let Ok((_, rest)) = ran(command, journal) {
        if let Ok((_, later)) = paused(rest) {
            if tried + 1 < max_attempts {
                retried_reads_the_last_answer(max_attempts, tried + 1, command, later);
            }
        }
    }
}

proof fn performed_with_retries_fails_by_trouble(
    command: CommandView,
    complaint: Seq<char>,
    journal: JournalView,
    drive: Seq<char>,
)
    requires
        0 <= journal.read,
    ensures
        fails_by_trouble(performed_with_retries(command, complaint, journal), journal, drive),
{
    retried_reads_the_last_answer(MAX_ATTEMPTS as nat, 0, command, journal);
    if let Ok((_, rest)) = retried(MAX_ATTEMPTS as nat, 0, command, journal) {
        assert(is_trouble(journal.answers[rest.read - 1], drive) || !is_trouble(
            journal.answers[rest.read - 1],
            drive,
        ));
    }
}

proof fn udev_settled_fails_by_trouble(of: Seq<char>, journal: JournalView, drive: Seq<char>)
    requires
        0 <= journal.read,
    ensures
        fails_by_trouble(udev_settled(of, journal), journal, drive),
{
    let probe = partprobe_command(of);
    let text = "The `partprobe` command failed"@;
    performed_fails_by_trouble(probe, text, journal, drive);
    if let Ok((_, rest)) = performed(probe, text, journal) {
        trouble_stays(journal, rest, drive);
        performed_fails_by_trouble(
            udevadm_command(),
            "The `udevadm` command failed"@,
            rest,
            drive,
        );
    }
}

/// What is mounted from a drive is unmounted unless the mounts cannot be read or `umount` fails.
#[verifier::spinoff_prover]
pub proof fn unmounting_fails_by_trouble(of: Seq<char>, journal: JournalView, drive: Seq<char>)
    requires
        0 <= journal.read,
    ensures
        fails_by_trouble(all_unmounted(of, journal), journal, drive),
{
    if 0 <= journal.read < journal.answers.len() {
        let answer = journal.answers[journal.read];
        assert(is_trouble(answer, drive) || !is_trouble(answer, drive));
        if journal.read + 1 < journal.answers.len() {
            let next = journal.answers[journal.read + 1];
            assert(is_trouble(next, drive) || !is_trouble(next, drive));
        }
    }
}

proof fn repartitioned_fails_by_trouble(
    config: ConfigView,
    journal: JournalView,
    drive: Seq<char>,
)
    requires
        0 <= journal.read,
    ensures
        fails_by_trouble(repartitioned(config, journal), journal, drive),
{
    let wipe = wipefs_command(config.target_drive_by_id);
    let text = "Could not wipe the target disk"@;
    performed_fails_by_trouble(wipe, text, journal, drive);
    if let Ok((_, rest)) = performed(wipe, text, journal) {
        trouble_stays(journal, rest, drive);
        performed_fails_by_trouble(
            parted_command(config.target_drive_by_id),
            "Disk partitioning failed"@,
            rest,
            drive,
        );
    }
}

/// A drive is partitioned unless a command fails, the partitions cannot be listed, or they are not two.
#[verifier::spinoff_prover]
pub proof fn partitioning_fails_by_trouble(config: ConfigView, journal: JournalView)
    requires
        0 <= journal.read,
    ensures
        fails_by_trouble(drive_partitioned(config, journal), journal, config.target_drive_by_id),
{
    let drive = config.target_drive_by_id;
    repartitioned_fails_by_trouble(config, journal, drive);
    if let Ok((_, divided)) = repartitioned(config, journal) {
        trouble_stays(journal, divided, drive);
        udev_settled_fails_by_trouble(config.canonical_target_drive, divided, drive);
        if let Ok((_, settled)) = udev_settled(config.canonical_target_drive, divided) {
            trouble_stays(divided, settled, drive);
            if settled.read < settled.answers.len() {
                let answer = settled.answers[settled.read];
                if let Answer::DiskIds(Ok(ids)) = answer {
                    drives_have_exactly_two_partitions(config, ids, settled);
                }
                assert(is_trouble(answer, drive) || !is_trouble(answer, drive));
            }
        }
    }
}

/// A file system is mounted unless its mount path cannot be created or `mount` fails.
pub proof fn mounting_fails_by_trouble(
    mount_options: Seq<char>,
    block_device: Seq<char>,
    mount_path: Seq<char>,
    journal: JournalView,
    drive: Seq<char>,
)
    requires
        0 <= journal.read,
    ensures
        fails_by_trouble(
            filesystem_mounted(mount_options, block_device, mount_path, journal),
            journal,
            drive,
        ),
{
    if journal.read < journal.answers.len() {
        let answer = journal.answers[journal.read];
        assert(is_trouble(answer, drive) || !is_trouble(answer, drive));
    }
    if let Ok((_, rest)) = creation_read(mount_path, journal) {
        trouble_stays(journal, rest, drive);
        performed_with_retries_fails_by_trouble(
            mount_command(mount_options, block_device, mount_path),
            "The mount command failed"@,
            rest,
            drive,
        );
    }
}

/// The file systems are made unless a command fails.
pub proof fn formatting_fails_by_trouble(
    config: ConfigView,
    block_device: Seq<char>,
    journal: JournalView,
    drive: Seq<char>,
)
    requires
        0 <= journal.read,
    ensures
        fails_by_trouble(efi_filesystem_made(config, block_device, journal), journal, drive),
        fails_by_trouble(root_filesystem_made(config, block_device, journal), journal, drive),
{
    let fat = mkfs_fat_command(config.efi_part_uuid, block_device);
    let fat_text = "The `mkfs` command to create an EFI filesystem failed"@;
    performed_with_retries_fails_by_trouble(fat, fat_text, journal, drive);
    if let Ok((_, rest)) = performed_with_retries(fat, fat_text, journal) {
        trouble_stays(journal, rest, drive);
        udev_settled_fails_by_trouble(config.canonical_target_drive, rest, drive);
    }
    let btrfs = mkfs_btrfs_command(config.hostname, config.root_part_uuid, block_device);
    let btrfs_text = "The `mkfs` command to create a filesystem for rootfs failed"@;
    performed_with_retries_fails_by_trouble(btrfs, btrfs_text, journal, drive);
    if let Ok((_, rest)) = performed_with_retries(btrfs, btrfs_text, journal) {
        trouble_stays(journal, rest, drive);
        udev_settled_fails_by_trouble(config.canonical_target_drive, rest, drive);
    }
}

#[verifier::spinoff_prover]
proof fn subvolume_prepared_fails_by_trouble(
    path: Seq<char>,
    mount_path: Seq<char>,
    journal: JournalView,
    drive: Seq<char>,
)
    requires
        0 <= journal.read,
    ensures
        fails_by_trouble(subvolume_prepared(path, mount_path, journal), journal, drive),
{
    let name = subvolume_name(path);
    let place = mount_path + "/"@ + name;
    if let Ok((found, rest)) = existence_read(place, journal) {
        trouble_stays(journal, rest, drive);
        performed_fails_by_trouble(
            subvolume_command(place),
            "Could not create the btrfs subvolume"@,
            rest,
            drive,
        );
    }
    if let Ok((_, made)) = subvolume_made(place, journal) {
        trouble_stays(journal, made, drive);
        performed_fails_by_trouble(
            snapshot_command(place),
            "Could not create a fresh snapshot for subvolume '"@ + name + "'"@,
            made,
            drive,
        );
        if let Some(limit) = size_limit(path) {
            let command = limit_command(limit, place);
            let text = "Could not enforce subvolume limit"@;
            performed_fails_by_trouble(command, text, made, drive);
            if let Ok((_, kept)) = snapshot_made(name, place, made) {
                trouble_stays(made, kept, drive);
                performed_fails_by_trouble(command, text, kept, drive);
            }
        }
    }
}

proof fn subvolumes_prepared_fails_by_trouble(
    paths: Seq<Seq<char>>,
    mount_path: Seq<char>,
    journal: JournalView,
    drive: Seq<char>,
)
    requires
        0 <= journal.read,
    ensures
        fails_by_trouble(subvolumes_prepared(paths, mount_path, journal), journal, drive),
    decreases paths.len(),
{
    if paths.len() > 0 {
        subvolume_prepared_fails_by_trouble(paths[0], mount_path, journal, drive);
        if let Ok((_, rest)) = subvolume_prepared(paths[0], mount_path, journal) {
            trouble_stays(journal, rest, drive);
            subvolumes_prepared_fails_by_trouble(paths.skip(1), mount_path, rest, drive);
        }
    }
}

proof fn subvolumes_mounted_fails_by_trouble(
    paths: Seq<Seq<char>>,
    config: ConfigView,
    journal: JournalView,
    drive: Seq<char>,
)
    requires
        0 <= journal.read,
    ensures
        fails_by_trouble(subvolumes_mounted(paths, config, journal), journal, drive),
    decreases paths.len(),
{
    if paths.len() > 0 {
        mounting_fails_by_trouble(
            config.root_part_mount_opts + ",subvol="@ + subvolume_name(paths[0]),
            "/dev/disk/by-uuid/"@ + config.root_part_uuid,
            config.mount_path + paths[0],
            journal,
            drive,
        );
        if let Ok((_, rest)) = subvolume_mounted(paths[0], config, journal) {
            trouble_stays(journal, rest, drive);
            subvolumes_mounted_fails_by_trouble(paths.skip(1), config, rest, drive);
        }
    }
}

#[verifier::spinoff_prover]
proof fn root_filesystems_mounted_fails_by_trouble(
    config: ConfigView,
    journal: JournalView,
    drive: Seq<char>,
)
    requires
        0 <= journal.read,
    ensures
        fails_by_trouble(root_filesystems_mounted(config, journal), journal, drive),
{
    let block_device = "/dev/disk/by-uuid/"@ + config.root_part_uuid;
    let opts = config.root_part_mount_opts;
    let paths = config.non_efi_mount_paths;
    mounting_fails_by_trouble(opts, block_device, config.mount_path, journal, drive);
    if let Ok((_, mounted)) = filesystem_mounted(opts, block_device, config.mount_path, journal) {
        trouble_stays(journal, mounted, drive);
        subvolumes_prepared_fails_by_trouble(paths, config.mount_path, mounted, drive);
        if let Ok((_, prepared)) = subvolumes_prepared(paths, config.mount_path, mounted) {
            trouble_stays(journal, prepared, drive);
            let command = umount_command(seq![config.mount_path]);
            let text = "The `umount` command failed"@;
            performed_fails_by_trouble(command, text, prepared, drive);
            if let Ok((_, unmounted)) = performed(command, text, prepared) {
                trouble_stays(journal, unmounted, drive);
                subvolumes_mounted_fails_by_trouble(paths, config, unmounted, drive);
            }
        }
    }
}

/// The work on the disk ends well unless an answer of the machine is trouble. Only where a root file
/// system of ZFS is to be made does it stop without one.
#[verifier::spinoff_prover]
pub proof fn disk_work_fails_by_trouble(config: ConfigView, journal: JournalView)
    requires
        0 <= journal.read,
    ensures
        disk_ops_performed(config, journal) == Err::<((), JournalView), StopView>(
            StopView::NoZfsFormat,
        ) ==> config.format_partitions && config.root_part_fs_type == SupportedFileSystems::Zfs,
        disk_ops_performed(config, journal) != Err::<((), JournalView), StopView>(
            StopView::NoZfsFormat,
        ) ==> fails_by_trouble(
            disk_ops_performed(config, journal),
            journal,
            config.target_drive_by_id,
        ),
{
    let drive = config.target_drive_by_id;
    unmounting_fails_by_trouble(config.canonical_target_drive, journal, drive);
    if let Ok((_, unmounted)) = all_unmounted(config.canonical_target_drive, journal) {
        trouble_stays(journal, unmounted, drive);
        partitioning_fails_by_trouble(config, unmounted);
        if let Ok((partitions, divided)) = drive_partitioned(config, unmounted) {
            trouble_stays(journal, divided, drive);
            formatting_fails_by_trouble(config, partitions[0].1, divided, drive);
            if let Ok((_, efi_made)) = efi_filesystem_made(config, partitions[0].1, divided) {
                trouble_stays(journal, efi_made, drive);
                formatting_fails_by_trouble(config, partitions[1].1, efi_made, drive);
                if let Ok((_, root_made)) = root_filesystem_made(
                    config,
                    partitions[1].1,
                    efi_made,
                ) {
                    trouble_stays(journal, root_made, drive);
                    root_filesystems_mounted_fails_by_trouble(config, root_made, drive);
                    if let Ok((_, root_mounted)) = root_filesystems_mounted(config, root_made) {
                        trouble_stays(journal, root_mounted, drive);
                        mounting_fails_by_trouble(
                            config.efi_part_mount_opts,
                            "/dev/disk/by-uuid/"@ + config.efi_part_uuid,
                            config.mount_path + "/boot"@,
                            root_mounted,
                            drive,
                        );
                    }
                }
            }
        }
    }
}

/// Installing ends well unless an answer of the machine is trouble, or the derivation of the system is
/// another one below the mount path, where the system may be built.
#[verifier::spinoff_prover]
pub proof fn installing_fails_by_trouble(config: ConfigView, journal: JournalView)
    requires
        0 <= journal.read,
    ensures
        nixos_installed(config, journal) matches Err(StopView::Failed(_)) ==> {
            ||| has_trouble(journal, config.target_drive_by_id)
            ||| !config.substitute_only && {
                let derivation = written(journal.answers[journal.read + 2]);
                derivation.len() == 0 || derivation != config.nixos_system_derivation_path
            }
        },
        nixos_installed(config, journal) != Err::<((), JournalView), StopView>(
            StopView::NoZfsFormat,
        ),
{
    let drive = config.target_drive_by_id;
    assert forall|i: int| journal.read <= i < journal.answers.len() && is_trouble(
        #[trigger] journal.answers[i],
        drive,
    ) implies has_trouble(journal, drive) by {}
    let built = if config.substitute_only {
        journal
    } else {
        JournalView { answers: journal.answers, read: journal.read + 3 }
    };
    let installed = JournalView { answers: journal.answers, read: built.read + 2 };
    unmounting_fails_by_trouble(config.canonical_target_drive, installed, drive);
    trouble_stays(journal, installed, drive);
}

/// A configuration is found unless a command fails, writes nothing, or names a file system other than
/// the ones that the installer knows.
#[verifier::spinoff_prover]
pub proof fn configurations_are_found(args: VerifiedArgsView, journal: JournalView)
    requires
        0 <= journal.read,
        journal.read + 8 <= journal.answers.len(),
        forall|i: int|
            journal.read <= i < journal.read + 8 ==> is_success(#[trigger] journal.answers[i])
                && written(journal.answers[i]).len() > 0,
        written(journal.answers[journal.read + 4]) == "btrfs"@ || written(
            journal.answers[journal.read + 4],
        ) == "zfs"@,
    ensures
        config_made(args, journal) is Ok,
{
    let start = journal.read;
    assert(is_success(journal.answers[start]) && is_success(journal.answers[start + 1]));
    assert(is_success(journal.answers[start + 2]) && is_success(journal.answers[start + 3]));
    assert(is_success(journal.answers[start + 4]) && is_success(journal.answers[start + 5]));
    assert(is_success(journal.answers[start + 6]) && is_success(journal.answers[start + 7]));
}

/// Arguments pass where Nix says yes twice, the drive is a block device under its real path, and an entry
/// leads to it.
#[verifier::spinoff_prover]
pub proof fn good_arguments_pass(
    args: MandatoryArgsView,
    mount_path: Seq<char>,
    system: Seq<char>,
    journal: JournalView,
    entry: int,
)
    requires
        0 <= journal.read,
        journal.read + 4 <= journal.answers.len(),
        is_success(journal.answers[journal.read]),
        written(journal.answers[journal.read]) == "true"@,
        is_success(journal.answers[journal.read + 1]),
        written(journal.answers[journal.read + 1]) == "true"@,
        journal.answers[journal.read + 2] matches Answer::Drive(Ok(report)) && report.exists && (
        report.is_block_device matches Ok(block) && block) && (report.real_path matches Some(path)
            && path@ == args.canonical_target_drive),
        journal.answers[journal.read + 3] matches Answer::DiskIds(Ok(ids)) && 0 <= entry < ids@.len()
            && is_entry_of(ids@[entry], args.canonical_target_drive),
    ensures
        args_verified(args, mount_path, system, journal) is Ok,
{
    if let Answer::DiskIds(Ok(ids)) = journal.answers[journal.read + 3] {
        first_entry(ids@, args.canonical_target_drive);
    }
}

/// A flake is stored where every command succeeds, the directory for its root can be created, and the
/// output of `nix flake archive` holds a path.
#[verifier::spinoff_prover]
pub proof fn good_flakes_are_stored(
    flake_path: Seq<char>,
    update_lockfile: bool,
    gc_root: bool,
    path: Seq<char>,
    journal: JournalView,
)
    requires
        0 <= journal.read,
        ({
            let archive = journal.read + 1 + lock_updates(update_lockfile);
            &&& archive + 4 <= journal.answers.len()
            &&& is_success(journal.answers[journal.read])
            &&& is_success(journal.answers[archive - 1])
            &&& is_success(journal.answers[archive])
            &&& json_string_member(written(journal.answers[archive]), "path"@) == Some(
                Ok::<Seq<char>, Seq<char>>(path),
            )
            &&& path.len() > 0
            &&& journal.answers[archive + 1] is TempDirectory
            &&& journal.answers[archive + 2] == Answer::Created(Ok(()))
            &&& is_success(journal.answers[archive + 3])
        }),
    ensures
        flake_stored(flake_path, update_lockfile, gc_root, journal) matches Ok((stored, _)) && stored
            == path,
{
}

/// Whether the answers of an attempt say that something is in use, and that there was a pause.
pub open spec fn is_busy_attempt(journal: JournalView, attempt: int) -> bool {
    let at = journal.read + 2 * attempt;
    says_it_is_busy(journal.answers[at]) && journal.answers[at + 1] == Answer::Paused
}

/// A command is run ten times at the most: after nine attempts that say that something is in use, with a
/// pause behind each, the tenth is the last, whatever it says.
pub proof fn commands_are_tried_ten_times(
    command: CommandView,
    complaint: Seq<char>,
    journal: JournalView,
)
    requires
        0 <= journal.read,
        journal.read + 18 < journal.answers.len(),
        forall|i: int| 0 <= i < 9 ==> #[trigger] is_busy_attempt(journal, i),
        journal.answers[journal.read + 18] is Process,
    ensures
        waits_for(
            performed_with_retries(command, complaint, cut(journal, journal.read + 18)),
            ActionView::Run(command),
        ),
        performed_with_retries(command, complaint, journal) == performed(
            command,
            complaint,
            JournalView { answers: journal.answers, read: journal.read + 18 },
        ),
{
    busy_attempts_are_behind(command, journal, 9);
    let short = cut(journal, journal.read + 18);
    assert forall|i: int| 0 <= i < 9 implies #[trigger] is_busy_attempt(short, i) by {
        assert(is_busy_attempt(journal, i));
    }
    busy_attempts_are_behind(command, short, 9);
}

proof fn busy_attempts_are_behind(command: CommandView, journal: JournalView, count: nat)
    requires
        0 <= journal.read,
        journal.read + 2 * count <= journal.answers.len(),
        count <= 9,
        forall|i: int| 0 <= i < count ==> #[trigger] is_busy_attempt(journal, i),
    ensures
        retried(10, 0, command, journal) == retried(
            10,
            count,
            command,
            JournalView { answers: journal.answers, read: journal.read + 2 * count },
        ),
    decreases count,
{
    if count > 0 {
        let before = (count - 1) as nat;
        busy_attempts_are_behind(command, journal, before);
        assert(is_busy_attempt(journal, before as int));
    }
}

/// Where nothing may be tried, nothing is.
pub proof fn no_attempts_are_none(command: CommandView, journal: JournalView)
    ensures
        retried(0, 0, command, journal) matches Ok((attempt, rest)) && rest == journal && attempt
            == Err::<OutputView, Seq<char>>("No attempts were made"@),
{
}

/// How many of some things hold.
pub open spec fn one_if(holds: bool) -> int {
    if holds {
        1
    } else {
        0
    }
}

/// Everything that the command line leaves open is named, and nothing else: there are as many problems as
/// there are things left open or contradicted. With a problem nothing is asked of the machine.
#[verifier::spinoff_prover]
pub proof fn every_problem_is_named(options: OptionsView, journal: JournalView)
    ensures
        options.hostname is None ==> problems_of(options).contains("`--hostname` must be specified"@),
        options.canonical_target_drive is None ==> problems_of(options).contains(
            "`--target-drive` must be specified"@,
        ),
        options.format_partitions is None ==> problems_of(options).contains(
            "`--format-partitions` or `--no-format-partitions` must be specified"@,
        ),
        options.partition_drive == Some(true) && options.format_partitions != Some(true)
            ==> problems_of(options).contains(
            "`--no-format-partitions` and `--partition-drive` are mutually exclusive"@,
        ),
        options.partition_drive is None ==> problems_of(options).contains(
            "`--partition-drive` or `--no-partition-drive` must be specified"@,
        ),
        options.substitute_only is None ==> problems_of(options).contains(
            "`--substitute-only` or `--do-build` must be specified"@,
        ),
        options.flake_path is None ==> problems_of(options).contains(
            "`--flake-path` must be specified"@,
        ),
        problems_of(options).len() == one_if(options.hostname is None) + one_if(
            options.canonical_target_drive is None,
        ) + one_if(options.format_partitions is None) + one_if(
            options.partition_drive == Some(true) && options.format_partitions != Some(true),
        ) + one_if(options.partition_drive is None) + one_if(options.substitute_only is None)
            + one_if(options.flake_path is None),
        problems_of(options).len() > 0 ==> (mandatory_args_enforced(options, journal) matches Err(
            StopView::Failed(FailureView::BadArguments { problems, .. }),
        ) && problems == problems_of(options)),
{
    broadcast use vstd::seq_lib::group_seq_properties;

    let hostname = problem_if(
        options.hostname is None,
        "`--hostname` must be specified"@,
    );
    let drive = problem_if(
        options.canonical_target_drive is None,
        "`--target-drive` must be specified"@,
    );
    let format = problem_if(
        options.format_partitions is None,
        "`--format-partitions` or `--no-format-partitions` must be specified"@,
    );
    let both = problem_if(
        options.partition_drive == Some(true) && options.format_partitions != Some(true),
        "`--no-format-partitions` and `--partition-drive` are mutually exclusive"@,
    );
    let partition = problem_if(
        options.partition_drive is None,
        "`--partition-drive` or `--no-partition-drive` must be specified"@,
    );
    let substitute = problem_if(
        options.substitute_only is None,
        "`--substitute-only` or `--do-build` must be specified"@,
    );
    let flake = problem_if(
        options.flake_path is None,
        "`--flake-path` must be specified"@,
    );
    assert(options.hostname is None ==> hostname[0] == "`--hostname` must be specified"@);
    assert(options.canonical_target_drive is None ==> drive[0]
        == "`--target-drive` must be specified"@);
    assert(options.format_partitions is None ==> format[0]
        == "`--format-partitions` or `--no-format-partitions` must be specified"@);
    assert(both.len() > 0 ==> both[0]
        == "`--no-format-partitions` and `--partition-drive` are mutually exclusive"@);
    assert(options.partition_drive is None ==> partition[0]
        == "`--partition-drive` or `--no-partition-drive` must be specified"@);
    assert(options.substitute_only is None ==> substitute[0]
        == "`--substitute-only` or `--do-build` must be specified"@);
    assert(options.flake_path is None ==> flake[0] == "`--flake-path` must be specified"@);
    let all = hostname + drive + format + both + partition + substitute + flake;
    assert(problems_of(options) == all);
}

/// A complaint with what a process wrote to its standard error set off behind it.
pub open spec fn complaint_of(complaint: Seq<char>, output: ProcessOutput) -> Seq<char> {
    complaint + ("\n```\n"@ + trimmed(lossy_text(output.stderr@)) + "\n```"@)
}

/// Which step of partitioning failed is told, with what the process wrote: wiping and partitioning come
/// first where the drive is partitioned anew, and making the device files agree comes behind them.
#[verifier::spinoff_prover]
pub proof fn failed_partitioning_is_told(
    config: ConfigView,
    journal: JournalView,
    step: int,
    output: ProcessOutput,
)
    requires
        0 <= journal.read,
        0 <= step,
        step < if config.partition_drive { 4int } else { 2int },
        journal.read + step < journal.answers.len(),
        forall|i: int|
            journal.read <= i < journal.read + step ==> is_success(#[trigger] journal.answers[i]),
        journal.answers[journal.read + step] == Answer::Process(Ok(output)),
        output.code != Some(0i32),
    ensures
        ({
            let behind = if config.partition_drive { step } else { step + 2 };
            drive_partitioned(config, journal) == failed::<Seq<(u8, Seq<char>)>>(
                complaint_of(
                    if behind == 0 {
                        "Could not wipe the target disk"@
                    } else if behind == 1 {
                        "Disk partitioning failed"@
                    } else if behind == 2 {
                        "The `partprobe` command failed"@
                    } else {
                        "The `udevadm` command failed"@
                    },
                    output,
                ),
            )
        }),
{
    let start = journal.read;
    assert(step > 0 ==> is_success(journal.answers[start]));
    assert(step > 1 ==> is_success(journal.answers[start + 1]));
    assert(step > 2 ==> is_success(journal.answers[start + 2]));
}

/// A derivation that is another one below the mount path is told together with the one that was expected.
#[verifier::spinoff_prover]
pub proof fn another_derivation_is_told(config: ConfigView, journal: JournalView)
    requires
        0 <= journal.read,
        journal.read + 3 <= journal.answers.len(),
        !config.substitute_only,
        is_success(journal.answers[journal.read]),
        is_exit_zero(journal.answers[journal.read + 1]),
        is_success(journal.answers[journal.read + 2]),
        written(journal.answers[journal.read + 2]).len() > 0,
        written(journal.answers[journal.read + 2]) != config.nixos_system_derivation_path,
    ensures
        nixos_installed(config, journal) == failed::<()>(
            "The newly computed NixOS system derivation path '"@ + written(
                journal.answers[journal.read + 2],
            ) + "' is not the same as the old one '"@ + config.nixos_system_derivation_path + "'"@,
        ),
{
}

/// Where the system is only substituted, a build that fails is told, with the reason where it could not
/// be started, and a failed installation behind it too.
#[verifier::spinoff_prover]
pub proof fn failed_installations_are_told(
    config: ConfigView,
    journal: JournalView,
    output: ProcessOutput,
)
    requires
        0 <= journal.read,
        journal.read + 1 < journal.answers.len(),
        config.substitute_only,
        journal.answers[journal.read + 1] == Answer::Process(Ok(output)),
        output.code != Some(0i32),
    ensures
        is_exit_zero(journal.answers[journal.read]) ==> nixos_installed(config, journal) == failed::<
            (),
        >(complaint_of("Could not Install NixOS"@, output)),
        journal.answers[journal.read] matches Answer::Status(Err(error)) ==> nixos_installed(
            config,
            journal,
        ) == failed::<()>("The `nix build` command to bootstrap NixOS failed"@ + error@),
        journal.answers[journal.read] matches Answer::Status(Ok(code)) ==> (code != Some(0i32)
            ==> nixos_installed(config, journal) == failed::<()>(
            "The `nix build` command to bootstrap NixOS failed"@,
        )),
{
}

/// Which part of a configuration is missing is told, where the commands before have given theirs.
#[verifier::spinoff_prover]
pub proof fn missing_parts_are_told(args: VerifiedArgsView, journal: JournalView, part: int)
    requires
        0 <= journal.read,
        0 <= part < 7,
        journal.read + part < journal.answers.len(),
        forall|i: int|
            journal.read <= i < journal.read + part ==> is_success(#[trigger] journal.answers[i])
                && written(journal.answers[i]).len() > 0,
        part > 4 ==> written(journal.answers[journal.read + 4]) == "btrfs"@ || written(
            journal.answers[journal.read + 4],
        ) == "zfs"@,
        is_success(journal.answers[journal.read + part]),
        written(journal.answers[journal.read + part]).len() == 0,
    ensures
        config_made(args, journal) == failed::<ConfigView>(
            if part == 0 {
                "Could not determine the device path for the EFI partition"@
            } else if part == 1 {
                "Could not determine the mount options for the EFI partition"@
            } else if part == 2 {
                "Could not determine the device path for the Root partition"@
            } else if part == 3 {
                "Could not determine the mount options for the Root partition"@
            } else if part == 4 {
                "The filesystem '' is unsupported"@
            } else if part == 5 {
                "Could not determine the non-EFI partitions"@
            } else {
                "Could not determine the derivation path for your NixOS configuration"@
            },
        ),
{
    let start = journal.read;
    assert(part > 0 ==> is_success(journal.answers[start]));
    assert(part > 1 ==> is_success(journal.answers[start + 1]));
    assert(part > 2 ==> is_success(journal.answers[start + 2]));
    assert(part > 3 ==> is_success(journal.answers[start + 3]));
    assert(part > 4 ==> is_success(journal.answers[start + 4]));
    assert(part > 5 ==> is_success(journal.answers[start + 5]));
    messages_hold_their_labels();
    reveal_strlit("btrfs");
    reveal_strlit("zfs");
    assert("btrfs"@.len() == 5 && "zfs"@.len() == 3);
    assert(written(journal.answers[start + part]) =~= Seq::empty());
}

/// The messages that are put together from a label are these.
proof fn messages_hold_their_labels()
    ensures
        "Could not determine the device path for the "@ + "EFI"@ + " partition"@
            == "Could not determine the device path for the EFI partition"@,
        "Could not determine the device path for the "@ + "Root"@ + " partition"@
            == "Could not determine the device path for the Root partition"@,
        "Could not determine the mount options for the "@ + "EFI"@ + " partition"@
            == "Could not determine the mount options for the EFI partition"@,
        "Could not determine the mount options for the "@ + "Root"@ + " partition"@
            == "Could not determine the mount options for the Root partition"@,
        "The filesystem '"@ + Seq::<char>::empty() + "' is unsupported"@
            == "The filesystem '' is unsupported"@,
{
    reveal_strlit("Could not determine the device path for the ");
    reveal_strlit("Could not determine the mount options for the ");
    reveal_strlit("EFI");
    reveal_strlit("Root");
    reveal_strlit(" partition");
    reveal_strlit("The filesystem '");
    reveal_strlit("' is unsupported");
    reveal_strlit("Could not determine the device path for the EFI partition");
    reveal_strlit("Could not determine the device path for the Root partition");
    reveal_strlit("Could not determine the mount options for the EFI partition");
    reveal_strlit("Could not determine the mount options for the Root partition");
    reveal_strlit("The filesystem '' is unsupported");
    assert("Could not determine the device path for the "@ + "EFI"@ + " partition"@
        =~= "Could not determine the device path for the EFI partition"@);
    assert("Could not determine the device path for the "@ + "Root"@ + " partition"@
        =~= "Could not determine the device path for the Root partition"@);
    assert("Could not determine the mount options for the "@ + "EFI"@ + " partition"@
        =~= "Could not determine the mount options for the EFI partition"@);
    assert("Could not determine the mount options for the "@ + "Root"@ + " partition"@
        =~= "Could not determine the mount options for the Root partition"@);
    assert("The filesystem '"@ + Seq::<char>::empty() + "' is unsupported"@
        =~= "The filesystem '' is unsupported"@);
}

} // verus!
