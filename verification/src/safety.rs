//! What an installation may ask of the machine, and when.

use vstd::prelude::*;
use vstd::relations::sorted_by;

use crate::command_helpers::{is_busy, performed, retried, CommandView, MAX_ATTEMPTS};
use crate::config::{configured, is_complete, ConfigView};
use crate::disk_helpers::{
    all_unmounted, disk_ops_performed, drive_partitioned, efi_filesystem_made, filesystem_mounted,
    limit_command, mkfs_btrfs_command, mkfs_fat_command, mount_command, mount_points_in,
    parted_command, partition_of, partitions_discovered, partitions_in, partprobe_command,
    repartitioned, root_filesystem_made, root_filesystems_mounted, snapshot_command,
    subvolume_command, subvolume_mounted, subvolume_prepared, subvolumes_mounted,
    subvolumes_prepared, udev_settled, udevadm_command, umount_command, wipefs_command,
};
use crate::evaluation::{instantiate_command, outputs_command, toplevel_expression};
use crate::file_systems::SupportedFileSystems;
use crate::flake::{
    eval_command, flake_archive_command, flake_update_command, gc_root_command, git_pull_command,
    raw_eval_command, work_directory,
};
use crate::installer::{
    archive_command, build_command, copy_command, install_command, nixos_bootstrapped,
    nixos_install_done, nixos_installed, store_prepared,
};
use crate::journal::{
    creation_read, disk_ids_read, failed, line_read, mounts_read, paused, ran, ActionView, Answer,
    DiskId, JournalView, StopView,
};
use crate::paths::{
    parents_come_before_children, path_le, sorted_paths, sorted_paths_are_ordered, subvolume_name,
};
use crate::replay::{configured_stands, in_range};
use crate::session::{choice_in, installation_confirmed, session_held, Choice};
use crate::text::lines_of;

verus! {

/// Whether a command brings the flake up to date, copies it to the Nix store of the running system,
/// or evaluates something.
pub open spec fn is_lookup_command(command: CommandView) -> bool {
    ||| exists|flake_path: Seq<char>| command == #[trigger] git_pull_command(flake_path)
    ||| exists|flake_path: Seq<char>| command == #[trigger] flake_update_command(flake_path)
    ||| exists|flake_path: Seq<char>| command == #[trigger] flake_archive_command(flake_path)
    ||| exists|directory: Seq<char>, path: Seq<char>|
        command == #[trigger] gc_root_command(directory, path)
    ||| exists|expression: Seq<char>| command == #[trigger] eval_command(expression)
    ||| exists|expression: Seq<char>| command == #[trigger] raw_eval_command(expression)
    ||| exists|expression: Seq<char>|
        command == #[trigger] instantiate_command("local:///"@, expression)
    ||| exists|derivation_path: Seq<char>| command == #[trigger] outputs_command(derivation_path)
}

/// Whether an action leaves the drives and what is mounted as they are.
pub open spec fn is_lookup(action: ActionView) -> bool {
    match action {
        ActionView::ReadUserId => true,
        ActionView::ReadArguments => true,
        ActionView::ReadTempDirectory => true,
        ActionView::ListDiskIds => true,
        ActionView::InspectDrive(_) => true,
        ActionView::CreateDirectory(path) => exists|temp_directory: Option<Seq<char>>|
            path == #[trigger] work_directory(temp_directory),
        ActionView::Run(command) => is_lookup_command(command),
        _ => false,
    }
}

/// While an installation is configured, the drives and what is mounted stay as they are.
pub proof fn configuring_only_looks_up(system: Seq<char>, journal: JournalView)
    ensures
        configured(system, journal) matches Err(StopView::Waiting(action)) ==> is_lookup(action),
{
}

/// Whether a device is a partition of the target drive.
pub open spec fn is_on_target(config: ConfigView, device: Seq<char>) -> bool {
    (config.target_drive_by_id + "-part"@).is_prefix_of(device)
}

/// Whether a command is the program with the arguments.
pub open spec fn is_call(command: CommandView, program: Seq<char>, args: Seq<Seq<char>>) -> bool {
    command.program == program && command.args == args
}

/// Whether a command partitions the target drive: it erases what the drive says of its contents, or
/// makes a new partition table with an EFI partition and a root partition.
pub open spec fn partitions_target(config: ConfigView, command: CommandView) -> bool {
    ||| is_call(command, "wipefs"@, seq!["--all"@, "--force"@, config.target_drive_by_id])
    ||| {
        &&& command.program == "parted"@
        &&& command.args.len() == 21
        &&& command.args.take(5) == seq![
            "--align"@,
            "optimal"@,
            "--fix"@,
            "--script"@,
            config.target_drive_by_id,
        ]
        &&& command.args.subrange(5, 16) == seq![
            "mklabel"@,
            "gpt"@,
            "mkpart"@,
            "primary"@,
            "fat32"@,
            "64MiB"@,
            "1088MiB"@,
            "set"@,
            "1"@,
            "esp"@,
            "on"@,
        ]
        &&& command.args.skip(16) == seq![
            "mkpart"@,
            "primary"@,
            "ext4"@,
            "1088MiB"@,
            "100%"@,
        ]
    }
}

/// Whether a command makes the EFI file system on a device, with the UUID without its dashes as its
/// name and its volume ID.
pub open spec fn makes_efi(config: ConfigView, device: Seq<char>, command: CommandView) -> bool {
    let id = config.efi_part_uuid.filter(|c: char| c != '-');
    is_call(command, "mkfs.fat"@, seq!["-F"@, "32"@, "-n"@, id, "-i"@, id, device])
}

/// Whether a command makes the root file system on a device, with the label and the UUID of the
/// configuration.
pub open spec fn makes_root(config: ConfigView, device: Seq<char>, command: CommandView) -> bool {
    is_call(
        command,
        "mkfs.btrfs"@,
        seq![
            "--force"@,
            "--checksum"@,
            "sha256"@,
            "--metadata"@,
            "dup"@,
            "--features"@,
            "squota"@,
            "--label"@,
            config.hostname + "-rootfs"@,
            "--uuid"@,
            config.root_part_uuid,
            device,
        ],
    )
}

/// Whether a command makes a file system on a partition of the target drive.
pub open spec fn formats_target(config: ConfigView, command: CommandView) -> bool {
    exists|device: Seq<char>| #[trigger]
        is_on_target(config, device) && {
            ||| makes_efi(config, device, command)
            ||| {
                &&& config.root_part_fs_type == SupportedFileSystems::Btrfs
                &&& makes_root(config, device, command)
            }
        }
}

/// The device with a UUID.
pub open spec fn device_of(uuid: Seq<char>) -> Seq<char> {
    "/dev/disk/by-uuid/"@ + uuid
}

/// Whether a command mounts a device at a path with the given options.
pub open spec fn mounts(
    options: Seq<char>,
    device: Seq<char>,
    path: Seq<char>,
    command: CommandView,
) -> bool {
    is_call(command, "mount"@, seq!["--options"@, options, device, path])
}

/// Whether a command mounts the subvolume for a mount path at that path, with all the options of the
/// root partition.
pub open spec fn mounts_subvolume(
    config: ConfigView,
    path: Seq<char>,
    command: CommandView,
) -> bool {
    mounts(
        config.root_part_mount_opts + ",subvol="@ + subvolume_name(path),
        device_of(config.root_part_uuid),
        config.mount_path + path,
        command,
    )
}

/// Whether a command mounts something of the installation: the root partition or one of its
/// subvolumes with the options of the root partition, or the EFI partition with its own.
pub open spec fn mounts_installation(config: ConfigView, command: CommandView) -> bool {
    ||| mounts(
        config.root_part_mount_opts,
        device_of(config.root_part_uuid),
        config.mount_path,
        command,
    )
    ||| mounts(
        config.efi_part_mount_opts,
        device_of(config.efi_part_uuid),
        config.mount_path + "/boot"@,
        command,
    )
    ||| exists|path: Seq<char>| #[trigger]
        config.non_efi_mount_paths.contains(path) && mounts_subvolume(config, path, command)
}

/// Whether a command mounts something at a path.
pub open spec fn mounts_at(path: Seq<char>, command: CommandView) -> bool {
    exists|options: Seq<char>, device: Seq<char>|
        command == #[trigger] mount_command(options, device, path)
}

/// Whether a path lies where the installation is mounted: there, or at one of the mount paths below.
pub open spec fn is_mount_path(config: ConfigView, path: Seq<char>) -> bool {
    ||| path == config.mount_path
    ||| path == config.mount_path + "/boot"@
    ||| exists|mount_path: Seq<char>| #[trigger]
        config.non_efi_mount_paths.contains(mount_path) && path == config.mount_path + mount_path
}

/// Whether a path is that of a subvolume of the installation.
pub open spec fn is_subvolume_path(config: ConfigView, path: Seq<char>) -> bool {
    exists|mount_path: Seq<char>| #[trigger]
        config.non_efi_mount_paths.contains(mount_path) && path == config.mount_path + "/"@
            + subvolume_name(mount_path)
}

/// Where the subvolume for a mount path is created.
pub open spec fn subvolume_place(config: ConfigView, path: Seq<char>) -> Seq<char> {
    config.mount_path + "/"@ + subvolume_name(path)
}

/// Whether the subvolume for a mount path may grow to a size only.
pub open spec fn has_limit(path: Seq<char>, size: Seq<char>) -> bool {
    ||| path == "/"@ && size == "16G"@
    ||| path == "/home"@ && size == "128G"@
    ||| path == "/var"@ && size == "8G"@
}

/// Whether a command prepares the subvolume for a mount path: creates it, keeps a snapshot of it where
/// one is kept, or limits its size where it is limited.
pub open spec fn prepares(config: ConfigView, path: Seq<char>, command: CommandView) -> bool {
    let place = subvolume_place(config, path);
    ||| is_call(command, "btrfs"@, seq!["subvolume"@, "create"@, place])
    ||| {
        &&& path == "/"@ || path == "/tmp"@
        &&& is_call(
            command,
            "btrfs"@,
            seq!["subvolume"@, "snapshot"@, "-r"@, place, place + "+"@ + "fresh"@],
        )
    }
    ||| exists|size: Seq<char>| #[trigger]
        has_limit(path, size) && is_call(
            command,
            "btrfs"@,
            seq!["qgroup"@, "limit"@, size, place],
        )
}

/// Whether a command prepares a subvolume of the installation.
pub open spec fn prepares_subvolume(config: ConfigView, command: CommandView) -> bool {
    exists|path: Seq<char>| #[trigger]
        config.non_efi_mount_paths.contains(path) && prepares(config, path, command)
}

/// Whether a command unmounts something.
pub open spec fn unmounts(command: CommandView) -> bool {
    exists|paths: Seq<Seq<char>>| #[trigger] is_call(command, "umount"@, seq!["--force"@] + paths)
}

/// Whether an action is part of making the target drive ready for an installation: the drive is
/// partitioned only where that is wanted, and so are its partitions formatted.
pub open spec fn is_disk_work(config: ConfigView, action: ActionView) -> bool {
    match action {
        ActionView::ReadMounts => true,
        ActionView::ListDiskIds => true,
        ActionView::Pause => true,
        ActionView::CreateDirectory(path) => is_mount_path(config, path),
        ActionView::CheckPath(path) => is_subvolume_path(config, path),
        ActionView::Run(command) => {
            ||| unmounts(command)
            ||| is_call(command, "partprobe"@, seq![config.canonical_target_drive])
            ||| is_call(command, "udevadm"@, seq!["settle"@])
            ||| config.partition_drive && partitions_target(config, command)
            ||| config.format_partitions && formats_target(config, command)
            ||| mounts_installation(config, command)
            ||| prepares_subvolume(config, command)
        },
        _ => false,
    }
}

/// A command that is tried again is asked for itself, and nothing but a second between two attempts.
proof fn retries_ask_for_the_command(
    max_attempts: nat,
    tried: nat,
    command: CommandView,
    journal: JournalView,
)
    ensures
        retried(max_attempts, tried, command, journal) matches Err(StopView::Waiting(action)) ==> {
            ||| action == ActionView::Run(command)
            ||| action == ActionView::Pause
        },
    decreases max_attempts - tried,
{
    if tried < max_attempts {
        if let Ok((attempt, rest)) = ran(command, journal) {
            if is_busy(attempt) && tried + 1 < max_attempts {
                if let Ok((_, later)) = paused(rest) {
                    retries_ask_for_the_command(max_attempts, tried + 1, command, later);
                }
            }
        }
    }
}

/// Unmounting asks for what is mounted and unmounts something.
proof fn unmounting_asks_for(drive: Seq<char>, journal: JournalView)
    ensures
        all_unmounted(drive, journal) matches Err(StopView::Waiting(action)) ==> match action {
            ActionView::ReadMounts => true,
            ActionView::Run(command) => unmounts(command),
            _ => false,
        },
{
    if let Ok((Ok(proc_mounts), _)) = mounts_read(journal) {
        let points = sorted_paths(mount_points_in(lines_of(proc_mounts@), drive), true);
        assert(is_call(umount_command(points), "umount"@, seq!["--force"@] + points));
    }
}

/// The commands that partition the target drive are told to.
pub(crate) proof fn partitioning_is_called(config: ConfigView)
    ensures
        partitions_target(config, wipefs_command(config.target_drive_by_id)),
        partitions_target(config, parted_command(config.target_drive_by_id)),
{
    let command = parted_command(config.target_drive_by_id);
    assert(command.args.len() == 21);
    assert(command.args.take(5) =~= seq![
        "--align"@,
        "optimal"@,
        "--fix"@,
        "--script"@,
        config.target_drive_by_id,
    ]);
    assert(command.args.subrange(5, 16) =~= seq![
        "mklabel"@,
        "gpt"@,
        "mkpart"@,
        "primary"@,
        "fat32"@,
        "64MiB"@,
        "1088MiB"@,
        "set"@,
        "1"@,
        "esp"@,
        "on"@,
    ]);
    assert(command.args.skip(16) =~= seq![
        "mkpart"@,
        "primary"@,
        "ext4"@,
        "1088MiB"@,
        "100%"@,
    ]);
}

/// A partition among some entries is on the target drive.
proof fn found_partition_is_on_target(config: ConfigView, ids: Seq<DiskId>, i: int)
    requires
        0 <= i < partitions_in(ids, config.target_drive_by_id + "-part"@).len(),
    ensures
        is_on_target(config, partitions_in(ids, config.target_drive_by_id + "-part"@)[i].1),
    decreases ids.len(),
{
    let start = config.target_drive_by_id + "-part"@;
    if i < partitions_in(ids.drop_last(), start).len() {
        found_partition_is_on_target(config, ids.drop_last(), i);
    } else {
        assert(partition_of(ids.last().path@, start) is Some);
    }
}

/// The partitions that are looked for are two, in the order of their numbers, and on the target
/// drive.
pub proof fn discovered_partitions_are_on_target(config: ConfigView, journal: JournalView)
    ensures
        partitions_discovered(config, journal) matches Ok((partitions, _)) ==> {
            &&& partitions.len() == 2
            &&& partitions[0].0 <= partitions[1].0
            &&& is_on_target(config, partitions[0].1)
            &&& is_on_target(config, partitions[1].1)
        },
{
    if let Ok((Ok(ids), _)) = disk_ids_read(journal) {
        if partitions_in(ids@, config.target_drive_by_id + "-part"@).len() == 2 {
            found_partition_is_on_target(config, ids@, 0);
            found_partition_is_on_target(config, ids@, 1);
        }
    }
}

/// The partitions of a partitioned drive are on it.
proof fn drive_partitions_are_on_target(config: ConfigView, journal: JournalView)
    ensures
        drive_partitioned(config, journal) matches Ok((partitions, _)) ==> {
            &&& is_on_target(config, partitions[0].1)
            &&& is_on_target(config, partitions[1].1)
        },
{
    if let Ok((_, divided)) = repartitioned(config, journal) {
        if let Ok((_, settled)) = udev_settled(config.canonical_target_drive, divided) {
            discovered_partitions_are_on_target(config, settled);
        }
    }
}

/// Mounting asks for the directory, the mount, and nothing but a second between two attempts.
proof fn mounting_asks_for(
    options: Seq<char>,
    device: Seq<char>,
    path: Seq<char>,
    journal: JournalView,
)
    ensures
        filesystem_mounted(options, device, path, journal) matches Err(StopView::Waiting(action))
            ==> match action {
            ActionView::CreateDirectory(directory) => directory == path,
            ActionView::Run(command) => mounts_at(path, command) && mounts(
                options,
                device,
                path,
                command,
            ),
            ActionView::Pause => true,
            _ => false,
        },
{
    if let Ok((Ok(_), rest)) = creation_read(path, journal) {
        retries_ask_for_the_command(
            MAX_ATTEMPTS as nat,
            0,
            mount_command(options, device, path),
            rest,
        );
    }
}

/// Preparing subvolumes is disk work.
proof fn preparing_is_disk_work(config: ConfigView, paths: Seq<Seq<char>>, journal: JournalView)
    requires
        forall|i: int|
            0 <= i < paths.len() ==> config.non_efi_mount_paths.contains(#[trigger] paths[i]),
    ensures
        subvolumes_prepared(paths, config.mount_path, journal) matches Err(
            StopView::Waiting(action),
        ) ==> is_disk_work(config, action),
    decreases paths.len(),
{
    if paths.len() > 0 {
        assert(config.non_efi_mount_paths.contains(paths[0]));
        assert(is_subvolume_path(
            config,
            config.mount_path + "/"@ + subvolume_name(paths[0]),
        ));
        assert(has_limit("/"@, "16G"@) && has_limit("/home"@, "128G"@) && has_limit("/var"@, "8G"@));
        if let Ok((_, rest)) = subvolume_prepared(paths[0], config.mount_path, journal) {
            preparing_is_disk_work(config, paths.skip(1), rest);
        }
    }
}

/// Mounting subvolumes is disk work.
proof fn mounting_is_disk_work(config: ConfigView, paths: Seq<Seq<char>>, journal: JournalView)
    requires
        forall|i: int|
            0 <= i < paths.len() ==> config.non_efi_mount_paths.contains(#[trigger] paths[i]),
    ensures
        subvolumes_mounted(paths, config, journal) matches Err(StopView::Waiting(action))
            ==> is_disk_work(config, action),
    decreases paths.len(),
{
    if paths.len() > 0 {
        assert(config.non_efi_mount_paths.contains(paths[0]));
        assert(is_mount_path(config, config.mount_path + paths[0]));
        mounting_asks_for(
            config.root_part_mount_opts + ",subvol="@ + subvolume_name(paths[0]),
            "/dev/disk/by-uuid/"@ + config.root_part_uuid,
            config.mount_path + paths[0],
            journal,
        );
        if let Ok((_, rest)) = subvolume_mounted(paths[0], config, journal) {
            mounting_is_disk_work(config, paths.skip(1), rest);
        }
    }
}

/// Creating the subvolumes and mounting them is disk work.
proof fn mounting_the_root_is_disk_work(config: ConfigView, journal: JournalView)
    ensures
        root_filesystems_mounted(config, journal) matches Err(StopView::Waiting(action))
            ==> is_disk_work(config, action),
{
    let device = "/dev/disk/by-uuid/"@ + config.root_part_uuid;
    let paths = config.non_efi_mount_paths;
    assert(is_mount_path(config, config.mount_path));
    mounting_asks_for(config.root_part_mount_opts, device, config.mount_path, journal);
    if let Ok((_, mounted)) = filesystem_mounted(
        config.root_part_mount_opts,
        device,
        config.mount_path,
        journal,
    ) {
        preparing_is_disk_work(config, paths, mounted);
        if let Ok((_, prepared)) = subvolumes_prepared(paths, config.mount_path, mounted) {
            let command = umount_command(seq![config.mount_path]);
            assert(is_call(command, "umount"@, seq!["--force"@] + seq![config.mount_path]));
            if let Ok((_, unmounted)) = performed(
                command,
                "The `umount` command failed"@,
                prepared,
            ) {
                mounting_is_disk_work(config, paths, unmounted);
            }
        }
    }
}

/// While the target drive is made ready, nothing but disk work is asked for: the drive is
/// partitioned only where that is wanted, only partitions of the target drive get file systems, and
/// only where that is wanted.
pub proof fn disk_ops_are_disk_work(config: ConfigView, journal: JournalView)
    ensures
        disk_ops_performed(config, journal) matches Err(StopView::Waiting(action)) ==> is_disk_work(
            config,
            action,
        ),
{
    unmounting_asks_for(config.canonical_target_drive, journal);
    partitioning_is_called(config);
    if let Ok((_, unmounted)) = all_unmounted(config.canonical_target_drive, journal) {
        if let Ok((partitions, divided)) = drive_partitioned(config, unmounted) {
            let efi = partitions[0].1;
            let root = partitions[1].1;
            assert(is_on_target(config, efi) && is_on_target(config, root)) by {
                drive_partitions_are_on_target(config, unmounted);
            }
            retries_ask_for_the_command(
                MAX_ATTEMPTS as nat,
                0,
                mkfs_fat_command(config.efi_part_uuid, efi),
                divided,
            );
            if let Ok((_, efi_made)) = efi_filesystem_made(config, efi, divided) {
                retries_ask_for_the_command(
                    MAX_ATTEMPTS as nat,
                    0,
                    mkfs_btrfs_command(config.hostname, config.root_part_uuid, root),
                    efi_made,
                );
                if let Ok((_, root_made)) = root_filesystem_made(config, root, efi_made) {
                    mounting_the_root_is_disk_work(config, root_made);
                    if let Ok((_, root_mounted)) = root_filesystems_mounted(config, root_made) {
                        assert(is_mount_path(config, config.mount_path + "/boot"@));
                        mounting_asks_for(
                            config.efi_part_mount_opts,
                            "/dev/disk/by-uuid/"@ + config.efi_part_uuid,
                            config.mount_path + "/boot"@,
                            root_mounted,
                        );
                    }
                }
            }
        }
    }
}

/// Whether a program unmounts, partitions, formats or mounts drives, or installs a system.
pub open spec fn is_drive_program(program: Seq<char>) -> bool {
    ||| program == "umount"@
    ||| program == "partprobe"@
    ||| program == "udevadm"@
    ||| program == "wipefs"@
    ||| program == "parted"@
    ||| program == "mkfs.fat"@
    ||| program == "mkfs.btrfs"@
    ||| program == "mount"@
    ||| program == "btrfs"@
    ||| program == "nixos-install"@
}

/// The names of programs differ: where two of them are of one length, their first letters tell them
/// apart.
pub(crate) proof fn program_names_differ()
    ensures
        "umount"@.len() == 6,
        "partprobe"@.len() == 9,
        "udevadm"@.len() == 7,
        "wipefs"@.len() == 6,
        "parted"@.len() == 6,
        "mkfs.fat"@.len() == 8,
        "mkfs.btrfs"@.len() == 10,
        "mount"@.len() == 5,
        "btrfs"@.len() == 5,
        "nixos-install"@.len() == 13,
        "git"@.len() == 3,
        "nix"@.len() == 3,
        "nix-instantiate"@.len() == 15,
        "nix-store"@.len() == 9,
        "umount"@[0] != "wipefs"@[0],
        "umount"@[0] != "parted"@[0],
        "wipefs"@[0] != "parted"@[0],
        "partprobe"@[0] != "nix-store"@[0],
        "mount"@[0] != "btrfs"@[0],
        "git"@[0] != "nix"@[0],
{
    reveal_strlit("umount");
    reveal_strlit("partprobe");
    reveal_strlit("udevadm");
    reveal_strlit("wipefs");
    reveal_strlit("parted");
    reveal_strlit("mkfs.fat");
    reveal_strlit("mkfs.btrfs");
    reveal_strlit("mount");
    reveal_strlit("btrfs");
    reveal_strlit("nixos-install");
    reveal_strlit("git");
    reveal_strlit("nix");
    reveal_strlit("nix-instantiate");
    reveal_strlit("nix-store");
}

/// A program that works on drives is not run to look something up.
pub proof fn drive_programs_look_nothing_up(command: CommandView)
    requires
        is_drive_program(command.program),
    ensures
        !is_lookup_command(command),
{
    program_names_differ();
}

/// The programs that erase something are run only where that is wanted, and only on the target drive
/// and its partitions.
pub proof fn only_the_target_drive_is_erased(
    config: ConfigView,
    journal: JournalView,
    command: CommandView,
)
    requires
        disk_ops_performed(config, journal) == Err::<((), JournalView), StopView>(
            StopView::Waiting(ActionView::Run(command)),
        ),
    ensures
        command.program == "wipefs"@ || command.program == "parted"@ ==> config.partition_drive
            && command.args.contains(config.target_drive_by_id),
        command.program == "mkfs.fat"@ || command.program == "mkfs.btrfs"@
            ==> config.format_partitions && is_on_target(config, command.args.last()),
{
    program_names_differ();
    disk_ops_are_disk_work(config, journal);
    let drive = config.target_drive_by_id;
    assert(wipefs_command(drive).args[2] == drive);
    assert(parted_command(drive).args[4] == drive);
}

/// Whether a command is `nix` with the arguments behind those that let it take its newer subcommands.
pub open spec fn is_nix_call(command: CommandView, args: Seq<Seq<char>>) -> bool {
    is_call(
        command,
        "nix"@,
        seq![
            "--extra-experimental-features"@,
            "nix-command"@,
            "--extra-experimental-features"@,
            "flakes"@,
        ] + args,
    )
}

/// Whether a command copies the flake to the store below the mount path.
pub open spec fn copies_flake(config: ConfigView, command: CommandView) -> bool {
    is_nix_call(command, seq!["copy"@, "--to"@, config.mount_path, config.flake_store_path])
}

/// Whether a command brings the inputs of the flake into the store below the mount path.
pub open spec fn archives_flake(config: ConfigView, command: CommandView) -> bool {
    is_nix_call(
        command,
        seq![
            "--store"@,
            config.mount_path,
            "flake"@,
            "archive"@,
            config.mount_path + config.flake_store_path,
        ],
    )
}

/// The system of a host in a flake, as a Nix expression.
pub open spec fn system_in(flake_store_path: Seq<char>, hostname: Seq<char>) -> Seq<char> {
    "(builtins.getFlake \""@ + flake_store_path + "\").outputs.nixosConfigurations."@ + hostname
        + ".config.system.build.toplevel"@
}

/// Whether a command evaluates the derivation of the system in a store.
pub open spec fn evaluates_system(
    store: Seq<char>,
    flake_store_path: Seq<char>,
    hostname: Seq<char>,
    command: CommandView,
) -> bool {
    is_call(
        command,
        "nix-instantiate"@,
        seq!["--option"@, "extra-experimental-features"@, "flakes"@] + seq![
            "--eval-store"@,
            store,
            "--expr"@,
            system_in(flake_store_path, hostname),
        ],
    )
}

/// Whether a command brings the system into the store below the mount path: the output path without
/// building anything where only substitutes are wanted, and the outputs of the derivation otherwise.
pub open spec fn brings_system(config: ConfigView, command: CommandView) -> bool {
    is_nix_call(
        command,
        seq!["build"@, "--store"@, config.mount_path, "--keep-going"@, "--cores"@, "1"@] + (
        if config.substitute_only {
            seq!["--max-jobs"@, "0"@, config.nixos_system_out_path]
        } else {
            seq!["--max-jobs"@, "1"@, config.nixos_system_derivation_path + "^*"@]
        }),
    )
}

/// Whether a command installs the system that the store below the mount path holds: behind `--root`
/// stands the mount path, and behind `--store-path` the output path of the system.
pub open spec fn installs_system(config: ConfigView, command: CommandView) -> bool {
    &&& command.program == "nixos-install"@
    &&& command.args.len() == 11
    &&& command.args.take(7) == seq![
        "--show-trace"@,
        "--max-jobs"@,
        "1"@,
        "--cores"@,
        "1"@,
        "--no-root-password"@,
        "--no-channel-copy"@,
    ]
    &&& command.args[7] == "--root"@ && command.args[8] == config.mount_path
    &&& command.args[9] == "--store-path"@ && command.args[10] == config.nixos_system_out_path
}

/// Whether an action is part of installing NixOS on the mounted drive: the flake is brought there and
/// evaluated again only where the system may be built.
pub open spec fn is_install_work(config: ConfigView, action: ActionView) -> bool {
    match action {
        ActionView::ReadMounts => true,
        ActionView::Run(command) => {
            ||| unmounts(command)
            ||| installs_system(config, command)
            ||| !config.substitute_only && copies_flake(config, command)
            ||| !config.substitute_only && evaluates_system(
                config.mount_path,
                config.flake_store_path,
                config.hostname,
                command,
            )
        },
        ActionView::RunAttached(command) => {
            ||| brings_system(config, command)
            ||| !config.substitute_only && archives_flake(config, command)
        },
        _ => false,
    }
}

/// The commands of an installation are what they are said to be.
pub(crate) proof fn install_commands_are_called(config: ConfigView)
    ensures
        copies_flake(config, copy_command(config)),
        archives_flake(config, archive_command(config)),
        evaluates_system(
            config.mount_path,
            config.flake_store_path,
            config.hostname,
            instantiate_command(
                config.mount_path,
                toplevel_expression(config.flake_store_path, config.hostname),
            ),
        ),
        brings_system(config, build_command(config)),
        installs_system(config, install_command(config)),
{
    assert(install_command(config).args.take(7) =~= seq![
        "--show-trace"@,
        "--max-jobs"@,
        "1"@,
        "--cores"@,
        "1"@,
        "--no-root-password"@,
        "--no-channel-copy"@,
    ]);
    let target = if config.substitute_only {
        seq!["--max-jobs"@, "0"@, config.nixos_system_out_path]
    } else {
        seq!["--max-jobs"@, "1"@, config.nixos_system_derivation_path + "^*"@]
    };
    assert(build_command(config).args =~= seq![
        "--extra-experimental-features"@,
        "nix-command"@,
        "--extra-experimental-features"@,
        "flakes"@,
    ] + (seq!["build"@, "--store"@, config.mount_path, "--keep-going"@, "--cores"@, "1"@]
        + target));
}

/// While NixOS is installed, nothing but installing is asked for.
pub proof fn installing_is_install_work(config: ConfigView, journal: JournalView)
    ensures
        nixos_installed(config, journal) matches Err(StopView::Waiting(action)) ==> is_install_work(
            config,
            action,
        ),
{
    install_commands_are_called(config);
    let prepared = if config.substitute_only {
        Ok(((), journal))
    } else {
        store_prepared(config, journal)
    };
    if let Ok((_, ready)) = prepared {
        if let Ok((_, built)) = nixos_bootstrapped(config, ready) {
            if let Ok((_, installed)) = nixos_install_done(config, built) {
                unmounting_asks_for(config.canonical_target_drive, installed);
            }
        }
    }
}

/// Where the system may be built, nothing is built or installed unless the derivation of the system
/// is the same in the store below the mount path.
pub proof fn building_takes_the_same_derivation(config: ConfigView, journal: JournalView)
    requires
        !config.substitute_only,
        nixos_installed(config, journal) matches Err(StopView::Waiting(action)) && (action
            == ActionView::RunAttached(build_command(config)) || action == ActionView::Run(
            install_command(config),
        )),
    ensures
        store_prepared(config, journal) is Ok,
{
    program_names_differ();
    reveal_strlit("--store");
    reveal_strlit("build");
    assert("--store"@.len() == 7);
    assert("build"@.len() == 5);
    assert(archive_command(config).args[4] == "--store"@);
    assert(build_command(config).args[4] == "build"@);
}

/// Nothing is installed unless the system has been brought into the store below the mount path.
pub proof fn installing_takes_a_build(config: ConfigView, journal: JournalView)
    requires
        nixos_installed(config, journal) == Err::<((), JournalView), StopView>(
            StopView::Waiting(ActionView::Run(install_command(config))),
        ),
    ensures
        exists|prepared: JournalView|
            prepared.answers == journal.answers && #[trigger] nixos_bootstrapped(
                config,
                prepared,
            ) is Ok,
{
    program_names_differ();
}

/// Whether one of the answers is a line that tells to go on.
pub open spec fn is_confirmed(answers: Seq<Answer>) -> bool {
    exists|i: int|
        0 <= i < answers.len() && (#[trigger] answers[i] matches Answer::Line(Ok(line))
            && choice_in(line@) == Choice::GoOn)
}

/// The user is asked at most as often as is allowed, and an installation goes on only with a line that
/// tells to.
pub proof fn confirming_takes_a_yes(chances: nat, journal: JournalView)
    requires
        in_range(journal),
    ensures
        match installation_confirmed(chances, journal) {
            Ok((_, rest)) => {
                &&& journal.read < rest.read <= journal.read + chances
                &&& is_confirmed(journal.answers)
            },
            Err(StopView::Waiting(action)) => {
                &&& action == ActionView::Confirm
                &&& journal.answers.len() < journal.read + chances
            },
            Err(_) => true,
        },
    decreases chances,
{
    if chances > 0 {
        if let Ok((answer, rest)) = line_read(journal) {
            assert(journal.answers[journal.read] == Answer::Line(answer));
            if let Ok(line) = answer {
                if choice_in(line@) == Choice::Unclear {
                    confirming_takes_a_yes((chances - 1) as nat, rest);
                }
            }
        }
    }
}

/// An installation that the user refuses stops there.
pub proof fn refused_installations_stop(system: Seq<char>, journal: JournalView)
    requires
        configured(system, journal) matches Ok((_, known)) && (line_read(known) matches Ok((Ok(line), _))
            && choice_in(line@) == Choice::Abort),
    ensures
        session_held(system, journal) == failed::<()>("Aborted due to user choice"@),
{
    reveal(session_held);
}

/// Until the user has told to go on, an installation only looks things up and asks the user.
pub proof fn nothing_is_changed_before_confirmation(system: Seq<char>, journal: JournalView)
    requires
        in_range(journal),
        !is_confirmed(journal.answers),
    ensures
        session_held(system, journal) matches Err(StopView::Waiting(action)) ==> is_lookup(action)
            || action == ActionView::Confirm,
        session_held(system, journal) is Err,
{
    reveal(session_held);
    configuring_only_looks_up(system, journal);
    configured_stands(system, journal, seq![]);
    if let Ok((_, known)) = configured(system, journal) {
        confirming_takes_a_yes(2, known);
    }
}

/// Subvolumes are mounted one after the other.
proof fn mounting_goes_in_order(
    paths: Seq<Seq<char>>,
    count: int,
    config: ConfigView,
    journal: JournalView,
)
    requires
        0 <= count <= paths.len(),
    ensures
        subvolumes_mounted(paths, config, journal) == match subvolumes_mounted(
            paths.take(count),
            config,
            journal,
        ) {
            Err(stop) => Err(stop),
            Ok((_, rest)) => subvolumes_mounted(paths.skip(count), config, rest),
        },
    decreases count,
{
    if count == 0 {
        assert(paths.skip(0) =~= paths);
    } else {
        if let Ok((_, rest)) = subvolume_mounted(paths[0], config, journal) {
            mounting_goes_in_order(paths.skip(1), count - 1, config, rest);
            assert(paths.take(count).skip(1) =~= paths.skip(1).take(count - 1));
            assert(paths.skip(count) =~= paths.skip(1).skip(count - 1));
        }
    }
}

/// Where one mount path lies below another, the subvolume of the other is mounted before it.
pub proof fn parents_are_mounted_first(
    config: ConfigView,
    parent: int,
    child: int,
    journal: JournalView,
)
    requires
        is_complete(config),
        0 <= parent < config.non_efi_mount_paths.len(),
        0 <= child < config.non_efi_mount_paths.len(),
        config.non_efi_mount_paths[parent].is_prefix_of(config.non_efi_mount_paths[child]),
        config.non_efi_mount_paths[parent] != config.non_efi_mount_paths[child],
    ensures
        config.non_efi_mount_paths.take(child).contains(config.non_efi_mount_paths[parent]),
        subvolumes_mounted(config.non_efi_mount_paths, config, journal)
            == match subvolumes_mounted(config.non_efi_mount_paths.take(child), config, journal) {
            Err(stop) => Err(stop),
            Ok((_, rest)) => subvolumes_mounted(
                config.non_efi_mount_paths.skip(child),
                config,
                rest,
            ),
        },
{
    let paths = config.non_efi_mount_paths;
    sorted_paths_are_ordered(paths, false);
    assert(sorted_paths(paths, false) == paths);
    parents_come_before_children(paths, parent, child, false);
    assert(paths.take(child)[parent] == paths[parent]);
    mounting_goes_in_order(paths, child, config, journal);
}

/// What is mounted of a drive is unmounted in one go, from the leaves to the root.
pub proof fn leaves_are_unmounted_first(drive: Seq<char>, journal: JournalView)
    ensures
        all_unmounted(drive, journal) matches Err(StopView::Waiting(ActionView::Run(command)))
            ==> exists|points: Seq<Seq<char>>|
            {
                &&& command == #[trigger] umount_command(points)
                &&& points.len() > 0
                &&& sorted_by(points, path_le(true))
            },
{
    if let Ok((Ok(proc_mounts), _)) = mounts_read(journal) {
        sorted_paths_are_ordered(mount_points_in(lines_of(proc_mounts@), drive), true);
    }
}

} // verus!
