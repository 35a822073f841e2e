//! What a procedure asked for on the way to where it has come.
//!
//! With fewer answers a procedure stops earlier, and so the actions that it asks for with the first
//! answer, the first two answers and so on are those that it has asked for on its way.

use vstd::prelude::*;

use crate::command_helpers::{
    is_busy, performed, performed_with_retries, retried, CommandView, MAX_ATTEMPTS,
};
use crate::config::{
    args_verified, config_made, configured, mandatory_args_enforced, problems_of, user_checked,
    ConfigView, MandatoryArgsView, VerifiedArgsView,
};
use crate::disk_helpers::{
    all_unmounted, disk_ops_performed, drive_partitioned, efi_filesystem_made, filesystem_mounted,
    mkfs_btrfs_command, mkfs_fat_command, mount_command, root_filesystem_made,
    root_filesystems_mounted, subvolume_mounted, subvolume_prepared, subvolumes_mounted,
    subvolumes_prepared, umount_command,
};
use crate::flake::flake_stored;
use crate::installer::{nixos_installed, store_prepared};
use crate::journal::{
    arguments_read, creation_read, line_read, paused, ran, ActionView, JournalView, Outcome,
    StopView,
};
use crate::options::{default_options, options_from, without_program, OptionsView};
use crate::paths::subvolume_name;
use crate::replay::in_range;
use crate::session::{choice_in, installation_confirmed, Choice};

verus! {

/// The journal with its first `count` answers only.
pub open spec fn cut(journal: JournalView, count: int) -> JournalView {
    JournalView { answers: journal.answers.take(count), read: journal.read }
}

/// Whether a procedure that came to `short` asks for an action.
pub open spec fn waits_for<T>(short: Outcome<T>, action: ActionView) -> bool {
    short == Err::<(T, JournalView), StopView>(StopView::Waiting(action))
}

/// Whether a procedure that ends with the journal reads on in it, and ends in the same way with the
/// answers alone that it has read by then.
pub open spec fn ends_alike<T>(
    whole: Outcome<T>,
    journal: JournalView,
    count: int,
    short: Outcome<T>,
) -> bool {
    whole matches Ok((value, rest)) ==> {
        &&& rest.answers == journal.answers
        &&& journal.read <= rest.read <= journal.answers.len()
        &&& rest.read <= count <= journal.answers.len() ==> short == Ok::<
            (T, JournalView),
            StopView,
        >((value, cut(rest, count)))
    }
}

// Each of the following says of one procedure that it ends alike.

proof fn retried_ends_alike(
    max_attempts: nat,
    tried: nat,
    command: CommandView,
    journal: JournalView,
    count: int,
)
    requires
        in_range(journal),
    ensures
        ends_alike(
            retried(max_attempts, tried, command, journal),
            journal,
            count,
            retried(max_attempts, tried, command, cut(journal, count)),
        ),
    decreases max_attempts - tried,
{
    if tried < max_attempts {
        if let Ok((attempt, rest)) = ran(command, journal) {
            if is_busy(attempt) && tried + 1 < max_attempts {
                if let Ok((_, later)) = paused(rest) {
                    retried_ends_alike(max_attempts, tried + 1, command, later, count);
                }
            }
        }
    }
}

pub proof fn performed_ends_alike(
    command: CommandView,
    complaint: Seq<char>,
    journal: JournalView,
    count: int,
)
    requires
        in_range(journal),
    ensures
        ends_alike(
            performed(command, complaint, journal),
            journal,
            count,
            performed(command, complaint, cut(journal, count)),
        ),
{
}

pub proof fn performed_with_retries_ends_alike(
    command: CommandView,
    complaint: Seq<char>,
    journal: JournalView,
    count: int,
)
    requires
        in_range(journal),
    ensures
        ends_alike(
            performed_with_retries(command, complaint, journal),
            journal,
            count,
            performed_with_retries(command, complaint, cut(journal, count)),
        ),
{
    retried_ends_alike(MAX_ATTEMPTS as nat, 0, command, journal, count);
}

pub proof fn flake_stored_ends_alike(
    flake_path: Seq<char>,
    update_lockfile: bool,
    gc_root: bool,
    journal: JournalView,
    count: int,
)
    requires
        in_range(journal),
    ensures
        ends_alike(
            flake_stored(flake_path, update_lockfile, gc_root, journal),
            journal,
            count,
            flake_stored(flake_path, update_lockfile, gc_root, cut(journal, count)),
        ),
{
}

pub proof fn mandatory_args_enforced_ends_alike(
    options: OptionsView,
    journal: JournalView,
    count: int,
)
    requires
        in_range(journal),
    ensures
        ends_alike(
            mandatory_args_enforced(options, journal),
            journal,
            count,
            mandatory_args_enforced(options, cut(journal, count)),
        ),
{
    if problems_of(options).len() == 0 {
        flake_stored_ends_alike(
            options.flake_path->0,
            options.update_lockfile,
            options.create_flake_store_path_gc_root,
            journal,
            count,
        );
    }
}

pub proof fn args_verified_ends_alike(
    args: MandatoryArgsView,
    mount_path: Seq<char>,
    system: Seq<char>,
    journal: JournalView,
    count: int,
)
    requires
        in_range(journal),
    ensures
        ends_alike(
            args_verified(args, mount_path, system, journal),
            journal,
            count,
            args_verified(args, mount_path, system, cut(journal, count)),
        ),
{
}

proof fn config_made_ends_alike(
    args: VerifiedArgsView,
    journal: JournalView,
    count: int,
)
    requires
        in_range(journal),
    ensures
        ends_alike(
            config_made(args, journal),
            journal,
            count,
            config_made(args, cut(journal, count)),
        ),
{
}

pub proof fn configured_ends_alike(
    system: Seq<char>,
    journal: JournalView,
    count: int,
)
    requires
        in_range(journal),
    ensures
        ends_alike(
            configured(system, journal),
            journal,
            count,
            configured(system, cut(journal, count)),
        ),
{
    if let Ok((_, allowed)) = user_checked(journal) {
        if let Ok((argv, started)) = arguments_read(allowed) {
            if let Ok(options) = options_from(
                without_program(argv.deep_view()),
                default_options(),
            ) {
                mandatory_args_enforced_ends_alike(options, started, count);
                if let Ok((args, complete)) = mandatory_args_enforced(options, started) {
                    args_verified_ends_alike(args, options.mount_path, system, complete, count);
                    if let Ok((verified, rest)) = args_verified(
                        args,
                        options.mount_path,
                        system,
                        complete,
                    ) {
                        config_made_ends_alike(verified, rest, count);
                    }
                }
            }
        }
    }
}

pub proof fn installation_confirmed_ends_alike(
    chances: nat,
    journal: JournalView,
    count: int,
)
    requires
        in_range(journal),
    ensures
        ends_alike(
            installation_confirmed(chances, journal),
            journal,
            count,
            installation_confirmed(chances, cut(journal, count)),
        ),
    decreases chances,
{
    if chances > 0 {
        if let Ok((Ok(line), rest)) = line_read(journal) {
            if choice_in(line@) == Choice::Unclear {
                installation_confirmed_ends_alike((chances - 1) as nat, rest, count);
            }
        }
    }
}

pub proof fn filesystem_mounted_ends_alike(
    mount_options: Seq<char>,
    block_device: Seq<char>,
    mount_path: Seq<char>,
    journal: JournalView,
    count: int,
)
    requires
        in_range(journal),
    ensures
        ends_alike(
            filesystem_mounted(mount_options, block_device, mount_path, journal),
            journal,
            count,
            filesystem_mounted(mount_options, block_device, mount_path, cut(journal, count)),
        ),
{
    if let Ok((Ok(_), rest)) = creation_read(mount_path, journal) {
        performed_with_retries_ends_alike(
            mount_command(mount_options, block_device, mount_path),
            "The mount command failed"@,
            rest,
            count,
        );
    }
}

pub proof fn subvolume_prepared_ends_alike(
    path: Seq<char>,
    mount_path: Seq<char>,
    journal: JournalView,
    count: int,
)
    requires
        in_range(journal),
    ensures
        ends_alike(
            subvolume_prepared(path, mount_path, journal),
            journal,
            count,
            subvolume_prepared(path, mount_path, cut(journal, count)),
        ),
{
}

pub proof fn subvolumes_prepared_ends_alike(
    paths: Seq<Seq<char>>,
    mount_path: Seq<char>,
    journal: JournalView,
    count: int,
)
    requires
        in_range(journal),
    ensures
        ends_alike(
            subvolumes_prepared(paths, mount_path, journal),
            journal,
            count,
            subvolumes_prepared(paths, mount_path, cut(journal, count)),
        ),
    decreases paths.len(),
{
    if paths.len() > 0 {
        subvolume_prepared_ends_alike(paths[0], mount_path, journal, count);
        if let Ok((_, rest)) = subvolume_prepared(paths[0], mount_path, journal) {
            subvolumes_prepared_ends_alike(paths.skip(1), mount_path, rest, count);
        }
    }
}

pub proof fn subvolumes_mounted_ends_alike(
    paths: Seq<Seq<char>>,
    config: ConfigView,
    journal: JournalView,
    count: int,
)
    requires
        in_range(journal),
    ensures
        ends_alike(
            subvolumes_mounted(paths, config, journal),
            journal,
            count,
            subvolumes_mounted(paths, config, cut(journal, count)),
        ),
    decreases paths.len(),
{
    if paths.len() > 0 {
        filesystem_mounted_ends_alike(
            config.root_part_mount_opts + ",subvol="@ + subvolume_name(paths[0]),
            "/dev/disk/by-uuid/"@ + config.root_part_uuid,
            config.mount_path + paths[0],
            journal,
            count,
        );
        if let Ok((_, rest)) = subvolume_mounted(paths[0], config, journal) {
            subvolumes_mounted_ends_alike(paths.skip(1), config, rest, count);
        }
    }
}

pub proof fn root_filesystems_mounted_ends_alike(
    config: ConfigView,
    journal: JournalView,
    count: int,
)
    requires
        in_range(journal),
    ensures
        ends_alike(
            root_filesystems_mounted(config, journal),
            journal,
            count,
            root_filesystems_mounted(config, cut(journal, count)),
        ),
{
    let block_device = "/dev/disk/by-uuid/"@ + config.root_part_uuid;
    let paths = config.non_efi_mount_paths;
    filesystem_mounted_ends_alike(
        config.root_part_mount_opts,
        block_device,
        config.mount_path,
        journal,
        count,
    );
    if let Ok((_, mounted)) = filesystem_mounted(
        config.root_part_mount_opts,
        block_device,
        config.mount_path,
        journal,
    ) {
        subvolumes_prepared_ends_alike(paths, config.mount_path, mounted, count);
        if let Ok((_, prepared)) = subvolumes_prepared(paths, config.mount_path, mounted) {
            let command = umount_command(seq![config.mount_path]);
            performed_ends_alike(command, "The `umount` command failed"@, prepared, count);
            if let Ok((_, unmounted)) = performed(
                command,
                "The `umount` command failed"@,
                prepared,
            ) {
                subvolumes_mounted_ends_alike(paths, config, unmounted, count);
            }
        }
    }
}

pub proof fn all_unmounted_ends_alike(
    drive: Seq<char>,
    journal: JournalView,
    count: int,
)
    requires
        in_range(journal),
    ensures
        ends_alike(
            all_unmounted(drive, journal),
            journal,
            count,
            all_unmounted(drive, cut(journal, count)),
        ),
{
}

pub proof fn drive_partitioned_ends_alike(
    config: ConfigView,
    journal: JournalView,
    count: int,
)
    requires
        in_range(journal),
    ensures
        ends_alike(
            drive_partitioned(config, journal),
            journal,
            count,
            drive_partitioned(config, cut(journal, count)),
        ),
{
}

pub proof fn efi_filesystem_made_ends_alike(
    config: ConfigView,
    block_device: Seq<char>,
    journal: JournalView,
    count: int,
)
    requires
        in_range(journal),
    ensures
        ends_alike(
            efi_filesystem_made(config, block_device, journal),
            journal,
            count,
            efi_filesystem_made(config, block_device, cut(journal, count)),
        ),
{
    performed_with_retries_ends_alike(
        mkfs_fat_command(config.efi_part_uuid, block_device),
        "The `mkfs` command to create an EFI filesystem failed"@,
        journal,
        count,
    );
}

pub proof fn root_filesystem_made_ends_alike(
    config: ConfigView,
    block_device: Seq<char>,
    journal: JournalView,
    count: int,
)
    requires
        in_range(journal),
    ensures
        ends_alike(
            root_filesystem_made(config, block_device, journal),
            journal,
            count,
            root_filesystem_made(config, block_device, cut(journal, count)),
        ),
{
    performed_with_retries_ends_alike(
        mkfs_btrfs_command(config.hostname, config.root_part_uuid, block_device),
        "The `mkfs` command to create a filesystem for rootfs failed"@,
        journal,
        count,
    );
}

pub proof fn disk_ops_performed_ends_alike(
    config: ConfigView,
    journal: JournalView,
    count: int,
)
    requires
        in_range(journal),
    ensures
        ends_alike(
            disk_ops_performed(config, journal),
            journal,
            count,
            disk_ops_performed(config, cut(journal, count)),
        ),
{
    all_unmounted_ends_alike(config.canonical_target_drive, journal, count);
    if let Ok((_, unmounted)) = all_unmounted(config.canonical_target_drive, journal) {
        drive_partitioned_ends_alike(config, unmounted, count);
        if let Ok((partitions, divided)) = drive_partitioned(config, unmounted) {
            efi_filesystem_made_ends_alike(config, partitions[0].1, divided, count);
            if let Ok((_, efi_made)) = efi_filesystem_made(config, partitions[0].1, divided) {
                root_filesystem_made_ends_alike(config, partitions[1].1, efi_made, count);
                if let Ok((_, root_made)) = root_filesystem_made(
                    config,
                    partitions[1].1,
                    efi_made,
                ) {
                    root_filesystems_mounted_ends_alike(config, root_made, count);
                    if let Ok((_, root_mounted)) = root_filesystems_mounted(config, root_made) {
                        filesystem_mounted_ends_alike(
                            config.efi_part_mount_opts,
                            "/dev/disk/by-uuid/"@ + config.efi_part_uuid,
                            config.mount_path + "/boot"@,
                            root_mounted,
                            count,
                        );
                    }
                }
            }
        }
    }
}

pub proof fn store_prepared_ends_alike(
    config: ConfigView,
    journal: JournalView,
    count: int,
)
    requires
        in_range(journal),
    ensures
        ends_alike(
            store_prepared(config, journal),
            journal,
            count,
            store_prepared(config, cut(journal, count)),
        ),
{
}

pub proof fn nixos_installed_ends_alike(
    config: ConfigView,
    journal: JournalView,
    count: int,
)
    requires
        in_range(journal),
    ensures
        ends_alike(
            nixos_installed(config, journal),
            journal,
            count,
            nixos_installed(config, cut(journal, count)),
        ),
{
    store_prepared_ends_alike(config, journal, count);
}

} // verus!
