//! Why a procedure can be called again with more answers: what it has made of the old answers
//! stands.

use vstd::prelude::*;

use crate::command_helpers::{
    is_busy, performed, performed_with_retries, retried, CommandView, MAX_ATTEMPTS,
};
use crate::config::{
    args_verified, config_made, configured, mandatory_args_enforced, problems_of, user_checked,
    ConfigView, MandatoryArgsView, VerifiedArgsView,
};
use crate::disk_helpers::{
    all_unmounted, disk_ops_performed, drive_partitioned, efi_filesystem_made, filesystem_mounted,
    mkfs_btrfs_command, mkfs_fat_command, mount_command, root_filesystem_made,
    root_filesystems_mounted, subvolume_mounted, subvolume_prepared, subvolumes_mounted,
    subvolumes_prepared, umount_command,
};
use crate::flake::flake_stored;
use crate::installer::nixos_installed;
use crate::journal::{
    arguments_read, creation_read, line_read, paused, ran, ActionView, Answer, JournalView, Outcome,
    StopView,
};
use crate::options::{default_options, options_from, without_program, OptionsView};
use crate::paths::subvolume_name;
use crate::session::{choice_in, installation_confirmed, session_held, Choice};

verus! {

/// The journal with more answers behind the others.
pub open spec fn extended(journal: JournalView, more: Seq<Answer>) -> JournalView {
    JournalView { answers: journal.answers + more, read: journal.read }
}

/// The journal of which nothing has been read.
pub open spec fn unread(answers: Seq<Answer>) -> JournalView {
    JournalView { answers, read: 0 }
}

/// Whether no more answers have been read than there are.
pub open spec fn in_range(journal: JournalView) -> bool {
    0 <= journal.read <= journal.answers.len()
}

/// Whether an answer is of the kind that an action calls for.
pub open spec fn fits(action: ActionView, answer: Answer) -> bool {
    match action {
        ActionView::ReadUserId => answer is UserId,
        ActionView::ReadArguments => answer is Arguments,
        ActionView::ReadTempDirectory => answer is TempDirectory,
        ActionView::ReadMounts => answer is Mounts,
        ActionView::ListDiskIds => answer is DiskIds,
        ActionView::InspectDrive(_) => answer is Drive,
        ActionView::CheckPath(_) => answer is Exists,
        ActionView::CreateDirectory(_) => answer is Created,
        ActionView::Run(_) => answer is Process,
        ActionView::RunAttached(_) => answer is Status,
        ActionView::Pause => answer is Paused,
        ActionView::Confirm => answer is Line,
    }
}

/// Whether what a procedure came to with the journal stands in what it comes to with more answers:
/// where it has read on in the journal, it does so again; where it waits for an answer, the first
/// of the new answers has to be of the kind that the action calls for; and where it has stopped
/// otherwise, it stops for the same reason.
pub open spec fn stands<T>(
    came_to: Outcome<T>,
    journal: JournalView,
    more: Seq<Answer>,
    comes_to: Outcome<T>,
) -> bool {
    match came_to {
        Ok((value, rest)) => {
            &&& rest.answers == journal.answers
            &&& journal.read <= rest.read <= journal.answers.len()
            &&& comes_to == Ok::<(T, JournalView), StopView>((value, extended(rest, more)))
        },
        Err(StopView::Waiting(action)) => more.len() > 0 && !fits(action, more[0]) ==> comes_to
            == Err::<(T, JournalView), StopView>(StopView::Misfit),
        Err(stop) => comes_to == Err::<(T, JournalView), StopView>(stop),
    }
}

// Each of the following says of one procedure that what it came to stands.

proof fn performed_stands(
    command: CommandView,
    complaint: Seq<char>,
    journal: JournalView,
    more: Seq<Answer>,
)
    requires
        in_range(journal),
    ensures
        stands(
            performed(command, complaint, journal),
            journal,
            more,
            performed(command, complaint, extended(journal, more)),
        ),
{
}

proof fn retried_stands(
    max_attempts: nat,
    tried: nat,
    command: CommandView,
    journal: JournalView,
    more: Seq<Answer>,
)
    requires
        in_range(journal),
    ensures
        stands(
            retried(max_attempts, tried, command, journal),
            journal,
            more,
            retried(max_attempts, tried, command, extended(journal, more)),
        ),
    decreases max_attempts - tried,
{
    if tried < max_attempts {
        if let Ok((attempt, rest)) = ran(command, journal) {
            if is_busy(attempt) && tried + 1 < max_attempts {
                if let Ok((_, later)) = paused(rest) {
                    retried_stands(max_attempts, tried + 1, command, later, more);
                }
            }
        }
    }
}

proof fn performed_with_retries_stands(
    command: CommandView,
    complaint: Seq<char>,
    journal: JournalView,
    more: Seq<Answer>,
)
    requires
        in_range(journal),
    ensures
        stands(
            performed_with_retries(command, complaint, journal),
            journal,
            more,
            performed_with_retries(command, complaint, extended(journal, more)),
        ),
{
    retried_stands(MAX_ATTEMPTS as nat, 0, command, journal, more);
}

proof fn flake_stored_stands(
    flake_path: Seq<char>,
    update_lockfile: bool,
    gc_root: bool,
    journal: JournalView,
    more: Seq<Answer>,
)
    requires
        in_range(journal),
    ensures
        stands(
            flake_stored(flake_path, update_lockfile, gc_root, journal),
            journal,
            more,
            flake_stored(flake_path, update_lockfile, gc_root, extended(journal, more)),
        ),
{
}

proof fn mandatory_args_enforced_stands(
    options: OptionsView,
    journal: JournalView,
    more: Seq<Answer>,
)
    requires
        in_range(journal),
    ensures
        stands(
            mandatory_args_enforced(options, journal),
            journal,
            more,
            mandatory_args_enforced(options, extended(journal, more)),
        ),
{
    if problems_of(options).len() == 0 {
        flake_stored_stands(
            options.flake_path->0,
            options.update_lockfile,
            options.create_flake_store_path_gc_root,
            journal,
            more,
        );
    }
}

proof fn args_verified_stands(
    args: MandatoryArgsView,
    mount_path: Seq<char>,
    system: Seq<char>,
    journal: JournalView,
    more: Seq<Answer>,
)
    requires
        in_range(journal),
    ensures
        stands(
            args_verified(args, mount_path, system, journal),
            journal,
            more,
            args_verified(args, mount_path, system, extended(journal, more)),
        ),
{
}

proof fn config_made_stands(
    args: VerifiedArgsView,
    journal: JournalView,
    more: Seq<Answer>,
)
    requires
        in_range(journal),
    ensures
        stands(
            config_made(args, journal),
            journal,
            more,
            config_made(args, extended(journal, more)),
        ),
{
}

/// What the configuration of an installation has made of the answers so far stands when more
/// answers come.
pub proof fn configured_stands(
    system: Seq<char>,
    journal: JournalView,
    more: Seq<Answer>,
)
    requires
        in_range(journal),
    ensures
        stands(
            configured(system, journal),
            journal,
            more,
            configured(system, extended(journal, more)),
        ),
{
    if let Ok((_, allowed)) = user_checked(journal) {
        if let Ok((argv, started)) = arguments_read(allowed) {
            if let Ok(options) = options_from(
                without_program(argv.deep_view()),
                default_options(),
            ) {
                mandatory_args_enforced_stands(options, started, more);
                if let Ok((args, complete)) = mandatory_args_enforced(options, started) {
                    args_verified_stands(args, options.mount_path, system, complete, more);
                    if let Ok((verified, rest)) = args_verified(
                        args,
                        options.mount_path,
                        system,
                        complete,
                    ) {
                        config_made_stands(verified, rest, more);
                    }
                }
            }
        }
    }
}

proof fn installation_confirmed_stands(
    chances: nat,
    journal: JournalView,
    more: Seq<Answer>,
)
    requires
        in_range(journal),
    ensures
        stands(
            installation_confirmed(chances, journal),
            journal,
            more,
            installation_confirmed(chances, extended(journal, more)),
        ),
    decreases chances,
{
    if chances > 0 {
        if let Ok((Ok(line), rest)) = line_read(journal) {
            if choice_in(line@) == Choice::Unclear {
                installation_confirmed_stands((chances - 1) as nat, rest, more);
            }
        }
    }
}

proof fn filesystem_mounted_stands(
    mount_options: Seq<char>,
    block_device: Seq<char>,
    mount_path: Seq<char>,
    journal: JournalView,
    more: Seq<Answer>,
)
    requires
        in_range(journal),
    ensures
        stands(
            filesystem_mounted(mount_options, block_device, mount_path, journal),
            journal,
            more,
            filesystem_mounted(mount_options, block_device, mount_path, extended(journal, more)),
        ),
{
    if let Ok((Ok(_), rest)) = creation_read(mount_path, journal) {
        performed_with_retries_stands(
            mount_command(mount_options, block_device, mount_path),
            "The mount command failed"@,
            rest,
            more,
        );
    }
}

proof fn subvolume_prepared_stands(
    path: Seq<char>,
    mount_path: Seq<char>,
    journal: JournalView,
    more: Seq<Answer>,
)
    requires
        in_range(journal),
    ensures
        stands(
            subvolume_prepared(path, mount_path, journal),
            journal,
            more,
            subvolume_prepared(path, mount_path, extended(journal, more)),
        ),
{
}

proof fn subvolumes_prepared_stands(
    paths: Seq<Seq<char>>,
    mount_path: Seq<char>,
    journal: JournalView,
    more: Seq<Answer>,
)
    requires
        in_range(journal),
    ensures
        stands(
            subvolumes_prepared(paths, mount_path, journal),
            journal,
            more,
            subvolumes_prepared(paths, mount_path, extended(journal, more)),
        ),
    decreases paths.len(),
{
    if paths.len() > 0 {
        subvolume_prepared_stands(paths[0], mount_path, journal, more);
        if let Ok((_, rest)) = subvolume_prepared(paths[0], mount_path, journal) {
            subvolumes_prepared_stands(paths.skip(1), mount_path, rest, more);
        }
    }
}

proof fn subvolumes_mounted_stands(
    paths: Seq<Seq<char>>,
    config: ConfigView,
    journal: JournalView,
    more: Seq<Answer>,
)
    requires
        in_range(journal),
    ensures
        stands(
            subvolumes_mounted(paths, config, journal),
            journal,
            more,
            subvolumes_mounted(paths, config, extended(journal, more)),
        ),
    decreases paths.len(),
{
    if paths.len() > 0 {
        filesystem_mounted_stands(
            config.root_part_mount_opts + ",subvol="@ + subvolume_name(paths[0]),
            "/dev/disk/by-uuid/"@ + config.root_part_uuid,
            config.mount_path + paths[0],
            journal,
            more,
        );
        if let Ok((_, rest)) = subvolume_mounted(paths[0], config, journal) {
            subvolumes_mounted_stands(paths.skip(1), config, rest, more);
        }
    }
}

proof fn root_filesystems_mounted_stands(
    config: ConfigView,
    journal: JournalView,
    more: Seq<Answer>,
)
    requires
        in_range(journal),
    ensures
        stands(
            root_filesystems_mounted(config, journal),
            journal,
            more,
            root_filesystems_mounted(config, extended(journal, more)),
        ),
{
    let block_device = "/dev/disk/by-uuid/"@ + config.root_part_uuid;
    filesystem_mounted_stands(
        config.root_part_mount_opts,
        block_device,
        config.mount_path,
        journal,
        more,
    );
    if let Ok((_, mounted)) = filesystem_mounted(
        config.root_part_mount_opts,
        block_device,
        config.mount_path,
        journal,
    ) {
        let paths = config.non_efi_mount_paths;
        subvolumes_prepared_stands(paths, config.mount_path, mounted, more);
        if let Ok((_, prepared)) = subvolumes_prepared(paths, config.mount_path, mounted) {
            let command = umount_command(seq![config.mount_path]);
            performed_stands(command, "The `umount` command failed"@, prepared, more);
            if let Ok((_, unmounted)) = performed(
                command,
                "The `umount` command failed"@,
                prepared,
            ) {
                subvolumes_mounted_stands(paths, config, unmounted, more);
            }
        }
    }
}

proof fn drive_partitioned_stands(
    config: ConfigView,
    journal: JournalView,
    more: Seq<Answer>,
)
    requires
        in_range(journal),
    ensures
        stands(
            drive_partitioned(config, journal),
            journal,
            more,
            drive_partitioned(config, extended(journal, more)),
        ),
{
}

proof fn efi_filesystem_made_stands(
    config: ConfigView,
    block_device: Seq<char>,
    journal: JournalView,
    more: Seq<Answer>,
)
    requires
        in_range(journal),
    ensures
        stands(
            efi_filesystem_made(config, block_device, journal),
            journal,
            more,
            efi_filesystem_made(config, block_device, extended(journal, more)),
        ),
{
    performed_with_retries_stands(
        mkfs_fat_command(config.efi_part_uuid, block_device),
        "The `mkfs` command to create an EFI filesystem failed"@,
        journal,
        more,
    );
}

proof fn root_filesystem_made_stands(
    config: ConfigView,
    block_device: Seq<char>,
    journal: JournalView,
    more: Seq<Answer>,
)
    requires
        in_range(journal),
    ensures
        stands(
            root_filesystem_made(config, block_device, journal),
            journal,
            more,
            root_filesystem_made(config, block_device, extended(journal, more)),
        ),
{
    performed_with_retries_stands(
        mkfs_btrfs_command(config.hostname, config.root_part_uuid, block_device),
        "The `mkfs` command to create a filesystem for rootfs failed"@,
        journal,
        more,
    );
}

proof fn disk_ops_performed_stands(
    config: ConfigView,
    journal: JournalView,
    more: Seq<Answer>,
)
    requires
        in_range(journal),
    ensures
        stands(
            disk_ops_performed(config, journal),
            journal,
            more,
            disk_ops_performed(config, extended(journal, more)),
        ),
{
    if let Ok((_, unmounted)) = all_unmounted(config.canonical_target_drive, journal) {
        drive_partitioned_stands(config, unmounted, more);
        if let Ok((partitions, divided)) = drive_partitioned(config, unmounted) {
            efi_filesystem_made_stands(config, partitions[0].1, divided, more);
            if let Ok((_, efi_made)) = efi_filesystem_made(config, partitions[0].1, divided) {
                root_filesystem_made_stands(config, partitions[1].1, efi_made, more);
                if let Ok((_, root_made)) = root_filesystem_made(
                    config,
                    partitions[1].1,
                    efi_made,
                ) {
                    root_filesystems_mounted_stands(config, root_made, more);
                    if let Ok((_, root_mounted)) = root_filesystems_mounted(config, root_made) {
                        filesystem_mounted_stands(
                            config.efi_part_mount_opts,
                            "/dev/disk/by-uuid/"@ + config.efi_part_uuid,
                            config.mount_path + "/boot"@,
                            root_mounted,
                            more,
                        );
                    }
                }
            }
        }
    }
}

proof fn nixos_installed_stands(
    config: ConfigView,
    journal: JournalView,
    more: Seq<Answer>,
)
    requires
        in_range(journal),
    ensures
        stands(
            nixos_installed(config, journal),
            journal,
            more,
            nixos_installed(config, extended(journal, more)),
        ),
{
}

/// What an installation has made of the answers so far stands when more answers come: it has read
/// on, it waits for an answer, or it has stopped for good.
pub proof fn session_stands(system: Seq<char>, journal: JournalView, more: Seq<Answer>)
    requires
        in_range(journal),
    ensures
        stands(
            session_held(system, journal),
            journal,
            more,
            session_held(system, extended(journal, more)),
        ),
{
    reveal(session_held);
    configured_stands(system, journal, more);
    if let Ok((config, known)) = configured(system, journal) {
        installation_confirmed_stands(2, known, more);
        if let Ok((_, confirmed)) = installation_confirmed(2, known) {
            disk_ops_performed_stands(config, confirmed, more);
            if let Ok((_, ready)) = disk_ops_performed(config, confirmed) {
                nixos_installed_stands(config, ready, more);
            }
        }
    }
}

/// An installation that waits for an answer has waited for each of the answers that it has: one
/// that has come to its end never goes on.
pub proof fn waiting_sessions_have_always_waited(
    system: Seq<char>,
    answers: Seq<Answer>,
    count: int,
)
    requires
        0 <= count <= answers.len(),
        session_held(system, unread(answers)) matches Err(StopView::Waiting(_)),
    ensures
        session_held(system, unread(answers.take(count))) matches Err(StopView::Waiting(_)),
{
    let first = unread(answers.take(count));
    assert(answers.take(count) + answers.skip(count) =~= answers);
    session_stands(system, first, answers.skip(count));
    assert(extended(first, answers.skip(count)) == unread(answers));
}

/// An installation stops at an answer that is not of the kind that it waits for with the answers
/// before that one.
pub proof fn unfitting_answers_stop_the_session(
    system: Seq<char>,
    answers: Seq<Answer>,
    count: int,
    action: ActionView,
)
    requires
        0 <= count < answers.len(),
        session_held(system, unread(answers.take(count))) == Err::<((), JournalView), StopView>(
            StopView::Waiting(action),
        ),
        !fits(action, answers[count]),
    ensures
        session_held(system, unread(answers)) == Err::<((), JournalView), StopView>(
            StopView::Misfit,
        ),
{
    let first = unread(answers.take(count));
    assert(answers.take(count) + answers.skip(count) =~= answers);
    session_stands(system, first, answers.skip(count));
    assert(extended(first, answers.skip(count)) == unread(answers));
}

} // verus!
