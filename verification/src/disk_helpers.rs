//! What happens to the target drive: unmounting, partitioning, formatting and mounting.

use vstd::prelude::*;

use crate::command_helpers::{perform, perform_with_retries, CommandLine};
use crate::command_helpers::{command, performed, performed_with_retries, CommandView};
use crate::config::NixOSInstallerConfig;
use crate::config::ConfigView;
use crate::file_systems::SupportedFileSystems;
use crate::journal::{give_up, give_up_io, DiskId, Journal, Stop};
use crate::journal::{
    comes_to, creation_read, disk_ids_read, existence_read, failed, failed_io, mounts_read,
    JournalView, Outcome, StopView,
};
use crate::paths::{make_btrfs_subvolume_string, sort_paths};
use crate::paths::{sorted_paths, sorted_paths_are_ordered, subvolume_name};
use crate::text::{
    is_text_le, lines, parse_u8, same_text, split, starts_with, strip_prefix, without_char,
};
use crate::text::{decimal_u8, lines_of, split_on, text_le};

verus! {

/// `partprobe`, to have the kernel read the partition table again.
pub open spec fn partprobe_command(drive: Seq<char>) -> CommandView {
    command("partprobe"@, seq![drive])
}

/// `partprobe`, to have the kernel read the partition table again.
fn partprobe(drive: &str) -> (r: CommandLine)
    ensures
        r.deep_view() == partprobe_command(drive@),
{
    CommandLine::new("partprobe").arg(drive)
}

/// `udevadm`, to wait until the device files are there.
pub open spec fn udevadm_command() -> CommandView {
    command("udevadm"@, seq!["settle"@])
}

/// `udevadm`, to wait until the device files are there.
fn udevadm() -> (r: CommandLine)
    ensures
        r.deep_view() == udevadm_command(),
{
    CommandLine::new("udevadm").arg("settle")
}

/// What comes of waiting until the device files agree with the drive.
pub open spec fn udev_settled(drive: Seq<char>, journal: JournalView) -> Outcome<()> {
    match performed(partprobe_command(drive), "The `partprobe` command failed"@, journal) {
        Err(stop) => Err(stop),
        Ok((_, rest)) => performed(udevadm_command(), "The `udevadm` command failed"@, rest),
    }
}

/// Waits until the device files agree with the drive.
pub fn settle_udev<'a>(canonical_target_drive: &str, journal: &mut Journal<'a>) -> (r: Result<
    (),
    Stop,
>)
    requires
        old(journal).wf(),
    ensures
        final(journal).wf(),
        comes_to(
            r,
            old(journal)@,
            final(journal)@,
            udev_settled(canonical_target_drive@, old(journal)@),
        ),
{
    perform(&partprobe(canonical_target_drive), "The `partprobe` command failed", journal)?;
    perform(&udevadm(), "The `udevadm` command failed", journal)
}

/// Where the file system is mounted that a line of `/proc/mounts` tells of, if the line begins with
/// the drive.
pub open spec fn mount_point_of(line: Seq<char>, drive: Seq<char>) -> Option<Seq<char>> {
    if drive.is_prefix_of(line) && split_on(line, ' ').len() > 1 {
        Some(split_on(line, ' ')[1])
    } else {
        None
    }
}

/// Where file systems of the drive are mounted, according to lines of `/proc/mounts`.
pub open spec fn mount_points_in(lines: Seq<Seq<char>>, drive: Seq<char>) -> Seq<Seq<char>>
    decreases lines.len(),
{
    if lines.len() == 0 {
        seq![]
    } else {
        match mount_point_of(lines.last(), drive) {
            Some(point) => mount_points_in(lines.drop_last(), drive).push(point),
            None => mount_points_in(lines.drop_last(), drive),
        }
    }
}

/// Where file systems of the drive are mounted, according to the text of `/proc/mounts`.
pub fn find_mount_points(proc_mounts: &str, drive: &str) -> (r: Vec<String>)
    ensures
        r.deep_view() == mount_points_in(lines_of(proc_mounts@), drive@),
{
    let all = lines(proc_mounts);
    let ghost given = all.deep_view();
    let mut r: Vec<String> = Vec::new();
    let mut i: usize = 0;
    assert(r.deep_view() =~= mount_points_in(given.take(0), drive@));
    while i < all.len()
        invariant
            i <= all@.len(),
            given == all.deep_view(),
            r.deep_view() == mount_points_in(given.take(i as int), drive@),
        decreases all@.len() - i,
    {
        assert(given.take(i + 1).drop_last() =~= given.take(i as int));
        let line = all[i].as_str();
        if starts_with(line, drive) {
            let fields = split(line, ' ');
            assert(fields@.len() == fields.deep_view().len());
            if fields.len() > 1 {
                let ghost before = r.deep_view();
                r.push(fields[1].clone());
                assert(r.deep_view() =~= before.push(fields.deep_view()[1]));
            }
        }
        i = i + 1;
    }
    assert(given.take(i as int) =~= given);
    r
}

/// A mount point is found exactly where one of the lines tells of it.
pub proof fn mount_points_are_found(lines: Seq<Seq<char>>, drive: Seq<char>, point: Seq<char>)
    ensures
        mount_points_in(lines, drive).contains(point) <==> exists|i: int|
            0 <= i < lines.len() && mount_point_of(#[trigger] lines[i], drive) == Some(point),
    decreases lines.len(),
{
    if lines.len() > 0 {
        let before = lines.drop_last();
        let found = mount_points_in(before, drive);
        let all = mount_points_in(lines, drive);
        mount_points_are_found(before, drive, point);
        if all.contains(point) {
            let k = choose|k: int| 0 <= k < all.len() && all[k] == point;
            if k < found.len() {
                assert(found[k] == point);
                let i = choose|i: int|
                    0 <= i < before.len() && mount_point_of(#[trigger] before[i], drive) == Some(
                        point,
                    );
                assert(lines[i] == before[i]);
            } else {
                assert(mount_point_of(lines[lines.len() - 1], drive) == Some(point));
            }
        }
        if exists|i: int|
            0 <= i < lines.len() && mount_point_of(#[trigger] lines[i], drive) == Some(point) {
            let i = choose|i: int|
                0 <= i < lines.len() && mount_point_of(#[trigger] lines[i], drive) == Some(point);
            if i < before.len() {
                assert(before[i] == lines[i]);
                let k = choose|k: int| 0 <= k < found.len() && found[k] == point;
                assert(all[k] == point);
            } else {
                assert(all.last() == point);
            }
        }
    }
}

/// How the list of some texts is written for debugging.
pub uninterp spec fn texts_debug(texts: Seq<Seq<char>>) -> Seq<char>;

/// The `Debug` form of a `Vec<String>`, which depends on the texts alone.
#[verifier::external_body]
fn debug_texts(texts: &Vec<String>) -> (r: String)
    ensures
        r@ == texts_debug(texts.deep_view()),
{
    format!("{:?}", texts)
}

/// `umount`, to unmount some paths one after the other.
pub open spec fn umount_command(paths: Seq<Seq<char>>) -> CommandView {
    command("umount"@, seq!["--force"@] + paths)
}

/// `umount`, to unmount some paths one after the other.
fn umount(paths: &Vec<String>) -> (r: CommandLine)
    ensures
        r.deep_view() == umount_command(paths.deep_view()),
{
    let mut r = CommandLine::new("umount").arg("--force");
    let mut i: usize = 0;
    assert(r.deep_view() =~= umount_command(paths.deep_view().take(0)));
    while i < paths.len()
        invariant
            i <= paths@.len(),
            r.deep_view() == umount_command(paths.deep_view().take(i as int)),
        decreases paths@.len() - i,
    {
        r = r.arg(paths[i].as_str());
        assert(r.deep_view() =~= umount_command(paths.deep_view().take(i + 1)));
        i = i + 1;
    }
    assert(paths.deep_view().take(i as int) =~= paths.deep_view());
    r
}

/// What comes of unmounting what is mounted of the drive, from the leaves to the root.
pub open spec fn all_unmounted(drive: Seq<char>, journal: JournalView) -> Outcome<()> {
    match mounts_read(journal) {
        Err(stop) => Err(stop),
        Ok((Err(error), _)) => failed_io(error@),
        Ok((Ok(proc_mounts), rest)) => {
            let points = sorted_paths(mount_points_in(lines_of(proc_mounts@), drive), true);
            if points.len() == 0 {
                Ok(((), rest))
            } else {
                performed(
                    umount_command(points),
                    "Could not unmount all paths, some of these may be dangling "@ + texts_debug(
                        points,
                    ),
                    rest,
                )
            }
        },
    }
}

/// Unmounts what is mounted of the drive, from the leaves to the root.
pub fn unmount_everything<'a>(canonical_target_drive: &str, journal: &mut Journal<'a>) -> (r:
    Result<(), Stop>)
    requires
        old(journal).wf(),
    ensures
        final(journal).wf(),
        comes_to(
            r,
            old(journal)@,
            final(journal)@,
            all_unmounted(canonical_target_drive@, old(journal)@),
        ),
{
    match journal.mounts()? {
        Err(error) => Err(give_up_io(error.as_str())),
        Ok(proc_mounts) => {
            let mut points = find_mount_points(proc_mounts.as_str(), canonical_target_drive);
            proof {
                sorted_paths_are_ordered(points.deep_view(), true);
            }
            assert(points@.len() == points.deep_view().len());
            if points.len() == 0 {
                Ok(())
            } else {
                sort_paths(points.as_mut_slice(), true);
                let mut complaint =
                    "Could not unmount all paths, some of these may be dangling ".to_string();
                complaint.append(debug_texts(&points).as_str());
                perform(&umount(&points), complaint.as_str(), journal)
            }
        },
    }
}

/// The number and the path of a partition, if its path is `start` with a number behind it.
pub open spec fn partition_of(path: Seq<char>, start: Seq<char>) -> Option<(u8, Seq<char>)> {
    if start.is_prefix_of(path) {
        match decimal_u8(path.skip(start.len() as int)) {
            Some(number) => Some((number, path)),
            None => None,
        }
    } else {
        None
    }
}

/// The partitions among some entries of `/dev/disk/by-id`.
pub open spec fn partitions_in(ids: Seq<DiskId>, start: Seq<char>) -> Seq<(u8, Seq<char>)>
    decreases ids.len(),
{
    if ids.len() == 0 {
        seq![]
    } else {
        match partition_of(ids.last().path@, start) {
            Some(partition) => partitions_in(ids.drop_last(), start).push(partition),
            None => partitions_in(ids.drop_last(), start),
        }
    }
}

/// The partitions among some entries of `/dev/disk/by-id`.
pub fn find_partitions(ids: &Vec<DiskId>, start: &str) -> (r: Vec<(u8, String)>)
    ensures
        r.deep_view() == partitions_in(ids@, start@),
{
    let mut r: Vec<(u8, String)> = Vec::new();
    let mut i: usize = 0;
    assert(r.deep_view() =~= partitions_in(ids@.take(0), start@));
    while i < ids.len()
        invariant
            i <= ids@.len(),
            r.deep_view() == partitions_in(ids@.take(i as int), start@),
        decreases ids@.len() - i,
    {
        assert(ids@.take(i + 1).drop_last() =~= ids@.take(i as int));
        let path = ids[i].path.as_str();
        let number: Option<u8> = match strip_prefix(path, start) {
            Some(suffix) => parse_u8(suffix.as_str()),
            None => None,
        };
        if let Some(found) = number {
            let ghost before = r.deep_view();
            r.push((found, path.to_string()));
            assert(r.deep_view() =~= before.push((found, path@)));
        }
        i = i + 1;
    }
    assert(ids@.take(i as int) =~= ids@);
    r
}

/// How the list of some partitions is written for debugging.
pub uninterp spec fn partitions_debug(partitions: Seq<(u8, Seq<char>)>) -> Seq<char>;

/// The `Debug` form of a `Vec<(u8, String)>`, which depends on the numbers and the texts alone.
#[verifier::external_body]
fn debug_partitions(partitions: &Vec<(u8, String)>) -> (r: String)
    ensures
        r@ == partitions_debug(partitions.deep_view()),
{
    format!("{:?}", partitions)
}

/// Partitions come by their numbers, and partitions with one number by their paths.
pub open spec fn partition_le(a: (u8, Seq<char>), b: (u8, Seq<char>)) -> bool {
    a.0 < b.0 || (a.0 == b.0 && text_le(a.1, b.1))
}

/// The two partitions of the drive in their order, or a stop where there are not two.
pub open spec fn two_partitions(partitions: Seq<(u8, Seq<char>)>) -> Result<
    Seq<(u8, Seq<char>)>,
    Seq<char>,
> {
    if partitions.len() != 2 {
        Err(
            "The target drive should contain only 2 partitions, found: "@ + partitions_debug(
                partitions,
            ),
        )
    } else if partition_le(partitions[0], partitions[1]) {
        Ok(partitions)
    } else {
        Ok(seq![partitions[1], partitions[0]])
    }
}

/// The two partitions of the drive in their order.
pub fn order_partitions(partitions: Vec<(u8, String)>) -> (r: Result<Vec<(u8, String)>, String>)
    ensures
        match r {
            Ok(ordered) => two_partitions(partitions.deep_view()) == Ok::<
                Seq<(u8, Seq<char>)>,
                Seq<char>,
            >(ordered.deep_view()),
            Err(text) => two_partitions(partitions.deep_view()) == Err::<
                Seq<(u8, Seq<char>)>,
                Seq<char>,
            >(text@),
        },
{
    assert(partitions@.len() == partitions.deep_view().len());
    if partitions.len() != 2 {
        let mut text = "The target drive should contain only 2 partitions, found: ".to_string();
        text.append(debug_partitions(&partitions).as_str());
        return Err(text);
    }
    let in_order: bool = partitions[0].0 < partitions[1].0 || (partitions[0].0 == partitions[1].0
        && is_text_le(partitions[0].1.as_str(), partitions[1].1.as_str()));
    if in_order {
        Ok(partitions)
    } else {
        let mut ordered: Vec<(u8, String)> = Vec::new();
        ordered.push((partitions[1].0, partitions[1].1.clone()));
        ordered.push((partitions[0].0, partitions[0].1.clone()));
        assert(ordered.deep_view() =~= seq![
            partitions.deep_view()[1],
            partitions.deep_view()[0],
        ]);
        Ok(ordered)
    }
}

/// What comes of looking for the partitions of the target drive.
pub open spec fn partitions_discovered(config: ConfigView, journal: JournalView) -> Outcome<
    Seq<(u8, Seq<char>)>,
> {
    match disk_ids_read(journal) {
        Err(stop) => Err(stop),
        Ok((Err(error), _)) => failed_io(error@),
        Ok((Ok(ids), rest)) => match two_partitions(
            partitions_in(ids@, config.target_drive_by_id + "-part"@),
        ) {
            Err(text) => failed(text),
            Ok(partitions) => Ok((partitions, rest)),
        },
    }
}

/// Looks for the partitions of the target drive.
pub fn discover_target_drive_partitions<'a>(
    nixos_installer_config: &NixOSInstallerConfig,
    journal: &mut Journal<'a>,
) -> (r: Result<Vec<(u8, String)>, Stop>)
    requires
        old(journal).wf(),
    ensures
        final(journal).wf(),
        comes_to(
            r,
            old(journal)@,
            final(journal)@,
            partitions_discovered(nixos_installer_config.deep_view(), old(journal)@),
        ),
{
    let mut start = nixos_installer_config.target_drive_by_id.clone();
    start.append("-part");
    match journal.disk_ids()? {
        Err(error) => Err(give_up_io(error.as_str())),
        Ok(ids) => match order_partitions(find_partitions(ids, start.as_str())) {
            Err(text) => Err(give_up(text)),
            Ok(partitions) => Ok(partitions),
        },
    }
}

/// `wipefs`, to erase what a drive says of its contents.
pub open spec fn wipefs_command(drive: Seq<char>) -> CommandView {
    command("wipefs"@, seq!["--all"@, "--force"@, drive])
}

/// `wipefs`, to erase what a drive says of its contents.
fn wipefs(drive: &str) -> (r: CommandLine)
    ensures
        r.deep_view() == wipefs_command(drive@),
{
    CommandLine::new("wipefs").arg("--all").arg("--force").arg(drive)
}

/// `parted`, to give a drive an EFI partition and a root partition.
pub open spec fn parted_command(drive: Seq<char>) -> CommandView {
    command(
        "parted"@,
        seq![
            "--align"@,
            "optimal"@,
            "--fix"@,
            "--script"@,
            drive,
            "mklabel"@,
            "gpt"@,
            "mkpart"@,
            "primary"@,
            "fat32"@,
            "64MiB"@,
            "1088MiB"@,
            "set"@,
            "1"@,
            "esp"@,
            "on"@,
            "mkpart"@,
            "primary"@,
            "ext4"@,
            "1088MiB"@,
            "100%"@,
        ],
    )
}

/// `parted`, to give a drive an EFI partition and a root partition.
fn parted(drive: &str) -> (r: CommandLine)
    ensures
        r.deep_view() == parted_command(drive@),
{
    CommandLine::new("parted").arg("--align").arg("optimal").arg("--fix").arg("--script").arg(
        drive,
    ).arg("mklabel").arg("gpt").arg("mkpart").arg("primary").arg("fat32").arg("64MiB").arg(
        "1088MiB",
    ).arg("set").arg("1").arg("esp").arg("on").arg("mkpart").arg("primary").arg("ext4").arg(
        "1088MiB",
    ).arg("100%")
}

/// What comes of partitioning the target drive anew, where that is wanted.
pub open spec fn repartitioned(config: ConfigView, journal: JournalView) -> Outcome<()> {
    if config.partition_drive {
        match performed(
            wipefs_command(config.target_drive_by_id),
            "Could not wipe the target disk"@,
            journal,
        ) {
            Err(stop) => Err(stop),
            Ok((_, rest)) => performed(
                parted_command(config.target_drive_by_id),
                "Disk partitioning failed"@,
                rest,
            ),
        }
    } else {
        Ok(((), journal))
    }
}

/// What comes of partitioning the target drive: its partitions.
pub open spec fn drive_partitioned(config: ConfigView, journal: JournalView) -> Outcome<
    Seq<(u8, Seq<char>)>,
> {
    match repartitioned(config, journal) {
        Err(stop) => Err(stop),
        Ok((_, divided)) => match udev_settled(config.canonical_target_drive, divided) {
            Err(stop) => Err(stop),
            Ok((_, settled)) => partitions_discovered(config, settled),
        },
    }
}

/// Partitions the target drive anew, where that is wanted, and looks for its partitions.
pub fn partition_target_drive<'a>(
    nixos_installer_config: &NixOSInstallerConfig,
    journal: &mut Journal<'a>,
) -> (r: Result<Vec<(u8, String)>, Stop>)
    requires
        old(journal).wf(),
    ensures
        final(journal).wf(),
        comes_to(
            r,
            old(journal)@,
            final(journal)@,
            drive_partitioned(nixos_installer_config.deep_view(), old(journal)@),
        ),
{
    if nixos_installer_config.partition_drive {
        let drive = nixos_installer_config.target_drive_by_id.as_str();
        perform(&wipefs(drive), "Could not wipe the target disk", journal)?;
        perform(&parted(drive), "Disk partitioning failed", journal)?;
    }
    settle_udev(nixos_installer_config.canonical_target_drive.as_str(), journal)?;
    discover_target_drive_partitions(nixos_installer_config, journal)
}

/// The volume ID of the EFI file system: its UUID without the dashes.
pub open spec fn volume_id(uuid: Seq<char>) -> Seq<char> {
    uuid.filter(|c: char| c != '-')
}

/// `mkfs.fat`, to make the EFI file system.
pub open spec fn mkfs_fat_command(uuid: Seq<char>, block_device: Seq<char>) -> CommandView {
    command(
        "mkfs.fat"@,
        seq!["-F"@, "32"@, "-n"@, volume_id(uuid), "-i"@, volume_id(uuid), block_device],
    )
}

/// `mkfs.fat`, to make the EFI file system.
fn mkfs_fat(uuid: &str, block_device: &str) -> (r: CommandLine)
    ensures
        r.deep_view() == mkfs_fat_command(uuid@, block_device@),
{
    let id = without_char(uuid, '-');
    CommandLine::new("mkfs.fat").arg("-F").arg("32").arg("-n").arg(id.as_str()).arg("-i").arg(
        id.as_str(),
    ).arg(block_device)
}

/// What comes of making the EFI file system, where that is wanted.
pub open spec fn efi_filesystem_made(
    config: ConfigView,
    block_device: Seq<char>,
    journal: JournalView,
) -> Outcome<()> {
    if config.format_partitions {
        match performed_with_retries(
            mkfs_fat_command(config.efi_part_uuid, block_device),
            "The `mkfs` command to create an EFI filesystem failed"@,
            journal,
        ) {
            Err(stop) => Err(stop),
            Ok((_, rest)) => udev_settled(config.canonical_target_drive, rest),
        }
    } else {
        Ok(((), journal))
    }
}

/// Makes the EFI file system, where that is wanted.
pub fn make_efi_filesystem<'a>(
    nixos_installer_config: &NixOSInstallerConfig,
    block_device: &str,
    journal: &mut Journal<'a>,
) -> (r: Result<(), Stop>)
    requires
        old(journal).wf(),
    ensures
        final(journal).wf(),
        comes_to(
            r,
            old(journal)@,
            final(journal)@,
            efi_filesystem_made(nixos_installer_config.deep_view(), block_device@, old(journal)@),
        ),
{
    if nixos_installer_config.format_partitions {
        perform_with_retries(
            &mkfs_fat(nixos_installer_config.efi_part_uuid.as_str(), block_device),
            "The `mkfs` command to create an EFI filesystem failed",
            journal,
        )?;
        settle_udev(nixos_installer_config.canonical_target_drive.as_str(), journal)
    } else {
        Ok(())
    }
}

/// `mkfs.btrfs`, to make the root file system.
pub open spec fn mkfs_btrfs_command(
    hostname: Seq<char>,
    uuid: Seq<char>,
    block_device: Seq<char>,
) -> CommandView {
    command(
        "mkfs.btrfs"@,
        seq![
            "--force"@,
            "--checksum"@,
            "sha256"@,
            "--metadata"@,
            "dup"@,
            "--features"@,
            "squota"@,
            "--label"@,
            hostname + "-rootfs"@,
            "--uuid"@,
            uuid,
            block_device,
        ],
    )
}

/// `mkfs.btrfs`, to make the root file system.
fn mkfs_btrfs(hostname: &str, uuid: &str, block_device: &str) -> (r: CommandLine)
    ensures
        r.deep_view() == mkfs_btrfs_command(hostname@, uuid@, block_device@),
{
    let mut label = hostname.to_string();
    label.append("-rootfs");
    CommandLine::new("mkfs.btrfs").arg("--force").arg("--checksum").arg("sha256").arg(
        "--metadata",
    ).arg("dup").arg("--features").arg("squota").arg("--label").arg(label.as_str()).arg(
        "--uuid",
    ).arg(uuid).arg(block_device)
}

/// Whether the root file system would have to be made as ZFS, for which there is no procedure.
pub open spec fn needs_zfs_format(config: ConfigView) -> bool {
    config.format_partitions && config.root_part_fs_type == SupportedFileSystems::Zfs
}

/// What comes of making the root file system, where that is wanted.
pub open spec fn root_filesystem_made(
    config: ConfigView,
    block_device: Seq<char>,
    journal: JournalView,
) -> Outcome<()>
    recommends
        !needs_zfs_format(config),
{
    if config.format_partitions {
        match performed_with_retries(
            mkfs_btrfs_command(config.hostname, config.root_part_uuid, block_device),
            "The `mkfs` command to create a filesystem for rootfs failed"@,
            journal,
        ) {
            Err(stop) => Err(stop),
            Ok((_, rest)) => udev_settled(config.canonical_target_drive, rest),
        }
    } else {
        Ok(((), journal))
    }
}

/// Makes the root file system, where that is wanted.
pub fn make_root_filesystem<'a>(
    nixos_installer_config: &NixOSInstallerConfig,
    block_device: &str,
    journal: &mut Journal<'a>,
) -> (r: Result<(), Stop>)
    requires
        old(journal).wf(),
        !needs_zfs_format(nixos_installer_config.deep_view()),
    ensures
        final(journal).wf(),
        comes_to(
            r,
            old(journal)@,
            final(journal)@,
            root_filesystem_made(nixos_installer_config.deep_view(), block_device@, old(journal)@),
        ),
{
    if nixos_installer_config.format_partitions {
        perform_with_retries(
            &mkfs_btrfs(
                nixos_installer_config.hostname.as_str(),
                nixos_installer_config.root_part_uuid.as_str(),
                block_device,
            ),
            "The `mkfs` command to create a filesystem for rootfs failed",
            journal,
        )?;
        settle_udev(nixos_installer_config.canonical_target_drive.as_str(), journal)
    } else {
        Ok(())
    }
}

/// `mount`, to mount a device.
pub open spec fn mount_command(
    mount_options: Seq<char>,
    block_device: Seq<char>,
    mount_path: Seq<char>,
) -> CommandView {
    command("mount"@, seq!["--options"@, mount_options, block_device, mount_path])
}

/// `mount`, to mount a device.
fn mount(mount_options: &str, block_device: &str, mount_path: &str) -> (r: CommandLine)
    ensures
        r.deep_view() == mount_command(mount_options@, block_device@, mount_path@),
{
    CommandLine::new("mount").arg("--options").arg(mount_options).arg(block_device).arg(mount_path)
}

/// What comes of mounting a device at a path, which is created where it does not exist.
pub open spec fn filesystem_mounted(
    mount_options: Seq<char>,
    block_device: Seq<char>,
    mount_path: Seq<char>,
    journal: JournalView,
) -> Outcome<()> {
    match creation_read(mount_path, journal) {
        Err(stop) => Err(stop),
        Ok((Err(error), _)) => failed_io(error@),
        Ok((Ok(_), rest)) => performed_with_retries(
            mount_command(mount_options, block_device, mount_path),
            "The mount command failed"@,
            rest,
        ),
    }
}

/// Mounts a device at a path, which is created where it does not exist.
pub fn perform_filesystem_mount<'a>(
    mount_options: &str,
    block_device: &str,
    mount_path: &str,
    journal: &mut Journal<'a>,
) -> (r: Result<(), Stop>)
    requires
        old(journal).wf(),
    ensures
        final(journal).wf(),
        comes_to(
            r,
            old(journal)@,
            final(journal)@,
            filesystem_mounted(mount_options@, block_device@, mount_path@, old(journal)@),
        ),
{
    match journal.creation(mount_path)? {
        Err(error) => Err(give_up_io(error.as_str())),
        Ok(_) => perform_with_retries(
            &mount(mount_options, block_device, mount_path),
            "The mount command failed",
            journal,
        ),
    }
}

/// `btrfs`, to create a subvolume.
pub open spec fn subvolume_command(subvolume_path: Seq<char>) -> CommandView {
    command("btrfs"@, seq!["subvolume"@, "create"@, subvolume_path])
}

/// `btrfs`, to create a subvolume.
fn subvolume_create(subvolume_path: &str) -> (r: CommandLine)
    ensures
        r.deep_view() == subvolume_command(subvolume_path@),
{
    CommandLine::new("btrfs").arg("subvolume").arg("create").arg(subvolume_path)
}

/// What comes of creating a subvolume where nothing has its path.
pub open spec fn subvolume_made(subvolume_path: Seq<char>, journal: JournalView) -> Outcome<()> {
    match existence_read(subvolume_path, journal) {
        Err(stop) => Err(stop),
        Ok((exists_already, rest)) => if exists_already {
            Ok(((), rest))
        } else {
            performed(
                subvolume_command(subvolume_path),
                "Could not create the btrfs subvolume"@,
                rest,
            )
        },
    }
}

/// Creates a subvolume where nothing has its path.
pub fn make_btrfs_subvolume<'a>(subvolume_path: &str, journal: &mut Journal<'a>) -> (r: Result<
    (),
    Stop,
>)
    requires
        old(journal).wf(),
    ensures
        final(journal).wf(),
        comes_to(
            r,
            old(journal)@,
            final(journal)@,
            subvolume_made(subvolume_path@, old(journal)@),
        ),
{
    if *journal.existence(subvolume_path)? {
        Ok(())
    } else {
        perform(
            &subvolume_create(subvolume_path),
            "Could not create the btrfs subvolume",
            journal,
        )
    }
}

/// `btrfs`, to make a read-only snapshot of a subvolume.
pub open spec fn snapshot_command(subvolume_path: Seq<char>) -> CommandView {
    command(
        "btrfs"@,
        seq![
            "subvolume"@,
            "snapshot"@,
            "-r"@,
            subvolume_path,
            subvolume_path + "+"@ + "fresh"@,
        ],
    )
}

/// `btrfs`, to make a read-only snapshot of a subvolume.
fn snapshot(subvolume_path: &str) -> (r: CommandLine)
    ensures
        r.deep_view() == snapshot_command(subvolume_path@),
{
    let mut snapshot_path = subvolume_path.to_string();
    snapshot_path.append("+");
    snapshot_path.append("fresh");
    CommandLine::new("btrfs").arg("subvolume").arg("snapshot").arg("-r").arg(subvolume_path).arg(
        snapshot_path.as_str(),
    )
}

/// What comes of making a read-only snapshot of a subvolume.
pub open spec fn snapshot_made(
    subvolume: Seq<char>,
    subvolume_path: Seq<char>,
    journal: JournalView,
) -> Outcome<()> {
    performed(
        snapshot_command(subvolume_path),
        "Could not create a fresh snapshot for subvolume '"@ + subvolume + "'"@,
        journal,
    )
}

/// Makes a read-only snapshot of a subvolume.
pub fn create_fresh_snapshot<'a>(
    subvolume: &str,
    subvolume_path: &str,
    journal: &mut Journal<'a>,
) -> (r: Result<(), Stop>)
    requires
        old(journal).wf(),
    ensures
        final(journal).wf(),
        comes_to(
            r,
            old(journal)@,
            final(journal)@,
            snapshot_made(subvolume@, subvolume_path@, old(journal)@),
        ),
{
    let mut complaint = "Could not create a fresh snapshot for subvolume '".to_string();
    complaint.append(subvolume);
    complaint.append("'");
    perform(&snapshot(subvolume_path), complaint.as_str(), journal)
}

/// `btrfs`, to limit the size of a subvolume.
pub open spec fn limit_command(
    subvolume_limit: Seq<char>,
    subvolume_path: Seq<char>,
) -> CommandView {
    command("btrfs"@, seq!["qgroup"@, "limit"@, subvolume_limit, subvolume_path])
}

/// `btrfs`, to limit the size of a subvolume.
fn limit(subvolume_limit: &str, subvolume_path: &str) -> (r: CommandLine)
    ensures
        r.deep_view() == limit_command(subvolume_limit@, subvolume_path@),
{
    CommandLine::new("btrfs").arg("qgroup").arg("limit").arg(subvolume_limit).arg(subvolume_path)
}

/// What comes of limiting the size of a subvolume.
pub open spec fn limit_set(
    subvolume_limit: Seq<char>,
    subvolume_path: Seq<char>,
    journal: JournalView,
) -> Outcome<()> {
    performed(
        limit_command(subvolume_limit, subvolume_path),
        "Could not enforce subvolume limit"@,
        journal,
    )
}

/// Limits the size of a subvolume.
pub fn set_subvolume_limit<'a>(
    subvolume_limit: &str,
    subvolume_path: &str,
    journal: &mut Journal<'a>,
) -> (r: Result<(), Stop>)
    requires
        old(journal).wf(),
    ensures
        final(journal).wf(),
        comes_to(
            r,
            old(journal)@,
            final(journal)@,
            limit_set(subvolume_limit@, subvolume_path@, old(journal)@),
        ),
{
    perform(
        &limit(subvolume_limit, subvolume_path),
        "Could not enforce subvolume limit",
        journal,
    )
}

/// Whether a snapshot is kept of the subvolume for a mount path as it is before the installation.
pub open spec fn keeps_fresh_snapshot(mount_path: Seq<char>) -> bool {
    mount_path == "/"@ || mount_path == "/tmp"@
}

/// The limit on the size of the subvolume for a mount path.
pub open spec fn size_limit(mount_path: Seq<char>) -> Option<Seq<char>> {
    if mount_path == "/"@ {
        Some("16G"@)
    } else if mount_path == "/home"@ {
        Some("128G"@)
    } else if mount_path == "/var"@ {
        Some("8G"@)
    } else {
        None
    }
}

/// The limit on the size of the subvolume for a mount path.
pub fn find_size_limit(mount_path: &str) -> (r: Option<String>)
    ensures
        r.deep_view() == size_limit(mount_path@),
{
    if same_text(mount_path, "/") {
        Some("16G".to_string())
    } else if same_text(mount_path, "/home") {
        Some("128G".to_string())
    } else if same_text(mount_path, "/var") {
        Some("8G".to_string())
    } else {
        None
    }
}

/// What comes of preparing the subvolume for a mount path, below the path where the root partition
/// is mounted.
pub open spec fn subvolume_prepared(
    non_efi_mount_path: Seq<char>,
    mount_path: Seq<char>,
    journal: JournalView,
) -> Outcome<()> {
    let subvolume = subvolume_name(non_efi_mount_path);
    let subvolume_path = mount_path + "/"@ + subvolume;
    match subvolume_made(subvolume_path, journal) {
        Err(stop) => Err(stop),
        Ok((_, made)) => match if keeps_fresh_snapshot(non_efi_mount_path) {
            snapshot_made(subvolume, subvolume_path, made)
        } else {
            Ok(((), made))
        } {
            Err(stop) => Err(stop),
            Ok((_, kept)) => match size_limit(non_efi_mount_path) {
                Some(subvolume_limit) => limit_set(subvolume_limit, subvolume_path, kept),
                None => Ok(((), kept)),
            },
        },
    }
}

/// Prepares the subvolume for a mount path.
fn prepare_subvolume<'a>(
    non_efi_mount_path: &str,
    mount_path: &str,
    journal: &mut Journal<'a>,
) -> (r: Result<(), Stop>)
    requires
        old(journal).wf(),
    ensures
        final(journal).wf(),
        comes_to(
            r,
            old(journal)@,
            final(journal)@,
            subvolume_prepared(non_efi_mount_path@, mount_path@, old(journal)@),
        ),
{
    let subvolume = make_btrfs_subvolume_string(non_efi_mount_path);
    let mut subvolume_path = mount_path.to_string();
    subvolume_path.append("/");
    subvolume_path.append(subvolume.as_str());
    make_btrfs_subvolume(subvolume_path.as_str(), journal)?;
    if same_text(non_efi_mount_path, "/") || same_text(non_efi_mount_path, "/tmp") {
        create_fresh_snapshot(subvolume.as_str(), subvolume_path.as_str(), journal)?;
    }
    match find_size_limit(non_efi_mount_path) {
        Some(subvolume_limit) => set_subvolume_limit(
            subvolume_limit.as_str(),
            subvolume_path.as_str(),
            journal,
        ),
        None => Ok(()),
    }
}

/// What comes of preparing the subvolumes for some mount paths, one after the other.
pub open spec fn subvolumes_prepared(
    paths: Seq<Seq<char>>,
    mount_path: Seq<char>,
    journal: JournalView,
) -> Outcome<()>
    decreases paths.len(),
{
    if paths.len() == 0 {
        Ok(((), journal))
    } else {
        match subvolume_prepared(paths[0], mount_path, journal) {
            Err(stop) => Err(stop),
            Ok((_, rest)) => subvolumes_prepared(paths.skip(1), mount_path, rest),
        }
    }
}

/// Prepares the subvolumes for some mount paths, one after the other.
fn prepare_subvolumes<'a>(paths: &Vec<String>, mount_path: &str, journal: &mut Journal<'a>) -> (r:
    Result<(), Stop>)
    requires
        old(journal).wf(),
    ensures
        final(journal).wf(),
        comes_to(
            r,
            old(journal)@,
            final(journal)@,
            subvolumes_prepared(paths.deep_view(), mount_path@, old(journal)@),
        ),
{
    let ghost all = paths.deep_view();
    let mut i: usize = 0;
    assert(all.skip(0) =~= all);
    while i < paths.len()
        invariant
            i <= paths@.len(),
            all == paths.deep_view(),
            journal.wf(),
            journal@.answers == old(journal)@.answers,
            subvolumes_prepared(all, mount_path@, old(journal)@) == subvolumes_prepared(
                all.skip(i as int),
                mount_path@,
                journal@,
            ),
        decreases paths@.len() - i,
    {
        assert(all.skip(i as int).skip(1) =~= all.skip(i + 1));
        prepare_subvolume(paths[i].as_str(), mount_path, journal)?;
        i = i + 1;
    }
    Ok(())
}

/// What comes of mounting the subvolume for a mount path at that path below `mount_path`.
pub open spec fn subvolume_mounted(
    non_efi_mount_path: Seq<char>,
    config: ConfigView,
    journal: JournalView,
) -> Outcome<()> {
    filesystem_mounted(
        config.root_part_mount_opts + ",subvol="@ + subvolume_name(non_efi_mount_path),
        "/dev/disk/by-uuid/"@ + config.root_part_uuid,
        config.mount_path + non_efi_mount_path,
        journal,
    )
}

/// Mounts the subvolume for a mount path at that path below the mount path of the installation.
fn mount_subvolume<'a>(
    non_efi_mount_path: &str,
    nixos_installer_config: &NixOSInstallerConfig,
    journal: &mut Journal<'a>,
) -> (r: Result<(), Stop>)
    requires
        old(journal).wf(),
    ensures
        final(journal).wf(),
        comes_to(
            r,
            old(journal)@,
            final(journal)@,
            subvolume_mounted(
                non_efi_mount_path@,
                nixos_installer_config.deep_view(),
                old(journal)@,
            ),
        ),
{
    let mut mount_options = nixos_installer_config.root_part_mount_opts.clone();
    mount_options.append(",subvol=");
    mount_options.append(make_btrfs_subvolume_string(non_efi_mount_path).as_str());
    let mut block_device = "/dev/disk/by-uuid/".to_string();
    block_device.append(nixos_installer_config.root_part_uuid.as_str());
    let mut mount_path = nixos_installer_config.mount_path.clone();
    mount_path.append(non_efi_mount_path);
    perform_filesystem_mount(
        mount_options.as_str(),
        block_device.as_str(),
        mount_path.as_str(),
        journal,
    )
}

/// What comes of mounting the subvolumes for some mount paths, one after the other.
pub open spec fn subvolumes_mounted(
    paths: Seq<Seq<char>>,
    config: ConfigView,
    journal: JournalView,
) -> Outcome<()>
    decreases paths.len(),
{
    if paths.len() == 0 {
        Ok(((), journal))
    } else {
        match subvolume_mounted(paths[0], config, journal) {
            Err(stop) => Err(stop),
            Ok((_, rest)) => subvolumes_mounted(paths.skip(1), config, rest),
        }
    }
}

/// What comes of creating the subvolumes on the root partition and mounting them in its place.
pub open spec fn root_filesystems_mounted(config: ConfigView, journal: JournalView) -> Outcome<()> {
    match filesystem_mounted(
        config.root_part_mount_opts,
        "/dev/disk/by-uuid/"@ + config.root_part_uuid,
        config.mount_path,
        journal,
    ) {
        Err(stop) => Err(stop),
        Ok((_, mounted)) => match subvolumes_prepared(
            config.non_efi_mount_paths,
            config.mount_path,
            mounted,
        ) {
            Err(stop) => Err(stop),
            Ok((_, prepared)) => match performed(
                umount_command(seq![config.mount_path]),
                "The `umount` command failed"@,
                prepared,
            ) {
                Err(stop) => Err(stop),
                Ok((_, unmounted)) => subvolumes_mounted(
                    config.non_efi_mount_paths,
                    config,
                    unmounted,
                ),
            },
        },
    }
}

/// Creates the subvolumes on the root partition and mounts them in its place.
pub fn mount_root_filesystems<'a>(
    nixos_installer_config: &NixOSInstallerConfig,
    journal: &mut Journal<'a>,
) -> (r: Result<(), Stop>)
    requires
        old(journal).wf(),
    ensures
        final(journal).wf(),
        comes_to(
            r,
            old(journal)@,
            final(journal)@,
            root_filesystems_mounted(nixos_installer_config.deep_view(), old(journal)@),
        ),
{
    let ghost config = nixos_installer_config.deep_view();
    let mut block_device = "/dev/disk/by-uuid/".to_string();
    block_device.append(nixos_installer_config.root_part_uuid.as_str());
    perform_filesystem_mount(
        nixos_installer_config.root_part_mount_opts.as_str(),
        block_device.as_str(),
        nixos_installer_config.mount_path.as_str(),
        journal,
    )?;
    prepare_subvolumes(
        &nixos_installer_config.non_efi_mount_paths,
        nixos_installer_config.mount_path.as_str(),
        journal,
    )?;
    let unmount = CommandLine::new("umount").arg("--force").arg(
        nixos_installer_config.mount_path.as_str(),
    );
    assert(unmount.deep_view() =~= umount_command(seq![config.mount_path]));
    perform(&unmount, "The `umount` command failed", journal)?;

    let ghost unmounted = journal@;
    let ghost all = config.non_efi_mount_paths;
    let mut i: usize = 0;
    assert(all.skip(0) =~= all);
    while i < nixos_installer_config.non_efi_mount_paths.len()
        invariant
            i <= nixos_installer_config.non_efi_mount_paths@.len(),
            config == nixos_installer_config.deep_view(),
            all == config.non_efi_mount_paths,
            journal.wf(),
            journal@.answers == old(journal)@.answers,
            root_filesystems_mounted(config, old(journal)@) == subvolumes_mounted(
                all.skip(i as int),
                config,
                journal@,
            ),
        decreases nixos_installer_config.non_efi_mount_paths@.len() - i,
    {
        assert(all.skip(i as int).skip(1) =~= all.skip(i + 1));
        mount_subvolume(
            nixos_installer_config.non_efi_mount_paths[i].as_str(),
            nixos_installer_config,
            journal,
        )?;
        i = i + 1;
    }
    Ok(())
}

/// What comes of mounting the EFI partition.
pub open spec fn efi_filesystem_mounted(config: ConfigView, journal: JournalView) -> Outcome<()> {
    filesystem_mounted(
        config.efi_part_mount_opts,
        "/dev/disk/by-uuid/"@ + config.efi_part_uuid,
        config.mount_path + "/boot"@,
        journal,
    )
}

/// Mounts the EFI partition.
pub fn mount_efi_filesystem<'a>(
    nixos_installer_config: &NixOSInstallerConfig,
    journal: &mut Journal<'a>,
) -> (r: Result<(), Stop>)
    requires
        old(journal).wf(),
    ensures
        final(journal).wf(),
        comes_to(
            r,
            old(journal)@,
            final(journal)@,
            efi_filesystem_mounted(nixos_installer_config.deep_view(), old(journal)@),
        ),
{
    let mut block_device = "/dev/disk/by-uuid/".to_string();
    block_device.append(nixos_installer_config.efi_part_uuid.as_str());
    let mut mount_path = nixos_installer_config.mount_path.clone();
    mount_path.append("/boot");
    perform_filesystem_mount(
        nixos_installer_config.efi_part_mount_opts.as_str(),
        block_device.as_str(),
        mount_path.as_str(),
        journal,
    )
}

/// What comes of making the target drive ready: unmounted, partitioned, formatted and mounted.
pub open spec fn disk_ops_performed(config: ConfigView, journal: JournalView) -> Outcome<()> {
    match all_unmounted(config.canonical_target_drive, journal) {
        Err(stop) => Err(stop),
        Ok((_, unmounted)) => match drive_partitioned(config, unmounted) {
            Err(stop) => Err(stop),
            Ok((partitions, divided)) => match efi_filesystem_made(
                config,
                partitions[0].1,
                divided,
            ) {
                Err(stop) => Err(stop),
                Ok((_, efi_made)) => if needs_zfs_format(config) {
                    Err(StopView::NoZfsFormat)
                } else {
                    match root_filesystem_made(config, partitions[1].1, efi_made) {
                        Err(stop) => Err(stop),
                        Ok((_, root_made)) => match root_filesystems_mounted(config, root_made) {
                            Err(stop) => Err(stop),
                            Ok((_, root_mounted)) => efi_filesystem_mounted(config, root_mounted),
                        },
                    }
                },
            },
        },
    }
}

/// Makes the target drive ready: unmounts, partitions, formats and mounts it.
pub fn perform_disk_ops<'a>(
    nixos_installer_config: &NixOSInstallerConfig,
    journal: &mut Journal<'a>,
) -> (r: Result<(), Stop>)
    requires
        old(journal).wf(),
    ensures
        final(journal).wf(),
        comes_to(
            r,
            old(journal)@,
            final(journal)@,
            disk_ops_performed(nixos_installer_config.deep_view(), old(journal)@),
        ),
{
    unmount_everything(nixos_installer_config.canonical_target_drive.as_str(), journal)?;
    let partitions = partition_target_drive(nixos_installer_config, journal)?;
    assert(partitions.deep_view().len() == 2);
    make_efi_filesystem(nixos_installer_config, partitions[0].1.as_str(), journal)?;
    let zfs: bool = match nixos_installer_config.root_part_fs_type {
        SupportedFileSystems::Btrfs => false,
        SupportedFileSystems::Zfs => true,
    };
    if nixos_installer_config.format_partitions && zfs {
        return Err(Stop::NoZfsFormat);
    }
    make_root_filesystem(nixos_installer_config, partitions[1].1.as_str(), journal)?;
    mount_root_filesystems(nixos_installer_config, journal)?;
    mount_efi_filesystem(nixos_installer_config, journal)
}

} // verus!
