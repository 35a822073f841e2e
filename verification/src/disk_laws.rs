//! What is done to the drives, said of the machine's answers and the actions asked for.

use vstd::prelude::*;

use crate::command_helpers::{
    command, is_busy, performed, performed_with_retries, retried, CommandView, MAX_ATTEMPTS,
};
use crate::config::ConfigView;
use crate::disk_helpers::{
    all_unmounted, disk_ops_performed, drive_partitioned, efi_filesystem_made,
    efi_filesystem_mounted, filesystem_mounted, mkfs_btrfs_command, needs_zfs_format,
    mkfs_fat_command, mount_command, mount_point_of, mount_points_are_found, mount_points_in,
    parted_command, partition_le, partition_of, partitions_discovered, partitions_in,
    repartitioned, root_filesystem_made, root_filesystems_mounted, size_limit, subvolume_mounted, subvolume_prepared,
    subvolumes_mounted, subvolumes_prepared, udev_settled, umount_command,
};
use crate::file_systems::SupportedFileSystems;
use crate::journal::{
    advanced, creation_read, paused, ran, ActionView, Answer, DiskId, JournalView, Outcome,
    StopView,
};
use crate::paths::{
    parents_come_before_children, slashes, sorted_paths, sorted_paths_are_ordered,
    sorted_paths_go_by_slashes, subvolume_name,
};
use crate::safety::{
    device_of, has_limit, makes_root, partitioning_is_called, partitions_target, subvolume_place,
};
use crate::text::{
    decimal_u8, lines_of, split_on, splitting_goes_piece_by_piece,
    splitting_is_undone_by_joining, text_le, text_order_is_total, whole_texts_are_one_piece, without_carriage_return,
};
use crate::transcript::{
    all_unmounted_ends_alike, cut, drive_partitioned_ends_alike, efi_filesystem_made_ends_alike,
    filesystem_mounted_ends_alike, performed_ends_alike, performed_with_retries_ends_alike,
    root_filesystem_made_ends_alike, root_filesystems_mounted_ends_alike,
    subvolume_prepared_ends_alike, subvolumes_mounted_ends_alike, subvolumes_prepared_ends_alike,
    waits_for,
};

verus! {

/// The path of a partition of a drive, where `digits` write its number.
pub open spec fn partition_path(drive: Seq<char>, digits: Seq<char>) -> Seq<char> {
    drive + "-part"@ + digits
}

/// Whether a path is that of the partition of a drive with the given number.
pub open spec fn is_partition(path: Seq<char>, drive: Seq<char>, number: u8) -> bool {
    exists|digits: Seq<char>|
        path == #[trigger] partition_path(drive, digits) && decimal_u8(digits) == Some(number)
}

/// Whether a path is that of a partition of a drive.
pub open spec fn is_some_partition(path: Seq<char>, drive: Seq<char>) -> bool {
    exists|number: u8| is_partition(path, drive, number)
}

/// Whether exactly the entries `a` and `b` are partitions of a drive.
pub open spec fn are_the_partitions(
    ids: Seq<DiskId>,
    drive: Seq<char>,
    a: int,
    b: int,
) -> bool {
    &&& 0 <= a < ids.len()
    &&& 0 <= b < ids.len()
    &&& a != b
    &&& is_some_partition(ids[a].path@, drive)
    &&& is_some_partition(ids[b].path@, drive)
    &&& forall|i: int|
        0 <= i < ids.len() && is_some_partition(#[trigger] ids[i].path@, drive) ==> i == a || i
            == b
}

/// Whether `partitions` are those of the entries `a` and `b`, with their numbers.
pub open spec fn are_listed(
    partitions: Seq<(u8, Seq<char>)>,
    ids: Seq<DiskId>,
    drive: Seq<char>,
    a: int,
    b: int,
) -> bool {
    &&& are_the_partitions(ids, drive, a, b)
    &&& partitions.len() == 2
    &&& partitions[0].1 == ids[a].path@ && is_partition(ids[a].path@, drive, partitions[0].0)
    &&& partitions[1].1 == ids[b].path@ && is_partition(ids[b].path@, drive, partitions[1].0)
}

/// The partition of a path is the one that its path names.
proof fn partitions_are_recognised(path: Seq<char>, drive: Seq<char>)
    ensures
        forall|number: u8| #[trigger]
            is_partition(path, drive, number) <==> partition_of(path, drive + "-part"@) == Some(
                (number, path),
            ),
        is_some_partition(path, drive) <==> partition_of(path, drive + "-part"@) is Some,
{
    let start = drive + "-part"@;
    let digits = path.skip(start.len() as int);
    if start.is_prefix_of(path) {
        assert(path =~= partition_path(drive, digits));
    }
    assert forall|number: u8| #[trigger] is_partition(path, drive, number) implies partition_of(
        path,
        start,
    ) == Some((number, path)) by {
        let found = choose|found: Seq<char>|
            path == #[trigger] partition_path(drive, found) && decimal_u8(found) == Some(number);
        assert(path.skip(start.len() as int) =~= found);
        assert(path.subrange(0, start.len() as int) =~= start);
    }
    assert forall|number: u8| partition_of(path, start) == Some((number, path)) implies #[trigger]
        is_partition(path, drive, number) by {
        assert(path == partition_path(drive, digits));
    }
    if let Some((number, _)) = partition_of(path, start) {
        assert(is_partition(path, drive, number));
    }
}

/// Where the partitions that are found stand among the entries.
proof fn places_of_partitions(ids: Seq<DiskId>, start: Seq<char>) -> (places: Seq<int>)
    ensures
        places.len() == partitions_in(ids, start).len(),
        forall|k: int|
            0 <= k < places.len() ==> 0 <= #[trigger] places[k] < ids.len() && partition_of(
                ids[places[k]].path@,
                start,
            ) == Some(partitions_in(ids, start)[k]),
        forall|k: int, l: int| 0 <= k < l < places.len() ==> places[k] < places[l],
        forall|i: int|
            0 <= i < ids.len() && partition_of(#[trigger] ids[i].path@, start) is Some
                ==> places.contains(i),
    decreases ids.len(),
{
    if ids.len() == 0 {
        Seq::empty()
    } else {
        let before = ids.drop_last();
        let places = places_of_partitions(before, start);
        let last = ids.len() - 1;
        match partition_of(ids.last().path@, start) {
            None => {
                assert forall|i: int|
                    0 <= i < ids.len() && partition_of(#[trigger] ids[i].path@, start) is Some implies
                    places.contains(i) by {
                    assert(before[i] == ids[i]);
                }
                places
            },
            Some(_) => {
                let all = places.push(last);
                assert forall|i: int|
                    0 <= i < ids.len() && partition_of(#[trigger] ids[i].path@, start) is Some implies
                    all.contains(i) by {
                    if i < last {
                        assert(before[i] == ids[i]);
                        let k = choose|k: int| 0 <= k < places.len() && places[k] == i;
                        assert(all[k] == i);
                    } else {
                        assert(all[places.len() as int] == i);
                    }
                }
                all
            },
        }
    }
}

/// The partitions of the target drive are found exactly where two entries of the listing are
/// partitions of it, no more and no fewer. They are those two, in the order of their numbers. With any
/// other number of them there is nothing but a failure.
pub proof fn drives_have_exactly_two_partitions(
    config: ConfigView,
    ids: Vec<DiskId>,
    journal: JournalView,
)
    requires
        0 <= journal.read < journal.answers.len(),
        journal.answers[journal.read] == Answer::DiskIds(Ok(ids)),
    ensures
        match partitions_discovered(config, journal) {
            Ok((partitions, rest)) => {
                &&& exists|a: int, b: int| #[trigger]
                    are_listed(partitions, ids@, config.target_drive_by_id, a, b)
                &&& partitions[0].0 < partitions[1].0 || (partitions[0].0 == partitions[1].0
                    && text_le(partitions[0].1, partitions[1].1))
                &&& rest == advanced(journal)
            },
            Err(stop) => {
                &&& stop is Failed
                &&& !exists|a: int, b: int| #[trigger]
                    are_the_partitions(ids@, config.target_drive_by_id, a, b)
            },
        },
{
    let drive = config.target_drive_by_id;
    let start = drive + "-part"@;
    let found = partitions_in(ids@, start);
    let places = places_of_partitions(ids@, start);
    assert forall|i: int| 0 <= i < ids@.len() implies (is_some_partition(
        #[trigger] ids@[i].path@,
        drive,
    ) <==> partition_of(ids@[i].path@, start) is Some) by {
        partitions_are_recognised(ids@[i].path@, drive);
    }
    if found.len() == 2 {
        let a = places[0];
        let b = places[1];
        assert(a < b);
        partitions_are_recognised(ids@[a].path@, drive);
        partitions_are_recognised(ids@[b].path@, drive);
        assert forall|i: int|
            0 <= i < ids@.len() && is_some_partition(#[trigger] ids@[i].path@, drive) implies i == a
            || i == b by {
            let k = choose|k: int| 0 <= k < places.len() && places[k] == i;
        }
        assert(are_the_partitions(ids@, drive, a, b));
        assert(are_the_partitions(ids@, drive, b, a));
        if partition_le(found[0], found[1]) {
            assert(are_listed(found, ids@, drive, a, b));
        } else {
            let turned = seq![found[1], found[0]];
            assert(are_listed(turned, ids@, drive, b, a));
            text_order_is_total(found[0].1, found[1].1);
        }
    } else {
        assert forall|a: int, b: int| !are_the_partitions(ids@, drive, a, b) by {
            if are_the_partitions(ids@, drive, a, b) {
                assert(places.contains(a) && places.contains(b));
                let k = choose|k: int| 0 <= k < places.len() && places[k] == a;
                let l = choose|l: int| 0 <= l < places.len() && places[l] == b;
                let m: int = if k != 0 && l != 0 {
                    0
                } else if k != 1 && l != 1 {
                    1
                } else {
                    2
                };
                assert(0 <= m < places.len() && m != k && m != l);
                assert(places[m] != a && places[m] != b);
                assert(is_some_partition(ids@[places[m]].path@, drive));
            }
        }
    }
}

/// Whether a process ran and exited with the code zero.
pub open spec fn is_success(answer: Answer) -> bool {
    answer matches Answer::Process(Ok(output)) && output.code == Some(0i32)
}

/// Whether a text is made of a line and what stands before and after it.
pub open spec fn is_line_of(
    text: Seq<char>,
    before: Seq<char>,
    line: Seq<char>,
    after: Seq<char>,
) -> bool {
    &&& text == before + line + after
    &&& line.len() > 0 && !line.contains('\n') && line.last() != '\r'
    &&& before.len() == 0 || before.last() == '\n'
    &&& after.len() == 0 || after[0] == '\n'
}

/// Whether `point` is the second of the fields of a line, which have spaces between them.
pub open spec fn is_second_field(
    line: Seq<char>,
    head: Seq<char>,
    point: Seq<char>,
    tail: Seq<char>,
) -> bool {
    &&& line == head.push(' ') + (point + tail)
    &&& !head.contains(' ')
    &&& !point.contains(' ')
    &&& tail.len() == 0 || tail[0] == ' '
}

/// The piece before the first separator is the first one.
proof fn first_piece(piece: Seq<char>, tail: Seq<char>, sep: char)
    requires
        !piece.contains(sep),
        tail.len() == 0 || tail[0] == sep,
    ensures
        split_on(piece + tail, sep).len() > 0,
        split_on(piece + tail, sep)[0] == piece,
        tail.len() == 0 ==> split_on(piece + tail, sep) == seq![piece],
        tail.len() > 0 ==> split_on(piece + tail, sep) == seq![piece] + split_on(
            tail.skip(1),
            sep,
        ) && split_on(piece + tail, sep).len() > 1,
{
    whole_texts_are_one_piece(piece, sep);
    if tail.len() == 0 {
        assert(piece + tail =~= piece);
    } else {
        assert(piece + tail =~= piece.push(sep) + tail.skip(1));
        splitting_goes_piece_by_piece(piece, tail.skip(1), sep);
        splitting_is_undone_by_joining(tail.skip(1), sep);
    }
}

/// A line of a text is among its lines.
proof fn lines_are_found(text: Seq<char>, before: Seq<char>, line: Seq<char>, after: Seq<char>)
    requires
        is_line_of(text, before, line, after),
    ensures
        lines_of(text).contains(line),
{
    let rest = line + after;
    let pieces = split_on(text, '\n');
    first_piece(line, after, '\n');
    let at: int = if before.len() == 0 {
        assert(text =~= rest);
        0
    } else {
        let start = before.drop_last();
        assert(text =~= start.push('\n') + rest);
        splitting_goes_piece_by_piece(start, rest, '\n');
        split_on(start, '\n').len() as int
    };
    assert(pieces[at] == line);
    let ended = pieces.drop_last().map_values(|l: Seq<char>| without_carriage_return(l));
    if at < pieces.len() - 1 {
        assert(ended[at] == line);
        assert(lines_of(text)[at] == line);
    } else {
        assert(pieces.last() == line);
        assert(lines_of(text)[ended.len() as int] == line);
    }
}

/// For every line of `/proc/mounts` that begins with the text of the drive and has a second field,
/// that field is among the paths that are unmounted.
pub proof fn everything_mounted_is_unmounted(
    drive: Seq<char>,
    text: String,
    before: Seq<char>,
    line: Seq<char>,
    after: Seq<char>,
    head: Seq<char>,
    point: Seq<char>,
    tail: Seq<char>,
    journal: JournalView,
)
    requires
        0 <= journal.read < journal.answers.len(),
        journal.answers[journal.read] == Answer::Mounts(Ok(text)),
        is_line_of(text@, before, line, after),
        drive.is_prefix_of(line),
        is_second_field(line, head, point, tail),
    ensures
        exists|paths: Seq<Seq<char>>| #[trigger]
            paths.contains(point) && unmounting_is_asked(drive, journal, paths),
        all_unmounted(drive, journal) matches Ok((_, rest)) ==> {
            &&& rest.read == journal.read + 2
            &&& is_success(journal.answers[journal.read + 1])
        },
{
    let points = mount_points_in(lines_of(text@), drive);
    lines_are_found(text@, before, line, after);
    first_piece(point, tail, ' ');
    whole_texts_are_one_piece(head, ' ');
    splitting_goes_piece_by_piece(head, point + tail, ' ');
    assert(split_on(line, ' ')[1] == point);
    assert(mount_point_of(line, drive) == Some(point));
    let k = choose|k: int| 0 <= k < lines_of(text@).len() && lines_of(text@)[k] == line;
    mount_points_are_found(lines_of(text@), drive, point);
    assert(points.contains(point));
    let paths = sorted_paths(points, true);
    sorted_paths_are_ordered(points, true);
    assert(paths.contains(point)) by {
        broadcast use vstd::seq_lib::group_to_multiset_ensures;

        assert(points.to_multiset().count(point) > 0);
        assert(paths.to_multiset().count(point) > 0);
    }
    assert(unmounting_is_asked(drive, journal, paths)) by {
        let short = cut(journal, journal.read + 1);
        assert(short.answers[journal.read] == journal.answers[journal.read]);
    }
}

/// Whether unmounting, once `/proc/mounts` is read, asks for `umount` with these paths.
pub open spec fn unmounting_is_asked(
    drive: Seq<char>,
    journal: JournalView,
    paths: Seq<Seq<char>>,
) -> bool {
    waits_for(
        all_unmounted(drive, cut(journal, journal.read + 1)),
        ActionView::Run(command("umount"@, seq!["--force"@] + paths)),
    )
}

/// Only second fields of lines of `/proc/mounts` that begin with the text of the drive are unmounted,
/// deeper paths before shallower ones and no path before one below it. Where there is none, nothing is
/// asked for but `/proc/mounts`.
pub proof fn only_what_is_mounted_is_unmounted(
    drive: Seq<char>,
    text: String,
    paths: Seq<Seq<char>>,
    journal: JournalView,
)
    requires
        0 <= journal.read < journal.answers.len(),
        journal.answers[journal.read] == Answer::Mounts(Ok(text)),
    ensures
        unmounting_is_asked(drive, journal, paths) ==> {
            &&& paths.len() > 0
            &&& forall|i: int|
                0 <= i < paths.len() ==> exists|k: int|
                    {
                        &&& 0 <= k < lines_of(text@).len()
                        &&& drive.is_prefix_of(#[trigger] lines_of(text@)[k])
                        &&& split_on(lines_of(text@)[k], ' ').len() > 1
                        &&& split_on(lines_of(text@)[k], ' ')[1] == #[trigger] paths[i]
                    }
            &&& forall|i: int, k: int|
                0 <= i < k < paths.len() ==> {
                    &&& slashes(#[trigger] paths[i]) >= slashes(#[trigger] paths[k])
                    &&& paths[i].is_prefix_of(paths[k]) ==> paths[i] == paths[k]
                }
        },
        (forall|k: int|
            0 <= k < lines_of(text@).len() ==> !(drive.is_prefix_of(#[trigger] lines_of(text@)[k])
                && split_on(lines_of(text@)[k], ' ').len() > 1)) ==> all_unmounted(drive, journal)
            == Ok::<((), JournalView), StopView>(((), advanced(journal))),
{
    let lines = lines_of(text@);
    let points = mount_points_in(lines, drive);
    let sorted = sorted_paths(points, true);
    sorted_paths_are_ordered(points, true);
    if unmounting_is_asked(drive, journal, paths) {
        let short = cut(journal, journal.read + 1);
        assert(short.answers[journal.read] == journal.answers[journal.read]);
        assert(umount_command(sorted).args == seq!["--force"@] + paths);
        assert(umount_command(sorted).args.skip(1) =~= sorted);
        assert((seq!["--force"@] + paths).skip(1) =~= paths);
        assert(paths == sorted);
        assert forall|i: int| 0 <= i < paths.len() implies exists|k: int|
            {
                &&& 0 <= k < lines.len()
                &&& drive.is_prefix_of(#[trigger] lines[k])
                &&& split_on(lines[k], ' ').len() > 1
                &&& split_on(lines[k], ' ')[1] == #[trigger] paths[i]
            } by {
            assert(points.contains(paths[i])) by {
                broadcast use vstd::seq_lib::group_to_multiset_ensures;

                assert(sorted.contains(paths[i]));
                assert(sorted.to_multiset().count(paths[i]) > 0);
                assert(points.to_multiset().count(paths[i]) > 0);
            }
            mount_points_are_found(lines, drive, paths[i]);
            let k = choose|k: int|
                0 <= k < lines.len() && mount_point_of(#[trigger] lines[k], drive) == Some(
                    paths[i],
                );
            assert(drive.is_prefix_of(lines[k]));
        }
        assert forall|i: int, k: int| 0 <= i < k < paths.len() implies {
            &&& slashes(#[trigger] paths[i]) >= slashes(#[trigger] paths[k])
            &&& paths[i].is_prefix_of(paths[k]) ==> paths[i] == paths[k]
        } by {
            sorted_paths_go_by_slashes(points, true, i, k);
            if paths[i].is_prefix_of(paths[k]) && paths[i] != paths[k] {
                parents_come_before_children(points, i, k, true);
            }
        }
    }
    if forall|k: int|
        0 <= k < lines.len() ==> !(drive.is_prefix_of(#[trigger] lines[k]) && split_on(
            lines[k],
            ' ',
        ).len() > 1) {
        if points.len() > 0 {
            assert(points.contains(points[0]));
            mount_points_are_found(lines, drive, points[0]);
        }
    }
}

/// Whether a procedure that came to `short` asks for a command.
pub open spec fn asks<T>(short: Outcome<T>, program: Seq<char>, args: Seq<Seq<char>>) -> bool {
    waits_for(short, ActionView::Run(command(program, args)))
}

/// How many commands partition the drive.
pub open spec fn partitioning_commands(config: ConfigView) -> int {
    if config.partition_drive {
        2
    } else {
        0
    }
}

/// Partitioning erases the drive and makes new partitions exactly where that is wanted, waits for the
/// device files, and takes the partitions from the listing that comes after all that. Each command has
/// succeeded before the next is asked for.
pub proof fn partitioning_takes_these_steps(config: ConfigView, journal: JournalView)
    requires
        0 <= journal.read,
    ensures
        drive_partitioned(config, journal) matches Ok((partitions, rest)) ==> {
            let settled = journal.read + partitioning_commands(config);
            &&& rest.read == settled + 3
            &&& forall|i: int|
                journal.read <= i < settled + 2 ==> is_success(#[trigger] journal.answers[i])
            &&& config.partition_drive ==> {
                &&& asks(
                    drive_partitioned(config, cut(journal, journal.read)),
                    "wipefs"@,
                    seq!["--all"@, "--force"@, config.target_drive_by_id],
                )
                &&& exists|args: Seq<Seq<char>>|
                    {
                        &&& #[trigger] asks(
                            drive_partitioned(config, cut(journal, journal.read + 1)),
                            "parted"@,
                            args,
                        )
                        &&& partitions_target(config, command("parted"@, args))
                    }
            }
            &&& asks(
                drive_partitioned(config, cut(journal, settled)),
                "partprobe"@,
                seq![config.canonical_target_drive],
            )
            &&& asks(
                drive_partitioned(config, cut(journal, settled + 1)),
                "udevadm"@,
                seq!["settle"@],
            )
            &&& waits_for(
                drive_partitioned(config, cut(journal, settled + 2)),
                ActionView::ListDiskIds,
            )
            &&& journal.answers[settled + 2] matches Answer::DiskIds(Ok(ids)) && exists|
                a: int,
                b: int,
            | #[trigger]
                are_listed(partitions, ids@, config.target_drive_by_id, a, b)
            &&& partitions[0].0 < partitions[1].0 || (partitions[0].0 == partitions[1].0
                && text_le(partitions[0].1, partitions[1].1))
        },
{
    if let Ok((partitions, rest)) = drive_partitioned(config, journal) {
        partitioning_is_called(config);
        let start = journal.read;
        if let Ok((_, divided)) = repartitioned(config, journal) {
            if let Ok((_, settled)) = udev_settled(config.canonical_target_drive, divided) {
                if let Answer::DiskIds(Ok(ids)) = settled.answers[settled.read] {
                    drives_have_exactly_two_partitions(config, ids, settled);
                }
            }
        }
        if config.partition_drive {
            assert(asks(
                drive_partitioned(config, cut(journal, start + 1)),
                "parted"@,
                parted_command(config.target_drive_by_id).args,
            ));
        }
    }
}

/// Where partitions are not to be formatted, nothing is asked for. Otherwise `mkfs.fat` makes the EFI
/// file system on the device, tried again while the device is busy, and the device files are waited for
/// once it has succeeded.
pub proof fn making_the_efi_file_system_takes_these_steps(
    config: ConfigView,
    device: Seq<char>,
    journal: JournalView,
)
    requires
        0 <= journal.read,
    ensures
        !config.format_partitions ==> efi_filesystem_made(config, device, journal) == Ok::<
            ((), JournalView),
            StopView,
        >(((), journal)),
        config.format_partitions ==> (efi_filesystem_made(config, device, journal) matches Ok(
            (_, rest),
        ) ==> {
            let id = config.efi_part_uuid.filter(|c: char| c != '-');
            &&& journal.read + 3 <= rest.read
            &&& asks(
                efi_filesystem_made(config, device, cut(journal, journal.read)),
                "mkfs.fat"@,
                seq!["-F"@, "32"@, "-n"@, id, "-i"@, id, device],
            )
            &&& is_success(journal.answers[rest.read - 3])
            &&& asks(
                efi_filesystem_made(config, device, cut(journal, rest.read - 2)),
                "partprobe"@,
                seq![config.canonical_target_drive],
            )
            &&& asks(
                efi_filesystem_made(config, device, cut(journal, rest.read - 1)),
                "udevadm"@,
                seq!["settle"@],
            )
        }),
{
    if config.format_partitions {
        let mkfs = mkfs_fat_command(config.efi_part_uuid, device);
        let complaint = "The `mkfs` command to create an EFI filesystem failed"@;
        first_attempt_is_asked(mkfs, complaint, journal);
        if let Ok((_, made)) = performed_with_retries(mkfs, complaint, journal) {
            last_attempt_succeeds(mkfs, complaint, journal);
            performed_with_retries_ends_alike(mkfs, complaint, journal, made.read);
            performed_with_retries_ends_alike(mkfs, complaint, journal, made.read + 1);
        }
    }
}

/// Where partitions are not to be formatted, nothing is asked for. Otherwise `mkfs.btrfs` makes the
/// root file system on the device, tried again while the device is busy, and the device files are
/// waited for once it has succeeded.
pub proof fn making_the_root_file_system_takes_these_steps(
    config: ConfigView,
    device: Seq<char>,
    journal: JournalView,
)
    requires
        0 <= journal.read,
        !(config.format_partitions && config.root_part_fs_type == SupportedFileSystems::Zfs),
    ensures
        !config.format_partitions ==> root_filesystem_made(config, device, journal) == Ok::<
            ((), JournalView),
            StopView,
        >(((), journal)),
        config.format_partitions ==> (root_filesystem_made(config, device, journal) matches Ok(
            (_, rest),
        ) ==> {
            &&& journal.read + 3 <= rest.read
            &&& exists|args: Seq<Seq<char>>|
                {
                    &&& #[trigger] asks(
                        root_filesystem_made(config, device, cut(journal, journal.read)),
                        "mkfs.btrfs"@,
                        args,
                    )
                    &&& makes_root(config, device, command("mkfs.btrfs"@, args))
                }
            &&& is_success(journal.answers[rest.read - 3])
            &&& asks(
                root_filesystem_made(config, device, cut(journal, rest.read - 2)),
                "partprobe"@,
                seq![config.canonical_target_drive],
            )
            &&& asks(
                root_filesystem_made(config, device, cut(journal, rest.read - 1)),
                "udevadm"@,
                seq!["settle"@],
            )
        }),
{
    if config.format_partitions {
        let mkfs = mkfs_btrfs_command(config.hostname, config.root_part_uuid, device);
        let complaint = "The `mkfs` command to create a filesystem for rootfs failed"@;
        first_attempt_is_asked(mkfs, complaint, journal);
        if let Ok((_, made)) = performed_with_retries(mkfs, complaint, journal) {
            last_attempt_succeeds(mkfs, complaint, journal);
            performed_with_retries_ends_alike(mkfs, complaint, journal, made.read);
            performed_with_retries_ends_alike(mkfs, complaint, journal, made.read + 1);
            assert(asks(
                root_filesystem_made(config, device, cut(journal, journal.read)),
                "mkfs.btrfs"@,
                mkfs.args,
            ));
        }
    }
}

/// A command that has to succeed is asked for first.
proof fn first_attempt_is_asked(command: CommandView, complaint: Seq<char>, journal: JournalView)
    requires
        0 <= journal.read,
    ensures
        performed_with_retries(command, complaint, journal) is Ok ==> {
            &&& journal.read < journal.answers.len()
            &&& waits_for(
                performed_with_retries(command, complaint, cut(journal, journal.read)),
                ActionView::Run(command),
            )
        },
{
}

/// The last attempt of a command that has succeeded has.
proof fn last_attempt_succeeds(command: CommandView, complaint: Seq<char>, journal: JournalView)
    requires
        0 <= journal.read <= journal.answers.len(),
    ensures
        performed_with_retries(command, complaint, journal) matches Ok((_, rest)) ==> {
            &&& rest.answers == journal.answers
            &&& journal.read < rest.read <= journal.answers.len()
            &&& is_success(journal.answers[rest.read - 1])
        },
{
    last_attempt_is_the_result(MAX_ATTEMPTS as nat, 0, command, journal);
}

/// What comes of several attempts is what came of the last one.
proof fn last_attempt_is_the_result(
    max_attempts: nat,
    tried: nat,
    command: CommandView,
    journal: JournalView,
)
    requires
        0 <= journal.read <= journal.answers.len(),
        tried < max_attempts,
    ensures
        retried(max_attempts, tried, command, journal) matches Ok((attempt, rest)) ==> {
            &&& rest.answers == journal.answers
            &&& journal.read < rest.read <= journal.answers.len()
            &&& match attempt {
                Ok(output) => journal.answers[rest.read - 1] matches Answer::Process(Ok(last))
                    && last.deep_view() == output,
                Err(error) => journal.answers[rest.read - 1] matches Answer::Process(Err(last))
                    && last@ == error,
            }
        },
    decreases max_attempts - tried,
{
    if let Ok((attempt, rest)) = ran(command, journal) {
        if is_busy(attempt) && tried + 1 < max_attempts {
            if let Ok((_, later)) = paused(rest) {
                last_attempt_is_the_result(max_attempts, tried + 1, command, later);
            }
        }
    }
}

/// Mounting creates the directory first and then mounts the device there with the options as they
/// are, tried again while it is busy, until it has succeeded.
pub proof fn mounting_takes_these_steps(
    options: Seq<char>,
    device: Seq<char>,
    path: Seq<char>,
    journal: JournalView,
)
    requires
        0 <= journal.read,
    ensures
        filesystem_mounted(options, device, path, journal) matches Ok((_, rest)) ==> {
            &&& journal.read + 2 <= rest.read
            &&& waits_for(
                filesystem_mounted(options, device, path, cut(journal, journal.read)),
                ActionView::CreateDirectory(path),
            )
            &&& asks(
                filesystem_mounted(options, device, path, cut(journal, journal.read + 1)),
                "mount"@,
                seq!["--options"@, options, device, path],
            )
            &&& journal.answers[journal.read] matches Answer::Created(Ok(_))
            &&& is_success(journal.answers[rest.read - 1])
        },
{
    if let Ok((Ok(_), created)) = creation_read(path, journal) {
        let mount = mount_command(options, device, path);
        first_attempt_is_asked(mount, "The mount command failed"@, created);
        last_attempt_succeeds(mount, "The mount command failed"@, created);
    }
}

/// How many commands create a subvolume, of which the machine says whether it exists.
pub open spec fn creations(answer: Answer) -> int {
    if answer == Answer::Exists(true) {
        0
    } else {
        1
    }
}

/// How many snapshots are kept of the subvolume for a mount path.
pub open spec fn snapshots(path: Seq<char>) -> int {
    if path == "/"@ || path == "/tmp"@ {
        1
    } else {
        0
    }
}

/// Whether a command is asked for with `count` answers and succeeds.
pub open spec fn is_done(
    procedure: spec_fn(int) -> Outcome<()>,
    answers: Seq<Answer>,
    count: int,
    program: Seq<char>,
    args: Seq<Seq<char>>,
) -> bool {
    &&& 0 <= count < answers.len()
    &&& asks(procedure(count), program, args)
    &&& is_success(answers[count])
}

/// Whether a procedure, which is given by what it comes to with so many answers, prepares the
/// subvolume for a mount path from the answer `at` on: it asks whether the subvolume exists, creates it
/// where it does not, keeps a snapshot of it for `/` and `/tmp`, and limits its size for `/`, `/home` and
/// `/var`.
pub open spec fn is_prepared_at(
    procedure: spec_fn(int) -> Outcome<()>,
    answers: Seq<Answer>,
    at: int,
    place: Seq<char>,
    path: Seq<char>,
) -> bool {
    let kept = at + 1 + creations(answers[at]);
    let limited = kept + snapshots(path);
    &&& 0 <= at < answers.len()
    &&& waits_for(procedure(at), ActionView::CheckPath(place))
    &&& answers[at] == Answer::Exists(true) || answers[at] == Answer::Exists(false)
    &&& answers[at] == Answer::Exists(false) ==> is_done(
        procedure,
        answers,
        at + 1,
        "btrfs"@,
        seq!["subvolume"@, "create"@, place],
    )
    &&& path == "/"@ || path == "/tmp"@ ==> is_done(
        procedure,
        answers,
        kept,
        "btrfs"@,
        seq!["subvolume"@, "snapshot"@, "-r"@, place, place + "+"@ + "fresh"@],
    )
    &&& forall|size: Seq<char>| #[trigger]
        has_limit(path, size) ==> is_done(
            procedure,
            answers,
            limited,
            "btrfs"@,
            seq!["qgroup"@, "limit"@, size, place],
        )
}

/// Whether a procedure mounts a device at a path from the answer `at` on: it creates the directory and
/// asks for the mount.
pub open spec fn is_mounted_at(
    procedure: spec_fn(int) -> Outcome<()>,
    answers: Seq<Answer>,
    at: int,
    options: Seq<char>,
    device: Seq<char>,
    path: Seq<char>,
) -> bool {
    &&& 0 <= at
    &&& at + 1 < answers.len()
    &&& waits_for(procedure(at), ActionView::CreateDirectory(path))
    &&& answers[at] matches Answer::Created(Ok(_))
    &&& asks(procedure(at + 1), "mount"@, seq!["--options"@, options, device, path])
}

/// The sizes of subvolumes are limited to one size each.
proof fn limits_are_sizes(path: Seq<char>)
    ensures
        forall|size: Seq<char>| #[trigger] has_limit(path, size) <==> size_limit(path) == Some(size),
{
    reveal_strlit("/");
    reveal_strlit("/home");
    reveal_strlit("/var");
    assert("/"@.len() == 1 && "/home"@.len() == 5 && "/var"@.len() == 4);
}

/// The subvolume for a mount path is prepared.
pub proof fn subvolumes_are_prepared_one_by_one(
    path: Seq<char>,
    mount_path: Seq<char>,
    journal: JournalView,
)
    requires
        0 <= journal.read,
    ensures
        subvolume_prepared(path, mount_path, journal) is Ok ==> is_prepared_at(
            |count: int| subvolume_prepared(path, mount_path, cut(journal, count)),
            journal.answers,
            journal.read,
            mount_path + "/"@ + subvolume_name(path),
            path,
        ),
{
    limits_are_sizes(path);
    let place = mount_path + "/"@ + subvolume_name(path);
    let procedure = |count: int| subvolume_prepared(path, mount_path, cut(journal, count));
    if let Ok((_, rest)) = subvolume_prepared(path, mount_path, journal) {
        let at = journal.read;
        let kept = at + 1 + creations(journal.answers[at]);
        assert(procedure(at) == subvolume_prepared(path, mount_path, cut(journal, at)));
        assert(procedure(at + 1) == subvolume_prepared(path, mount_path, cut(journal, at + 1)));
        assert(procedure(kept) == subvolume_prepared(path, mount_path, cut(journal, kept)));
        assert(procedure(kept + 1) == subvolume_prepared(path, mount_path, cut(journal, kept + 1)));
    }
}

/// What two procedures that agree from some answer on do there is the same.
proof fn preparing_carries_over(
    inner: spec_fn(int) -> Outcome<()>,
    outer: spec_fn(int) -> Outcome<()>,
    answers: Seq<Answer>,
    at: int,
    place: Seq<char>,
    path: Seq<char>,
)
    requires
        is_prepared_at(inner, answers, at, place, path),
        forall|count: int| at <= count < answers.len() ==> #[trigger] outer(count) == inner(count),
    ensures
        is_prepared_at(outer, answers, at, place, path),
{
    let kept = at + 1 + creations(answers[at]);
    let limited = kept + snapshots(path);
    assert(outer(at) == inner(at));
    if at + 1 < answers.len() {
        assert(outer(at + 1) == inner(at + 1));
    }
    if kept < answers.len() {
        assert(outer(kept) == inner(kept));
    }
    if limited < answers.len() {
        assert(outer(limited) == inner(limited));
    }
}

/// What two procedures that agree from some answer on do there is the same.
proof fn mounting_carries_over(
    inner: spec_fn(int) -> Outcome<()>,
    outer: spec_fn(int) -> Outcome<()>,
    answers: Seq<Answer>,
    at: int,
    options: Seq<char>,
    device: Seq<char>,
    path: Seq<char>,
)
    requires
        is_mounted_at(inner, answers, at, options, device, path),
        forall|count: int| at <= count < answers.len() ==> #[trigger] outer(count) == inner(count),
    ensures
        is_mounted_at(outer, answers, at, options, device, path),
{
    assert(outer(at) == inner(at));
    assert(outer(at + 1) == inner(at + 1));
}

/// Every subvolume is prepared on the way.
proof fn each_subvolume_is_prepared(
    paths: Seq<Seq<char>>,
    i: int,
    mount_path: Seq<char>,
    journal: JournalView,
) -> (at: int)
    requires
        0 <= journal.read <= journal.answers.len(),
        0 <= i < paths.len(),
        subvolumes_prepared(paths, mount_path, journal) is Ok,
    ensures
        journal.read <= at < (subvolumes_prepared(paths, mount_path, journal)->Ok_0).1.read,
        is_prepared_at(
            |count: int| subvolumes_prepared(paths, mount_path, cut(journal, count)),
            journal.answers,
            at,
            mount_path + "/"@ + subvolume_name(paths[i]),
            paths[i],
        ),
    decreases paths.len(),
{
    let outer = |count: int| subvolumes_prepared(paths, mount_path, cut(journal, count));
    let rest = (subvolume_prepared(paths[0], mount_path, journal)->Ok_0).1;
    subvolume_prepared_ends_alike(paths[0], mount_path, journal, journal.answers.len() as int);
    subvolumes_prepared_ends_alike(
        paths.skip(1),
        mount_path,
        rest,
        journal.answers.len() as int,
    );
    let place = mount_path + "/"@ + subvolume_name(paths[i]);
    if i == 0 {
        let inner = |count: int| subvolume_prepared(paths[0], mount_path, cut(journal, count));
        subvolumes_are_prepared_one_by_one(paths[0], mount_path, journal);
        let at = journal.read;
        let kept = at + 1 + creations(journal.answers[at]);
        let limited = kept + snapshots(paths[0]);
        assert(outer(at) == subvolumes_prepared(paths, mount_path, cut(journal, at)));
        assert(outer(at + 1) == subvolumes_prepared(paths, mount_path, cut(journal, at + 1)));
        assert(outer(kept) == subvolumes_prepared(paths, mount_path, cut(journal, kept)));
        assert(outer(limited) == subvolumes_prepared(paths, mount_path, cut(journal, limited)));
        assert(inner(at) == subvolume_prepared(paths[0], mount_path, cut(journal, at)));
        assert(inner(at + 1) == subvolume_prepared(paths[0], mount_path, cut(journal, at + 1)));
        assert(inner(kept) == subvolume_prepared(paths[0], mount_path, cut(journal, kept)));
        assert(inner(limited) == subvolume_prepared(paths[0], mount_path, cut(journal, limited)));
        assert(is_prepared_at(inner, journal.answers, at, place, paths[0]));
        assert(is_prepared_at(outer, journal.answers, at, place, paths[0]));
        at
    } else {
        let inner = |count: int| subvolumes_prepared(paths.skip(1), mount_path, cut(rest, count));
        let at = each_subvolume_is_prepared(paths.skip(1), i - 1, mount_path, rest);
        assert forall|count: int| at <= count < journal.answers.len() implies #[trigger] outer(count)
            == inner(count) by {
            subvolume_prepared_ends_alike(paths[0], mount_path, journal, count);
        }
        preparing_carries_over(inner, outer, journal.answers, at, place, paths[i]);
        at
    }
}

/// Every subvolume is mounted on the way, with all the options of the root partition.
proof fn each_subvolume_is_mounted(
    paths: Seq<Seq<char>>,
    i: int,
    config: ConfigView,
    journal: JournalView,
) -> (at: int)
    requires
        0 <= journal.read <= journal.answers.len(),
        0 <= i < paths.len(),
        subvolumes_mounted(paths, config, journal) is Ok,
    ensures
        journal.read <= at < (subvolumes_mounted(paths, config, journal)->Ok_0).1.read,
        is_mounted_at(
            |count: int| subvolumes_mounted(paths, config, cut(journal, count)),
            journal.answers,
            at,
            config.root_part_mount_opts + ",subvol="@ + subvolume_name(paths[i]),
            device_of(config.root_part_uuid),
            config.mount_path + paths[i],
        ),
    decreases paths.len(),
{
    let outer = |count: int| subvolumes_mounted(paths, config, cut(journal, count));
    let options = config.root_part_mount_opts + ",subvol="@ + subvolume_name(paths[0]);
    let device = "/dev/disk/by-uuid/"@ + config.root_part_uuid;
    let path = config.mount_path + paths[0];
    let rest = (subvolume_mounted(paths[0], config, journal)->Ok_0).1;
    let all = journal.answers.len() as int;
    filesystem_mounted_ends_alike(options, device, path, journal, all);
    subvolumes_mounted_ends_alike(paths.skip(1), config, rest, all);
    if i == 0 {
        mounting_takes_these_steps(options, device, path, journal);
        let at = journal.read;
        assert(outer(at) == subvolumes_mounted(paths, config, cut(journal, at)));
        assert(outer(at + 1) == subvolumes_mounted(paths, config, cut(journal, at + 1)));
        at
    } else {
        let inner = |count: int| subvolumes_mounted(paths.skip(1), config, cut(rest, count));
        let at = each_subvolume_is_mounted(paths.skip(1), i - 1, config, rest);
        assert forall|count: int| at <= count < journal.answers.len() implies #[trigger] outer(count)
            == inner(count) by {
            filesystem_mounted_ends_alike(options, device, path, journal, count);
        }
        mounting_carries_over(
            inner,
            outer,
            journal.answers,
            at,
            config.root_part_mount_opts + ",subvol="@ + subvolume_name(paths[i]),
            device_of(config.root_part_uuid),
            config.mount_path + paths[i],
        );
        at
    }
}

/// A subvolume is mounted before those behind it.
proof fn subvolumes_are_mounted_in_turn(
    paths: Seq<Seq<char>>,
    i: int,
    k: int,
    config: ConfigView,
    journal: JournalView,
) -> (places: (int, int))
    requires
        0 <= journal.read <= journal.answers.len(),
        0 <= i < k < paths.len(),
        subvolumes_mounted(paths, config, journal) is Ok,
    ensures
        journal.read <= places.0 < places.1 < (subvolumes_mounted(
            paths,
            config,
            journal,
        )->Ok_0).1.read,
        is_mounted_at(
            |count: int| subvolumes_mounted(paths, config, cut(journal, count)),
            journal.answers,
            places.0,
            config.root_part_mount_opts + ",subvol="@ + subvolume_name(paths[i]),
            device_of(config.root_part_uuid),
            config.mount_path + paths[i],
        ),
        is_mounted_at(
            |count: int| subvolumes_mounted(paths, config, cut(journal, count)),
            journal.answers,
            places.1,
            config.root_part_mount_opts + ",subvol="@ + subvolume_name(paths[k]),
            device_of(config.root_part_uuid),
            config.mount_path + paths[k],
        ),
    decreases paths.len(),
{
    let outer = |count: int| subvolumes_mounted(paths, config, cut(journal, count));
    let options = config.root_part_mount_opts + ",subvol="@ + subvolume_name(paths[0]);
    let device = "/dev/disk/by-uuid/"@ + config.root_part_uuid;
    let path = config.mount_path + paths[0];
    let rest = (subvolume_mounted(paths[0], config, journal)->Ok_0).1;
    let all = journal.answers.len() as int;
    filesystem_mounted_ends_alike(options, device, path, journal, all);
    subvolumes_mounted_ends_alike(paths.skip(1), config, rest, all);
    mounting_takes_these_steps(options, device, path, journal);
    let inner = |count: int| subvolumes_mounted(paths.skip(1), config, cut(rest, count));
    assert forall|count: int| rest.read <= count < journal.answers.len() implies #[trigger] outer(
        count,
    ) == inner(count) by {
        filesystem_mounted_ends_alike(options, device, path, journal, count);
    }
    let (first, second): (int, int) = if i == 0 {
        let at = journal.read;
        assert(outer(at) == subvolumes_mounted(paths, config, cut(journal, at)));
        assert(outer(at + 1) == subvolumes_mounted(paths, config, cut(journal, at + 1)));
        let later = each_subvolume_is_mounted(paths.skip(1), k - 1, config, rest);
        (at, later)
    } else {
        subvolumes_are_mounted_in_turn(paths.skip(1), i - 1, k - 1, config, rest)
    };
    mounting_carries_over(
        inner,
        outer,
        journal.answers,
        second,
        config.root_part_mount_opts + ",subvol="@ + subvolume_name(paths[k]),
        device_of(config.root_part_uuid),
        config.mount_path + paths[k],
    );
    if i > 0 {
        mounting_carries_over(
            inner,
            outer,
            journal.answers,
            first,
            config.root_part_mount_opts + ",subvol="@ + subvolume_name(paths[i]),
            device_of(config.root_part_uuid),
            config.mount_path + paths[i],
        );
    }
    (first, second)
}

/// What mounting the root partition comes to with so many answers.
#[verifier::opaque]
pub open spec fn root_mounting(config: ConfigView, journal: JournalView) -> spec_fn(
    int,
) -> Outcome<()> {
    |count: int| root_filesystems_mounted(config, cut(journal, count))
}

/// Where the steps of mounting the root partition stand among the answers.
pub struct RootSteps {
    /// Where the first subvolume is prepared.
    pub prepared: int,
    /// Where the root partition is unmounted again.
    pub unmounted: int,
    /// Where the first subvolume is mounted.
    pub first: int,
    /// Where the second subvolume is mounted.
    pub second: int,
}

/// Whether the root partition is mounted, then the subvolume for the mount path `one` prepared, then
/// the root partition unmounted again, then that subvolume mounted, and then, where it is another, that
/// for the mount path `other`: each subvolume with all the options of the root partition and its own
/// name, at its mount path below that of the installation.
pub open spec fn are_root_steps(
    procedure: spec_fn(int) -> Outcome<()>,
    answers: Seq<Answer>,
    start: int,
    config: ConfigView,
    one: Seq<char>,
    other: Seq<char>,
    steps: RootSteps,
) -> bool {
    let device = device_of(config.root_part_uuid);
    &&& start < steps.prepared < steps.unmounted < steps.first <= steps.second
    &&& one == other || steps.first < steps.second
    &&& is_mounted_at(
        procedure,
        answers,
        start,
        config.root_part_mount_opts,
        device,
        config.mount_path,
    )
    &&& is_prepared_at(procedure, answers, steps.prepared, subvolume_place(config, one), one)
    &&& is_done(
        procedure,
        answers,
        steps.unmounted,
        "umount"@,
        seq!["--force"@, config.mount_path],
    )
    &&& is_mounted_at(
        procedure,
        answers,
        steps.first,
        config.root_part_mount_opts + ",subvol="@ + subvolume_name(one),
        device,
        config.mount_path + one,
    )
    &&& is_mounted_at(
        procedure,
        answers,
        steps.second,
        config.root_part_mount_opts + ",subvol="@ + subvolume_name(other),
        device,
        config.mount_path + other,
    )
}

/// The journals that the parts of mounting the root partition leave.
struct RootStages {
    mounted: JournalView,
    prepared: JournalView,
    unmounted: JournalView,
    rest: JournalView,
}

/// Whether the parts of mounting the root partition leave these journals.
#[verifier::opaque]
spec fn are_root_stages(config: ConfigView, journal: JournalView, stages: RootStages) -> bool {
    let paths = config.non_efi_mount_paths;
    &&& filesystem_mounted(
        config.root_part_mount_opts,
        device_of(config.root_part_uuid),
        config.mount_path,
        journal,
    ) == Ok::<((), JournalView), StopView>(((), stages.mounted))
    &&& subvolumes_prepared(paths, config.mount_path, stages.mounted) == Ok::<
        ((), JournalView),
        StopView,
    >(((), stages.prepared))
    &&& performed(
        umount_command(seq![config.mount_path]),
        "The `umount` command failed"@,
        stages.prepared,
    ) == Ok::<((), JournalView), StopView>(((), stages.unmounted))
    &&& subvolumes_mounted(paths, config, stages.unmounted) == Ok::<((), JournalView), StopView>(
        ((), stages.rest),
    )
}

/// Whether the journals have been read on one after the other.
spec fn are_root_reads(journal: JournalView, stages: RootStages) -> bool {
    &&& 0 <= journal.read <= journal.answers.len()
    &&& stages.mounted.answers == journal.answers
    &&& stages.prepared.answers == journal.answers
    &&& stages.unmounted.answers == journal.answers
    &&& journal.read + 2 <= stages.mounted.read <= stages.prepared.read
    &&& stages.unmounted.read == stages.prepared.read + 1
    &&& stages.unmounted.read <= stages.rest.read <= journal.answers.len()
}

/// Mounting the root partition goes through its parts.
#[verifier::spinoff_prover]
proof fn root_stages(config: ConfigView, journal: JournalView) -> (stages: RootStages)
    requires
        0 <= journal.read <= journal.answers.len(),
        root_filesystems_mounted(config, journal) is Ok,
    ensures
        are_root_stages(config, journal, stages),
        are_root_reads(journal, stages),
        (root_filesystems_mounted(config, journal)->Ok_0).1 == stages.rest,
{
    reveal(are_root_stages);
    let device = "/dev/disk/by-uuid/"@ + config.root_part_uuid;
    let paths = config.non_efi_mount_paths;
    let all = journal.answers.len() as int;
    let opts = config.root_part_mount_opts;
    let mounted = (filesystem_mounted(opts, device, config.mount_path, journal)->Ok_0).1;
    let prepared = (subvolumes_prepared(paths, config.mount_path, mounted)->Ok_0).1;
    let umount = umount_command(seq![config.mount_path]);
    let complaint = "The `umount` command failed"@;
    let unmounted = (performed(umount, complaint, prepared)->Ok_0).1;
    let rest = (subvolumes_mounted(paths, config, unmounted)->Ok_0).1;
    mounting_takes_these_steps(opts, device, config.mount_path, journal);
    filesystem_mounted_ends_alike(opts, device, config.mount_path, journal, all);
    subvolumes_prepared_ends_alike(paths, config.mount_path, mounted, all);
    performed_ends_alike(umount, complaint, prepared, all);
    subvolumes_mounted_ends_alike(paths, config, unmounted, all);
    RootStages { mounted, prepared, unmounted, rest }
}

/// While the root partition is mounted, that is what is asked for.
#[verifier::spinoff_prover]
proof fn root_at_mounting(
    config: ConfigView,
    journal: JournalView,
    stages: RootStages,
    count: int,
)
    requires
        are_root_stages(config, journal, stages),
    ensures
        filesystem_mounted(
            config.root_part_mount_opts,
            device_of(config.root_part_uuid),
            config.mount_path,
            cut(journal, count),
        ) matches Err(stop) ==> root_mounting(config, journal)(count) == Err::<
            ((), JournalView),
            StopView,
        >(stop),
{
    reveal(root_mounting);
}

/// While the subvolumes are prepared, that is what is asked for.
#[verifier::spinoff_prover]
proof fn root_at_preparing(
    config: ConfigView,
    journal: JournalView,
    stages: RootStages,
    count: int,
)
    requires
        are_root_stages(config, journal, stages),
        are_root_reads(journal, stages),
        stages.mounted.read <= count <= journal.answers.len(),
    ensures
        subvolumes_prepared(
            config.non_efi_mount_paths,
            config.mount_path,
            cut(stages.mounted, count),
        ) matches Err(stop) ==> root_mounting(config, journal)(count) == Err::<
            ((), JournalView),
            StopView,
        >(stop),
{
    reveal(root_mounting);
    reveal(are_root_stages);
    filesystem_mounted_ends_alike(
        config.root_part_mount_opts,
        device_of(config.root_part_uuid),
        config.mount_path,
        journal,
        count,
    );
}

/// Once the subvolumes are prepared, the root partition is unmounted.
#[verifier::spinoff_prover]
proof fn root_at_unmounting(config: ConfigView, journal: JournalView, stages: RootStages)
    requires
        are_root_stages(config, journal, stages),
        are_root_reads(journal, stages),
    ensures
        is_done(
            root_mounting(config, journal),
            journal.answers,
            stages.prepared.read,
            "umount"@,
            seq!["--force"@, config.mount_path],
        ),
{
    reveal(root_mounting);
    reveal(are_root_stages);
    let count = stages.prepared.read;
    filesystem_mounted_ends_alike(
        config.root_part_mount_opts,
        device_of(config.root_part_uuid),
        config.mount_path,
        journal,
        count,
    );
    subvolumes_prepared_ends_alike(
        config.non_efi_mount_paths,
        config.mount_path,
        stages.mounted,
        count,
    );
    assert(umount_command(seq![config.mount_path]).args =~= seq!["--force"@, config.mount_path]);
}

/// While the subvolumes are mounted, that is what is asked for.
#[verifier::spinoff_prover]
proof fn root_at_subvolumes(
    config: ConfigView,
    journal: JournalView,
    stages: RootStages,
    count: int,
)
    requires
        are_root_stages(config, journal, stages),
        are_root_reads(journal, stages),
        stages.unmounted.read <= count <= journal.answers.len(),
    ensures
        root_mounting(config, journal)(count) == subvolumes_mounted(
            config.non_efi_mount_paths,
            config,
            cut(stages.unmounted, count),
        ),
{
    reveal(root_mounting);
    reveal(are_root_stages);
    filesystem_mounted_ends_alike(
        config.root_part_mount_opts,
        device_of(config.root_part_uuid),
        config.mount_path,
        journal,
        count,
    );
    subvolumes_prepared_ends_alike(
        config.non_efi_mount_paths,
        config.mount_path,
        stages.mounted,
        count,
    );
    performed_ends_alike(
        umount_command(seq![config.mount_path]),
        "The `umount` command failed"@,
        stages.prepared,
        count,
    );
}

/// The subvolume for a mount path is prepared on the way.
#[verifier::spinoff_prover]
proof fn root_prepares(
    config: ConfigView,
    i: int,
    journal: JournalView,
    stages: RootStages,
) -> (at: int)
    requires
        are_root_stages(config, journal, stages),
        are_root_reads(journal, stages),
        0 <= i < config.non_efi_mount_paths.len(),
    ensures
        stages.mounted.read <= at < stages.prepared.read,
        is_prepared_at(
            root_mounting(config, journal),
            journal.answers,
            at,
            subvolume_place(config, config.non_efi_mount_paths[i]),
            config.non_efi_mount_paths[i],
        ),
{
    let paths = config.non_efi_mount_paths;
    let path = paths[i];
    let outer = root_mounting(config, journal);
    let inner = |count: int|
        subvolumes_prepared(paths, config.mount_path, cut(stages.mounted, count));
    assert(subvolumes_prepared(paths, config.mount_path, stages.mounted) == Ok::<
        ((), JournalView),
        StopView,
    >(((), stages.prepared))) by {
        reveal(are_root_stages);
    }
    let at = each_subvolume_is_prepared(paths, i, config.mount_path, stages.mounted);
    assert(continues(inner, outer, journal.answers, at)) by {
        assert forall|count: int|
            at <= count < journal.answers.len() && #[trigger] inner(count) is Err implies outer(
            count,
        ) == inner(count) by {
            root_at_preparing(config, journal, stages, count);
        }
    }
    preparing_continues(
        inner,
        outer,
        journal.answers,
        at,
        subvolume_place(config, path),
        path,
    );
    at
}

/// The subvolumes for two mount paths are mounted on the way, one after the other.
#[verifier::spinoff_prover]
proof fn root_mounts(
    config: ConfigView,
    i: int,
    k: int,
    journal: JournalView,
    stages: RootStages,
) -> (places: (int, int))
    requires
        are_root_stages(config, journal, stages),
        are_root_reads(journal, stages),
        0 <= i <= k < config.non_efi_mount_paths.len(),
    ensures
        stages.unmounted.read <= places.0 <= places.1 < stages.rest.read,
        i < k ==> places.0 < places.1,
        is_mounted_at(
            root_mounting(config, journal),
            journal.answers,
            places.0,
            config.root_part_mount_opts + ",subvol="@ + subvolume_name(
                config.non_efi_mount_paths[i],
            ),
            device_of(config.root_part_uuid),
            config.mount_path + config.non_efi_mount_paths[i],
        ),
        is_mounted_at(
            root_mounting(config, journal),
            journal.answers,
            places.1,
            config.root_part_mount_opts + ",subvol="@ + subvolume_name(
                config.non_efi_mount_paths[k],
            ),
            device_of(config.root_part_uuid),
            config.mount_path + config.non_efi_mount_paths[k],
        ),
{
    let paths = config.non_efi_mount_paths;
    let outer = root_mounting(config, journal);
    let inner = |count: int| subvolumes_mounted(paths, config, cut(stages.unmounted, count));
    assert(subvolumes_mounted(paths, config, stages.unmounted) == Ok::<
        ((), JournalView),
        StopView,
    >(((), stages.rest))) by {
        reveal(are_root_stages);
    }
    let (first, second): (int, int) = if i < k {
        subvolumes_are_mounted_in_turn(paths, i, k, config, stages.unmounted)
    } else {
        let one = each_subvolume_is_mounted(paths, i, config, stages.unmounted);
        (one, one)
    };
    assert forall|count: int| first <= count < journal.answers.len() implies #[trigger] outer(count)
        == inner(count) by {
        root_at_subvolumes(config, journal, stages, count);
    }
    mounting_carries_over(
        inner,
        outer,
        journal.answers,
        first,
        config.root_part_mount_opts + ",subvol="@ + subvolume_name(paths[i]),
        device_of(config.root_part_uuid),
        config.mount_path + paths[i],
    );
    mounting_carries_over(
        inner,
        outer,
        journal.answers,
        second,
        config.root_part_mount_opts + ",subvol="@ + subvolume_name(paths[k]),
        device_of(config.root_part_uuid),
        config.mount_path + paths[k],
    );
    (first, second)
}

/// The root partition is mounted first.
#[verifier::spinoff_prover]
proof fn root_is_mounted(config: ConfigView, journal: JournalView, stages: RootStages)
    requires
        are_root_stages(config, journal, stages),
        are_root_reads(journal, stages),
    ensures
        is_mounted_at(
            root_mounting(config, journal),
            journal.answers,
            journal.read,
            config.root_part_mount_opts,
            device_of(config.root_part_uuid),
            config.mount_path,
        ),
{
    let device = device_of(config.root_part_uuid);
    root_at_mounting(config, journal, stages, journal.read);
    root_at_mounting(config, journal, stages, journal.read + 1);
    reveal(are_root_stages);
    mounting_takes_these_steps(
        config.root_part_mount_opts,
        device,
        config.mount_path,
        journal,
    );
}

/// Every subvolume is prepared and then mounted, in the order of the mount paths.
#[verifier::spinoff_prover]
pub proof fn mounting_the_root_takes_these_steps(
    config: ConfigView,
    i: int,
    k: int,
    journal: JournalView,
) -> (steps: RootSteps)
    requires
        0 <= journal.read <= journal.answers.len(),
        0 <= i <= k < config.non_efi_mount_paths.len(),
        root_filesystems_mounted(config, journal) is Ok,
    ensures
        are_root_steps(
            root_mounting(config, journal),
            journal.answers,
            journal.read,
            config,
            config.non_efi_mount_paths[i],
            config.non_efi_mount_paths[k],
            steps,
        ),
        steps.second < (root_filesystems_mounted(config, journal)->Ok_0).1.read,
{
    let stages = root_stages(config, journal);
    root_is_mounted(config, journal, stages);
    let prepared = root_prepares(config, i, journal, stages);
    root_at_unmounting(config, journal, stages);
    let (first, second) = root_mounts(config, i, k, journal, stages);
    RootSteps { prepared, unmounted: stages.prepared.read, first, second }
}

/// Whether a procedure that goes on behind another one asks for the same as the other one does, from the
/// answer `start` on.
pub open spec fn continues(
    inner: spec_fn(int) -> Outcome<()>,
    outer: spec_fn(int) -> Outcome<()>,
    answers: Seq<Answer>,
    start: int,
) -> bool {
    forall|count: int|
        start <= count < answers.len() && #[trigger] inner(count) is Err ==> outer(count) == inner(
            count,
        )
}

/// A subvolume is prepared by whatever goes on behind what prepares it.
proof fn preparing_continues(
    inner: spec_fn(int) -> Outcome<()>,
    outer: spec_fn(int) -> Outcome<()>,
    answers: Seq<Answer>,
    at: int,
    place: Seq<char>,
    path: Seq<char>,
)
    requires
        is_prepared_at(inner, answers, at, place, path),
        continues(inner, outer, answers, at),
    ensures
        is_prepared_at(outer, answers, at, place, path),
{
    let kept = at + 1 + creations(answers[at]);
    let limited = kept + snapshots(path);
    assert(inner(at) is Err);
    assert(answers[at] == Answer::Exists(false) ==> inner(at + 1) is Err);
    assert(path == "/"@ || path == "/tmp"@ ==> inner(kept) is Err);
    assert forall|size: Seq<char>| #[trigger] has_limit(path, size) implies is_done(
        outer,
        answers,
        limited,
        "btrfs"@,
        seq!["qgroup"@, "limit"@, size, place],
    ) by {
        assert(inner(limited) is Err);
    }
}

/// The steps of mounting the root partition are steps of whatever goes on behind it.
pub(crate) proof fn root_steps_carry_over(
    inner: spec_fn(int) -> Outcome<()>,
    outer: spec_fn(int) -> Outcome<()>,
    answers: Seq<Answer>,
    start: int,
    config: ConfigView,
    one: Seq<char>,
    other: Seq<char>,
    steps: RootSteps,
)
    requires
        are_root_steps(inner, answers, start, config, one, other, steps),
        continues(inner, outer, answers, start),
    ensures
        are_root_steps(outer, answers, start, config, one, other, steps),
{
    assert(inner(start) is Err && inner(start + 1) is Err);
    preparing_continues(
        inner,
        outer,
        answers,
        steps.prepared,
        subvolume_place(config, one),
        one,
    );
    assert(inner(steps.unmounted) is Err);
    assert(inner(steps.first) is Err && inner(steps.first + 1) is Err);
    assert(inner(steps.second) is Err && inner(steps.second + 1) is Err);
}

/// What making the target drive ready comes to with so many answers.
#[verifier::opaque]
pub open spec fn disk_work(config: ConfigView, journal: JournalView) -> spec_fn(int) -> Outcome<()> {
    |count: int| disk_ops_performed(config, cut(journal, count))
}

/// Where the steps of making the target drive ready stand among the answers.
pub struct DiskSteps {
    /// Where the drive is partitioned or, where that is not wanted, looked at.
    pub divided: int,
    /// Where the root file system is made.
    pub root_made: int,
    /// Where the root partition is mounted.
    pub mounted: int,
    /// Where the EFI partition is mounted.
    pub efi_mounted: int,
    /// The entry of the EFI partition.
    pub efi: int,
    /// The entry of the root partition.
    pub root: int,
    pub root_steps: RootSteps,
}

/// Whether a drive is partitioned from the answer `divided` on: erased and given new partitions where
/// that is wanted, and then looked at.
pub open spec fn is_partitioned_at(
    procedure: spec_fn(int) -> Outcome<()>,
    answers: Seq<Answer>,
    divided: int,
    config: ConfigView,
) -> bool {
    let listed = divided + partitioning_commands(config) + 2;
    &&& 0 <= divided
    &&& listed < answers.len()
    &&& config.partition_drive ==> {
        &&& is_done(
            procedure,
            answers,
            divided,
            "wipefs"@,
            seq!["--all"@, "--force"@, config.target_drive_by_id],
        )
        &&& exists|args: Seq<Seq<char>>|
            {
                &&& #[trigger] is_done(procedure, answers, divided + 1, "parted"@, args)
                &&& partitions_target(config, command("parted"@, args))
            }
    }
    &&& is_done(
        procedure,
        answers,
        listed - 2,
        "partprobe"@,
        seq![config.canonical_target_drive],
    )
    &&& is_done(procedure, answers, listed - 1, "udevadm"@, seq!["settle"@])
    &&& waits_for(procedure(listed), ActionView::ListDiskIds)
}

/// Whether the entries `efi` and `root` are the two partitions of the target drive, `efi` with the
/// smaller number.
pub open spec fn are_efi_and_root(
    ids: Seq<DiskId>,
    config: ConfigView,
    efi: int,
    root: int,
) -> bool {
    &&& are_the_partitions(ids, config.target_drive_by_id, efi, root)
    &&& exists|smaller: u8, larger: u8|
        {
            &&& #[trigger] is_partition(ids[efi].path@, config.target_drive_by_id, smaller)
            &&& #[trigger] is_partition(ids[root].path@, config.target_drive_by_id, larger)
            &&& smaller <= larger
        }
}

/// Whether the partitions are formatted where that is wanted: the EFI partition from the answer
/// `efi_made` on and the root partition from the answer `root_made` on.
pub open spec fn are_formatted_at(
    procedure: spec_fn(int) -> Outcome<()>,
    efi_made: int,
    efi: Seq<char>,
    root_made: int,
    root: Seq<char>,
    config: ConfigView,
) -> bool {
    let id = config.efi_part_uuid.filter(|c: char| c != '-');
    config.format_partitions ==> {
        &&& asks(
            procedure(efi_made),
            "mkfs.fat"@,
            seq!["-F"@, "32"@, "-n"@, id, "-i"@, id, efi],
        )
        &&& exists|args: Seq<Seq<char>>|
            {
                &&& #[trigger] asks(procedure(root_made), "mkfs.btrfs"@, args)
                &&& makes_root(config, root, command("mkfs.btrfs"@, args))
            }
    }
}

/// Whether the target drive is made ready: what is mounted of it is looked up; it is partitioned where
/// that is wanted; its partitions are listed, of which there are two, and formatted where that is wanted,
/// the one with the smaller number as the EFI partition and the other as the root partition; the
/// subvolumes are prepared and mounted; and the EFI partition is mounted after them.
pub open spec fn are_disk_steps(
    procedure: spec_fn(int) -> Outcome<()>,
    answers: Seq<Answer>,
    start: int,
    config: ConfigView,
    one: Seq<char>,
    other: Seq<char>,
    steps: DiskSteps,
) -> bool {
    let listed = steps.divided + partitioning_commands(config) + 2;
    &&& start < steps.divided
    &&& listed < steps.root_made <= steps.mounted
    &&& steps.root_steps.second < steps.efi_mounted
    &&& waits_for(procedure(start), ActionView::ReadMounts)
    &&& is_partitioned_at(procedure, answers, steps.divided, config)
    &&& answers[listed] matches Answer::DiskIds(Ok(ids)) && {
        &&& are_efi_and_root(ids@, config, steps.efi, steps.root)
        &&& are_formatted_at(
            procedure,
            listed + 1,
            ids@[steps.efi].path@,
            steps.root_made,
            ids@[steps.root].path@,
            config,
        )
    }
    &&& are_root_steps(procedure, answers, steps.mounted, config, one, other, steps.root_steps)
    &&& is_mounted_at(
        procedure,
        answers,
        steps.efi_mounted,
        config.efi_part_mount_opts,
        device_of(config.efi_part_uuid),
        config.mount_path + "/boot"@,
    )
}

/// The journals that the parts of making the drive ready leave, and the partitions.
struct DiskStages {
    unmounted: JournalView,
    partitions: Seq<(u8, Seq<char>)>,
    divided: JournalView,
    efi_made: JournalView,
    root_made: JournalView,
    root_mounted: JournalView,
    rest: JournalView,
}

/// Whether the parts of making the drive ready leave these journals.
#[verifier::opaque]
spec fn are_disk_stages(config: ConfigView, journal: JournalView, stages: DiskStages) -> bool {
    &&& all_unmounted(config.canonical_target_drive, journal) == Ok::<((), JournalView), StopView>(
        ((), stages.unmounted),
    )
    &&& drive_partitioned(config, stages.unmounted) == Ok::<
        (Seq<(u8, Seq<char>)>, JournalView),
        StopView,
    >((stages.partitions, stages.divided))
    &&& efi_filesystem_made(config, stages.partitions[0].1, stages.divided) == Ok::<
        ((), JournalView),
        StopView,
    >(((), stages.efi_made))
    &&& !needs_zfs_format(config)
    &&& root_filesystem_made(config, stages.partitions[1].1, stages.efi_made) == Ok::<
        ((), JournalView),
        StopView,
    >(((), stages.root_made))
    &&& root_filesystems_mounted(config, stages.root_made) == Ok::<((), JournalView), StopView>(
        ((), stages.root_mounted),
    )
    &&& efi_filesystem_mounted(config, stages.root_mounted) == Ok::<((), JournalView), StopView>(
        ((), stages.rest),
    )
}

/// Whether the journals have been read on one after the other.
spec fn are_disk_reads(journal: JournalView, stages: DiskStages) -> bool {
    &&& 0 <= journal.read <= journal.answers.len()
    &&& stages.unmounted.answers == journal.answers
    &&& stages.divided.answers == journal.answers
    &&& stages.efi_made.answers == journal.answers
    &&& stages.root_made.answers == journal.answers
    &&& stages.root_mounted.answers == journal.answers
    &&& stages.rest.answers == journal.answers
    &&& journal.read < stages.unmounted.read <= stages.divided.read <= stages.efi_made.read
    &&& stages.efi_made.read <= stages.root_made.read <= stages.root_mounted.read
    &&& stages.root_mounted.read <= stages.rest.read <= journal.answers.len()
}

/// Making the drive ready goes through its parts.
#[verifier::spinoff_prover]
proof fn disk_stages(config: ConfigView, journal: JournalView) -> (stages: DiskStages)
    requires
        0 <= journal.read <= journal.answers.len(),
        disk_ops_performed(config, journal) is Ok,
    ensures
        are_disk_stages(config, journal, stages),
        disk_ops_performed(config, journal) == Ok::<((), JournalView), StopView>(
            ((), stages.rest),
        ),
{
    reveal(are_disk_stages);
    let unmounted = (all_unmounted(config.canonical_target_drive, journal)->Ok_0).1;
    let (partitions, divided) = drive_partitioned(config, unmounted)->Ok_0;
    let efi_made = (efi_filesystem_made(config, partitions[0].1, divided)->Ok_0).1;
    let root_made = (root_filesystem_made(config, partitions[1].1, efi_made)->Ok_0).1;
    let root_mounted = (root_filesystems_mounted(config, root_made)->Ok_0).1;
    let rest = (efi_filesystem_mounted(config, root_mounted)->Ok_0).1;
    assert(all_unmounted(config.canonical_target_drive, journal) == Ok::<
        ((), JournalView),
        StopView,
    >(((), unmounted)));
    assert(drive_partitioned(config, unmounted) == Ok::<
        (Seq<(u8, Seq<char>)>, JournalView),
        StopView,
    >((partitions, divided)));
    assert(efi_filesystem_made(config, partitions[0].1, divided) == Ok::<
        ((), JournalView),
        StopView,
    >(((), efi_made)));
    assert(root_filesystem_made(config, partitions[1].1, efi_made) == Ok::<
        ((), JournalView),
        StopView,
    >(((), root_made)));
    let all_mounted = root_filesystems_mounted(config, root_made);
    assert(all_mounted is Ok);
    assert(all_mounted->Ok_0 == ((), root_mounted)) by {
        assert(all_mounted->Ok_0.0 == ());
    }
    assert(efi_filesystem_mounted(config, root_mounted) == Ok::<((), JournalView), StopView>(
        ((), rest),
    ));
    DiskStages { unmounted, partitions, divided, efi_made, root_made, root_mounted, rest }
}

/// The parts of making the drive ready read on.
#[verifier::spinoff_prover]
proof fn disk_reads(config: ConfigView, journal: JournalView, stages: DiskStages)
    requires
        0 <= journal.read <= journal.answers.len(),
        are_disk_stages(config, journal, stages),
    ensures
        are_disk_reads(journal, stages),
{
    reveal(are_disk_stages);
    let all = journal.answers.len() as int;
    all_unmounted_ends_alike(config.canonical_target_drive, journal, all);
    drive_partitioned_ends_alike(config, stages.unmounted, all);
    efi_filesystem_made_ends_alike(config, stages.partitions[0].1, stages.divided, all);
    root_filesystem_made_ends_alike(config, stages.partitions[1].1, stages.efi_made, all);
    root_filesystems_mounted_ends_alike(config, stages.root_made, all);
    filesystem_mounted_ends_alike(
        config.efi_part_mount_opts,
        device_of(config.efi_part_uuid),
        config.mount_path + "/boot"@,
        stages.root_mounted,
        all,
    );
}

/// With as many answers, what is mounted of the drive has been unmounted.
#[verifier::spinoff_prover]
proof fn disk_at_partitioning(
    config: ConfigView,
    journal: JournalView,
    stages: DiskStages,
    count: int,
)
    requires
        are_disk_stages(config, journal, stages),
        are_disk_reads(journal, stages),
        stages.unmounted.read <= count <= journal.answers.len(),
    ensures
        disk_work(config, journal)(count) == match drive_partitioned(
            config,
            cut(stages.unmounted, count),
        ) {
            Err(stop) => Err(stop),
            Ok((partitions, divided)) => from_formatting(config, partitions, divided),
        },
{
    reveal(disk_work);
    reveal(are_disk_stages);
    all_unmounted_ends_alike(config.canonical_target_drive, journal, count);
    reveal(from_formatting);
    reveal(from_root);
    reveal(from_mounting);
}

/// What is left once the partitions are known.
#[verifier::opaque]
spec fn from_formatting(
    config: ConfigView,
    partitions: Seq<(u8, Seq<char>)>,
    divided: JournalView,
) -> Outcome<()> {
    match efi_filesystem_made(config, partitions[0].1, divided) {
        Err(stop) => Err(stop),
        Ok((_, efi_made)) => from_root(config, partitions, efi_made),
    }
}

/// What is left once the EFI file system is made.
#[verifier::opaque]
spec fn from_root(
    config: ConfigView,
    partitions: Seq<(u8, Seq<char>)>,
    efi_made: JournalView,
) -> Outcome<()> {
    if needs_zfs_format(config) {
        Err(StopView::NoZfsFormat)
    } else {
        match root_filesystem_made(config, partitions[1].1, efi_made) {
            Err(stop) => Err(stop),
            Ok((_, root_made)) => from_mounting(config, root_made),
        }
    }
}

/// What is left once the file systems are made.
#[verifier::opaque]
spec fn from_mounting(config: ConfigView, root_made: JournalView) -> Outcome<()> {
    match root_filesystems_mounted(config, root_made) {
        Err(stop) => Err(stop),
        Ok((_, root_mounted)) => efi_filesystem_mounted(config, root_mounted),
    }
}

/// With as many answers, the partitions are known.
#[verifier::spinoff_prover]
proof fn disk_at_formatting(
    config: ConfigView,
    journal: JournalView,
    stages: DiskStages,
    count: int,
)
    requires
        are_disk_stages(config, journal, stages),
        are_disk_reads(journal, stages),
        stages.divided.read <= count <= journal.answers.len(),
    ensures
        disk_work(config, journal)(count) == from_formatting(
            config,
            stages.partitions,
            cut(stages.divided, count),
        ),
{
    disk_at_partitioning(config, journal, stages, count);
    reveal(are_disk_stages);
    drive_partitioned_ends_alike(config, stages.unmounted, count);
}

/// With as many answers, the EFI file system is made.
#[verifier::spinoff_prover]
proof fn disk_at_root(
    config: ConfigView,
    journal: JournalView,
    stages: DiskStages,
    count: int,
)
    requires
        are_disk_stages(config, journal, stages),
        are_disk_reads(journal, stages),
        stages.efi_made.read <= count <= journal.answers.len(),
    ensures
        disk_work(config, journal)(count) == from_root(
            config,
            stages.partitions,
            cut(stages.efi_made, count),
        ),
{
    disk_at_formatting(config, journal, stages, count);
    reveal(are_disk_stages);
    reveal(from_formatting);
    efi_filesystem_made_ends_alike(config, stages.partitions[0].1, stages.divided, count);
}

/// With as many answers, the file systems are made.
#[verifier::spinoff_prover]
proof fn disk_at_mounting(
    config: ConfigView,
    journal: JournalView,
    stages: DiskStages,
    count: int,
)
    requires
        are_disk_stages(config, journal, stages),
        are_disk_reads(journal, stages),
        stages.root_made.read <= count <= journal.answers.len(),
    ensures
        disk_work(config, journal)(count) == from_mounting(config, cut(stages.root_made, count)),
{
    disk_at_root(config, journal, stages, count);
    reveal(are_disk_stages);
    reveal(from_root);
    root_filesystem_made_ends_alike(config, stages.partitions[1].1, stages.efi_made, count);
}

/// With as many answers, the subvolumes are mounted.
#[verifier::spinoff_prover]
proof fn disk_at_boot(
    config: ConfigView,
    journal: JournalView,
    stages: DiskStages,
    count: int,
)
    requires
        are_disk_stages(config, journal, stages),
        are_disk_reads(journal, stages),
        stages.root_mounted.read <= count <= journal.answers.len(),
    ensures
        disk_work(config, journal)(count) == filesystem_mounted(
            config.efi_part_mount_opts,
            device_of(config.efi_part_uuid),
            config.mount_path + "/boot"@,
            cut(stages.root_mounted, count),
        ),
{
    disk_at_mounting(config, journal, stages, count);
    reveal(are_disk_stages);
    reveal(from_mounting);
    root_filesystems_mounted_ends_alike(config, stages.root_made, count);
}

/// The drive is partitioned on the way.
#[verifier::spinoff_prover]
proof fn disk_is_partitioned(
    config: ConfigView,
    journal: JournalView,
    stages: DiskStages,
) -> (entries: (int, int))
    requires
        are_disk_stages(config, journal, stages),
        are_disk_reads(journal, stages),
    ensures
        ({
            let listed = stages.unmounted.read + partitioning_commands(config) + 2;
            &&& stages.divided.read == listed + 1
            &&& is_partitioned_at(
                disk_work(config, journal),
                journal.answers,
                stages.unmounted.read,
                config,
            )
            &&& journal.answers[listed] matches Answer::DiskIds(Ok(ids)) && {
                &&& are_efi_and_root(ids@, config, entries.0, entries.1)
                &&& stages.partitions[0].1 == ids@[entries.0].path@
                &&& stages.partitions[1].1 == ids@[entries.1].path@
            }
        }),
{
    let outer = disk_work(config, journal);
    let answers = journal.answers;
    let start = stages.unmounted.read;
    let listed = start + partitioning_commands(config) + 2;
    assert(drive_partitioned(config, stages.unmounted) == Ok::<
        (Seq<(u8, Seq<char>)>, JournalView),
        StopView,
    >((stages.partitions, stages.divided))) by {
        reveal(are_disk_stages);
    }
    partitioning_takes_these_steps(config, stages.unmounted);
    assert(listed < answers.len());
    disk_at_partitioning(config, journal, stages, start);
    disk_at_partitioning(config, journal, stages, start + 1);
    disk_at_partitioning(config, journal, stages, listed - 2);
    disk_at_partitioning(config, journal, stages, listed - 1);
    disk_at_partitioning(config, journal, stages, listed);
    if config.partition_drive {
        let args = choose|args: Seq<Seq<char>>|
            {
                &&& #[trigger] asks(
                    drive_partitioned(config, cut(stages.unmounted, start + 1)),
                    "parted"@,
                    args,
                )
                &&& partitions_target(config, command("parted"@, args))
            };
        assert(is_success(answers[start]) && is_success(answers[start + 1]));
        assert(is_done(outer, answers, start + 1, "parted"@, args));
    }
    assert(is_success(answers[listed - 2]) && is_success(answers[listed - 1]));
    let ids = answers[listed]->DiskIds_0->Ok_0;
    let (efi, root) = choose|a: int, b: int| #[trigger]
        are_listed(stages.partitions, ids@, config.target_drive_by_id, a, b);
    (efi, root)
}

/// The partitions are formatted on the way.
#[verifier::spinoff_prover]
proof fn disk_is_formatted(config: ConfigView, journal: JournalView, stages: DiskStages)
    requires
        are_disk_stages(config, journal, stages),
        are_disk_reads(journal, stages),
    ensures
        are_formatted_at(
            disk_work(config, journal),
            stages.divided.read,
            stages.partitions[0].1,
            stages.efi_made.read,
            stages.partitions[1].1,
            config,
        ),
{
    let outer = disk_work(config, journal);
    let efi = stages.partitions[0].1;
    let root = stages.partitions[1].1;
    assert({
        &&& efi_filesystem_made(config, efi, stages.divided) is Ok
        &&& root_filesystem_made(config, root, stages.efi_made) is Ok
        &&& !needs_zfs_format(config)
    }) by {
        reveal(are_disk_stages);
    }
    if config.format_partitions {
        making_the_efi_file_system_takes_these_steps(config, efi, stages.divided);
        making_the_root_file_system_takes_these_steps(config, root, stages.efi_made);
        disk_at_formatting(config, journal, stages, stages.divided.read);
        disk_at_root(config, journal, stages, stages.efi_made.read);
        reveal(from_formatting);
        reveal(from_root);
        let args = choose|args: Seq<Seq<char>>|
            {
                &&& #[trigger] asks(
                    root_filesystem_made(
                        config,
                        root,
                        cut(stages.efi_made, stages.efi_made.read),
                    ),
                    "mkfs.btrfs"@,
                    args,
                )
                &&& makes_root(config, root, command("mkfs.btrfs"@, args))
            };
        assert(asks(outer(stages.efi_made.read), "mkfs.btrfs"@, args));
    }
}

/// Everything is mounted on the way.
#[verifier::spinoff_prover]
proof fn disk_is_mounted(
    config: ConfigView,
    i: int,
    k: int,
    journal: JournalView,
    stages: DiskStages,
) -> (steps: RootSteps)
    requires
        are_disk_stages(config, journal, stages),
        are_disk_reads(journal, stages),
        0 <= i <= k < config.non_efi_mount_paths.len(),
    ensures
        are_root_steps(
            disk_work(config, journal),
            journal.answers,
            stages.root_made.read,
            config,
            config.non_efi_mount_paths[i],
            config.non_efi_mount_paths[k],
            steps,
        ),
        steps.second < stages.root_mounted.read,
{
    let inner = root_mounting(config, stages.root_made);
    let outer = disk_work(config, journal);
    assert(root_filesystems_mounted(config, stages.root_made) == Ok::<((), JournalView), StopView>(
        ((), stages.root_mounted),
    )) by {
        reveal(are_disk_stages);
    }
    let steps = mounting_the_root_takes_these_steps(config, i, k, stages.root_made);
    assert(continues(inner, outer, journal.answers, stages.root_made.read)) by {
        assert forall|count: int|
            stages.root_made.read <= count < journal.answers.len() && #[trigger] inner(
                count,
            ) is Err implies outer(count) == inner(count) by {
            disk_at_mounting(config, journal, stages, count);
            reveal(from_mounting);
            reveal(root_mounting);
        }
    }
    root_steps_carry_over(
        inner,
        outer,
        journal.answers,
        stages.root_made.read,
        config,
        config.non_efi_mount_paths[i],
        config.non_efi_mount_paths[k],
        steps,
    );
    steps
}

/// The EFI partition is mounted at the end.
#[verifier::spinoff_prover]
proof fn disk_ends_with_boot(config: ConfigView, journal: JournalView, stages: DiskStages)
    requires
        are_disk_stages(config, journal, stages),
        are_disk_reads(journal, stages),
    ensures
        is_mounted_at(
            disk_work(config, journal),
            journal.answers,
            stages.root_mounted.read,
            config.efi_part_mount_opts,
            device_of(config.efi_part_uuid),
            config.mount_path + "/boot"@,
        ),
        stages.root_mounted.read < stages.rest.read,
{
    let device = device_of(config.efi_part_uuid);
    let path = config.mount_path + "/boot"@;
    assert(filesystem_mounted(
        config.efi_part_mount_opts,
        device,
        path,
        stages.root_mounted,
    ) == Ok::<((), JournalView), StopView>(((), stages.rest))) by {
        reveal(are_disk_stages);
    }
    mounting_takes_these_steps(config.efi_part_mount_opts, device, path, stages.root_mounted);
    disk_at_boot(config, journal, stages, stages.root_mounted.read);
    disk_at_boot(config, journal, stages, stages.root_mounted.read + 1);
}

/// Making the drive ready begins with what is mounted.
#[verifier::spinoff_prover]
proof fn disk_begins_with_mounts(config: ConfigView, journal: JournalView)
    ensures
        0 <= journal.read <= journal.answers.len() ==> waits_for(
            disk_work(config, journal)(journal.read),
            ActionView::ReadMounts,
        ),
{
    reveal(disk_work);
}

/// Making the target drive ready takes all its steps, in their order.
#[verifier::spinoff_prover]
pub proof fn disk_ops_take_these_steps(
    config: ConfigView,
    i: int,
    k: int,
    journal: JournalView,
) -> (steps: DiskSteps)
    requires
        0 <= journal.read <= journal.answers.len(),
        0 <= i <= k < config.non_efi_mount_paths.len(),
        disk_ops_performed(config, journal) is Ok,
    ensures
        are_disk_steps(
            disk_work(config, journal),
            journal.answers,
            journal.read,
            config,
            config.non_efi_mount_paths[i],
            config.non_efi_mount_paths[k],
            steps,
        ),
        steps.efi_mounted < (disk_ops_performed(config, journal)->Ok_0).1.read,
{
    let stages = disk_stages(config, journal);
    disk_reads(config, journal, stages);
    disk_begins_with_mounts(config, journal);
    let (efi, root) = disk_is_partitioned(config, journal, stages);
    disk_is_formatted(config, journal, stages);
    let root_steps = disk_is_mounted(config, i, k, journal, stages);
    disk_ends_with_boot(config, journal, stages);
    DiskSteps {
        divided: stages.unmounted.read,
        root_made: stages.efi_made.read,
        mounted: stages.root_made.read,
        efi_mounted: stages.root_mounted.read,
        efi,
        root,
        root_steps,
    }
}

} // verus!
