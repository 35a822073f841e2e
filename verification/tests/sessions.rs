//! Whole installations against a machine that answers as a real one would.

use nixos_install_tfg::command_helpers::{CommandLine, ProcessOutput};
use nixos_install_tfg::config::{configure, NixOSInstallerConfig};
use nixos_install_tfg::disk_helpers::{mount_root_filesystems, perform_disk_ops};
use nixos_install_tfg::file_systems::SupportedFileSystems;
use nixos_install_tfg::journal::{Action, Answer, DiskId, DriveReport, Failure, Journal, Stop};
use nixos_install_tfg::options::UsageError;
use nixos_install_tfg::session::{carry_out, hold_session};

fn texts(items: &[&str]) -> Vec<String> {
    items.iter().map(|item| item.to_string()).collect()
}

fn argv() -> Vec<String> {
    texts(&[
        "nixos-install-tfg",
        "--hostname=tfg",
        "--target-drive=/dev/sda",
        "--flake-path=/etc/nixos",
        "--partition-drive",
        "--format-partitions",
        "--do-build",
    ])
}

fn written(stdout: &str) -> Answer {
    Answer::Process(Ok(ProcessOutput {
        code: Some(0),
        stdout: stdout.as_bytes().to_vec(),
        stderr: Vec::new(),
    }))
}

fn evaluation(expression: &str) -> &'static str {
    if expression.starts_with("builtins.elem") || expression.contains("hostPlatform") {
        "true\n"
    } else if expression.ends_with("\"/boot\".device") {
        "/dev/disk/by-uuid/AB12-CD34"
    } else if expression.ends_with("\"/\".device") {
        "/dev/disk/by-uuid/1-2-3"
    } else if expression.contains("\"/boot\".options") {
        "umask=0077"
    } else if expression.contains("\"/\".options") {
        "noatime"
    } else if expression.ends_with("fsType") {
        "btrfs"
    } else if expression.contains("filteredFileSystems") {
        "/home,/,/var/log,/tmp"
    } else {
        "/nix/store/d.drv\n"
    }
}

fn output_of(command: &CommandLine) -> Answer {
    match command.program.as_str() {
        "nix" if command.args.contains(&"--json".to_string()) => {
            written("{\"path\": \"/nix/store/f-source\"}")
        }
        "nix-instantiate" => written(evaluation(&command.args[command.args.len() - 1])),
        "nix-store" => written("/nix/store/s\n"),
        _ => written(""),
    }
}

/// What a machine with the drive `/dev/sda` answers, whose user enters `line`.
fn answer(action: &Action, line: &str) -> Answer {
    match action {
        Action::ReadUserId => Answer::UserId(Ok(0)),
        Action::ReadArguments => Answer::Arguments(argv()),
        Action::ReadTempDirectory => Answer::TempDirectory(None),
        Action::ReadMounts => Answer::Mounts(Ok("/dev/sdb1 / ext4 rw 0 0\n".to_string())),
        Action::ListDiskIds => Answer::DiskIds(Ok(vec![
            DiskId {
                path: "/dev/disk/by-id/ata-X-part2".to_string(),
                device: Some("/dev/sda2".to_string()),
            },
            DiskId {
                path: "/dev/disk/by-id/ata-X".to_string(),
                device: Some("/dev/sda".to_string()),
            },
            DiskId {
                path: "/dev/disk/by-id/ata-X-part1".to_string(),
                device: Some("/dev/sda1".to_string()),
            },
        ])),
        Action::InspectDrive(path) => Answer::Drive(Ok(DriveReport {
            real_path: Some(path.clone()),
            displayed_path: path.clone(),
            exists: true,
            is_block_device: Ok(true),
        })),
        Action::CheckPath(_) => Answer::Exists(false),
        Action::CreateDirectory(_) => Answer::Created(Ok(())),
        Action::Run(command) => output_of(command),
        Action::RunAttached(_) => Answer::Status(Ok(Some(0))),
        Action::Pause => Answer::Paused,
        Action::Confirm => Answer::Line(Ok(line.to_string())),
    }
}

/// Runs a procedure to its end; gives the end, the actions asked for and the answers to them.
fn driven<T, F>(
    procedure: F,
    machine: impl Fn(&Action) -> Answer,
) -> (Result<T, Stop>, Vec<Action>, Vec<Answer>)
where
    F: for<'a> Fn(&mut Journal<'a>) -> Result<T, Stop>,
{
    let mut answers: Vec<Answer> = Vec::new();
    let mut asked: Vec<Action> = Vec::new();
    loop {
        match procedure(&mut Journal::new(&answers)) {
            Err(Stop::Waiting(action)) => {
                answers.push(machine(&action));
                asked.push(action);
            }
            end => return (end, asked, answers),
        }
    }
}

fn installation(journal: &mut Journal<'_>) -> Result<(), Stop> {
    hold_session("x86_64-linux", journal)
}

fn programs(asked: &[Action]) -> Vec<String> {
    asked
        .iter()
        .filter_map(|action| match action {
            Action::Run(command) | Action::RunAttached(command) => Some(command.program.clone()),
            _ => None,
        })
        .collect()
}

fn config() -> NixOSInstallerConfig {
    NixOSInstallerConfig {
        hostname: "tfg".to_string(),
        canonical_target_drive: "/dev/sda".to_string(),
        mount_path: "/mnt".to_string(),
        partition_drive: true,
        format_partitions: true,
        substitute_only: false,
        target_drive_by_id: "/dev/disk/by-id/ata-X".to_string(),
        flake_store_path: "/nix/store/f-source".to_string(),
        efi_part_uuid: "AB12-CD34".to_string(),
        efi_part_mount_opts: "umask=0077".to_string(),
        root_part_uuid: "1-2-3".to_string(),
        root_part_mount_opts: "noatime".to_string(),
        root_part_fs_type: SupportedFileSystems::Btrfs,
        non_efi_mount_paths: texts(&["/", "/home", "/tmp", "/var/log"]),
        nixos_system_derivation_path: "/nix/store/d.drv".to_string(),
        nixos_system_out_path: "/nix/store/s".to_string(),
    }
}

#[test]
fn a_configuration_is_made_from_the_command_line_and_the_flake() {
    let (end, asked, _) = driven(
        |journal: &mut Journal<'_>| configure("x86_64-linux", journal),
        |action| answer(action, ""),
    );
    assert!(end == Ok(config()));
    assert_eq!(asked[0], Action::ReadUserId);
    assert_eq!(asked[1], Action::ReadArguments);
    for program in programs(&asked) {
        assert!(["git", "nix", "nix-instantiate", "nix-store"].contains(&program.as_str()));
    }
}

#[test]
fn an_installation_runs_from_its_start_to_its_end() {
    let (end, asked, _) = driven(installation, |action| answer(action, "y\n"));
    assert_eq!(end, Ok(()));
    let confirmed = asked.iter().position(|action| *action == Action::Confirm).unwrap();
    assert_eq!(
        programs(&asked[confirmed..]),
        texts(&[
            "wipefs",
            "parted",
            "partprobe",
            "udevadm",
            "mkfs.fat",
            "partprobe",
            "udevadm",
            "mkfs.btrfs",
            "partprobe",
            "udevadm",
            "mount",
            "btrfs",
            "btrfs",
            "btrfs",
            "btrfs",
            "btrfs",
            "btrfs",
            "btrfs",
            "btrfs",
            "umount",
            "mount",
            "mount",
            "mount",
            "mount",
            "mount",
            "nix",
            "nix",
            "nix-instantiate",
            "nix",
            "nixos-install",
        ])
    );
}

#[test]
fn nothing_is_changed_without_a_yes() {
    for line in ["n\n", "\n", "yes\n"] {
        let (end, asked, _) = driven(installation, |action| answer(action, line));
        assert!(matches!(end, Err(Stop::Failed(Failure::Message(_)))));
        for program in programs(&asked) {
            assert!(["git", "nix", "nix-instantiate", "nix-store"].contains(&program.as_str()));
        }
    }
}

#[test]
fn a_refused_installation_says_so() {
    let (end, asked, _) = driven(installation, |action| answer(action, "n\n"));
    assert_eq!(
        end,
        Err(Stop::Failed(Failure::Message("Aborted due to user choice".to_string())))
    );
    assert_eq!(asked.iter().filter(|action| **action == Action::Confirm).count(), 1);
}

#[test]
fn later_answers_change_nothing() {
    let (end, asked, mut answers) = driven(installation, |action| answer(action, "n\n"));
    answers.push(Answer::Line(Ok("y\n".to_string())));
    assert_eq!(installation(&mut Journal::new(&answers)), end);

    let (_, all, answers) = driven(installation, |action| answer(action, "y\n"));
    let mut read: Vec<Answer> = Vec::new();
    for (action, answer) in all.into_iter().zip(answers) {
        assert_eq!(installation(&mut Journal::new(&read)), Err(Stop::Waiting(action)));
        read.push(answer);
    }
    assert!(asked.len() < read.len());
}

#[test]
fn an_answer_to_another_action_is_refused() {
    let answers = vec![Answer::Paused];
    assert_eq!(installation(&mut Journal::new(&answers)), Err(Stop::Misfit));
    let answers = vec![Answer::UserId(Ok(0)), Answer::UserId(Ok(0))];
    assert_eq!(installation(&mut Journal::new(&answers)), Err(Stop::Misfit));
}

#[test]
fn a_bad_command_line_ends_the_installation() {
    let with = |args: Vec<String>| {
        driven(installation, move |action| match action {
            Action::ReadArguments => Answer::Arguments(args.clone()),
            other => answer(other, "y\n"),
        })
    };
    assert_eq!(
        with(texts(&["nixos-install-tfg", "--hostname"])).0,
        Err(Stop::Failed(Failure::Usage(UsageError::MissingValue(Some(
            "--hostname".to_string()
        )))))
    );
    let (end, asked, _) = with(texts(&["nixos-install-tfg", "--hostname=a", "--do-build"]));
    assert_eq!(
        end,
        Err(Stop::Failed(Failure::BadArguments {
            problems: texts(&[
                "`--target-drive` must be specified",
                "`--format-partitions` or `--no-format-partitions` must be specified",
                "`--partition-drive` or `--no-partition-drive` must be specified",
                "`--flake-path` must be specified",
            ]),
            message: "Please look at the errors above".to_string(),
        }))
    );
    assert_eq!(asked, vec![Action::ReadUserId, Action::ReadArguments]);
}

#[test]
fn subvolumes_are_prepared_and_then_mounted_in_tree_order() {
    let (end, asked, _) = driven(
        |journal: &mut Journal<'_>| mount_root_filesystems(&config(), journal),
        |action| answer(action, ""),
    );
    assert_eq!(end, Ok(()));
    let commands: Vec<String> = asked
        .iter()
        .filter_map(|action| match action {
            Action::Run(command) => Some(format!("{} {}", command.program, command.args.join(" "))),
            _ => None,
        })
        .collect();
    assert_eq!(
        commands,
        texts(&[
            "mount --options noatime /dev/disk/by-uuid/1-2-3 /mnt",
            "btrfs subvolume create /mnt/@",
            "btrfs subvolume snapshot -r /mnt/@ /mnt/@+fresh",
            "btrfs qgroup limit 16G /mnt/@",
            "btrfs subvolume create /mnt/@home",
            "btrfs qgroup limit 128G /mnt/@home",
            "btrfs subvolume create /mnt/@tmp",
            "btrfs subvolume snapshot -r /mnt/@tmp /mnt/@tmp+fresh",
            "btrfs subvolume create /mnt/@var-log",
            "umount --force /mnt",
            "mount --options noatime,subvol=@ /dev/disk/by-uuid/1-2-3 /mnt/",
            "mount --options noatime,subvol=@home /dev/disk/by-uuid/1-2-3 /mnt/home",
            "mount --options noatime,subvol=@tmp /dev/disk/by-uuid/1-2-3 /mnt/tmp",
            "mount --options noatime,subvol=@var-log /dev/disk/by-uuid/1-2-3 /mnt/var/log",
        ])
    );
}

#[test]
fn the_drive_is_neither_partitioned_nor_formatted_unasked() {
    let kept = || NixOSInstallerConfig {
        partition_drive: false,
        format_partitions: false,
        ..config()
    };
    let (end, asked, _) = driven(
        |journal: &mut Journal<'_>| perform_disk_ops(&kept(), journal),
        |action| answer(action, ""),
    );
    assert_eq!(end, Ok(()));
    for program in programs(&asked) {
        assert!(!["wipefs", "parted", "mkfs.fat", "mkfs.btrfs"].contains(&program.as_str()));
    }
}

#[test]
fn only_partitions_of_the_target_drive_are_formatted() {
    let (_, asked, _) = driven(
        |journal: &mut Journal<'_>| perform_disk_ops(&config(), journal),
        |action| answer(action, ""),
    );
    let devices: Vec<String> = asked
        .iter()
        .filter_map(|action| match action {
            Action::Run(command) if command.program.starts_with("mkfs") => {
                command.args.last().cloned()
            }
            _ => None,
        })
        .collect();
    assert_eq!(
        devices,
        texts(&["/dev/disk/by-id/ata-X-part1", "/dev/disk/by-id/ata-X-part2"])
    );
}

#[test]
fn a_zfs_root_stops_the_installation_where_it_would_be_formatted() {
    let zfs = || NixOSInstallerConfig { root_part_fs_type: SupportedFileSystems::Zfs, ..config() };
    let (end, asked, _) = driven(
        |journal: &mut Journal<'_>| carry_out(&zfs(), journal),
        |action| answer(action, ""),
    );
    assert_eq!(end, Err(Stop::NoZfsFormat));
    assert_eq!(
        programs(&asked),
        texts(&["wipefs", "parted", "partprobe", "udevadm", "mkfs.fat", "partprobe", "udevadm"])
    );
}
