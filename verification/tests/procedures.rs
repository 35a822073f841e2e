//! Single procedures against a machine that answers from a script.

use nixos_install_tfg::command_helpers::{
    accept, perform, retry_command_on_ebusy, CommandLine, ProcessOutput,
};
use nixos_install_tfg::config::{
    find_id_of_device, get_target_drive_by_id, judge_drive, user_check, verify_target_drive,
    NixOSInstallerConfig,
};
use nixos_install_tfg::disk_helpers::{
    create_fresh_snapshot, discover_target_drive_partitions, find_mount_points, find_partitions,
    find_size_limit, make_btrfs_subvolume, make_efi_filesystem, make_root_filesystem,
    mount_efi_filesystem, order_partitions, partition_target_drive, perform_filesystem_mount,
    set_subvolume_limit, settle_udev, unmount_everything,
};
use nixos_install_tfg::evaluation::{
    evaluate_nixos_system_derivation_path, evaluate_nixos_system_out_path,
    evaluate_non_efi_mount_paths, evaluate_partition_mount_options, evaluate_partition_uuid,
    evaluate_root_part_fs_type, find_file_system, first_line, read_mount_paths,
};
use nixos_install_tfg::file_systems::{NixOSFileSystemMountPath, SupportedFileSystems};
use nixos_install_tfg::flake::{
    accept_store_path, do_lockfile_update, get_flake_store_path, judge, perform_git_pull,
    verify_hostname,
};
use nixos_install_tfg::installer::{
    bootstrap_flake_store_path, bootstrap_nixos, do_nixos_install, install_nixos,
};
use nixos_install_tfg::journal::{
    Action, Answer, DiskId, DriveReport, Failure, Journal, Stop,
};
use nixos_install_tfg::session::{confirm_installation, read_choice, Choice};

fn texts(items: &[&str]) -> Vec<String> {
    items.iter().map(|item| item.to_string()).collect()
}

/// The action on one line.
fn described(action: &Action) -> String {
    match action {
        Action::Run(command) => format!("{} {}", command.program, command.args.join(" ")),
        Action::RunAttached(command) => {
            format!("attached: {} {}", command.program, command.args.join(" "))
        }
        other => format!("{other:?}"),
    }
}

/// Runs a procedure with one answer after the other; gives its end and the actions asked for.
fn scripted<T, F>(procedure: F, script: Vec<Answer>) -> (Result<T, Stop>, Vec<String>)
where
    F: for<'a> Fn(&mut Journal<'a>) -> Result<T, Stop>,
{
    let mut answers: Vec<Answer> = Vec::new();
    let mut asked: Vec<String> = Vec::new();
    let mut script = script.into_iter();
    loop {
        match procedure(&mut Journal::new(&answers)) {
            Err(Stop::Waiting(action)) => {
                asked.push(described(&action));
                match script.next() {
                    Some(answer) => answers.push(answer),
                    None => return (Err(Stop::Waiting(action)), asked),
                }
            }
            end => {
                assert!(script.next().is_none(), "answers are left over");
                return (end, asked);
            }
        }
    }
}

fn process(code: i32, stdout: &str, stderr: &str) -> Answer {
    Answer::Process(Ok(ProcessOutput {
        code: Some(code),
        stdout: stdout.as_bytes().to_vec(),
        stderr: stderr.as_bytes().to_vec(),
    }))
}

fn done() -> Answer {
    process(0, "", "")
}

fn says(stdout: &str) -> Answer {
    process(0, stdout, "")
}

fn breaks() -> Answer {
    process(1, "", " broken\n")
}

fn no_such_file() -> Answer {
    Answer::Process(Err("No such file or directory (os error 2)".to_string()))
}

fn message<T>(text: &str) -> Result<T, Stop> {
    Err(Stop::Failed(Failure::Message(text.to_string())))
}

fn io<T>(text: &str) -> Result<T, Stop> {
    Err(Stop::Failed(Failure::Io(text.to_string())))
}

fn id(path: &str, device: Option<&str>) -> DiskId {
    DiskId { path: path.to_string(), device: device.map(|device| device.to_string()) }
}

fn config() -> NixOSInstallerConfig {
    NixOSInstallerConfig {
        hostname: "tfg".to_string(),
        canonical_target_drive: "/dev/sda".to_string(),
        mount_path: "/mnt".to_string(),
        partition_drive: true,
        format_partitions: true,
        substitute_only: false,
        target_drive_by_id: "/dev/disk/by-id/ata-X".to_string(),
        flake_store_path: "/nix/store/f-source".to_string(),
        efi_part_uuid: "AB12-CD34".to_string(),
        efi_part_mount_opts: "umask=0077".to_string(),
        root_part_uuid: "1-2-3".to_string(),
        root_part_mount_opts: "noatime".to_string(),
        root_part_fs_type: SupportedFileSystems::Btrfs,
        non_efi_mount_paths: texts(&["/", "/home"]),
        nixos_system_derivation_path: "/nix/store/d.drv".to_string(),
        nixos_system_out_path: "/nix/store/s".to_string(),
    }
}

#[test]
fn a_failed_command_says_why() {
    let command = CommandLine::new("git").arg("pull");
    let run = |journal: &mut Journal<'_>| perform(&command, "It failed", journal);
    assert_eq!(scripted(run, vec![done()]), (Ok(()), texts(&["git pull"])));
    assert_eq!(scripted(run, vec![breaks()]).0, message("It failed\n```\nbroken\n```"));
    assert_eq!(
        scripted(run, vec![no_such_file()]).0,
        io("No such file or directory (os error 2)")
    );
    assert_eq!(
        scripted(run, vec![]).0,
        Err(Stop::Waiting(Action::Run(CommandLine::new("git").arg("pull"))))
    );
    assert_eq!(scripted(run, vec![Answer::Paused]).0, Err(Stop::Misfit));
    let killed = ProcessOutput { code: None, stdout: Vec::new(), stderr: Vec::new() };
    assert_eq!(accept(Ok(&killed), "It failed"), message("It failed\n```\n\n```"));
}

#[test]
fn a_busy_command_is_tried_again() {
    let command = CommandLine::new("mount");
    let busy = || process(32, "", "Target is busy");
    let run = |journal: &mut Journal<'_>| {
        retry_command_on_ebusy(3, &command, journal).map(|attempt| attempt.map(|output| output.code))
    };
    assert_eq!(scripted(run, vec![breaks()]).0, Ok(Ok(Some(1))));
    assert_eq!(
        scripted(run, vec![busy(), Answer::Paused, done()]),
        (Ok(Ok(Some(0))), texts(&["mount ", "Pause", "mount "]))
    );
    assert_eq!(
        scripted(run, vec![busy(), Answer::Paused, busy(), Answer::Paused, busy()]),
        (Ok(Ok(Some(32))), texts(&["mount ", "Pause", "mount ", "Pause", "mount "]))
    );
    assert_eq!(
        scripted(run, vec![busy(), Answer::Paused, Answer::Process(Err("gone".to_string()))]).0,
        Ok(Err("gone".to_string()))
    );
    let never = |journal: &mut Journal<'_>| {
        retry_command_on_ebusy(0, &command, journal).map(|attempt| attempt.map(|output| output.code))
    };
    assert_eq!(
        scripted(never, vec![]),
        (Ok(Err("No attempts were made".to_string())), texts(&[]))
    );
}

#[test]
fn a_command_that_succeeds_while_it_says_busy_is_tried_again() {
    let mount = |journal: &mut Journal<'_>| {
        perform_filesystem_mount("noatime", "/dev/sda1", "/mnt", journal)
    };
    assert_eq!(
        scripted(
            mount,
            vec![
                Answer::Created(Ok(())),
                process(0, "", "EBUSY"),
                Answer::Paused,
                process(0, "", ""),
            ]
        ),
        (
            Ok(()),
            texts(&[
                "CreateDirectory(\"/mnt\")",
                "mount --options noatime /dev/sda1 /mnt",
                "Pause",
                "mount --options noatime /dev/sda1 /mnt",
            ])
        )
    );
    assert_eq!(
        scripted(mount, vec![Answer::Created(Err("read-only".to_string()))]).0,
        io("read-only")
    );
    assert_eq!(
        scripted(mount, vec![Answer::Created(Ok(())), breaks()]).0,
        message("The mount command failed\n```\nbroken\n```")
    );
}

#[test]
fn a_mount_is_tried_ten_times() {
    let mount = |journal: &mut Journal<'_>| {
        perform_filesystem_mount("noatime", "/dev/sda1", "/mnt", journal)
    };
    let mut script = vec![Answer::Created(Ok(()))];
    for attempt in 0..10 {
        script.push(process(32, "", "mount point is busy"));
        if attempt < 9 {
            script.push(Answer::Paused);
        }
    }
    let (end, asked) = scripted(mount, script);
    assert_eq!(end, message("The mount command failed\n```\nmount point is busy\n```"));
    assert_eq!(asked.len(), 20);
}

#[test]
fn only_the_superuser_installs() {
    assert_eq!(
        scripted(user_check, vec![Answer::UserId(Ok(0))]),
        (Ok(()), texts(&["ReadUserId"]))
    );
    assert_eq!(
        scripted(user_check, vec![Answer::UserId(Ok(1000))]).0,
        message("The installer needs superuser privileges")
    );
    assert_eq!(
        scripted(user_check, vec![Answer::UserId(Err("denied".to_string()))]).0,
        message("Could not determine the metadata of `/proc/self` to determine the UID of user running the process\n```\ndenied\n```")
    );
}

#[test]
fn the_flake_is_brought_up_to_date() {
    let pull = |journal: &mut Journal<'_>| perform_git_pull("/etc/nixos", journal);
    assert_eq!(
        scripted(pull, vec![done()]),
        (Ok(()), texts(&["git -C /etc/nixos pull --ff-only"]))
    );
    assert_eq!(
        scripted(pull, vec![breaks()]).0,
        message("The `git pull` command failed\n```\nbroken\n```")
    );
    let update = |journal: &mut Journal<'_>| do_lockfile_update("/etc/nixos", true, journal);
    assert_eq!(
        scripted(update, vec![done()]),
        (
            Ok(()),
            texts(&["nix --extra-experimental-features nix-command --extra-experimental-features flakes flake update --flake /etc/nixos"])
        )
    );
    assert_eq!(
        scripted(update, vec![breaks()]).0,
        message("The `nix flake update` command failed\n```\nbroken\n```")
    );
    let stay = |journal: &mut Journal<'_>| do_lockfile_update("/etc/nixos", false, journal);
    assert_eq!(scripted(stay, vec![]), (Ok(()), texts(&[])));
}

#[test]
fn the_flake_is_copied_to_the_store() {
    let store = |journal: &mut Journal<'_>| get_flake_store_path("/f", false, false, journal);
    assert_eq!(
        scripted(store, vec![done(), says("{\"inputs\":{},\"path\":\"/nix/store/a\\u002db\"}\n")]),
        (
            Ok("/nix/store/a-b".to_string()),
            texts(&[
                "git -C /f pull --ff-only",
                "nix --extra-experimental-features nix-command --extra-experimental-features flakes flake archive --json /f",
            ])
        )
    );
    assert_eq!(
        scripted(store, vec![done(), breaks()]).0,
        message("The `nix flake archive` command failed\n```\nbroken\n```")
    );
    assert_eq!(
        scripted(store, vec![done(), process(0, "path: x", "why\n")]).0,
        message("Could not parse the archived flake's output\n```\nwhy\n```")
    );
    assert_eq!(
        scripted(store, vec![done(), says("{\"path\": \"\"}")]).0,
        message("Could not determine the flake store path")
    );
    for json in ["{}", "[]", "{\"path\": 7}"] {
        let end = scripted(store, vec![done(), says(json)]).0;
        assert!(matches!(end, Err(Stop::Failed(Failure::Json(_)))), "{json}");
    }
}

#[test]
fn the_error_of_the_json_reader_is_handed_on() {
    let text = "{\"paths\": \"/nix/store/a\"}";
    let json = nojson::RawJson::parse(text).unwrap();
    let error = json.value().to_member("path").unwrap().required().unwrap_err();
    let store = |journal: &mut Journal<'_>| get_flake_store_path("/f", false, false, journal);
    assert_eq!(
        scripted(store, vec![done(), says(text)]).0,
        Err(Stop::Failed(Failure::Json(format!("{error:?}"))))
    );
}

#[test]
fn the_flake_is_kept_from_being_collected() {
    let store = |journal: &mut Journal<'_>| get_flake_store_path("/f", false, true, journal);
    let archived = || says("{\"path\": \"/nix/store/f\"}");
    let (end, asked) = scripted(
        store,
        vec![
            done(),
            archived(),
            Answer::TempDirectory(Some("/scratch".to_string())),
            Answer::Created(Ok(())),
            done(),
        ],
    );
    assert_eq!(end, Ok("/nix/store/f".to_string()));
    assert_eq!(
        asked[2..],
        texts(&[
            "ReadTempDirectory",
            "CreateDirectory(\"/scratch/nixos-install-tfg\")",
            "nix --extra-experimental-features nix-command --extra-experimental-features flakes build --out-link /scratch/nixos-install-tfg/result-flake-store-path /nix/store/f",
        ])
    );
    let (end, asked) = scripted(
        store,
        vec![
            done(),
            archived(),
            Answer::TempDirectory(None),
            Answer::Created(Err("full".to_string())),
        ],
    );
    assert_eq!(end, io("full"));
    assert_eq!(asked[3], "CreateDirectory(\"/tmp/nixos-install-tfg\")");
    assert_eq!(
        scripted(
            store,
            vec![
                done(),
                archived(),
                Answer::TempDirectory(None),
                Answer::Created(Ok(())),
                breaks(),
            ]
        )
        .0,
        message("The `nix build` command to create a GC root for the flake store path failed\n```\nbroken\n```")
    );
}

#[test]
fn a_store_path_is_accepted_if_there_is_one() {
    assert_eq!(accept_store_path(Some(Ok("/s".to_string())), "e"), Ok("/s".to_string()));
    assert_eq!(
        accept_store_path(None, "\n```\ne\n```"),
        message("Could not parse the archived flake's output\n```\ne\n```")
    );
    assert_eq!(
        accept_store_path(Some(Err("none".to_string())), "e"),
        Err(Stop::Failed(Failure::Json("none".to_string())))
    );
    assert_eq!(
        accept_store_path(Some(Ok(String::new())), "e"),
        message("Could not determine the flake store path")
    );
}

#[test]
fn the_value_of_an_expression_is_judged() {
    assert_eq!(judge("true", "e", "no"), Ok(()));
    assert_eq!(judge("false", "e", "no"), message("no"));
    assert_eq!(judge("7", "e", "no"), message("Invalid result: '7'e"));
}

#[test]
fn the_host_has_to_be_in_the_flake() {
    let verify = |journal: &mut Journal<'_>| {
        verify_hostname("tfg", "/nix/store/f", "x86_64-linux", journal)
    };
    assert_eq!(
        scripted(verify, vec![says("true\n"), says("true\n")]),
        (
            Ok(()),
            texts(&[
                "nix-instantiate --option extra-experimental-features flakes --eval --expr builtins.elem \"tfg\" (builtins.attrNames (builtins.getFlake \"/nix/store/f\").outputs.nixosConfigurations)",
                "nix-instantiate --option extra-experimental-features flakes --eval --expr (builtins.getFlake \"/nix/store/f\").outputs.nixosConfigurations.tfg.pkgs.stdenv.hostPlatform.system == \"x86_64-linux\"",
            ])
        )
    );
    assert_eq!(
        scripted(verify, vec![says("false")]).0,
        message("There is no NixOS configuration for your hostname in your flake")
    );
    assert_eq!(
        scripted(verify, vec![process(0, "null", "odd")]).0,
        message("Invalid result: 'null'\n```\nodd\n```")
    );
    assert_eq!(
        scripted(verify, vec![breaks()]).0,
        message("The `nix-instantiate` command to check whether the specified hostname exists in your Nix flake, failed\n```\nbroken\n```")
    );
    assert_eq!(
        scripted(verify, vec![says("true"), says("false")]).0,
        message("The target NixOS configuration's Nix system is different than your host's system")
    );
    assert_eq!(
        scripted(verify, vec![says("true"), says("")]).0,
        message("Invalid result: ''\n```\n\n```")
    );
    assert_eq!(
        scripted(verify, vec![says("true"), breaks()]).0,
        message("The `nix-instantiate` command to determine the NixOS configuration's hostPlatform failed\n```\nbroken\n```")
    );
}

#[test]
fn the_target_drive_is_a_block_device_by_its_real_path() {
    let report = |real_path: Option<&str>, exists: bool, is_block_device: Result<bool, String>| {
        Ok(DriveReport {
            real_path: real_path.map(|path| path.to_string()),
            displayed_path: real_path.unwrap_or("/dev/\u{fffd}").to_string(),
            exists,
            is_block_device,
        })
    };
    assert_eq!(judge_drive("/dev/sda", &report(Some("/dev/sda"), true, Ok(true))), Ok(()));
    assert_eq!(
        judge_drive("/dev/disk/x", &report(Some("/dev/sda"), true, Ok(true))),
        Err("The real path of the target drive is '/dev/sda', not '/dev/disk/x'".to_string())
    );
    assert_eq!(
        judge_drive("/dev/x", &report(None, true, Ok(true))),
        Err("Could not convert the value of `PathBuf` type from '/dev/\u{fffd}' to the `&str` type".to_string())
    );
    assert_eq!(
        judge_drive("/etc", &report(Some("/etc"), true, Ok(false))),
        Err("The target drive is not a block device".to_string())
    );
    assert_eq!(
        judge_drive("/etc", &report(Some("/etc"), true, Err("gone".to_string()))),
        Err("Could not determine the metadata for target drive\n```\ngone\n```".to_string())
    );
    assert_eq!(
        judge_drive("/etc", &report(Some("/etc"), false, Ok(true))),
        Err("The target drive is not even a valid path".to_string())
    );
    assert_eq!(
        judge_drive("/nowhere", &Err("not found".to_string())),
        Err("Could not canonicalize '/nowhere'\n```\nnot found\n```".to_string())
    );
    let verify = |journal: &mut Journal<'_>| verify_target_drive("/dev/sda", journal);
    assert_eq!(
        scripted(verify, vec![Answer::Drive(report(Some("/dev/sda"), true, Ok(true)))]),
        (Ok(()), texts(&["InspectDrive(\"/dev/sda\")"]))
    );
    assert_eq!(
        scripted(verify, vec![Answer::Drive(Err("no".to_string()))]).0,
        message("Could not canonicalize '/dev/sda'\n```\nno\n```")
    );
}

#[test]
fn the_first_entry_of_a_drive_is_taken() {
    let ids = || {
        vec![
            id("/dev/disk/by-id/broken", None),
            id("/dev/disk/by-id/b", Some("/dev/sdb")),
            id("/dev/disk/by-id/a", Some("/dev/sda")),
            id("/dev/disk/by-id/c", Some("/dev/sda")),
        ]
    };
    assert_eq!(
        find_id_of_device(&ids(), "/dev/sda"),
        Some("/dev/disk/by-id/a".to_string())
    );
    assert_eq!(find_id_of_device(&ids(), "/dev//sdb/"), Some("/dev/disk/by-id/b".to_string()));
    assert_eq!(find_id_of_device(&ids(), "/dev/sdc"), None);
    let get = |journal: &mut Journal<'_>| get_target_drive_by_id("/dev/sda", journal);
    assert_eq!(
        scripted(get, vec![Answer::DiskIds(Ok(ids()))]),
        (Ok("/dev/disk/by-id/a".to_string()), texts(&["ListDiskIds"]))
    );
    assert_eq!(
        scripted(get, vec![Answer::DiskIds(Ok(Vec::new()))]).0,
        message("Could not determine the by-id path of the target drive")
    );
    assert_eq!(scripted(get, vec![Answer::DiskIds(Err("gone".to_string()))]).0, io("gone"));
}

#[test]
fn partitions_are_looked_up_in_the_configuration() {
    let uuid = |journal: &mut Journal<'_>| {
        evaluate_partition_uuid("/f", "tfg", &NixOSFileSystemMountPath::Efi, journal)
    };
    assert_eq!(
        scripted(uuid, vec![says("/dev/disk/by-uuid/AB-CD\n")]),
        (
            Ok("AB-CD".to_string()),
            texts(&["nix-instantiate --option extra-experimental-features flakes --eval --raw --expr (builtins.getFlake \"/f\").outputs.nixosConfigurations.tfg.config.fileSystems.\"/boot\".device"])
        )
    );
    assert_eq!(
        scripted(uuid, vec![says(" ")]).0,
        message("Could not determine the device path for the EFI partition")
    );
    assert_eq!(
        scripted(uuid, vec![breaks()]).0,
        message("The `nix-instantiate` command to get the EFI partition device failed\n```\nbroken\n```")
    );
    let options = |journal: &mut Journal<'_>| {
        evaluate_partition_mount_options("/f", "tfg", &NixOSFileSystemMountPath::Root, journal)
    };
    let (end, asked) = scripted(options, vec![says("noatime,compress=zstd")]);
    assert_eq!(end, Ok("noatime,compress=zstd".to_string()));
    assert_eq!(asked.len(), 1);
    assert!(asked[0].ends_with("--eval --raw --expr let
            startsWith = stringPrefix: stringToMatch: builtins.substring 0 (builtins.stringLength stringPrefix) stringToMatch == stringPrefix;
            fsOptions = (builtins.getFlake \"/f\").outputs.nixosConfigurations.tfg.config.fileSystems.\"/\".options;
            filteredFsOptions = builtins.filter (fsOption: !(startsWith \"subvol=\" fsOption)) fsOptions;
            in builtins.concatStringsSep \",\" filteredFsOptions"));
    assert_eq!(
        scripted(options, vec![says("")]).0,
        message("Could not determine the mount options for the Root partition")
    );
    assert_eq!(
        scripted(options, vec![breaks()]).0,
        message("The `nix-instantiate` command to get the Root partition's mount options failed\n```\nbroken\n```")
    );
}

#[test]
fn the_root_file_system_is_looked_up() {
    let evaluate = |journal: &mut Journal<'_>| evaluate_root_part_fs_type("/f", "tfg", journal);
    let (end, asked) = scripted(evaluate, vec![says("btrfs")]);
    assert!(end == Ok(SupportedFileSystems::Btrfs));
    assert!(asked[0].ends_with(
        "--raw --expr (builtins.getFlake \"/f\").outputs.nixosConfigurations.tfg.config.fileSystems.\"/\".fsType"
    ));
    assert!(scripted(evaluate, vec![says("zfs")]).0 == Ok(SupportedFileSystems::Zfs));
    assert!(
        scripted(evaluate, vec![says("ext4")]).0
            == message("The filesystem 'ext4' is unsupported")
    );
    assert!(
        scripted(evaluate, vec![breaks()]).0
            == message("The `nix-instantiate` command to get the Root partition's filesystem failed\n```\nbroken\n```")
    );
    for file_system in [SupportedFileSystems::Btrfs, SupportedFileSystems::Zfs] {
        assert!(find_file_system(&file_system.nix_name()) == Ok(file_system));
    }
}

#[test]
fn the_mount_paths_are_looked_up_and_sorted() {
    assert_eq!(
        read_mount_paths("/var/log,/var,/home,/"),
        texts(&["/", "/home", "/var", "/var/log"])
    );
    let evaluate = |journal: &mut Journal<'_>| {
        evaluate_non_efi_mount_paths("/f", "tfg", &SupportedFileSystems::Btrfs, journal)
    };
    let (end, asked) = scripted(evaluate, vec![says("/tmp,/\n")]);
    assert_eq!(end, Ok(texts(&["/", "/tmp"])));
    assert!(asked[0].ends_with("--raw --expr let
            config = (builtins.getFlake \"/f\").outputs.nixosConfigurations.tfg.config;
            filteredFileSystems = builtins.filter (fs: config.fileSystems.${fs}.fsType == \"btrfs\") (builtins.attrNames config.fileSystems);
            in builtins.concatStringsSep \",\" filteredFileSystems"));
    assert_eq!(
        scripted(evaluate, vec![says("")]).0,
        message("Could not determine the non-EFI partitions")
    );
    assert_eq!(
        scripted(evaluate, vec![breaks()]).0,
        message("The `nix-instantiate` command to get the non-EFI mount paths failed\n```\nbroken\n```")
    );
}

#[test]
fn the_system_is_looked_up() {
    let derivation = |journal: &mut Journal<'_>| {
        evaluate_nixos_system_derivation_path("local:///", "/f", "tfg", journal)
    };
    assert_eq!(
        scripted(derivation, vec![says("/nix/store/d.drv\n")]),
        (
            Ok("/nix/store/d.drv".to_string()),
            texts(&["nix-instantiate --option extra-experimental-features flakes --eval-store local:/// --expr (builtins.getFlake \"/f\").outputs.nixosConfigurations.tfg.config.system.build.toplevel"])
        )
    );
    assert_eq!(
        scripted(derivation, vec![says("")]).0,
        message("Could not determine the derivation path for your NixOS configuration")
    );
    assert_eq!(
        scripted(derivation, vec![breaks()]).0,
        message("The `nix-instantiate` command to get the NixOS configuration's derivation path, failed\n```\nbroken\n```")
    );
    let out = |journal: &mut Journal<'_>| evaluate_nixos_system_out_path("/d.drv", journal);
    assert_eq!(
        scripted(out, vec![says("/nix/store/s\r\n/nix/store/t\n")]),
        (Ok("/nix/store/s".to_string()), texts(&["nix-store --query --outputs /d.drv"]))
    );
    assert_eq!(
        scripted(out, vec![process(0, "", "why")]).0,
        message("Could not determine the output path of derivation '/d.drv'\n```\nwhy\n```")
    );
    assert_eq!(
        scripted(out, vec![breaks()]).0,
        message("Could not determine the output path of derivation '/d.drv'\n```\nbroken\n```")
    );
    assert_eq!(first_line("a\nb"), "a");
}

#[test]
fn the_device_files_are_waited_for() {
    let settle = |journal: &mut Journal<'_>| settle_udev("/dev/sda", journal);
    assert_eq!(
        scripted(settle, vec![done(), done()]),
        (Ok(()), texts(&["partprobe /dev/sda", "udevadm settle"]))
    );
    assert_eq!(
        scripted(settle, vec![breaks()]).0,
        message("The `partprobe` command failed\n```\nbroken\n```")
    );
    assert_eq!(
        scripted(settle, vec![done(), breaks()]).0,
        message("The `udevadm` command failed\n```\nbroken\n```")
    );
}

#[test]
fn everything_of_the_drive_is_unmounted_from_the_leaves() {
    let mounts = "/dev/sda2 /mnt btrfs rw 0 0\n/dev/sdb1 /home ext4 rw 0 0\n/dev/sda1 /mnt/boot vfat rw 0 0\n/dev/sda\n/dev/sda2 /mnt/var/log btrfs rw 0 0\n";
    assert_eq!(
        find_mount_points(mounts, "/dev/sda"),
        texts(&["/mnt", "/mnt/boot", "/mnt/var/log"])
    );
    let unmount = |journal: &mut Journal<'_>| unmount_everything("/dev/sda", journal);
    assert_eq!(
        scripted(unmount, vec![Answer::Mounts(Ok(mounts.to_string())), done()]),
        (Ok(()), texts(&["ReadMounts", "umount --force /mnt/var/log /mnt/boot /mnt"]))
    );
    assert_eq!(
        scripted(unmount, vec![Answer::Mounts(Ok("/dev/sdb1 / ext4".to_string()))]),
        (Ok(()), texts(&["ReadMounts"]))
    );
    assert_eq!(scripted(unmount, vec![Answer::Mounts(Err("no".to_string()))]).0, io("no"));
    assert_eq!(
        scripted(
            unmount,
            vec![Answer::Mounts(Ok("/dev/sda1 /a\n/dev/sda2 /a/\"b".to_string())), breaks()]
        )
        .0,
        message("Could not unmount all paths, some of these may be dangling [\"/a/\\\"b\", \"/a\"]\n```\nbroken\n```")
    );
}

#[test]
fn a_drive_has_two_partitions() {
    let ids = |names: &[&str]| -> Vec<DiskId> {
        names.iter().map(|name| id(&format!("/dev/disk/by-id/{name}"), None)).collect()
    };
    assert_eq!(
        find_partitions(
            &ids(&["ata-X", "ata-X-part2", "ata-Y-part1", "ata-X-part10", "ata-X-partx"]),
            "/dev/disk/by-id/ata-X-part"
        ),
        vec![
            (2, "/dev/disk/by-id/ata-X-part2".to_string()),
            (10, "/dev/disk/by-id/ata-X-part10".to_string()),
        ]
    );
    let pair = |a: (u8, &str), b: (u8, &str)| vec![(a.0, a.1.to_string()), (b.0, b.1.to_string())];
    assert_eq!(order_partitions(pair((2, "b"), (1, "a"))), Ok(pair((1, "a"), (2, "b"))));
    assert_eq!(order_partitions(pair((1, "b"), (2, "a"))), Ok(pair((1, "b"), (2, "a"))));
    assert_eq!(order_partitions(pair((1, "b"), (1, "a"))), Ok(pair((1, "a"), (1, "b"))));
    assert_eq!(
        order_partitions(vec![(3, "\"".to_string())]),
        Err("The target drive should contain only 2 partitions, found: [(3, \"\\\"\")]".to_string())
    );
    let discover = |journal: &mut Journal<'_>| discover_target_drive_partitions(&config(), journal);
    assert_eq!(
        scripted(discover, vec![Answer::DiskIds(Ok(ids(&["ata-X-part2", "ata-X-part1"])))]),
        (
            Ok(pair((1, "/dev/disk/by-id/ata-X-part1"), (2, "/dev/disk/by-id/ata-X-part2"))),
            texts(&["ListDiskIds"])
        )
    );
    assert_eq!(
        scripted(discover, vec![Answer::DiskIds(Ok(Vec::new()))]).0,
        message("The target drive should contain only 2 partitions, found: []")
    );
    assert_eq!(scripted(discover, vec![Answer::DiskIds(Err("no".to_string()))]).0, io("no"));
}

#[test]
fn the_drive_is_partitioned_where_that_is_wanted() {
    let ids = || {
        Answer::DiskIds(Ok(vec![
            id("/dev/disk/by-id/ata-X-part1", None),
            id("/dev/disk/by-id/ata-X-part2", None),
        ]))
    };
    let partition = |journal: &mut Journal<'_>| partition_target_drive(&config(), journal);
    let (end, asked) = scripted(partition, vec![done(), done(), done(), done(), ids()]);
    assert_eq!(end.map(|partitions| partitions.len()), Ok(2));
    assert_eq!(
        asked,
        texts(&[
            "wipefs --all --force /dev/disk/by-id/ata-X",
            "parted --align optimal --fix --script /dev/disk/by-id/ata-X mklabel gpt mkpart primary fat32 64MiB 1088MiB set 1 esp on mkpart primary ext4 1088MiB 100%",
            "partprobe /dev/sda",
            "udevadm settle",
            "ListDiskIds",
        ])
    );
    assert_eq!(
        scripted(partition, vec![breaks()]).0,
        message("Could not wipe the target disk\n```\nbroken\n```")
    );
    assert_eq!(
        scripted(partition, vec![done(), breaks()]).0,
        message("Disk partitioning failed\n```\nbroken\n```")
    );
    let keep = |journal: &mut Journal<'_>| {
        partition_target_drive(&NixOSInstallerConfig { partition_drive: false, ..config() }, journal)
    };
    let (_, asked) = scripted(keep, vec![done(), done(), ids()]);
    assert_eq!(asked, texts(&["partprobe /dev/sda", "udevadm settle", "ListDiskIds"]));
}

#[test]
fn partitions_are_formatted_where_that_is_wanted() {
    let efi = |journal: &mut Journal<'_>| make_efi_filesystem(&config(), "/p1", journal);
    assert_eq!(
        scripted(efi, vec![done(), done(), done()]),
        (
            Ok(()),
            texts(&[
                "mkfs.fat -F 32 -n AB12CD34 -i AB12CD34 /p1",
                "partprobe /dev/sda",
                "udevadm settle",
            ])
        )
    );
    assert_eq!(
        scripted(efi, vec![breaks()]).0,
        message("The `mkfs` command to create an EFI filesystem failed\n```\nbroken\n```")
    );
    let root = |journal: &mut Journal<'_>| make_root_filesystem(&config(), "/p2", journal);
    assert_eq!(
        scripted(root, vec![done(), done(), done()]),
        (
            Ok(()),
            texts(&[
                "mkfs.btrfs --force --checksum sha256 --metadata dup --features squota --label tfg-rootfs --uuid 1-2-3 /p2",
                "partprobe /dev/sda",
                "udevadm settle",
            ])
        )
    );
    assert_eq!(
        scripted(root, vec![breaks()]).0,
        message("The `mkfs` command to create a filesystem for rootfs failed\n```\nbroken\n```")
    );
    let keep = || NixOSInstallerConfig {
        format_partitions: false,
        root_part_fs_type: SupportedFileSystems::Zfs,
        ..config()
    };
    let keep_efi = |journal: &mut Journal<'_>| make_efi_filesystem(&keep(), "/p1", journal);
    assert_eq!(scripted(keep_efi, vec![]), (Ok(()), texts(&[])));
    let keep_root = |journal: &mut Journal<'_>| make_root_filesystem(&keep(), "/p2", journal);
    assert_eq!(scripted(keep_root, vec![]), (Ok(()), texts(&[])));
}

#[test]
fn subvolumes_are_created_once() {
    let make = |journal: &mut Journal<'_>| make_btrfs_subvolume("/mnt/@", journal);
    assert_eq!(
        scripted(make, vec![Answer::Exists(true)]),
        (Ok(()), texts(&["CheckPath(\"/mnt/@\")"]))
    );
    assert_eq!(
        scripted(make, vec![Answer::Exists(false), done()]),
        (Ok(()), texts(&["CheckPath(\"/mnt/@\")", "btrfs subvolume create /mnt/@"]))
    );
    assert_eq!(
        scripted(make, vec![Answer::Exists(false), breaks()]).0,
        message("Could not create the btrfs subvolume\n```\nbroken\n```")
    );
}

#[test]
fn subvolumes_get_snapshots_and_limits() {
    let snapshot = |journal: &mut Journal<'_>| create_fresh_snapshot("@", "/mnt/@", journal);
    assert_eq!(
        scripted(snapshot, vec![done()]),
        (Ok(()), texts(&["btrfs subvolume snapshot -r /mnt/@ /mnt/@+fresh"]))
    );
    assert_eq!(
        scripted(snapshot, vec![breaks()]).0,
        message("Could not create a fresh snapshot for subvolume '@'\n```\nbroken\n```")
    );
    let limit = |journal: &mut Journal<'_>| set_subvolume_limit("16G", "/mnt/@", journal);
    assert_eq!(
        scripted(limit, vec![done()]),
        (Ok(()), texts(&["btrfs qgroup limit 16G /mnt/@"]))
    );
    assert_eq!(
        scripted(limit, vec![breaks()]).0,
        message("Could not enforce subvolume limit\n```\nbroken\n```")
    );
    assert_eq!(find_size_limit("/"), Some("16G".to_string()));
    assert_eq!(find_size_limit("/home"), Some("128G".to_string()));
    assert_eq!(find_size_limit("/var"), Some("8G".to_string()));
    assert_eq!(find_size_limit("/tmp"), None);
}

#[test]
fn the_efi_partition_is_mounted_at_boot() {
    let mount = |journal: &mut Journal<'_>| mount_efi_filesystem(&config(), journal);
    assert_eq!(
        scripted(mount, vec![Answer::Created(Ok(())), done()]),
        (
            Ok(()),
            texts(&[
                "CreateDirectory(\"/mnt/boot\")",
                "mount --options umask=0077 /dev/disk/by-uuid/AB12-CD34 /mnt/boot",
            ])
        )
    );
}

#[test]
fn the_flake_is_brought_to_the_drive() {
    let bootstrap = |journal: &mut Journal<'_>| bootstrap_flake_store_path(&config(), journal);
    assert_eq!(
        scripted(bootstrap, vec![done(), Answer::Status(Ok(Some(0)))]),
        (
            Ok(()),
            texts(&[
                "nix --extra-experimental-features nix-command --extra-experimental-features flakes copy --to /mnt /nix/store/f-source",
                "attached: nix --extra-experimental-features nix-command --extra-experimental-features flakes --store /mnt flake archive /mnt/nix/store/f-source",
            ])
        )
    );
    assert_eq!(
        scripted(bootstrap, vec![breaks()]).0,
        message("Could not bootstrap the flake store path\n```\nbroken\n```")
    );
    assert_eq!(
        scripted(bootstrap, vec![done(), Answer::Status(Ok(None))]).0,
        message("The `nix flake archive` command to bootstrap NixOS failed")
    );
    assert_eq!(
        scripted(bootstrap, vec![done(), Answer::Status(Err(": gone".to_string()))]).0,
        message("The `nix flake archive` command to bootstrap NixOS failed: gone")
    );
}

#[test]
fn the_system_is_built_or_substituted() {
    let build = |journal: &mut Journal<'_>| bootstrap_nixos(&config(), journal);
    assert_eq!(
        scripted(build, vec![Answer::Status(Ok(Some(0)))]),
        (
            Ok(()),
            texts(&["attached: nix --extra-experimental-features nix-command --extra-experimental-features flakes build --store /mnt --keep-going --cores 1 --max-jobs 1 /nix/store/d.drv^*"])
        )
    );
    let substitute = |journal: &mut Journal<'_>| {
        bootstrap_nixos(&NixOSInstallerConfig { substitute_only: true, ..config() }, journal)
    };
    assert_eq!(
        scripted(substitute, vec![Answer::Status(Ok(Some(1)))]),
        (
            message("The `nix build` command to bootstrap NixOS failed"),
            texts(&["attached: nix --extra-experimental-features nix-command --extra-experimental-features flakes build --store /mnt --keep-going --cores 1 --max-jobs 0 /nix/store/s"])
        )
    );
    assert_eq!(
        scripted(build, vec![Answer::Status(Err("gone".to_string()))]).0,
        message("The `nix build` command to bootstrap NixOS failedgone")
    );
}

#[test]
fn the_system_is_installed() {
    let install = |journal: &mut Journal<'_>| do_nixos_install(&config(), journal);
    assert_eq!(
        scripted(install, vec![done()]),
        (
            Ok(()),
            texts(&["nixos-install --show-trace --max-jobs 1 --cores 1 --no-root-password --no-channel-copy --root /mnt --store-path /nix/store/s"])
        )
    );
    assert_eq!(
        scripted(install, vec![breaks()]).0,
        message("Could not Install NixOS\n```\nbroken\n```")
    );
}

#[test]
fn another_derivation_stops_the_installation() {
    let install = |journal: &mut Journal<'_>| install_nixos(&config(), journal);
    let (end, asked) = scripted(
        install,
        vec![done(), Answer::Status(Ok(Some(0))), says("/nix/store/e.drv")],
    );
    assert_eq!(
        end,
        message("The newly computed NixOS system derivation path '/nix/store/e.drv' is not the same as the old one '/nix/store/d.drv'")
    );
    assert_eq!(asked.len(), 3);
    assert!(asked[2].contains("--eval-store /mnt --expr"));
}

#[test]
fn substituting_skips_the_flake() {
    let install = |journal: &mut Journal<'_>| {
        install_nixos(&NixOSInstallerConfig { substitute_only: true, ..config() }, journal)
    };
    let (end, asked) = scripted(
        install,
        vec![
            Answer::Status(Ok(Some(0))),
            done(),
            Answer::Mounts(Ok("/dev/sda1 /mnt/boot\n/dev/sda2 /mnt".to_string())),
            done(),
        ],
    );
    assert_eq!(end, Ok(()));
    assert_eq!(asked.len(), 4);
    assert!(asked[0].contains("--max-jobs 0"));
    assert!(asked[1].starts_with("nixos-install "));
    assert_eq!(asked[3], "umount --force /mnt/boot /mnt");
}

#[test]
fn lines_tell_the_choice() {
    assert_eq!(read_choice("y\n"), Choice::GoOn);
    assert_eq!(read_choice(" Y "), Choice::GoOn);
    assert_eq!(read_choice("n\n"), Choice::Abort);
    assert_eq!(read_choice("N"), Choice::Abort);
    assert_eq!(read_choice("yes\n"), Choice::Unclear);
    assert_eq!(read_choice(""), Choice::Unclear);
}

#[test]
fn the_user_is_asked_twice_at_most() {
    let line = |text: &str| Answer::Line(Ok(text.to_string()));
    let confirm = |journal: &mut Journal<'_>| confirm_installation(2, journal);
    assert_eq!(scripted(confirm, vec![line("y\n")]), (Ok(()), texts(&["Confirm"])));
    assert_eq!(
        scripted(confirm, vec![line("what?\n"), line("Y\n")]),
        (Ok(()), texts(&["Confirm", "Confirm"]))
    );
    assert_eq!(
        scripted(confirm, vec![line("n\n")]).0,
        message("Aborted due to user choice")
    );
    assert_eq!(
        scripted(confirm, vec![line("\n"), line("N\n")]).0,
        message("Aborted due to user choice")
    );
    assert_eq!(
        scripted(confirm, vec![line("\n"), line("\n")]),
        (
            message("You have exhausted the number of interactions allowed"),
            texts(&["Confirm", "Confirm"])
        )
    );
    assert_eq!(
        scripted(confirm, vec![Answer::Line(Err("closed".to_string()))]).0,
        io("closed")
    );
}
