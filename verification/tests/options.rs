//! The command line.

use nixos_install_tfg::config::find_problems;
use nixos_install_tfg::options::{read_options, Options, UsageError};

fn texts(items: &[&str]) -> Vec<String> {
    items.iter().map(|item| item.to_string()).collect()
}

fn read(args: &[&str]) -> Result<Options, UsageError> {
    let mut argv = vec!["nixos-install-tfg".to_string()];
    argv.extend(texts(args));
    read_options(&argv)
}

fn defaults() -> Options {
    Options {
        hostname: None,
        canonical_target_drive: None,
        mount_path: "/mnt".to_string(),
        partition_drive: None,
        format_partitions: None,
        substitute_only: None,
        update_lockfile: false,
        flake_path: None,
        create_flake_store_path_gc_root: true,
    }
}

#[test]
fn nothing_on_the_command_line_means_the_defaults() {
    assert_eq!(read(&[]), Ok(defaults()));
    assert_eq!(read_options(&Vec::new()), Ok(defaults()));
    assert_eq!(read(&["--"]), Ok(defaults()));
}

#[test]
fn every_option_is_read() {
    assert_eq!(
        read(&[
            "--hostname",
            "tfg",
            "--target-drive=/dev/sda",
            "--flake-path",
            "/etc/nixos",
            "--mount-path=/target",
            "--update-lockfile",
            "--no-flake-store-path-gc-root",
            "--partition-drive",
            "--format-partitions",
            "--substitute-only",
        ]),
        Ok(Options {
            hostname: Some("tfg".to_string()),
            canonical_target_drive: Some("/dev/sda".to_string()),
            mount_path: "/target".to_string(),
            partition_drive: Some(true),
            format_partitions: Some(true),
            substitute_only: Some(true),
            update_lockfile: true,
            flake_path: Some("/etc/nixos".to_string()),
            create_flake_store_path_gc_root: false,
        })
    );
}

#[test]
fn the_last_of_several_options_decides() {
    assert_eq!(
        read(&[
            "--partition-drive",
            "--no-partition-drive",
            "--format-partitions",
            "--no-format-partitions",
            "--substitute-only",
            "--do-build",
            "--update-lockfile",
            "--no-update-lockfile",
            "--hostname=a",
            "--hostname=b",
        ]),
        Ok(Options {
            hostname: Some("b".to_string()),
            partition_drive: Some(false),
            format_partitions: Some(false),
            substitute_only: Some(false),
            ..defaults()
        })
    );
}

#[test]
fn values_are_taken_as_they_are() {
    assert_eq!(
        read(&["--hostname", "--partition-drive", "--mount-path", "--", "--flake-path=a=b"]),
        Ok(Options {
            hostname: Some("--partition-drive".to_string()),
            mount_path: "--".to_string(),
            flake_path: Some("a=b".to_string()),
            ..defaults()
        })
    );
    assert_eq!(
        read(&["--hostname="]),
        Ok(Options { hostname: Some(String::new()), ..defaults() })
    );
}

#[test]
fn a_double_dash_ends_the_options_unless_it_is_a_value() {
    assert_eq!(
        read(&["--hostname", "--", "--hostname", "b", "--do-build"]),
        Ok(Options {
            hostname: Some("b".to_string()),
            substitute_only: Some(false),
            ..defaults()
        })
    );
    assert_eq!(
        read(&["--do-build", "--"]),
        Ok(Options { substitute_only: Some(false), ..defaults() })
    );
    assert_eq!(
        read(&["--do-build", "--", "--hostname", "b"]),
        Err(UsageError::UnexpectedArgument("--hostname".to_string()))
    );
}

#[test]
fn an_option_needs_its_value() {
    assert_eq!(
        read(&["--do-build", "--hostname"]),
        Err(UsageError::MissingValue(Some("--hostname".to_string())))
    );
}

#[test]
fn unknown_options_are_refused() {
    assert_eq!(
        read(&["--host", "tfg"]),
        Err(UsageError::UnexpectedOption("--host".to_string()))
    );
    assert_eq!(read(&["-h"]), Err(UsageError::UnexpectedOption("-h".to_string())));
    assert_eq!(read(&["-=x"]), Err(UsageError::UnexpectedOption("-=".to_string())));
    assert_eq!(read(&["--=x"]), Err(UsageError::UnexpectedOption("--".to_string())));
}

#[test]
fn arguments_without_an_option_are_refused() {
    assert_eq!(
        read(&["/dev/sda", "--host"]),
        Err(UsageError::UnexpectedArgument("/dev/sda".to_string()))
    );
    assert_eq!(read(&["-"]), Err(UsageError::UnexpectedArgument("-".to_string())));
    assert_eq!(
        read(&["--", "--do-build"]),
        Err(UsageError::UnexpectedArgument("--do-build".to_string()))
    );
}

#[test]
fn switches_take_no_value() {
    assert_eq!(
        read(&["--do-build=yes"]),
        Err(UsageError::UnexpectedValue {
            option: "--do-build".to_string(),
            value: "yes".to_string(),
        })
    );
}

#[test]
fn everything_mandatory_is_asked_for() {
    assert_eq!(
        find_problems(&defaults()),
        texts(&[
            "`--hostname` must be specified",
            "`--target-drive` must be specified",
            "`--format-partitions` or `--no-format-partitions` must be specified",
            "`--partition-drive` or `--no-partition-drive` must be specified",
            "`--substitute-only` or `--do-build` must be specified",
            "`--flake-path` must be specified",
        ])
    );
}

#[test]
fn a_partitioned_drive_has_to_be_formatted() {
    let complete = |partition_drive: bool, format_partitions: Option<bool>| Options {
        hostname: Some("tfg".to_string()),
        canonical_target_drive: Some("/dev/sda".to_string()),
        partition_drive: Some(partition_drive),
        format_partitions,
        substitute_only: Some(false),
        flake_path: Some(".".to_string()),
        ..defaults()
    };
    assert_eq!(find_problems(&complete(true, Some(true))), texts(&[]));
    assert_eq!(find_problems(&complete(false, Some(true))), texts(&[]));
    assert_eq!(find_problems(&complete(false, Some(false))), texts(&[]));
    assert_eq!(
        find_problems(&complete(true, Some(false))),
        texts(&["`--no-format-partitions` and `--partition-drive` are mutually exclusive"])
    );
    assert_eq!(
        find_problems(&complete(true, None)),
        texts(&[
            "`--format-partitions` or `--no-format-partitions` must be specified",
            "`--no-format-partitions` and `--partition-drive` are mutually exclusive",
        ])
    );
}
