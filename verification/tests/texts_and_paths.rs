//! Texts, paths and their order.

use nixos_install_tfg::command_helpers::{
    create_nix3_command, create_nix_instantiate_command, did_command_exit_successfully,
    formatted_error, formatted_process_stderr, get_command_argv, process_stdout,
    stderr_indicates_ebusy, text_says_busy, CommandLine, ProcessOutput,
};
use nixos_install_tfg::file_systems::{NixOSFileSystemMountPath, SupportedFileSystems};
use nixos_install_tfg::paths::{make_btrfs_subvolume_string, same_path, sort_paths};
use nixos_install_tfg::text::{
    after_last, contains, is_text_le, lines, parse_u8, same_text, split, starts_with, strip_prefix,
    trim, without_char,
};

fn texts(items: &[&str]) -> Vec<String> {
    items.iter().map(|item| item.to_string()).collect()
}

fn output(code: Option<i32>, stdout: &[u8], stderr: &[u8]) -> ProcessOutput {
    ProcessOutput { code, stdout: stdout.to_vec(), stderr: stderr.to_vec() }
}

#[test]
fn trimming_takes_white_space_from_both_ends() {
    assert_eq!(trim(" \t/dev/sda x\n\r\n"), "/dev/sda x");
    assert_eq!(trim("\u{a0}é\u{3000}"), "é");
    assert_eq!(trim(" \n "), "");
    assert_eq!(trim(""), "");
}

#[test]
fn exactly_the_white_space_of_unicode_is_trimmed() {
    let mut trimmed: Vec<char> = Vec::new();
    for c in '\0'..=char::MAX {
        if trim(&c.to_string()).is_empty() {
            trimmed.push(c);
        }
    }
    let mut listed: Vec<char> = ('\t'..='\r').collect();
    listed.extend([' ', '\u{85}', '\u{a0}', '\u{1680}']);
    listed.extend('\u{2000}'..='\u{200a}');
    listed.extend(['\u{2028}', '\u{2029}', '\u{202f}', '\u{205f}', '\u{3000}']);
    assert_eq!(trimmed, listed);
}

#[test]
fn splitting_keeps_empty_parts() {
    assert_eq!(split("/,/home,", ','), texts(&["/", "/home", ""]));
    assert_eq!(split("", ','), texts(&[""]));
    assert_eq!(split("a b", ' ').join(" "), "a b");
}

#[test]
fn the_part_behind_the_last_separator_is_taken() {
    assert_eq!(after_last("/dev/disk/by-uuid/AB-CD", '/'), "AB-CD");
    assert_eq!(after_last("AB-CD", '/'), "AB-CD");
    assert_eq!(after_last("/dev/", '/'), "");
}

#[test]
fn lines_end_with_a_line_feed_or_both_characters() {
    assert_eq!(lines("a\nb\r\n\nc"), texts(&["a", "b", "", "c"]));
    assert_eq!(lines("a\n"), texts(&["a"]));
    assert_eq!(lines("a\r"), texts(&["a\r"]));
    assert_eq!(lines(""), texts(&[]));
}

#[test]
fn parts_and_prefixes_of_texts() {
    assert!(contains("the target is busy now", "target is busy"));
    assert!(contains("x", ""));
    assert!(!contains("busy", "busyy"));
    assert!(starts_with("/dev/sda1 /boot", "/dev/sda"));
    assert!(!starts_with("/dev", "/dev/sda"));
    assert_eq!(strip_prefix("disk-part1", "disk-part"), Some("1".to_string()));
    assert_eq!(strip_prefix("disk", "disk-part"), None);
    assert_eq!(without_char("AB-CD-", '-'), "ABCD");
    assert!(same_text("é", "é"));
    assert!(!same_text("e", "é"));
}

#[test]
fn bytes_are_read_as_decimal_numbers() {
    assert_eq!(parse_u8("0"), Some(0));
    assert_eq!(parse_u8("255"), Some(255));
    assert_eq!(parse_u8("+7"), Some(7));
    assert_eq!(parse_u8("007"), Some(7));
    assert_eq!(parse_u8("256"), None);
    assert_eq!(parse_u8(""), None);
    assert_eq!(parse_u8("+"), None);
    assert_eq!(parse_u8("-0"), None);
    assert_eq!(parse_u8("1a"), None);
    for text in ["0", "9", "10", "255", "256", "1000", "+1", "++1", " 1", "1 ", "٣"] {
        assert_eq!(parse_u8(text), text.parse::<u8>().ok());
    }
}

#[test]
fn texts_are_ordered_as_strings_are() {
    let all = ["", "/", "/a", "/b", "/a/b", "/é", "/z", "/𝄞", "/\u{ffff}", "A", "a"];
    for a in all {
        for b in all {
            assert_eq!(is_text_le(a, b), a <= b);
        }
    }
}

#[test]
fn paths_are_sorted_from_the_root_to_the_leaves() {
    let mut paths = texts(&["/var/log", "/tmp", "/nix", "/", "/home", "/var"]);
    sort_paths(&mut paths, false);
    assert_eq!(paths, texts(&["/", "/home", "/nix", "/tmp", "/var", "/var/log"]));
    sort_paths(&mut paths, false);
    assert_eq!(paths, texts(&["/", "/home", "/nix", "/tmp", "/var", "/var/log"]));
}

#[test]
fn paths_are_sorted_from_the_leaves_to_the_root() {
    let mut paths = texts(&["/mnt", "/mnt/boot", "/", "/mnt/var/log", "/mnt"]);
    sort_paths(&mut paths, true);
    assert_eq!(paths, texts(&["/mnt/var/log", "/mnt/boot", "/mnt", "/mnt", "/"]));
    let mut none: Vec<String> = Vec::new();
    sort_paths(&mut none, true);
    assert_eq!(none, texts(&[]));
}

#[test]
fn sorting_agrees_with_a_sort_by_depth_and_text() {
    let mut paths = texts(&["b", "/b/a", "/a", "a/b/c", "", "/", "//", "/a/b", "/a-b", "/b/a"]);
    let mut forward = paths.clone();
    forward.sort_by_key(|path| (path.split('/').count(), path.clone()));
    sort_paths(&mut paths, false);
    assert_eq!(paths, forward);
    forward.reverse();
    sort_paths(&mut paths, true);
    assert_eq!(paths, forward);
}

#[test]
fn subvolumes_are_named_after_their_mount_paths() {
    assert_eq!(make_btrfs_subvolume_string("/"), "@");
    assert_eq!(make_btrfs_subvolume_string("/home"), "@home");
    assert_eq!(make_btrfs_subvolume_string("/var/lib/a"), "@var-lib-a");
    assert_eq!(make_btrfs_subvolume_string("a/b/c"), "a@b-c");
    assert_eq!(make_btrfs_subvolume_string(""), "");
}

#[test]
fn paths_are_compared_by_their_parts() {
    for (a, b) in [
        ("/dev/sda", "/dev/sda"),
        ("/dev//sda/", "/dev/sda"),
        ("/dev/./sda", "/dev/sda"),
        ("./a", "a"),
        ("./a", "./a/"),
        ("", "."),
        ("", ""),
        ("/", "//"),
        ("dev", "/dev"),
        ("/dev/../sda", "/sda"),
        ("/dev/sda", "/dev/sdb"),
        (".", "./."),
    ] {
        assert_eq!(same_path(a, b), std::path::Path::new(a) == std::path::Path::new(b), "{a} {b}");
    }
}

#[test]
fn success_is_the_exit_code_zero() {
    assert!(did_command_exit_successfully(&Ok(&output(Some(0), b"", b"warning"))));
    assert!(!did_command_exit_successfully(&Ok(&output(Some(1), b"", b""))));
    assert!(!did_command_exit_successfully(&Ok(&output(None, b"", b""))));
    assert!(!did_command_exit_successfully(&Err("No such file".to_string())));
}

#[test]
fn nix_commands_start_with_their_features() {
    assert_eq!(
        get_command_argv(&create_nix3_command().arg("copy")),
        texts(&[
            "nix",
            "--extra-experimental-features",
            "nix-command",
            "--extra-experimental-features",
            "flakes",
            "copy",
        ])
    );
    assert_eq!(
        get_command_argv(&create_nix_instantiate_command()),
        texts(&["nix-instantiate", "--option", "extra-experimental-features", "flakes"])
    );
    let command = CommandLine::new("udevadm").arg("settle");
    assert_eq!(command.copy(), command);
    assert_eq!(get_command_argv(&CommandLine::new("git")), texts(&["git"]));
}

#[test]
fn output_is_decoded_and_trimmed() {
    assert_eq!(process_stdout(&output(Some(0), b" true\n", b"")), "true");
    assert_eq!(process_stdout(&output(Some(0), b"a\xffb\n", b"")), "a\u{fffd}b");
    assert_eq!(formatted_process_stderr(&output(Some(1), b"", b"\nbad\xe9\n")), "\n```\nbad\u{fffd}\n```");
    assert_eq!(formatted_error("x"), "\n```\nx\n```");
}

#[test]
fn a_busy_device_is_recognised_in_any_case() {
    assert!(stderr_indicates_ebusy(b"mount: /mnt: Device or resource BUSY."));
    assert!(stderr_indicates_ebusy(b"EBUSY"));
    assert!(stderr_indicates_ebusy(b"umount: /mnt: Target is busy."));
    assert!(stderr_indicates_ebusy(b"/dev/sda1 already mounted or mount point is busy\xff"));
    assert!(stderr_indicates_ebusy(b"Resource temporarily unavailable"));
    let mixed = b"x TaRgEt Is BuSy y";
    assert!(stderr_indicates_ebusy(mixed));
    assert!(stderr_indicates_ebusy(&mixed.to_ascii_uppercase()));
    assert!(stderr_indicates_ebusy(&mixed.to_ascii_lowercase()));
    assert!(!stderr_indicates_ebusy(b"busy"));
    assert!(!stderr_indicates_ebusy(b""));
    assert!(text_says_busy("target is busy"));
    assert!(!text_says_busy("Target is busy"));
}

#[test]
fn file_systems_and_partitions_have_names() {
    assert_eq!(SupportedFileSystems::Btrfs.nix_name(), "btrfs");
    assert_eq!(SupportedFileSystems::Zfs.nix_name(), "zfs");
    assert_eq!(SupportedFileSystems::Btrfs.display_name(), "Btrfs");
    assert_eq!(SupportedFileSystems::Zfs.display_name(), "ZFS");
    assert_eq!(NixOSFileSystemMountPath::Efi.label(), "EFI");
    assert_eq!(NixOSFileSystemMountPath::Root.label(), "Root");
    assert_eq!(NixOSFileSystemMountPath::Efi.path(), "/boot");
    assert_eq!(NixOSFileSystemMountPath::Root.path(), "/");
}
