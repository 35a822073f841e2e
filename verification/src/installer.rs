//! How NixOS comes onto the mounted target drive.

use vstd::prelude::*;

use crate::command_helpers::{create_nix3_command, perform, CommandLine};
use crate::command_helpers::{command, nix3_args, performed, CommandView};
use crate::config::NixOSInstallerConfig;
use crate::config::ConfigView;
use crate::disk_helpers::unmount_everything;
use crate::disk_helpers::all_unmounted;
use crate::evaluation::evaluate_nixos_system_derivation_path;
use crate::evaluation::derivation_path_evaluated;
use crate::journal::{give_up, Journal, Stop};
use crate::journal::{comes_to, failed, status_read, JournalView, Outcome};
use crate::text::same_text;

verus! {

/// What comes of running a command that writes to the terminal, where `complaint` is said of its
/// failure.
pub open spec fn performed_attached(
    command: CommandView,
    complaint: Seq<char>,
    journal: JournalView,
) -> Outcome<()> {
    match status_read(command, journal) {
        Err(stop) => Err(stop),
        Ok((Err(error), _)) => failed(complaint + error@),
        Ok((Ok(code), rest)) => if code == Some(0i32) {
            Ok(((), rest))
        } else {
            failed(complaint)
        },
    }
}

/// Runs a command that writes to the terminal, where `complaint` is said of its failure.
fn perform_attached<'a>(command: &CommandLine, complaint: &str, journal: &mut Journal<'a>) -> (r:
    Result<(), Stop>)
    requires
        old(journal).wf(),
    ensures
        final(journal).wf(),
        comes_to(
            r,
            old(journal)@,
            final(journal)@,
            performed_attached(command.deep_view(), complaint@, old(journal)@),
        ),
{
    match journal.status(command)? {
        Err(error) => {
            let mut text = complaint.to_string();
            text.append(error.as_str());
            Err(give_up(text))
        },
        Ok(Some(0)) => Ok(()),
        Ok(_) => Err(give_up(complaint.to_string())),
    }
}

/// `nix copy`, to bring the flake into the store below the mount path.
pub open spec fn copy_command(config: ConfigView) -> CommandView {
    command(
        "nix"@,
        nix3_args() + seq!["copy"@, "--to"@, config.mount_path, config.flake_store_path],
    )
}

/// `nix copy`, to bring the flake into the store below the mount path.
fn nix_copy(nixos_installer_config: &NixOSInstallerConfig) -> (r: CommandLine)
    ensures
        r.deep_view() == copy_command(nixos_installer_config.deep_view()),
{
    create_nix3_command().arg("copy").arg("--to").arg(
        nixos_installer_config.mount_path.as_str(),
    ).arg(nixos_installer_config.flake_store_path.as_str())
}

/// `nix flake archive`, to bring the inputs of the flake into the store below the mount path.
pub open spec fn archive_command(config: ConfigView) -> CommandView {
    command(
        "nix"@,
        nix3_args() + seq![
            "--store"@,
            config.mount_path,
            "flake"@,
            "archive"@,
            config.mount_path + config.flake_store_path,
        ],
    )
}

/// `nix flake archive`, to bring the inputs of the flake into the store below the mount path.
fn nix_flake_archive(nixos_installer_config: &NixOSInstallerConfig) -> (r: CommandLine)
    ensures
        r.deep_view() == archive_command(nixos_installer_config.deep_view()),
{
    let mut flake = nixos_installer_config.mount_path.clone();
    flake.append(nixos_installer_config.flake_store_path.as_str());
    create_nix3_command().arg("--store").arg(nixos_installer_config.mount_path.as_str()).arg(
        "flake",
    ).arg("archive").arg(flake.as_str())
}

/// What comes of bringing the flake and its inputs into the store below the mount path.
pub open spec fn flake_bootstrapped(config: ConfigView, journal: JournalView) -> Outcome<()> {
    match performed(copy_command(config), "Could not bootstrap the flake store path"@, journal) {
        Err(stop) => Err(stop),
        Ok((_, copied)) => performed_attached(
            archive_command(config),
            "The `nix flake archive` command to bootstrap NixOS failed"@,
            copied,
        ),
    }
}

/// Brings the flake and its inputs into the store below the mount path.
pub fn bootstrap_flake_store_path<'a>(
    nixos_installer_config: &NixOSInstallerConfig,
    journal: &mut Journal<'a>,
) -> (r: Result<(), Stop>)
    requires
        old(journal).wf(),
    ensures
        final(journal).wf(),
        comes_to(
            r,
            old(journal)@,
            final(journal)@,
            flake_bootstrapped(nixos_installer_config.deep_view(), old(journal)@),
        ),
{
    perform(
        &nix_copy(nixos_installer_config),
        "Could not bootstrap the flake store path",
        journal,
    )?;
    perform_attached(
        &nix_flake_archive(nixos_installer_config),
        "The `nix flake archive` command to bootstrap NixOS failed",
        journal,
    )
}

/// What `nix build` is to bring into the store below the mount path, and how many jobs it may build
/// at once: the system's path alone where nothing is to be built.
pub open spec fn build_target(config: ConfigView) -> Seq<Seq<char>> {
    if config.substitute_only {
        seq!["--max-jobs"@, "0"@, config.nixos_system_out_path]
    } else {
        seq!["--max-jobs"@, "1"@, config.nixos_system_derivation_path + "^*"@]
    }
}

/// `nix build`, to bring the system into the store below the mount path.
pub open spec fn build_command(config: ConfigView) -> CommandView {
    command(
        "nix"@,
        nix3_args() + seq![
            "build"@,
            "--store"@,
            config.mount_path,
            "--keep-going"@,
            "--cores"@,
            "1"@,
        ] + build_target(config),
    )
}

/// `nix build`, to bring the system into the store below the mount path.
fn nix_build(nixos_installer_config: &NixOSInstallerConfig) -> (r: CommandLine)
    ensures
        r.deep_view() == build_command(nixos_installer_config.deep_view()),
{
    let common = create_nix3_command().arg("build").arg("--store").arg(
        nixos_installer_config.mount_path.as_str(),
    ).arg("--keep-going").arg("--cores").arg("1");
    if nixos_installer_config.substitute_only {
        common.arg("--max-jobs").arg("0").arg(nixos_installer_config.nixos_system_out_path.as_str())
    } else {
        let mut outputs = nixos_installer_config.nixos_system_derivation_path.clone();
        outputs.append("^*");
        common.arg("--max-jobs").arg("1").arg(outputs.as_str())
    }
}

/// What comes of bringing the system into the store below the mount path.
pub open spec fn nixos_bootstrapped(config: ConfigView, journal: JournalView) -> Outcome<()> {
    performed_attached(
        build_command(config),
        "The `nix build` command to bootstrap NixOS failed"@,
        journal,
    )
}

/// Brings the system into the store below the mount path.
pub fn bootstrap_nixos<'a>(
    nixos_installer_config: &NixOSInstallerConfig,
    journal: &mut Journal<'a>,
) -> (r: Result<(), Stop>)
    requires
        old(journal).wf(),
    ensures
        final(journal).wf(),
        comes_to(
            r,
            old(journal)@,
            final(journal)@,
            nixos_bootstrapped(nixos_installer_config.deep_view(), old(journal)@),
        ),
{
    perform_attached(
        &nix_build(nixos_installer_config),
        "The `nix build` command to bootstrap NixOS failed",
        journal,
    )
}

/// `nixos-install`, to install the system that the store below the mount path holds.
pub open spec fn install_command(config: ConfigView) -> CommandView {
    command(
        "nixos-install"@,
        seq![
            "--show-trace"@,
            "--max-jobs"@,
            "1"@,
            "--cores"@,
            "1"@,
            "--no-root-password"@,
            "--no-channel-copy"@,
            "--root"@,
            config.mount_path,
            "--store-path"@,
            config.nixos_system_out_path,
        ],
    )
}

/// `nixos-install`, to install the system that the store below the mount path holds.
fn nixos_install(nixos_installer_config: &NixOSInstallerConfig) -> (r: CommandLine)
    ensures
        r.deep_view() == install_command(nixos_installer_config.deep_view()),
{
    CommandLine::new("nixos-install").arg("--show-trace").arg("--max-jobs").arg("1").arg(
        "--cores",
    ).arg("1").arg("--no-root-password").arg("--no-channel-copy").arg("--root").arg(
        nixos_installer_config.mount_path.as_str(),
    ).arg("--store-path").arg(nixos_installer_config.nixos_system_out_path.as_str())
}

/// What comes of installing the system.
pub open spec fn nixos_install_done(config: ConfigView, journal: JournalView) -> Outcome<()> {
    performed(install_command(config), "Could not Install NixOS"@, journal)
}

/// Installs the system that the store below the mount path holds.
pub fn do_nixos_install<'a>(
    nixos_installer_config: &NixOSInstallerConfig,
    journal: &mut Journal<'a>,
) -> (r: Result<(), Stop>)
    requires
        old(journal).wf(),
    ensures
        final(journal).wf(),
        comes_to(
            r,
            old(journal)@,
            final(journal)@,
            nixos_install_done(nixos_installer_config.deep_view(), old(journal)@),
        ),
{
    perform(&nixos_install(nixos_installer_config), "Could not Install NixOS", journal)
}

/// What comes of preparing the store below the mount path for a build: the system's derivation must
/// be the same there.
pub open spec fn store_prepared(config: ConfigView, journal: JournalView) -> Outcome<()> {
    match flake_bootstrapped(config, journal) {
        Err(stop) => Err(stop),
        Ok((_, bootstrapped)) => match derivation_path_evaluated(
            config.mount_path,
            config.flake_store_path,
            config.hostname,
            bootstrapped,
        ) {
            Err(stop) => Err(stop),
            Ok((path, evaluated)) => if path == config.nixos_system_derivation_path {
                Ok(((), evaluated))
            } else {
                failed(
                    "The newly computed NixOS system derivation path '"@ + path
                        + "' is not the same as the old one '"@
                        + config.nixos_system_derivation_path + "'"@,
                )
            },
        },
    }
}

/// What comes of installing NixOS on the mounted target drive.
pub open spec fn nixos_installed(config: ConfigView, journal: JournalView) -> Outcome<()> {
    match if config.substitute_only {
        Ok(((), journal))
    } else {
        store_prepared(config, journal)
    } {
        Err(stop) => Err(stop),
        Ok((_, prepared)) => match nixos_bootstrapped(config, prepared) {
            Err(stop) => Err(stop),
            Ok((_, built)) => match nixos_install_done(config, built) {
                Err(stop) => Err(stop),
                Ok((_, installed)) => all_unmounted(config.canonical_target_drive, installed),
            },
        },
    }
}

/// Installs NixOS on the mounted target drive, and unmounts it.
pub fn install_nixos<'a>(
    nixos_installer_config: &NixOSInstallerConfig,
    journal: &mut Journal<'a>,
) -> (r: Result<(), Stop>)
    requires
        old(journal).wf(),
    ensures
        final(journal).wf(),
        comes_to(
            r,
            old(journal)@,
            final(journal)@,
            nixos_installed(nixos_installer_config.deep_view(), old(journal)@),
        ),
{
    if !nixos_installer_config.substitute_only {
        bootstrap_flake_store_path(nixos_installer_config, journal)?;
        let path = evaluate_nixos_system_derivation_path(
            nixos_installer_config.mount_path.as_str(),
            nixos_installer_config.flake_store_path.as_str(),
            nixos_installer_config.hostname.as_str(),
            journal,
        )?;
        if !same_text(
            path.as_str(),
            nixos_installer_config.nixos_system_derivation_path.as_str(),
        ) {
            let mut text = "The newly computed NixOS system derivation path '".to_string();
            text.append(path.as_str());
            text.append("' is not the same as the old one '");
            text.append(nixos_installer_config.nixos_system_derivation_path.as_str());
            text.append("'");
            return Err(give_up(text));
        }
    }
    bootstrap_nixos(nixos_installer_config, journal)?;
    do_nixos_install(nixos_installer_config, journal)?;
    unmount_everything(nixos_installer_config.canonical_target_drive.as_str(), journal)
}

} // verus!
