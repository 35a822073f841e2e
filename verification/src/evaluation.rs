//! What the NixOS configuration says about partitions, mount paths and the system to install.

use vstd::prelude::*;

use crate::command_helpers::{
    create_nix_instantiate_command, demand, formatted_process_stderr, process_stdout, CommandLine,
};
use crate::command_helpers::{
    command, demanded, fenced_stderr, nix_instantiate_args, stdout_text, CommandView,
};
use crate::file_systems::{NixOSFileSystemMountPath, SupportedFileSystems};
use crate::file_systems::{label_of, nix_name_of, path_of};
use crate::flake::{configuration, raw_eval};
use crate::flake::{configuration_of, raw_eval_command};
use crate::journal::{give_up, Journal, Stop};
use crate::journal::{comes_to, failed, FailureView, JournalView, Outcome, StopView};
use crate::paths::{sort_paths, sorted_paths};
use crate::text::{after_last, lines, same_text, split};
use crate::text::{lines_of, split_on, splitting_is_undone_by_joining};

verus! {

/// The text, where there is one; otherwise a stop for the reason `complaint`.
pub open spec fn present(text: Seq<char>, complaint: Seq<char>) -> Result<Seq<char>, StopView> {
    if text.len() == 0 {
        Err(StopView::Failed(FailureView::Message(complaint)))
    } else {
        Ok(text)
    }
}

/// What comes of evaluating an expression whose value has to be a text with something in it.
pub open spec fn evaluated(
    command: CommandView,
    complaint: Seq<char>,
    nothing: Seq<char>,
    journal: JournalView,
) -> Outcome<Seq<char>> {
    match demanded(command, complaint, journal) {
        Err(stop) => Err(stop),
        Ok((output, rest)) => match present(stdout_text(output), nothing) {
            Err(stop) => Err(stop),
            Ok(text) => Ok((text, rest)),
        },
    }
}

/// Evaluates an expression whose value has to be a text with something in it.
fn evaluate<'a>(
    command: &CommandLine,
    complaint: &str,
    nothing: &str,
    journal: &mut Journal<'a>,
) -> (r: Result<String, Stop>)
    requires
        old(journal).wf(),
    ensures
        final(journal).wf(),
        comes_to(
            r,
            old(journal)@,
            final(journal)@,
            evaluated(command.deep_view(), complaint@, nothing@, old(journal)@),
        ),
{
    let output = demand(command, complaint, journal)?;
    let text = process_stdout(output);
    if text.as_str().is_empty() {
        Err(give_up(nothing.to_string()))
    } else {
        Ok(text)
    }
}

/// Three texts, one behind the other.
fn concat3(a: &str, b: &str, c: &str) -> (r: String)
    ensures
        r@ == a@ + b@ + c@,
{
    let mut r = a.to_string();
    r.append(b);
    r.append(c);
    r
}

/// The device of a partition, as a Nix expression.
pub open spec fn device_expression(
    flake_store_path: Seq<char>,
    hostname: Seq<char>,
    mount_path: Seq<char>,
) -> Seq<char> {
    configuration_of(flake_store_path, hostname) + ".config.fileSystems.\""@ + mount_path
        + "\".device"@
}

/// What comes of looking up the UUID of a partition: the last part of the path of its device.
pub open spec fn partition_uuid_evaluated(
    flake_store_path: Seq<char>,
    hostname: Seq<char>,
    mount_path: NixOSFileSystemMountPath,
    journal: JournalView,
) -> Outcome<Seq<char>> {
    match evaluated(
        raw_eval_command(device_expression(flake_store_path, hostname, path_of(mount_path))),
        "The `nix-instantiate` command to get the "@ + label_of(mount_path)
            + " partition device failed"@,
        "Could not determine the device path for the "@ + label_of(mount_path) + " partition"@,
        journal,
    ) {
        Err(stop) => Err(stop),
        Ok((device, rest)) => Ok((split_on(device, '/').last(), rest)),
    }
}

/// Looks up the UUID of a partition.
pub fn evaluate_partition_uuid<'a>(
    flake_store_path: &str,
    hostname: &str,
    nixos_file_system_mount_path: &NixOSFileSystemMountPath,
    journal: &mut Journal<'a>,
) -> (r: Result<String, Stop>)
    requires
        old(journal).wf(),
    ensures
        final(journal).wf(),
        comes_to(
            r,
            old(journal)@,
            final(journal)@,
            partition_uuid_evaluated(
                flake_store_path@,
                hostname@,
                *nixos_file_system_mount_path,
                old(journal)@,
            ),
        ),
{
    let label = nixos_file_system_mount_path.label();
    let mut expression = configuration(flake_store_path, hostname);
    expression.append(".config.fileSystems.\"");
    expression.append(nixos_file_system_mount_path.path().as_str());
    expression.append("\".device");
    let device = evaluate(
        &raw_eval(expression.as_str()),
        concat3(
            "The `nix-instantiate` command to get the ",
            label.as_str(),
            " partition device failed",
        ).as_str(),
        concat3(
            "Could not determine the device path for the ",
            label.as_str(),
            " partition",
        ).as_str(),
        journal,
    )?;
    Ok(after_last(device.as_str(), '/'))
}

/// The mount options of a partition but for the subvolume, as a Nix expression.
pub open spec fn mount_options_expression(
    flake_store_path: Seq<char>,
    hostname: Seq<char>,
    mount_path: Seq<char>,
) -> Seq<char> {
    "let
            startsWith = stringPrefix: stringToMatch: builtins.substring 0 (builtins.stringLength stringPrefix) stringToMatch == stringPrefix;
            fsOptions = "@
        + configuration_of(flake_store_path, hostname) + ".config.fileSystems.\""@ + mount_path
        + "\".options;
            filteredFsOptions = builtins.filter (fsOption: !(startsWith \"subvol=\" fsOption)) fsOptions;
            in builtins.concatStringsSep \",\" filteredFsOptions"@
}

/// What comes of looking up the mount options of a partition.
pub open spec fn mount_options_evaluated(
    flake_store_path: Seq<char>,
    hostname: Seq<char>,
    mount_path: NixOSFileSystemMountPath,
    journal: JournalView,
) -> Outcome<Seq<char>> {
    evaluated(
        raw_eval_command(mount_options_expression(flake_store_path, hostname, path_of(mount_path))),
        "The `nix-instantiate` command to get the "@ + label_of(mount_path)
            + " partition's mount options failed"@,
        "Could not determine the mount options for the "@ + label_of(mount_path) + " partition"@,
        journal,
    )
}

/// Looks up the mount options of a partition.
pub fn evaluate_partition_mount_options<'a>(
    flake_store_path: &str,
    hostname: &str,
    nixos_file_system_mount_path: &NixOSFileSystemMountPath,
    journal: &mut Journal<'a>,
) -> (r: Result<String, Stop>)
    requires
        old(journal).wf(),
    ensures
        final(journal).wf(),
        comes_to(
            r,
            old(journal)@,
            final(journal)@,
            mount_options_evaluated(
                flake_store_path@,
                hostname@,
                *nixos_file_system_mount_path,
                old(journal)@,
            ),
        ),
{
    let label = nixos_file_system_mount_path.label();
    let mut expression = "let
            startsWith = stringPrefix: stringToMatch: builtins.substring 0 (builtins.stringLength stringPrefix) stringToMatch == stringPrefix;
            fsOptions = ".to_string();
    expression.append(configuration(flake_store_path, hostname).as_str());
    expression.append(".config.fileSystems.\"");
    expression.append(nixos_file_system_mount_path.path().as_str());
    expression.append("\".options;
            filteredFsOptions = builtins.filter (fsOption: !(startsWith \"subvol=\" fsOption)) fsOptions;
            in builtins.concatStringsSep \",\" filteredFsOptions");
    evaluate(
        &raw_eval(expression.as_str()),
        concat3(
            "The `nix-instantiate` command to get the ",
            label.as_str(),
            " partition's mount options failed",
        ).as_str(),
        concat3(
            "Could not determine the mount options for the ",
            label.as_str(),
            " partition",
        ).as_str(),
        journal,
    )
}

/// The file system that Nix calls `name`, where the installer knows it.
pub open spec fn file_system_named(name: Seq<char>) -> Result<SupportedFileSystems, StopView> {
    if name == "btrfs"@ {
        Ok(SupportedFileSystems::Btrfs)
    } else if name == "zfs"@ {
        Ok(SupportedFileSystems::Zfs)
    } else {
        Err(
            StopView::Failed(
                FailureView::Message("The filesystem '"@ + name + "' is unsupported"@),
            ),
        )
    }
}

/// The file system that Nix calls `name`, where the installer knows it.
pub fn find_file_system(name: &str) -> (r: Result<SupportedFileSystems, Stop>)
    ensures
        match r {
            Ok(file_system) => file_system_named(name@) == Ok::<SupportedFileSystems, StopView>(
                file_system,
            ),
            Err(stop) => file_system_named(name@) == Err::<SupportedFileSystems, StopView>(
                stop.deep_view(),
            ),
        },
{
    if same_text(name, "btrfs") {
        Ok(SupportedFileSystems::Btrfs)
    } else if same_text(name, "zfs") {
        Ok(SupportedFileSystems::Zfs)
    } else {
        Err(give_up(concat3("The filesystem '", name, "' is unsupported")))
    }
}

/// A file system is found under the name that Nix has for it.
pub proof fn file_systems_are_found_by_name(file_system: SupportedFileSystems)
    ensures
        file_system_named(nix_name_of(file_system)) == Ok::<SupportedFileSystems, StopView>(
            file_system,
        ),
{
    reveal_strlit("btrfs");
    reveal_strlit("zfs");
    assert("btrfs"@.len() != "zfs"@.len());
}

/// The file system of the root partition, as a Nix expression.
pub open spec fn fs_type_expression(flake_store_path: Seq<char>, hostname: Seq<char>) -> Seq<
    char,
> {
    configuration_of(flake_store_path, hostname) + ".config.fileSystems.\"/\".fsType"@
}

/// What comes of looking up the file system of the root partition.
pub open spec fn root_fs_type_evaluated(
    flake_store_path: Seq<char>,
    hostname: Seq<char>,
    journal: JournalView,
) -> Outcome<SupportedFileSystems> {
    match demanded(
        raw_eval_command(fs_type_expression(flake_store_path, hostname)),
        "The `nix-instantiate` command to get the Root partition's filesystem failed"@,
        journal,
    ) {
        Err(stop) => Err(stop),
        Ok((output, rest)) => match file_system_named(stdout_text(output)) {
            Err(stop) => Err(stop),
            Ok(file_system) => Ok((file_system, rest)),
        },
    }
}

/// Looks up the file system of the root partition.
pub fn evaluate_root_part_fs_type<'a>(
    flake_store_path: &str,
    hostname: &str,
    journal: &mut Journal<'a>,
) -> (r: Result<SupportedFileSystems, Stop>)
    requires
        old(journal).wf(),
    ensures
        final(journal).wf(),
        comes_to(
            r,
            old(journal)@,
            final(journal)@,
            root_fs_type_evaluated(flake_store_path@, hostname@, old(journal)@),
        ),
{
    let mut expression = configuration(flake_store_path, hostname);
    expression.append(".config.fileSystems.\"/\".fsType");
    let output = demand(
        &raw_eval(expression.as_str()),
        "The `nix-instantiate` command to get the Root partition's filesystem failed",
        journal,
    )?;
    find_file_system(process_stdout(output).as_str())
}

/// The mount paths of all file systems of one kind, with commas between them, as a Nix expression.
pub open spec fn mount_paths_expression(
    flake_store_path: Seq<char>,
    hostname: Seq<char>,
    file_system: SupportedFileSystems,
) -> Seq<char> {
    "let
            config = "@ + configuration_of(flake_store_path, hostname) + ".config;
            filteredFileSystems = builtins.filter (fs: config.fileSystems.${fs}.fsType == \""@
        + nix_name_of(file_system) + "\") (builtins.attrNames config.fileSystems);
            in builtins.concatStringsSep \",\" filteredFileSystems"@
}

/// The mount paths in a list with commas between them, from the root to the leaves.
pub open spec fn mount_paths_listed(list: Seq<char>) -> Seq<Seq<char>> {
    sorted_paths(split_on(list, ','), false)
}

/// The mount paths in a list with commas between them, from the root to the leaves.
pub fn read_mount_paths(list: &str) -> (r: Vec<String>)
    ensures
        r.deep_view() == mount_paths_listed(list@),
{
    let mut paths = split(list, ',');
    sort_paths(paths.as_mut_slice(), false);
    paths
}

/// What comes of looking up the mount paths that lie on the root partition.
pub open spec fn mount_paths_evaluated(
    flake_store_path: Seq<char>,
    hostname: Seq<char>,
    file_system: SupportedFileSystems,
    journal: JournalView,
) -> Outcome<Seq<Seq<char>>> {
    match evaluated(
        raw_eval_command(mount_paths_expression(flake_store_path, hostname, file_system)),
        "The `nix-instantiate` command to get the non-EFI mount paths failed"@,
        "Could not determine the non-EFI partitions"@,
        journal,
    ) {
        Err(stop) => Err(stop),
        Ok((list, rest)) => Ok((mount_paths_listed(list), rest)),
    }
}

/// Looks up the mount paths that lie on the root partition.
pub fn evaluate_non_efi_mount_paths<'a>(
    flake_store_path: &str,
    hostname: &str,
    root_part_fs_type: &SupportedFileSystems,
    journal: &mut Journal<'a>,
) -> (r: Result<Vec<String>, Stop>)
    requires
        old(journal).wf(),
    ensures
        final(journal).wf(),
        comes_to(
            r,
            old(journal)@,
            final(journal)@,
            mount_paths_evaluated(
                flake_store_path@,
                hostname@,
                *root_part_fs_type,
                old(journal)@,
            ),
        ),
{
    let mut expression = "let
            config = ".to_string();
    expression.append(configuration(flake_store_path, hostname).as_str());
    expression.append(".config;
            filteredFileSystems = builtins.filter (fs: config.fileSystems.${fs}.fsType == \"");
    expression.append(root_part_fs_type.nix_name().as_str());
    expression.append("\") (builtins.attrNames config.fileSystems);
            in builtins.concatStringsSep \",\" filteredFileSystems");
    let list = evaluate(
        &raw_eval(expression.as_str()),
        "The `nix-instantiate` command to get the non-EFI mount paths failed",
        "Could not determine the non-EFI partitions",
        journal,
    )?;
    Ok(read_mount_paths(list.as_str()))
}

/// The system to install, as a Nix expression.
pub open spec fn toplevel_expression(flake_store_path: Seq<char>, hostname: Seq<char>) -> Seq<
    char,
> {
    configuration_of(flake_store_path, hostname) + ".config.system.build.toplevel"@
}

/// `nix-instantiate`, to write the derivation of an expression.
pub open spec fn instantiate_command(store: Seq<char>, expression: Seq<char>) -> CommandView {
    command(
        "nix-instantiate"@,
        nix_instantiate_args() + seq!["--eval-store"@, store, "--expr"@, expression],
    )
}

/// `nix-instantiate`, to write the derivation of an expression.
fn instantiate(store: &str, expression: &str) -> (r: CommandLine)
    ensures
        r.deep_view() == instantiate_command(store@, expression@),
{
    create_nix_instantiate_command().arg("--eval-store").arg(store).arg("--expr").arg(expression)
}

/// What comes of looking up the derivation path of the system to install.
pub open spec fn derivation_path_evaluated(
    store: Seq<char>,
    flake_store_path: Seq<char>,
    hostname: Seq<char>,
    journal: JournalView,
) -> Outcome<Seq<char>> {
    evaluated(
        instantiate_command(store, toplevel_expression(flake_store_path, hostname)),
        "The `nix-instantiate` command to get the NixOS configuration's derivation path, failed"@,
        "Could not determine the derivation path for your NixOS configuration"@,
        journal,
    )
}

/// Looks up the derivation path of the system to install.
pub fn evaluate_nixos_system_derivation_path<'a>(
    eval_nix_store: &str,
    flake_store_path: &str,
    hostname: &str,
    journal: &mut Journal<'a>,
) -> (r: Result<String, Stop>)
    requires
        old(journal).wf(),
    ensures
        final(journal).wf(),
        comes_to(
            r,
            old(journal)@,
            final(journal)@,
            derivation_path_evaluated(
                eval_nix_store@,
                flake_store_path@,
                hostname@,
                old(journal)@,
            ),
        ),
{
    let mut expression = configuration(flake_store_path, hostname);
    expression.append(".config.system.build.toplevel");
    evaluate(
        &instantiate(eval_nix_store, expression.as_str()),
        "The `nix-instantiate` command to get the NixOS configuration's derivation path, failed",
        "Could not determine the derivation path for your NixOS configuration",
        journal,
    )
}

/// `nix-store`, to list the outputs of a derivation.
pub open spec fn outputs_command(derivation_path: Seq<char>) -> CommandView {
    command("nix-store"@, seq!["--query"@, "--outputs"@, derivation_path])
}

/// `nix-store`, to list the outputs of a derivation.
fn outputs(derivation_path: &str) -> (r: CommandLine)
    ensures
        r.deep_view() == outputs_command(derivation_path@),
{
    CommandLine::new("nix-store").arg("--query").arg("--outputs").arg(derivation_path)
}

/// A derivation whose outputs are not known.
pub open spec fn no_output(derivation_path: Seq<char>) -> Seq<char> {
    "Could not determine the output path of derivation '"@ + derivation_path + "'"@
}

/// What comes of looking up the output path of the system to install: the first that there is.
pub open spec fn out_path_evaluated(
    derivation_path: Seq<char>,
    journal: JournalView,
) -> Outcome<Seq<char>> {
    match demanded(outputs_command(derivation_path), no_output(derivation_path), journal) {
        Err(stop) => Err(stop),
        Ok((output, rest)) => if stdout_text(output).len() == 0 {
            failed(no_output(derivation_path) + fenced_stderr(output))
        } else {
            Ok((lines_of(stdout_text(output))[0], rest))
        },
    }
}

/// The first line of a text with something in it.
pub fn first_line(text: &str) -> (r: String)
    requires
        text@.len() > 0,
    ensures
        lines_of(text@).len() > 0,
        r@ == lines_of(text@)[0],
{
    proof {
        splitting_is_undone_by_joining(text@, '\n');
    }
    let all = lines(text);
    assert(all.deep_view().len() > 0);
    all[0].clone()
}

/// Looks up the output path of the system to install.
pub fn evaluate_nixos_system_out_path<'a>(
    nixos_system_derivation_path: &str,
    journal: &mut Journal<'a>,
) -> (r: Result<String, Stop>)
    requires
        old(journal).wf(),
    ensures
        final(journal).wf(),
        comes_to(
            r,
            old(journal)@,
            final(journal)@,
            out_path_evaluated(nixos_system_derivation_path@, old(journal)@),
        ),
{
    let complaint = concat3(
        "Could not determine the output path of derivation '",
        nixos_system_derivation_path,
        "'",
    );
    let output = demand(&outputs(nixos_system_derivation_path), complaint.as_str(), journal)?;
    let text = process_stdout(output);
    if text.as_str().is_empty() {
        let mut reason = complaint;
        reason.append(formatted_process_stderr(output).as_str());
        Err(give_up(reason))
    } else {
        Ok(first_line(text.as_str()))
    }
}

} // verus!
