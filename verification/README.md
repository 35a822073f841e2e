# nixos-install-tfg

A NixOS installer. It partitions and formats a drive, mounts it, brings the system of a flake onto it
and installs it.

`src/` is the installer's logic, verified with Verus. No part of it touches the machine: every procedure
is a function of the answers that the machine has given so far, and stops with the action that it needs
next (`src/journal.rs`). `app/` is the program around it, which performs the actions.

- `text.rs`, `paths.rs`: texts, paths and their order.
- `options.rs`, `flake.rs`, `evaluation.rs`, `config.rs`: from the command line to the configuration of an
  installation.
- `disk_helpers.rs`, `installer.rs`, `session.rs`: the installation itself.
- `replay.rs`: what has been made of the answers stands when more answers come.
- `safety.rs`: what an installation may ask for, and when.
