# nux

The verified core of `nux`, an opinionated NixOS installer. The library plans
the preparation of a disk (partitioning with `sgdisk`, an EFI boot partition,
a LUKS container holding a ZFS pool and its datasets) as data, and Verus proves
that each planned command is the one the layout calls for.

- `src/disk/`: the disk layout, the command model (`duct_util`) handed to
  `duct` for running, and the ZFS pool and datasets.
- `src/commands/`: the sub-commands; `install` builds the full plan, and
  `install/disk` and `install/zfs` render a layout as shell command lines.
- `src/properties.rs`, `src/text.rs`: property sets and text building.
- `src/laws.rs`: properties of the plan as a whole.
- `app/`: argument parsing, prompts, configuration files and the running of
  the planned commands.
