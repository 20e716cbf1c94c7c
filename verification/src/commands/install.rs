//! The `install` sub-command: prepares the disk and generates the NixOS
//! configuration.

pub mod disk;
pub mod zfs;

use vstd::prelude::*;

use crate::disk::duct_util::{run, Cmd, Expr, ExprView};
use crate::disk::{planned_disk, DiskSettings, DiskSettingsView};

verus! {

/// The options of `install`: whether to run the commands or only show
/// them, and a device that replaces the configured one.
#[derive(Debug)]
pub struct InstallCommand {
    pub execute: bool,
    pub disk: Option<String>,
}

/// The command that writes the initial NixOS configuration for the system
/// mounted at `/mnt`.
pub open spec fn generate_config() -> ExprView {
    run("nixos-generate-config"@, seq!["--root"@, "/mnt"@])
}

/// Everything `install` runs, in order: the preparation of the planned
/// disk, then the generation of the NixOS configuration.
pub open spec fn install_plan(s: DiskSettingsView) -> Seq<ExprView> {
    planned_disk(s).setup().push(generate_config())
}

/// The commands that `install` runs for these settings, in order.
pub fn install_cmds(settings: &DiskSettings) -> (res: Vec<Expr>)
    ensures
        res.deep_view() == install_plan(settings@),
{
    let root_disk = settings.get_disk();
    assert(root_disk@.partitions[0].is_complete());
    assert(root_disk@.partitions[1].is_complete());
    let mut cmds = root_disk.cmds();
    let ghost before = cmds.deep_view();
    let generate = Cmd::new("nixos-generate-config").arg("--root").arg("/mnt").to_expr();
    assert(generate@.args =~= generate_config().args);
    cmds.push(generate);
    assert(cmds.deep_view() =~= before.push(generate_config()));
    cmds
}

} // verus!
