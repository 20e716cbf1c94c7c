//! The sub-commands of the installer.

pub mod gen;
pub mod initialise;
pub mod install;
pub mod repo;

use vstd::prelude::*;

use crate::commands::gen::GenerateCommand;
use crate::commands::initialise::InitialiseCommand;
use crate::commands::install::InstallCommand;
use crate::commands::repo::RepositoryCommand;

verus! {

/// A sub-command of the installer, as given on the command line.
#[derive(Debug)]
pub enum Command {
    Install(InstallCommand),
    Repository(RepositoryCommand),
    Generate(GenerateCommand),
    Initialise(InitialiseCommand),
}

} // verus!
