//! The `repo` sub-command.

use vstd::prelude::*;

verus! {

/// What `repo` does (`repo set` is the `SetPath` variant).
#[derive(Debug)]
pub enum RepositoryCommand {
    SetPath(SetCommand),
}

/// `repo set`: the path of the configuration repository.
#[derive(Debug)]
pub struct SetCommand {
    pub path: String,
}

} // verus!
