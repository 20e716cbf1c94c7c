//! The `gen` sub-command: writes a starting configuration.

use vstd::prelude::*;

verus! {

/// What `gen` writes.
#[derive(Debug, Clone, Copy, PartialEq, Eq, Structural)]
pub enum GenerateCommand {
    /// The disk configuration, `disk.toml`.
    ZfsDisk,
}

} // verus!
