//! Planning of the disk-preparation commands of an opinionated NixOS installer:
//! partitioning, EFI, LUKS and ZFS setup, described as data and proved to follow
//! the installer's layout rules.

pub mod text;
pub mod properties;
pub mod disk;
pub mod commands;
pub mod laws;
