//! Building blocks of a colourful Bash prompt: the state of a git repository
//! reduced to a small set of flags, and the styled, shell-escaped text that
//! shows it.

pub mod bash;
pub mod commands;
pub mod flags;
pub mod laws;
pub mod style;
pub mod vcs;

pub use bash::{BashString, BashStrings};
pub use commands::{InitCommand, Ps1Command, Ps2Command};
pub use flags::{FlagSet, GitFlags};
pub use style::Pallet;
pub use vcs::{HeadRef, RepoFacts, VcsCommand};
