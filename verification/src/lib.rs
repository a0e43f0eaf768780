//! Release-upgrade logic for Pop!_OS: Ubuntu release versions and codenames,
//! end-of-life dates, apt source lists, fstab and crypttab edits, boot
//! configuration and the decisions that drive an offline release upgrade.

pub mod text;
pub mod codename;
pub mod version;
pub mod eol;
pub mod fstab;
pub mod client;
pub mod release;
pub mod boot;
pub mod sources;
pub mod logging;
pub mod dracut;
pub mod swapfile;
pub mod widget;
pub mod cli;
pub mod fs;
pub mod esp;
pub mod arch;
pub mod repair;
