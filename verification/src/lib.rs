//! Building blocks of a copy tool that verifies what it wrote: after each round
//! the destination is read back past every cache and corrected until it holds
//! the same bytes as the source.

pub mod cache;
pub mod canonical;
pub mod checksum;
pub mod copy;
pub mod directory;
pub mod engine;
pub mod files;
pub mod first_copy;
pub mod path;
pub mod symlink;
pub mod udev;
pub mod utils;
