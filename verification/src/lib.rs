//! PyDrop's library: the byte formats, text rewriting and launch decisions
//! behind a portable Python runner and packer, with their contracts.
mod text;

pub mod bundle;
pub mod config;
pub mod embed;
pub mod imports;
pub mod launch;
pub mod pth;
