//! The commands of the tool: what each decides and computes.

pub mod building;
pub mod clean;
pub mod debug;
pub mod docs;
pub mod info;
pub mod init;
pub mod install;
pub mod publish;
pub mod python;
pub mod run;
pub mod setup_ide;
pub mod testing;
pub mod validate;
pub mod version;
pub mod watch;
pub mod workspace;
