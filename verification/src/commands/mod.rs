//! The decisions each command of the tool makes.

pub mod validate;
pub mod validate_laws;
pub mod doctor;
pub mod compile;
pub mod run;
pub mod init;
pub mod status;
pub mod deploy;
