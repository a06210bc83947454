//! The procedures of a hardware-wallet installer, as verified plans and a
//! verified runner that walks them one action at a time.

pub mod bootable;
pub mod init_iso;
pub mod laws;
pub mod plan;
pub mod pre_install;
pub mod runner;
pub mod step;
pub mod text;
