//! Builds of VM images from instruction files.
pub mod cache;
pub mod clock;
pub mod command;
pub mod convert;
pub mod copy;
pub mod engine;
pub mod error;
pub mod finalize;
pub mod guard;
pub mod initramfs;
pub mod instruction;
pub mod layer;
pub mod measure;
pub mod runner;
pub mod signing;
