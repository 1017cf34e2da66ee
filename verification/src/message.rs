//! Messages and their elements.
pub mod chain;
pub mod entity;
pub mod packer;
