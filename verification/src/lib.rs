//! Core pieces of a Cairo virtual machine: a segmented, write-once memory,
//! a segment manager with relocation, and the Keccak builtin runner with its
//! instance definitions.

pub mod errors;
pub mod felt;
pub mod instance_definitions;
pub mod keccak_runner;
pub mod keccak_utils;
pub mod math_utils;
pub mod memory;
pub mod relocatable;
pub mod segments;
pub mod vm_core;
