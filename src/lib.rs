//! Disk discovery, classification and provisioning decisions for turning the
//! spare disks of a host into one pooled, mounted data volume.
use vstd::prelude::*;

pub mod commands;
pub mod disks;
pub mod error;
pub mod fstab;
pub mod provision;
pub mod relocation;
pub mod text;
pub mod volume;

verus! {

} // verus!
