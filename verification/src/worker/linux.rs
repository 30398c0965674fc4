//! Linux raw-device worker backend.
//!
//! A selected device is identified by both its kernel block name and Linux `diskseq`. The latter
//! changes whenever a block device is instantiated, so a hot-unplug followed by `/dev` path reuse
//! cannot silently redirect a queued flash job.

use vstd::prelude::*;

pub mod devices;
pub mod mounts;
pub mod order;
pub mod related;
pub mod target;
pub mod unmount;

verus! {

} // verus!
