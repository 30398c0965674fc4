//! Verified core of the SnapDog OS installer.

use vstd::prelude::*;

pub mod app;
pub mod catalog;
pub mod digest;
pub mod download;
pub mod drives;
pub mod flash;
pub mod macos_native;
pub mod model;
pub mod paths;
pub mod pipeline;
pub mod reentry;
pub mod text;
pub mod urls;
pub mod versions;
pub mod windows_native;
pub mod worker;

verus! {

} // verus!
