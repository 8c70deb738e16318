//! Paths of the host's file system. The library passes them through to
//! whoever performs the I/O and never looks inside.

use vstd::prelude::*;

verus! {

/// A borrowed path of the file system: `std::path::Path`.
#[verifier::external_type_specification]
#[verifier::external_body]
pub struct ExPath(std::path::Path);

/// An owned path of the file system: `std::path::PathBuf`.
#[verifier::external_type_specification]
#[verifier::external_body]
pub struct ExPathBuf(std::path::PathBuf);

} // verus!
