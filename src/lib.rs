//! A small object-storage bucket client: request building, outcome
//! classification and the decisions of a chunked download, all verified.
//! The network and file system calls themselves are made by the caller.

use vstd::prelude::*;

pub mod bucket;
pub mod download;
pub mod error;

verus! {

} // verus!
