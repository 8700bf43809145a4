//! Source-to-source engine that derives, from one `impl` block, a second
//! `impl` block for the archived counterpart of the self type, rewriting
//! generic bounds so that projected parameters refer to their `Archived`
//! associated types.

use vstd::prelude::*;

pub mod ast;
pub mod container;
pub mod directive;
pub mod engine;
pub mod laws;
pub mod token;
pub mod transform;

pub use engine::archive_impl;
pub use engine::archive_method;

verus! {

/// The associated-type name used when a projected parameter is rewritten.
pub open spec fn archived_member() -> Seq<char> {
    "Archived"@
}

} // verus!
