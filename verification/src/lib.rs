//! A safety layer for a content-type detection engine that looks at files
//! and buffers and says what they hold, guided by databases of signatures.
//!
//! The library holds everything about the engine but the calls themselves:
//! the configuration flags and their bit layout ([`flags`]), the arguments
//! that are handed over and the replies that come back ([`engine`]), the
//! one error type ([`error`]), and the handle that leads an engine instance
//! from its creation to its release ([`handle`]). Whoever links the engine
//! makes the calls that the handle names.

use vstd::prelude::*;

pub mod engine;
pub mod error;
pub mod flags;
pub mod handle;
pub mod life;
pub mod text;

pub use crate::engine::{Action, Call, Outcome, Reply, Step};
pub use crate::error::MagicError;
pub use crate::flags::MagicFlags;
pub use crate::handle::Magic;

verus! {

/// The text of a version: three decimal numbers with a dot between each
/// two.
pub open spec fn version_text(major: nat, minor: nat, patch: nat) -> Seq<char> {
    crate::text::decimal(major) + seq!['.'] + crate::text::decimal(minor) + seq!['.']
        + crate::text::decimal(patch)
}

/// The version of this library, as `MAJOR.MINOR.PATCH`.
pub fn version() -> (v: &'static str)
    ensures
        v@ == version_text(0, 12, 2),
{
    let v = "0.12.2";
    proof {
        reveal_strlit("0.12.2");
        reveal_with_fuel(crate::text::decimal, 3);
        assert(v@ =~= version_text(0, 12, 2));
    }
    v
}

} // verus!
