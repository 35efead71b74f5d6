//! The levels at which a rendering context is asked for, and the order in
//! which they are tried.

use vstd::prelude::*;

verus! {

/// Major version of the legacy desktop API that ends the fallback chain.
pub const LEGACY_MAJOR: u8 = 2;

/// Minor version of the legacy desktop API that ends the fallback chain.
pub const LEGACY_MINOR: u8 = 1;

/// What a context creation attempt asks the driver for.
#[derive(Clone, Copy, Debug, PartialEq, Eq, Structural)]
pub enum ApiLevel {
    /// Whatever the platform grants by default: a current desktop API.
    Modern,
    /// The embedded variant of the API, in any version.
    Embedded,
    /// A desktop API pinned to one old version.
    Legacy { major: u8, minor: u8 },
}

/// The levels in the order in which they are tried.
pub open spec fn fallback_chain() -> Seq<ApiLevel> {
    seq![
        ApiLevel::Modern,
        ApiLevel::Embedded,
        ApiLevel::Legacy { major: LEGACY_MAJOR, minor: LEGACY_MINOR },
    ]
}

/// The level that follows `level` in the chain, if any. A level that is not
/// part of the chain has no successor.
pub open spec fn successor(level: ApiLevel) -> Option<ApiLevel> {
    match level {
        ApiLevel::Modern => Some(ApiLevel::Embedded),
        ApiLevel::Embedded => Some(ApiLevel::Legacy { major: LEGACY_MAJOR, minor: LEGACY_MINOR }),
        ApiLevel::Legacy { .. } => None,
    }
}

/// [`successor`] walks [`fallback_chain`]: the successor of the level at
/// position `k` is the level at position `k + 1`, and the last has none.
pub proof fn lemma_successor_follows_chain(k: int)
    requires
        0 <= k < fallback_chain().len(),
    ensures
        fallback_chain().len() == 3,
        k + 1 < fallback_chain().len() ==> successor(fallback_chain()[k]) == Some(
            fallback_chain()[k + 1],
        ),
        k + 1 == fallback_chain().len() ==> successor(fallback_chain()[k]).is_none(),
{
}

/// The outcome of a whole negotiation against a driver that accepts exactly
/// the levels for which `accepts` holds: the first accepted level of the
/// chain, or `None` when every level is refused.
pub open spec fn negotiated(accepts: spec_fn(ApiLevel) -> bool) -> Option<ApiLevel> {
    if accepts(fallback_chain()[0]) {
        Some(fallback_chain()[0])
    } else if accepts(fallback_chain()[1]) {
        Some(fallback_chain()[1])
    } else if accepts(fallback_chain()[2]) {
        Some(fallback_chain()[2])
    } else {
        None
    }
}

/// The attempts that such a negotiation makes, in order: the chain up to and
/// including the first accepted level, and all of it when none is accepted.
pub open spec fn attempts(accepts: spec_fn(ApiLevel) -> bool) -> Seq<ApiLevel> {
    if accepts(fallback_chain()[0]) {
        fallback_chain().take(1)
    } else if accepts(fallback_chain()[1]) {
        fallback_chain().take(2)
    } else {
        fallback_chain()
    }
}

/// The level that opens a negotiation.
pub fn first_level() -> (level: ApiLevel)
    ensures
        level == fallback_chain()[0],
{
    ApiLevel::Modern
}

/// The level to try once `refused` has been turned down, or `None` when the
/// chain is exhausted and the negotiation has failed for good.
pub fn fallback(refused: ApiLevel) -> (next: Option<ApiLevel>)
    ensures
        next == successor(refused),
{
    match refused {
        ApiLevel::Modern => Some(ApiLevel::Embedded),
        ApiLevel::Embedded => Some(ApiLevel::Legacy { major: LEGACY_MAJOR, minor: LEGACY_MINOR }),
        ApiLevel::Legacy { .. } => None,
    }
}

} // verus!
