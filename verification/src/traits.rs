//! The traits through which sequences and results are matched.

mod alternatives;
mod into_match;
mod match_fail;
mod match_static;
mod match_static_mapped;
mod match_static_multiple;
mod match_with;
mod match_with_in_range;
mod match_with_in_range_mapped;
mod match_with_mapped;
mod safe_as_usize;

pub use alternatives::Alternatives;
pub use into_match::IntoMatch;
pub use match_fail::MatchFail;
pub use match_static::MatchStatic;
pub use match_static_mapped::MatchStaticMapped;
pub use match_static_multiple::MatchStaticMultiple;
pub use match_with::MatchWith;
pub use match_with_in_range::MatchWithInRange;
pub use match_with_in_range_mapped::MatchWithInRangeMapped;
pub use match_with_mapped::MatchWithMapped;
pub use safe_as_usize::SafeAsUsize;
