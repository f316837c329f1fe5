//! The essential types and all traits of the library.

pub use crate::result::{Match, MatchFailed};
pub use crate::traits::{
    Alternatives, IntoMatch, MatchFail, MatchStatic, MatchStaticMapped, MatchStaticMultiple,
    MatchWith, MatchWithInRange, MatchWithInRangeMapped, MatchWithMapped, SafeAsUsize,
};
