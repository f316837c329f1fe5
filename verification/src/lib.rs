//! A zero-copy algebra of matching results.
//!
//! A matcher consumes a prefix of a sequence, a slice or a string, and hands
//! back a result that holds the consumed prefix, the "matched" part, and what
//! is left, the "rest". Results chain: the next matcher works on the rest of
//! the previous one, and a failure, once it has occurred, is carried through
//! every later step. Nothing is copied: both parts borrow from the input.
//!
//! ```text
//! let (matched, rest) = "#12 34"
//!     .match_static("#")
//!     .match_exact_with(2, |c: char| c.is_ascii_digit())
//!     .discarding(|_, rest: &str| rest.match_with(|c: char| c == ' '))
//!     .unwrap();
//! // matched == Some("12"), rest == "34"
//! ```
//!
//! Every function of the library carries a contract, and the contracts are
//! stated over the views of the results (see [`result`]) and over the
//! specification functions of [`model`]. What holds of the matchers in
//! general is proved in [`laws`].
//!
//! A function that is handed to a combinator is called only where the
//! combinator's contract requires that it may be called. So a combinator
//! that requires nothing of its function on a failure, or on a tree of
//! alternatives that has matched, does not call it there.

pub mod laws;
pub mod model;
pub mod prelude;
pub mod result;
mod slices;
mod strings;
pub mod traits;
