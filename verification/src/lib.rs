//! Interactive fuzzy-selection session library.
//!
//! The crate models the state of a fuzzy-finder session: a live query with a
//! character cursor, a selection over the currently matched candidates, and a
//! bounded snapshot window pulled from a background matching engine. The
//! engine itself (the `nucleo` crate) is reached only through a narrow,
//! trusted interface in [`feed`]; everything around it — text editing,
//! selection navigation, snapshot bookkeeping and highlight-span
//! reconstruction — is verified.

pub mod cli;
pub mod feed;
pub mod highlight;
pub mod model;
