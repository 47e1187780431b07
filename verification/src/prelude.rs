//! Re-exports the two extension traits of this crate, together with the
//! standard fallible-conversion traits that the Rust 2018 edition prelude
//! lacks, so that one import brings the whole conversion surface into scope.

pub use crate::IntoExt;
pub use crate::TryIntoExt;
pub use core::convert::TryFrom;
pub use core::convert::TryInto;
