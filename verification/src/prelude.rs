//! Both traits in one import.

pub use crate::option::BEOption;
pub use crate::result::BEResult;
