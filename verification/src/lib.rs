//! Clearer names for taking the value out of an `Option` or a `Result`.
//!
//! Each operation consumes the container and hands back either what it holds
//! or a substitute. Operations that end the program on the wrong variant
//! exclude that variant by precondition, so verified callers can never reach
//! the failure.

pub mod option;
pub mod prelude;
pub mod result;

pub use option::BEOption;
pub use result::BEResult;
