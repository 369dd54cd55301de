//! A fixed-price token sale: a pause gate and a distribution ledger, written
//! as verified state transitions over the contract's persistent values.

pub mod access;
pub mod distribution;
pub mod error;
pub mod laws;
pub mod pause;

pub use access::{bytes_equal, copy_bytes, only_owner};
pub use distribution::{is_native_token, Distribution, SaleContract};
pub use error::DistError;
pub use pause::PauseModule;
