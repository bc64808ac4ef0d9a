//! A discount-proposal engine: given a snapshot of an order (merchandise and
//! delivery lines) and a merchant configuration, it deterministically builds a
//! structured discount proposal and serializes it to the JSON envelope the
//! consumer expects.
//!
//! The engine is a pure function of its inputs: no state survives a call, and
//! every discount, condition and target in the output is pinned down by the
//! specification functions in [`eval`].

pub mod errors;
pub mod eval;
pub mod gid;
pub mod laws;
pub mod model;
pub mod num;
pub mod render;
pub mod text;

pub use errors::EvalError;
pub use eval::resolve_all;
pub use eval::script;
pub use eval::target;
pub use gid::resolve;
pub use num::parse_decimal;
pub use num::times_100;
pub use num::Decimal;
pub use render::fits_shape;
pub use render::render;
pub use render::OutputShape;
