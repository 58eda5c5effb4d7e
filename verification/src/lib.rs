//! NaN-boxing: a tagged, heterogeneous value (a double, a signed or unsigned
//! integer, or a pointer-sized address) packed into the 64-bit pattern of an
//! IEEE-754 double, using the payload bits that a NaN leaves unconstrained.
//!
//! Every operation here works on the raw 64-bit pattern. A double is
//! represented by its bit pattern (`f64::to_bits` / `f64::from_bits` at the
//! boundary); the codec itself never needs floating-point arithmetic.

pub mod boxable;
pub mod nan;
pub mod typemod;

pub use nan::NaNBox;
pub use nan::Type;
