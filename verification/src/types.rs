//! Geometric primitive types, to the extent the configuration layer needs
//! them.

pub mod normal;

pub use normal::Normal3;
pub use normal::NumericZero;
pub use normal::Vector3;
