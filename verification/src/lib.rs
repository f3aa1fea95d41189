//! Integer 2D and 3D vector types with component-wise arithmetic and
//! geometric helpers, verified with Verus.
//!
//! The convention for the named direction constants is y-up: `UP` is
//! `(0, 1)` and `DOWN` is `(0, -1)`.
//!
//! Overflow policy: every operation whose exact mathematical result may
//! not fit in a 32-bit signed component requires the caller to rule that
//! out, so no operation wraps or panics. Division by a zero component is
//! reported with a `DivideByZero` error, never by a fault.

pub mod arith;
pub mod vector2int;
pub mod vector3int;

pub use arith::DivideByZero;
pub use vector2int::Vector2Int;
pub use vector3int::Vector3Int;
