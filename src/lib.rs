//! Easing curves: pure functions that map a time `t` within a duration `d`
//! to a value between a start `b` and `b + c`, generic over the numeric type.
//!
//! Every curve evaluates with the numeric type's own `+ - * /` and ordering.
//! Each contract says that the result is exactly the curve's formula composed
//! of those operations, wherever the type's operations follow their standard
//! specification (every primitive integer type does). Where they do not
//! (floating point), each operation must be defined on every value; the
//! contract then admits the call and claims nothing of the result beyond what
//! the type's own operations give.
//!
//! `laws` states and proves, for `i64`, that each curve starts at `b` and ends
//! at `b + c`, that the halves of each in-out curve meet, and that ease-in and
//! ease-out are dual.
pub mod curves;
pub mod laws;
pub mod numeric;

pub use curves::{
    in_cubic, in_out_cubic, in_out_quad, in_out_quart, in_out_quint, in_quad, in_quart, in_quint,
    linear_tween, out_cubic, out_quad, out_quart, out_quint,
};
