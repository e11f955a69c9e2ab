//! Completion of right-triangle measurements from a partial record.
//!
//! A right triangle is described by four quantities: the `rise` (the side
//! opposite the reference angle), the `run` (the side adjacent to it), the
//! `diagonal` (the hypotenuse), and `radians` (the reference angle). A caller
//! who knows only some of them builds a [`right_angle::RightAngleInput`] and
//! asks the resolver which closed-form formulas complete the rest.
//!
//! The numeric side-length type is a parameter of every item here, so the
//! resolver's decisions — how a partial record is classified, which quantity
//! feeds which formula, which given field is preserved verbatim in the
//! output — are stated and proved once, for every scalar type a front end
//! may choose.

pub mod laws;
pub mod right_angle;
