//! Renders a text value's underlying bytes from a declared logical type.
//!
//! [`encoder::handle_type`] dispatches on a type tag (`"char"` or
//! `"string"`), validates the text against that type's shape rule, and
//! returns the bracketed upper-case hex rendering of the value's bytes —
//! or a [`encoder::TypeError`] saying precisely why the request failed.

pub mod encoder;
pub mod render;
