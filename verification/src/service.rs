//! Service combinators: chaining one service after another, after a
//! transform, or through a function.
pub mod and_then;
pub mod and_then_apply;
pub mod and_then_apply_fn;
pub mod join;
