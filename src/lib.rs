//! Rewrites a function definition so that it returns an opaque future of its
//! former return type: the body moves into one `async move` block, and every
//! top-level empty `async move {};` placeholder statement is dropped.
//!
//! The syntax tree is plain tagged data. Parsing tokens into it and printing it
//! back are left to the caller.

pub mod syntax;
pub mod rewrite;
pub mod laws;

pub use rewrite::{async_move_trait, future_of, remove_sentinels, wrap_in_async_move};
pub use syntax::{Block, Expr, ItemFn, ReturnType, Signature, Stmt, Type};
