use vstd::prelude::*;

verus! {

/// A type, as far as the rewrite needs to see into it.
#[derive(Debug, PartialEq, Eq)]
pub enum Type {
    /// The unit type `()`.
    Unit,
    /// `impl std::future::Future<Output = T>`.
    ImplFuture(Box<Type>),
    /// Any other type, kept as its token text.
    Verbatim(String),
}

/// The return-type slot of a signature.
#[derive(Debug, PartialEq, Eq)]
pub enum ReturnType {
    /// No `-> T` was written: the function returns `()`.
    Default,
    /// `-> T`.
    Type(Type),
}

/// A braced sequence of statements.
#[derive(Debug, PartialEq, Eq)]
pub struct Block {
    pub stmts: Vec<Stmt>,
}

/// An expression, as far as the rewrite needs to see into it.
#[derive(Debug, PartialEq, Eq)]
pub enum Expr {
    /// `async { .. }`, or `async move { .. }` when `capture` is set.
    Async { capture: bool, block: Block },
    /// Any other expression, kept as its token text.
    Verbatim(String),
}

/// A statement of a block.
#[derive(Debug, PartialEq, Eq)]
pub enum Stmt {
    /// An expression statement; `semi` tells whether a `;` ends it. Without
    /// one, the expression is the block's value.
    Expr { expr: Expr, semi: bool },
    /// Any other statement (a `let`, an item, a macro), kept as its token text.
    Verbatim(String),
}

/// Everything of a function's signature that the rewrite carries through,
/// and its return-type slot.
#[derive(Debug, PartialEq, Eq)]
pub struct Signature {
    /// `const`, `async`, `unsafe` and `extern "abi"`, as token text.
    pub qualifiers: String,
    pub ident: String,
    /// The generic parameters between `<` and `>`, as token text.
    pub generics: String,
    /// One entry per parameter, as token text.
    pub inputs: Vec<String>,
    pub output: ReturnType,
    /// The `where` clause, as token text.
    pub where_clause: String,
}

/// A free-standing function definition.
#[derive(Debug, PartialEq, Eq)]
pub struct ItemFn {
    /// The outer attributes, one entry each, as token text.
    pub attrs: Vec<String>,
    /// The visibility, as token text.
    pub vis: String,
    pub sig: Signature,
    pub block: Block,
}

/// The placeholder statement `async move {};`: an empty move-capturing async
/// block, ended by a semicolon.
pub open spec fn is_sentinel(s: Stmt) -> bool {
    &&& s matches Stmt::Expr { expr: Expr::Async { capture, block }, semi }
    &&& capture
    &&& semi
    &&& block.stmts@.len() == 0
}

/// What a return-type slot says the function returns.
pub open spec fn output_type(r: ReturnType) -> Type {
    match r {
        ReturnType::Default => Type::Unit,
        ReturnType::Type(t) => t,
    }
}

impl Stmt {
    /// Tells whether this statement is the placeholder `async move {};`.
    pub fn is_sentinel(&self) -> (r: bool)
        ensures
            r == is_sentinel(*self),
    {
        match self {
            Stmt::Expr { expr: Expr::Async { capture, block }, semi } => {
                *capture && *semi && block.stmts.len() == 0
            },
            _ => false,
        }
    }
}

} // verus!
