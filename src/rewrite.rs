use vstd::prelude::*;

use crate::syntax::{is_sentinel, output_type, Block, Expr, ItemFn, ReturnType, Signature, Stmt, Type};

verus! {

/// The statements of `s` that are not the placeholder `async move {};`, in
/// their order.
pub open spec fn strip_sentinels(s: Seq<Stmt>) -> Seq<Stmt>
    decreases s.len(),
{
    if s.len() == 0 {
        s
    } else if is_sentinel(s.last()) {
        strip_sentinels(s.drop_last())
    } else {
        strip_sentinels(s.drop_last()).push(s.last())
    }
}

/// Appending a statement appends it to what is kept, unless it is a
/// placeholder.
pub proof fn lemma_strip_push(s: Seq<Stmt>, x: Stmt)
    ensures
        strip_sentinels(s.push(x)) == if is_sentinel(x) {
            strip_sentinels(s)
        } else {
            strip_sentinels(s).push(x)
        },
{
    assert(s.push(x).drop_last() =~= s);
}

/// Drops every placeholder statement `async move {};` from `stmts` and keeps
/// the others, in their order. Statements nested inside others are not looked
/// at.
pub fn remove_sentinels(stmts: Vec<Stmt>) -> (r: Vec<Stmt>)
    ensures
        r@ == strip_sentinels(stmts@),
{
    broadcast use vstd::std_specs::vec::axiom_spec_into_iter;

    let ghost s = stmts@;
    let mut r: Vec<Stmt> = Vec::new();
    for stmt in it: stmts.into_iter()
        invariant
            it.seq() == s,
            r@ == strip_sentinels(s.take(it.index())),
    {
        proof {
            assert(s.take(it.index() + 1) =~= s.take(it.index()).push(stmt));
            lemma_strip_push(s.take(it.index()), stmt);
        }
        if !stmt.is_sentinel() {
            r.push(stmt);
        }
    }
    assert(s.take(s.len() as int) =~= s);
    r
}

/// The return-type slot `-> impl std::future::Future<Output = T>`, where `T` is
/// what the slot `r` returns (`()` where it is empty).
pub open spec fn future_return(r: ReturnType) -> ReturnType {
    ReturnType::Type(Type::ImplFuture(Box::new(output_type(r))))
}

/// `b` is `{ async move { inner } }`: one block-valued `async move` expression
/// holding the statements `inner`.
pub open spec fn is_async_move_wrap(b: Block, inner: Seq<Stmt>) -> bool {
    &&& b.stmts@.len() == 1
    &&& b.stmts@[0] matches Stmt::Expr { expr: Expr::Async { capture, block }, semi }
    &&& capture
    &&& !semi
    &&& block.stmts@ == inner
}

/// Turns the return-type slot of a function returning `T` into one returning
/// an opaque future whose output is `T`. An empty slot counts as `()`.
pub fn future_of(output: ReturnType) -> (r: ReturnType)
    ensures
        r == future_return(output),
{
    let t = match output {
        ReturnType::Default => Type::Unit,
        ReturnType::Type(t) => t,
    };
    ReturnType::Type(Type::ImplFuture(Box::new(t)))
}

/// Makes `block` the body of a fresh `async move` block, without its
/// placeholder statements, and returns the block that holds only that
/// expression.
pub fn wrap_in_async_move(block: Block) -> (r: Block)
    ensures
        is_async_move_wrap(r, strip_sentinels(block.stmts@)),
{
    let inner = Block { stmts: remove_sentinels(block.stmts) };
    let mut stmts: Vec<Stmt> = Vec::new();
    stmts.push(Stmt::Expr { expr: Expr::Async { capture: true, block: inner }, semi: false });
    Block { stmts }
}

/// Rewrites `item` into a function that returns
/// `impl std::future::Future<Output = T>`, where `T` is its former return type
/// (`()` where none was written). The former body, less its top-level
/// `async move {};` placeholders, becomes the body of an `async move` block,
/// which is the new body's only expression. Attributes, visibility, name,
/// generics, parameters and `where` clause stay as they were.
pub fn async_move_trait(item: ItemFn) -> (r: ItemFn)
    ensures
        r.sig.output == future_return(item.sig.output),
        is_async_move_wrap(r.block, strip_sentinels(item.block.stmts@)),
        r.attrs == item.attrs,
        r.vis == item.vis,
        r.sig.qualifiers == item.sig.qualifiers,
        r.sig.ident == item.sig.ident,
        r.sig.generics == item.sig.generics,
        r.sig.inputs == item.sig.inputs,
        r.sig.where_clause == item.sig.where_clause,
{
    let ItemFn { attrs, vis, sig, block } = item;
    let sig = Signature { output: future_of(sig.output), ..sig };
    ItemFn { attrs, vis, sig, block: wrap_in_async_move(block) }
}

} // verus!
