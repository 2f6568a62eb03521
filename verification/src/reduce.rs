use vstd::prelude::*;
use crate::ast::{Expr, ExprKind, StmtKind};
use crate::classify::is_unit_expression;
use crate::source::Span;
use crate::types::spec_is_unit_ty;

verus! {

/// The minimal sub-span a unit-producing expression reduces to, or `None`
/// when no safe reduction exists. Calls are already minimal; a block is
/// peeled when it holds only a trailing expression, and collapsed to its
/// sole statement's interesting span when it holds exactly one statement;
/// every other shape, a multi-statement body above all, is left alone.
pub open spec fn spec_reduce(e: Expr) -> Option<Span>
    decreases e,
{
    if !spec_is_unit_ty(e.ty) {
        None
    } else {
        match e.kind {
            ExprKind::Call => Some(e.span),
            ExprKind::MethodCall { .. } => Some(e.span),
            ExprKind::BlockExpr(b) => match b.tail {
                Some(t) => if b.stmts@.len() == 0 {
                    spec_reduce(*t)
                } else {
                    None
                },
                None => if b.stmts@.len() == 1 {
                    match b.stmts@[0].kind {
                        StmtKind::Local(sp) => Some(sp),
                        StmtKind::ExprStmt(inner) => Some(inner.span),
                        StmtKind::Semi(_) => Some(b.stmts@[0].span),
                        StmtKind::ItemStmt => None,
                    }
                } else {
                    None
                },
            },
            _ => None,
        }
    }
}

/// Expression Reducer: given a body expression that evaluates to "no
/// value", recursively strips redundant braces and a single trailing
/// separator to find the smallest sub-span fit for the suggestion
/// template. The only collapses made are semantics-preserving: `{ X }`
/// becomes `X`, and a single-statement block becomes that statement's
/// own interesting span. Multi-statement bodies yield `None`, on which
/// the caller falls back to an elided-body suggestion.
pub fn reduce_unit_expression(expr: &Expr) -> (r: Option<Span>)
    ensures
        r == spec_reduce(*expr),
    decreases *expr,
{
    if !is_unit_expression(expr) {
        return None;
    }
    match &expr.kind {
        ExprKind::Call => Some(expr.span),
        ExprKind::MethodCall { .. } => Some(expr.span),
        ExprKind::BlockExpr(b) => match &b.tail {
            Some(t) => if b.stmts.len() == 0 {
                reduce_unit_expression(&*t)
            } else {
                None
            },
            None => if b.stmts.len() == 1 {
                let s = &b.stmts[0];
                match &s.kind {
                    StmtKind::Local(sp) => Some(*sp),
                    StmtKind::ExprStmt(inner) => Some(inner.span),
                    StmtKind::Semi(_) => Some(s.span),
                    StmtKind::ItemStmt => None,
                }
            } else {
                None
            },
        },
        _ => None,
    }
}

/// Reduction law: a trivial block — no statements, only a trailing
/// expression — reduces exactly as the expression it wraps, whenever the
/// wrapping keeps unit-likeness.
pub proof fn lemma_reduce_peels_trivial_block(wrap: Expr, inner: Expr)
    requires
        ({
            &&& wrap.kind matches ExprKind::BlockExpr(b)
            &&& b.stmts@.len() == 0
            &&& b.tail matches Some(t)
            &&& *t == inner
        }),
        spec_is_unit_ty(wrap.ty) == spec_is_unit_ty(inner.ty),
    ensures
        spec_reduce(wrap) == spec_reduce(inner),
{
    if spec_is_unit_ty(inner.ty) {
        assert(spec_reduce(wrap) == spec_reduce(inner));
    } else {
        assert(spec_reduce(wrap) is None);
        assert(spec_reduce(inner) is None);
    }
}

/// Reduction law: a unit-producing call is a fixed point of the reducer —
/// it reduces to its own span, never further.
pub proof fn lemma_reduce_call_fixed_point(e: Expr)
    requires
        e.kind is Call || e.kind is MethodCall,
        spec_is_unit_ty(e.ty),
    ensures
        spec_reduce(e) == Some(e.span),
{
}

/// Reduction law: when the reducer lands on a block's sole statement — a
/// separator-terminated statement, whose separator it keeps, or a local
/// declaration — any block wrapping that same single statement reduces to
/// the same span: the reducer does not descend further on its own output.
pub proof fn lemma_reduce_stmt_rewrap(e: Expr, rewrap: Expr)
    requires
        ({
            &&& e.kind matches ExprKind::BlockExpr(b)
            &&& rewrap.kind matches ExprKind::BlockExpr(b2)
            &&& b.stmts@.len() == 1
            &&& b.tail is None
            &&& (b.stmts@[0].kind is Semi || b.stmts@[0].kind is Local)
            &&& b2.stmts@ == b.stmts@
            &&& b2.tail is None
        }),
        spec_is_unit_ty(e.ty),
        spec_is_unit_ty(rewrap.ty),
    ensures
        spec_reduce(rewrap) == spec_reduce(e),
{
}

/// Idempotence of reduction: when the reducer lands on a call expression,
/// re-wrapping that call in an equivalent trivial block and reducing again
/// yields the very same span.
pub proof fn lemma_reduce_idempotent(orig: Expr, landed: Expr, rewrap: Expr)
    requires
        spec_reduce(orig) == Some(landed.span),
        landed.kind is Call || landed.kind is MethodCall,
        spec_is_unit_ty(landed.ty),
        ({
            &&& rewrap.kind matches ExprKind::BlockExpr(b)
            &&& b.stmts@.len() == 0
            &&& b.tail matches Some(t)
            &&& *t == landed
        }),
        spec_is_unit_ty(rewrap.ty),
    ensures
        spec_reduce(rewrap) == spec_reduce(orig),
{
    lemma_reduce_peels_trivial_block(rewrap, landed);
    lemma_reduce_call_fixed_point(landed);
}

} // verus!
