use vstd::prelude::*;
use crate::source::Span;
use crate::types::Ty;

verus! {

/// One formal parameter of an inline closure; `pat_span` locates the
/// pattern that binds it in the original source.
#[derive(Clone, Copy, PartialEq, Eq, Structural, Debug)]
pub struct Param {
    pub pat_span: Span,
}

/// A node of the typed syntax tree: an expression together with its
/// resolved type and its location in the original source. The tree is
/// externally owned and immutable; the rule only reads it.
pub struct Expr {
    pub kind: ExprKind,
    pub ty: Ty,
    pub span: Span,
}

/// The expression shapes the rule distinguishes. Sub-structure that the
/// rule never reads (a call's callee and arguments, a field access's base)
/// is not carried: only spans and types enter the analysis.
pub enum ExprKind {
    /// A plain call `f(a, b)`.
    Call,
    /// A method call ending a chain: `name` is the invoked method and
    /// `args` holds the receiver first, then the arguments proper.
    MethodCall { name: String, args: Vec<Expr> },
    /// A block `{ ... }`.
    BlockExpr(Block),
    /// An inline closure literal with its declared parameters and body.
    Closure { params: Vec<Param>, body: Box<Expr> },
    /// A field access `base.field`, read only for its source text.
    FieldAccess,
    /// A bare name reference, read only for its source text.
    PathRef,
    /// Every other expression shape.
    Other,
}

/// A block expression: a list of statements and an optional trailing
/// expression whose value the block evaluates to.
pub struct Block {
    pub stmts: Vec<Stmt>,
    pub tail: Option<Box<Expr>>,
}

/// A statement with its location in the original source.
pub struct Stmt {
    pub kind: StmtKind,
    pub span: Span,
}

/// The statement shapes the rule distinguishes.
pub enum StmtKind {
    /// A local binding declaration; the span is the declaration's own.
    Local(Span),
    /// An expression statement without a trailing separator.
    ExprStmt(Box<Expr>),
    /// An expression statement ended by an explicit separator.
    Semi(Box<Expr>),
    /// A declarative item in statement position.
    ItemStmt,
}

} // verus!
