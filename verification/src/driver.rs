use vstd::prelude::*;
use crate::ast::{Expr, ExprKind, Stmt, StmtKind};
use crate::classify::{is_unit_function, spec_is_unit_function, spec_unit_closure, unit_closure};
use crate::diagnostics::{
    Applicability, Diagnostic, DiagnosticView, LintCategory, Suggestion, SuggestionView,
    diag_opt_view,
};
use crate::reduce::{reduce_unit_expression, spec_reduce};
use crate::source::{snippet, spec_snippet};
use crate::suggest::{
    closure_suggestion, elided_suggestion, let_binding_name, named_fn_suggestion,
    spec_closure_suggestion, spec_elided_suggestion, spec_let_binding_name,
    spec_named_fn_suggestion, spec_suggestion_msg, suggestion_msg,
};
use crate::types::{ContainerKind, resolve_container_kind, spec_container_kind};
use vstd::string::StringExecFns;

verus! {

/// The container name the diagnostic message prints.
pub open spec fn spec_map_type_name(k: ContainerKind) -> Seq<char> {
    match k {
        ContainerKind::Optional => "Option"@,
        ContainerKind::ResultLike => "Result"@,
    }
}

/// The variant the suggested `if let` destructures.
pub open spec fn spec_variant_name(k: ContainerKind) -> Seq<char> {
    match k {
        ContainerKind::Optional => "Some"@,
        ContainerKind::ResultLike => "Ok"@,
    }
}

/// The diagnostic category a container kind falls under.
pub open spec fn spec_category(k: ContainerKind) -> LintCategory {
    match k {
        ContainerKind::Optional => LintCategory::OptionMapUnitFn,
        ContainerKind::ResultLike => LintCategory::ResultMapUnitFn,
    }
}

/// The receiver and mapper of an expression that ends a chain in a
/// single-argument call of the method named `map`; `None` for every other
/// expression shape.
pub open spec fn spec_map_call_parts(e: Expr) -> Option<(Expr, Expr)> {
    match e.kind {
        ExprKind::MethodCall { name, args } => if name@ == "map"@ && args@.len() == 2 {
            Some((args@[0], args@[1]))
        } else {
            None
        },
        _ => None,
    }
}

/// Chain-argument matching: recognizes a method chain ending in a
/// single-argument `map` call and hands back the receiver and the mapper
/// argument.
pub fn method_chain_args<'a>(expr: &'a Expr) -> (r: Option<(&'a Expr, &'a Expr)>)
    ensures
        match r {
            Some(p) => spec_map_call_parts(*expr) == Some((*p.0, *p.1)),
            None => spec_map_call_parts(*expr) is None,
        },
{
    match &expr.kind {
        ExprKind::MethodCall { name, args } => {
            let map_name = String::from_str("map");
            if *name == map_name && args.len() == 2 {
                Some((&args[0], &args[1]))
            } else {
                None
            }
        },
        _ => None,
    }
}

/// The diagnostic the rule produces for one `map` call site, given the
/// enclosing statement, the whole map expression, the receiver and the
/// mapper argument; `None` when the receiver matches neither container
/// shape or the mapper is neither a unit function nor a unit closure.
pub open spec fn spec_lint_map_unit_fn(
    src: Seq<char>,
    stmt: Stmt,
    expr: Expr,
    var_arg: Expr,
    fn_arg: Expr,
) -> Option<DiagnosticView> {
    match spec_container_kind(var_arg.ty) {
        None => None,
        Some(k) => if spec_is_unit_function(fn_arg) {
            Some(
                DiagnosticView {
                    category: spec_category(k),
                    span: expr.span,
                    message: spec_suggestion_msg("function"@, spec_map_type_name(k)),
                    suggestion: SuggestionView {
                        span: stmt.span,
                        label: "try this"@,
                        replacement: spec_named_fn_suggestion(
                            spec_variant_name(k),
                            spec_let_binding_name(src, var_arg),
                            spec_snippet(src, var_arg.span, "_"@),
                            spec_snippet(src, fn_arg.span, "_"@),
                        ),
                        applicability: Applicability::Unspecified,
                    },
                },
            )
        } else {
            match spec_unit_closure(fn_arg) {
                None => None,
                Some(bc) => {
                    let binding = spec_snippet(src, bc.0.pat_span, "_"@);
                    let receiver = spec_snippet(src, var_arg.span, "_"@);
                    match spec_reduce(bc.1) {
                        Some(reduced) => Some(
                            DiagnosticView {
                                category: spec_category(k),
                                span: expr.span,
                                message: spec_suggestion_msg("closure"@, spec_map_type_name(k)),
                                suggestion: SuggestionView {
                                    span: stmt.span,
                                    label: "try this"@,
                                    replacement: spec_closure_suggestion(
                                        spec_variant_name(k),
                                        binding,
                                        receiver,
                                        spec_snippet(src, reduced, "_"@),
                                    ),
                                    applicability: Applicability::MachineApplicable,
                                },
                            },
                        ),
                        None => Some(
                            DiagnosticView {
                                category: spec_category(k),
                                span: expr.span,
                                message: spec_suggestion_msg("closure"@, spec_map_type_name(k)),
                                suggestion: SuggestionView {
                                    span: stmt.span,
                                    label: "try this"@,
                                    replacement: spec_elided_suggestion(
                                        spec_variant_name(k),
                                        binding,
                                        receiver,
                                    ),
                                    applicability: Applicability::Unspecified,
                                },
                            },
                        ),
                    }
                },
            }
        },
    }
}

/// Rule Driver for one recognized `map` call site. Classifies the
/// receiver, then the mapper, and assembles the diagnostic: message,
/// anchor span, and an `if let` rewrite of the whole statement. A receiver
/// matching neither container shape yields no diagnostic, whatever the
/// mapper is.
pub fn lint_map_unit_fn(
    source: &str,
    stmt: &Stmt,
    expr: &Expr,
    var_arg: &Expr,
    fn_arg: &Expr,
) -> (r: Option<Diagnostic>)
    ensures
        diag_opt_view(r) == spec_lint_map_unit_fn(source@, *stmt, *expr, *var_arg, *fn_arg),
        spec_container_kind(var_arg.ty) is None ==> r is None,
{
    let kind = match resolve_container_kind(&var_arg.ty) {
        Some(k) => k,
        None => {
            return None;
        },
    };
    let (map_type, variant, lint): (&str, &str, LintCategory) = match kind {
        ContainerKind::Optional => ("Option", "Some", LintCategory::OptionMapUnitFn),
        ContainerKind::ResultLike => ("Result", "Ok", LintCategory::ResultMapUnitFn),
    };
    if is_unit_function(fn_arg) {
        let msg = suggestion_msg("function", map_type);
        let binding = let_binding_name(source, var_arg);
        let replacement = named_fn_suggestion(
            variant,
            binding.as_str(),
            snippet(source, var_arg.span, "_"),
            snippet(source, fn_arg.span, "_"),
        );
        Some(
            Diagnostic {
                category: lint,
                span: expr.span,
                message: msg,
                suggestion: Suggestion {
                    span: stmt.span,
                    label: String::from_str("try this"),
                    replacement,
                    applicability: Applicability::Unspecified,
                },
            },
        )
    } else {
        match unit_closure(fn_arg) {
            Some((binding, closure_expr)) => {
                let msg = suggestion_msg("closure", map_type);
                let binding_snip = snippet(source, binding.pat_span, "_");
                let receiver_snip = snippet(source, var_arg.span, "_");
                match reduce_unit_expression(closure_expr) {
                    Some(reduced_span) => {
                        let replacement = closure_suggestion(
                            variant,
                            binding_snip,
                            receiver_snip,
                            snippet(source, reduced_span, "_"),
                        );
                        Some(
                            Diagnostic {
                                category: lint,
                                span: expr.span,
                                message: msg,
                                suggestion: Suggestion {
                                    span: stmt.span,
                                    label: String::from_str("try this"),
                                    replacement,
                                    applicability: Applicability::MachineApplicable,
                                },
                            },
                        )
                    },
                    None => {
                        let replacement = elided_suggestion(variant, binding_snip, receiver_snip);
                        Some(
                            Diagnostic {
                                category: lint,
                                span: expr.span,
                                message: msg,
                                suggestion: Suggestion {
                                    span: stmt.span,
                                    label: String::from_str("try this"),
                                    replacement,
                                    applicability: Applicability::Unspecified,
                                },
                            },
                        )
                    },
                }
            },
            None => None,
        }
    }
}

/// What the rule produces for one statement: a diagnostic exactly when
/// the statement lies outside macro-expanded source, is an
/// expression-statement whose outermost expression ends a chain in a
/// single-argument `map` call, and that call site matches by
/// `spec_lint_map_unit_fn`.
pub open spec fn spec_check_stmt(src: Seq<char>, stmt: Stmt) -> Option<DiagnosticView> {
    if stmt.span.from_expansion {
        None
    } else {
        match stmt.kind {
            StmtKind::Semi(e) => match spec_map_call_parts(*e) {
                Some(p) => spec_lint_map_unit_fn(src, stmt, *e, p.0, p.1),
                None => None,
            },
            _ => None,
        }
    }
}

/// Entry point: analyzes one statement against the original source text.
/// A statement that came out of macro expansion is skipped unconditionally
/// — the rule never analyzes generated code it cannot reliably re-span.
pub fn check_stmt(source: &str, stmt: &Stmt) -> (r: Option<Diagnostic>)
    ensures
        diag_opt_view(r) == spec_check_stmt(source@, *stmt),
        stmt.span.from_expansion ==> r is None,
{
    if stmt.span.from_expansion {
        return None;
    }
    match &stmt.kind {
        StmtKind::Semi(expr) => match method_chain_args(&*expr) {
            Some((var_arg, fn_arg)) => lint_map_unit_fn(source, stmt, &*expr, var_arg, fn_arg),
            None => None,
        },
        _ => None,
    }
}

} // verus!
