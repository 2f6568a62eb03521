use vstd::prelude::*;
use crate::ast::{Expr, ExprKind, Param};
use crate::types::{Ty, is_unit_type, spec_is_unit_ty};

verus! {

/// An expression evaluates to "no value" exactly when its type is
/// unit-like.
pub open spec fn spec_is_unit_expression(e: Expr) -> bool {
    spec_is_unit_ty(e.ty)
}

/// Classifies an expression by its evaluated type alone.
pub fn is_unit_expression(expr: &Expr) -> (r: bool)
    ensures
        r == spec_is_unit_expression(*expr),
{
    is_unit_type(&expr.ty)
}

/// An expression denotes a unit function exactly when its type is a named
/// function's whose signature resolved to a concrete one with a unit-like
/// declared return type. An unresolved (generic) signature never
/// classifies: the rule stays conservative there.
pub open spec fn spec_is_unit_function(e: Expr) -> bool {
    match e.ty {
        Ty::FnDef { ret } => match ret {
            Some(t) => spec_is_unit_ty(*t),
            None => false,
        },
        _ => false,
    }
}

/// Callable Classifier: decides whether an expression denotes a named
/// function value whose declared return type carries no value.
pub fn is_unit_function(expr: &Expr) -> (r: bool)
    ensures
        r == spec_is_unit_function(*expr),
{
    match &expr.ty {
        Ty::FnDef { ret } => match ret {
            Some(t) => is_unit_type(&*t),
            None => false,
        },
        _ => false,
    }
}

/// The parameter binding and body a closure yields to the rule: present
/// exactly when the expression is an inline closure with one declared
/// parameter whose body evaluates to "no value".
pub open spec fn spec_unit_closure(e: Expr) -> Option<(Param, Expr)> {
    match e.kind {
        ExprKind::Closure { params, body } => if params@.len() == 1
            && spec_is_unit_ty(body.ty) {
            Some((params@[0], *body))
        } else {
            None
        },
        _ => None,
    }
}

/// Closure Unit-Return Detector: on an inline closure with exactly one
/// declared parameter and a unit-like body, hands back the parameter
/// binding and the body expression; on any other shape, nothing.
pub fn unit_closure<'a>(expr: &'a Expr) -> (r: Option<(Param, &'a Expr)>)
    ensures
        match r {
            Some(p) => spec_unit_closure(*expr) == Some((p.0, *p.1)),
            None => spec_unit_closure(*expr) is None,
        },
{
    match &expr.kind {
        ExprKind::Closure { params, body } => {
            if params.len() == 1 && is_unit_expression(&*body) {
                let binding = params[0];
                Some((binding, &*body))
            } else {
                None
            }
        },
        _ => None,
    }
}

} // verus!
