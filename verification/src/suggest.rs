use vstd::prelude::*;
use crate::ast::{Expr, ExprKind};
use crate::source::{snippet, spec_snippet};
use vstd::string::{StrSliceExecFns, StringExecFns};

verus! {

/// The dotted path text with every separator turned into an underscore.
pub open spec fn spec_dots_to_underscores(s: Seq<char>) -> Seq<char> {
    s.map_values(|c: char| if c == '.' { '_' } else { c })
}

/// Turns every path separator of the text into an underscore, keeping
/// every other character: `x.field` becomes `x_field`.
fn dots_to_underscores(s: &str) -> (r: String)
    ensures
        r@ == spec_dots_to_underscores(s@),
{
    let n = s.unicode_len();
    let mut out = String::new();
    let mut i: usize = 0;
    while i < n
        invariant
            i <= n,
            n == s@.len(),
            out@ == spec_dots_to_underscores(s@.take(i as int)),
        decreases n - i,
    {
        let c = s.get_char(i);
        if c == '.' {
            out.append("_");
            proof {
                reveal_strlit("_");
            }
        } else {
            let piece = s.substring_char(i, i + 1);
            out.append(piece);
        }
        proof {
            assert(out@ =~= spec_dots_to_underscores(s@.take(i + 1 as int)));
        }
        i = i + 1;
    }
    proof {
        assert(s@.take(n as int) =~= s@);
    }
    out
}

/// The binding name the suggestion uses for the mapped value: a field
/// access keeps its source text with separators turned into underscores,
/// a bare name is prefixed with an underscore, and anything else falls
/// back to a lone underscore placeholder.
pub open spec fn spec_let_binding_name(src: Seq<char>, e: Expr) -> Seq<char> {
    match e.kind {
        ExprKind::FieldAccess => spec_dots_to_underscores(spec_snippet(src, e.span, "_"@)),
        ExprKind::PathRef => "_"@ + spec_snippet(src, e.span, ""@),
        _ => "_"@,
    }
}

/// Binding Name Synthesizer: derives a readable identifier for the
/// suggested rewrite from the receiver expression. The name is cosmetic:
/// syntactically valid as a binding, with no claim to uniqueness.
pub fn let_binding_name(source: &str, var_arg: &Expr) -> (r: String)
    ensures
        r@ == spec_let_binding_name(source@, *var_arg),
{
    match &var_arg.kind {
        ExprKind::FieldAccess => dots_to_underscores(snippet(source, var_arg.span, "_")),
        ExprKind::PathRef => {
            let mut out = String::from_str("_");
            out.append(snippet(source, var_arg.span, ""));
            out
        },
        _ => String::from_str("_"),
    }
}

/// The diagnostic message for a container kind and a mapper kind.
pub open spec fn spec_suggestion_msg(function_type: Seq<char>, map_type: Seq<char>) -> Seq<char> {
    "called `map(f)` on an "@ + map_type + " value where `f` is a unit "@ + function_type
}

/// Builds the diagnostic message: which container was mapped over, and
/// whether the unit mapper was a named function or a closure.
pub fn suggestion_msg(function_type: &str, map_type: &str) -> (r: String)
    ensures
        r@ == spec_suggestion_msg(function_type@, map_type@),
{
    let mut s = String::from_str("called `map(f)` on an ");
    s.append(map_type);
    s.append(" value where `f` is a unit ");
    s.append(function_type);
    s
}

/// The rewrite for a named unit function: the mapped value is tested with
/// `if let`, and the function's own source text is kept, applied to an
/// elided argument.
pub open spec fn spec_named_fn_suggestion(
    variant: Seq<char>,
    binding: Seq<char>,
    receiver: Seq<char>,
    function: Seq<char>,
) -> Seq<char> {
    "if let "@ + variant + "("@ + binding + ") = "@ + receiver + " { "@ + function + "(...) }"@
}

/// Assembles the named-function rewrite text.
pub fn named_fn_suggestion(variant: &str, binding: &str, receiver: &str, function: &str) -> (r:
    String)
    ensures
        r@ == spec_named_fn_suggestion(variant@, binding@, receiver@, function@),
{
    let mut s = String::from_str("if let ");
    s.append(variant);
    s.append("(");
    s.append(binding);
    s.append(") = ");
    s.append(receiver);
    s.append(" { ");
    s.append(function);
    s.append("(...) }");
    s
}

/// The rewrite for a unit closure whose body reduced to a single span:
/// the closure's own parameter pattern binds the value and the reduced
/// body text stands in the braces.
pub open spec fn spec_closure_suggestion(
    variant: Seq<char>,
    binding: Seq<char>,
    receiver: Seq<char>,
    body: Seq<char>,
) -> Seq<char> {
    "if let "@ + variant + "("@ + binding + ") = "@ + receiver + " { "@ + body + " }"@
}

/// Assembles the reduced-closure rewrite text.
pub fn closure_suggestion(variant: &str, binding: &str, receiver: &str, body: &str) -> (r: String)
    ensures
        r@ == spec_closure_suggestion(variant@, binding@, receiver@, body@),
{
    let mut s = String::from_str("if let ");
    s.append(variant);
    s.append("(");
    s.append(binding);
    s.append(") = ");
    s.append(receiver);
    s.append(" { ");
    s.append(body);
    s.append(" }");
    s
}

/// The rewrite shown when the closure body was structurally too complex
/// to reduce: the body is elided.
pub open spec fn spec_elided_suggestion(
    variant: Seq<char>,
    binding: Seq<char>,
    receiver: Seq<char>,
) -> Seq<char> {
    "if let "@ + variant + "("@ + binding + ") = "@ + receiver + " { ... }"@
}

/// Assembles the elided-body rewrite text.
pub fn elided_suggestion(variant: &str, binding: &str, receiver: &str) -> (r: String)
    ensures
        r@ == spec_elided_suggestion(variant@, binding@, receiver@),
{
    let mut s = String::from_str("if let ");
    s.append(variant);
    s.append("(");
    s.append(binding);
    s.append(") = ");
    s.append(receiver);
    s.append(" { ... }");
    s
}

} // verus!
