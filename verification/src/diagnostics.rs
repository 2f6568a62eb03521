use vstd::prelude::*;
use crate::source::Span;

verus! {

/// Confidence marker on a suggested edit: whether it can be applied
/// mechanically without review, or is a hint only.
#[derive(Clone, Copy, PartialEq, Eq, Structural, Debug)]
pub enum Applicability {
    MachineApplicable,
    Unspecified,
}

/// The two diagnostic categories the rule emits under, one per container
/// shape.
#[derive(Clone, Copy, PartialEq, Eq, Structural, Debug)]
pub enum LintCategory {
    OptionMapUnitFn,
    ResultMapUnitFn,
}

/// A suggested edit: replace the text under `span` with `replacement`,
/// presented under `label` and tagged with how safely it applies.
pub struct Suggestion {
    pub span: Span,
    pub label: String,
    pub replacement: String,
    pub applicability: Applicability,
}

/// The mathematical image of a `Suggestion`: its texts as character
/// sequences.
pub ghost struct SuggestionView {
    pub span: Span,
    pub label: Seq<char>,
    pub replacement: Seq<char>,
    pub applicability: Applicability,
}

impl View for Suggestion {
    type V = SuggestionView;

    open spec fn view(&self) -> SuggestionView {
        SuggestionView {
            span: self.span,
            label: self.label@,
            replacement: self.replacement@,
            applicability: self.applicability,
        }
    }
}

/// A diagnostic record: the category it falls under, the span it is
/// anchored at, its message, and the suggested edit attached to it.
pub struct Diagnostic {
    pub category: LintCategory,
    pub span: Span,
    pub message: String,
    pub suggestion: Suggestion,
}

/// The mathematical image of a `Diagnostic`.
pub ghost struct DiagnosticView {
    pub category: LintCategory,
    pub span: Span,
    pub message: Seq<char>,
    pub suggestion: SuggestionView,
}

impl View for Diagnostic {
    type V = DiagnosticView;

    open spec fn view(&self) -> DiagnosticView {
        DiagnosticView {
            category: self.category,
            span: self.span,
            message: self.message@,
            suggestion: self.suggestion@,
        }
    }
}

/// Lifts an optional diagnostic to its mathematical image.
pub open spec fn diag_opt_view(r: Option<Diagnostic>) -> Option<DiagnosticView> {
    match r {
        Some(d) => Some(d@),
        None => None,
    }
}

} // verus!
