use vstd::prelude::*;
use vstd::string::StringExecFns;

verus! {

/// A type descriptor: the shape the external type system reports for a
/// type, reduced to the data this rule reads.
pub enum Ty {
    /// A tuple (or tuple-record) type with the given number of fields;
    /// the empty tuple is the unit type.
    Tuple { arity: usize },
    /// The uninhabited never type.
    Never,
    /// The type of a reference to a named function. `ret` holds the
    /// declared return type when the signature resolves to a concrete,
    /// non-generic one, and is `None` while unresolved bound type
    /// variables remain.
    FnDef { ret: Option<Box<Ty>> },
    /// A nominal type, identified by its fully qualified path.
    Adt { path: String },
    /// Every other shape of type.
    Other,
}

/// The two container shapes the rule fires on, mutually exclusive by
/// construction: the "present value or absence" shape and the "success
/// value or error value" shape.
#[derive(Clone, Copy, PartialEq, Eq, Structural, Debug)]
pub enum ContainerKind {
    Optional,
    ResultLike,
}

/// A type carries no meaningful value exactly when it is the empty tuple
/// or the never type.
pub open spec fn spec_is_unit_ty(t: Ty) -> bool {
    match t {
        Ty::Tuple { arity } => arity == 0,
        Ty::Never => true,
        _ => false,
    }
}

/// Type Classifier: decides whether a type denotes "no value". An empty
/// tuple or the never type classifies as unit-like; every other shape,
/// a non-empty tuple included, does not.
pub fn is_unit_type(ty: &Ty) -> (r: bool)
    ensures
        r == spec_is_unit_ty(*ty),
{
    match ty {
        Ty::Tuple { arity } => *arity == 0,
        Ty::Never => true,
        _ => false,
    }
}

/// The container kind a type resolves to: a nominal match against the two
/// known container paths, and `None` for everything else.
pub open spec fn spec_container_kind(t: Ty) -> Option<ContainerKind> {
    match t {
        Ty::Adt { path } => if path@ == "core::option::Option"@ {
            Some(ContainerKind::Optional)
        } else if path@ == "core::result::Result"@ {
            Some(ContainerKind::ResultLike)
        } else {
            None
        },
        _ => None,
    }
}

/// Container-Kind Resolver: matches the receiver's type against the two
/// known container shapes by fully qualified name. Anything else yields
/// `None`, on which the rule skips the statement.
pub fn resolve_container_kind(ty: &Ty) -> (r: Option<ContainerKind>)
    ensures
        r == spec_container_kind(*ty),
{
    match ty {
        Ty::Adt { path } => {
            let optional_path = String::from_str("core::option::Option");
            if *path == optional_path {
                Some(ContainerKind::Optional)
            } else {
                let result_path = String::from_str("core::result::Result");
                if *path == result_path {
                    Some(ContainerKind::ResultLike)
                } else {
                    None
                }
            }
        },
        _ => None,
    }
}

} // verus!
