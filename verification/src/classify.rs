//! Shape classification: from a field's declared type expression to its
//! comparison shape, or to nothing when the expression has no named path
//! form.

use vstd::prelude::*;

use crate::model::{Shape, ShapeV, TypeArg, TypeArgV, TypeExpr, TypeExprV};

verus! {

/// The name of the single-level optional wrapper.
pub open spec fn optional_name() -> Seq<char> {
    "Option"@
}

/// The shape of a type expression.
///
/// A named path type whose outer name is not the optional wrapper's name
/// classifies as its own outer name, not optional.  The optional wrapper
/// applied to exactly one named path argument classifies as that argument's
/// outer name, optional; the argument is not unwrapped any further, so a
/// doubly wrapped optional classifies as the wrapper's own name, optional.
/// Anything else has no shape and is never matched.
pub open spec fn spec_classify(t: TypeExprV) -> Option<ShapeV> {
    match t {
        TypeExprV::Named { name, args } => {
            if name == optional_name() {
                if args.len() == 1 {
                    match args[0] {
                        TypeArgV::Named(inner) => Some(
                            ShapeV { base_name: inner, is_optional: true },
                        ),
                        TypeArgV::Unnamed => None,
                    }
                } else {
                    None
                }
            } else {
                Some(ShapeV { base_name: name, is_optional: false })
            }
        },
        TypeExprV::Unnamed => None,
    }
}

/// The view of an optional shape, for stating what exec classification
/// returns.
pub open spec fn shape_opt_view(r: Option<Shape>) -> Option<ShapeV> {
    match r {
        Some(s) => Some(s@),
        None => None,
    }
}

/// Classify a type expression into its comparison shape.
pub fn classify(t: &TypeExpr) -> (r: Option<Shape>)
    ensures
        shape_opt_view(r) == spec_classify(t@),
{
    match t {
        TypeExpr::Named { name, args } => {
            let wrapper: String = "Option".to_owned();
            if *name == wrapper {
                if args.len() == 1 {
                    match &args[0] {
                        TypeArg::Named(inner) => Some(
                            Shape { base_name: inner.clone(), is_optional: true },
                        ),
                        TypeArg::Unnamed => None,
                    }
                } else {
                    None
                }
            } else {
                Some(Shape { base_name: name.clone(), is_optional: false })
            }
        },
        TypeExpr::Unnamed => None,
    }
}

/// A doubly wrapped optional classifies by the outer wrapper alone: its base
/// name is the wrapper's own name and its optional flag is set, so two such
/// fields compare as optional-to-optional.
pub proof fn lemma_double_optional_outer_wrapper(t: TypeExprV)
    requires
        t matches TypeExprV::Named { name, args } && name == optional_name() && args.len() == 1
            && args[0] == TypeArgV::Named(optional_name()),
    ensures
        spec_classify(t) == Some(ShapeV { base_name: optional_name(), is_optional: true }),
{
}

} // verus!
