//! Field-by-field correspondence between record declarations of one scope.
//!
//! Given the declarations of a lexical scope, the library computes, for every
//! ordered pair of distinct record declarations, a conversion routine that
//! moves each same-named, same-shaped field from a source value into a target
//! value.  A field's shape is its base type name together with a flag saying
//! whether the type is wrapped in the single-level optional container; the
//! four copy policies follow from the two flags of a matched pair.  The
//! library also models the values such routines act on, so that the effect of
//! running a routine is itself specified and proved.

pub mod classify;
pub mod laws;
pub mod model;
pub mod record;
pub mod synthesize;

pub use record::MoveCorresponding;
