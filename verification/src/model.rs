//! The data the generator works on: type expressions reduced to what matching
//! reads, fields, markers, and record declarations, each with a spec-level
//! view.

use vstd::prelude::*;

verus! {

/// One type argument of a named path type, reduced to its own head: the
/// argument's outer path name when the argument is itself a named path,
/// or nothing nameable otherwise.
#[derive(Debug, Clone, PartialEq, Eq)]
pub enum TypeArg {
    Named(String),
    Unnamed,
}

/// Spec view of [`TypeArg`].
pub enum TypeArgV {
    Named(Seq<char>),
    Unnamed,
}

impl View for TypeArg {
    type V = TypeArgV;

    open spec fn view(&self) -> TypeArgV {
        match self {
            TypeArg::Named(n) => TypeArgV::Named(n@),
            TypeArg::Unnamed => TypeArgV::Unnamed,
        }
    }
}

/// A field's declared type, reduced to what shape classification reads: the
/// outer path name and the heads of its type arguments, or an expression
/// with no named path form at all (a tuple, reference or function type).
#[derive(Debug, Clone, PartialEq, Eq)]
pub enum TypeExpr {
    Named { name: String, args: Vec<TypeArg> },
    Unnamed,
}

/// Spec view of [`TypeExpr`].
pub enum TypeExprV {
    Named { name: Seq<char>, args: Seq<TypeArgV> },
    Unnamed,
}

impl View for TypeExpr {
    type V = TypeExprV;

    open spec fn view(&self) -> TypeExprV {
        match self {
            TypeExpr::Named { name, args } => TypeExprV::Named {
                name: name@,
                args: args@.map_values(|a: TypeArg| a@),
            },
            TypeExpr::Unnamed => TypeExprV::Unnamed,
        }
    }
}

/// The comparison shape of a field type: the bare underlying type name and
/// whether the type is wrapped in the single-level optional container.
#[derive(Debug, Clone, PartialEq, Eq)]
pub struct Shape {
    pub base_name: String,
    pub is_optional: bool,
}

/// Spec view of [`Shape`].
pub struct ShapeV {
    pub base_name: Seq<char>,
    pub is_optional: bool,
}

impl View for Shape {
    type V = ShapeV;

    open spec fn view(&self) -> ShapeV {
        ShapeV { base_name: self.base_name@, is_optional: self.is_optional }
    }
}

/// A named, typed field of a record declaration.
#[derive(Debug, Clone, PartialEq, Eq)]
pub struct Field {
    pub name: String,
    pub ty: TypeExpr,
}

/// Spec view of [`Field`].
pub struct FieldV {
    pub name: Seq<char>,
    pub ty: TypeExprV,
}

impl View for Field {
    type V = FieldV;

    open spec fn view(&self) -> FieldV {
        FieldV { name: self.name@, ty: self.ty@ }
    }
}

/// A marker attached to a declaration: the marker's own name and the
/// identifiers listed inside its argument group.
#[derive(Debug, Clone, PartialEq, Eq)]
pub struct Marker {
    pub name: String,
    pub idents: Vec<String>,
}

/// Spec view of [`Marker`].
pub struct MarkerV {
    pub name: Seq<char>,
    pub idents: Seq<Seq<char>>,
}

impl View for Marker {
    type V = MarkerV;

    open spec fn view(&self) -> MarkerV {
        MarkerV { name: self.name@, idents: self.idents@.map_values(|s: String| s@) }
    }
}

/// A record declaration: a name, the declared fields in order, and the
/// markers attached to the declaration.
#[derive(Debug, Clone, PartialEq, Eq)]
pub struct Declaration {
    pub name: String,
    pub fields: Vec<Field>,
    pub markers: Vec<Marker>,
}

/// Spec view of [`Declaration`].
pub struct DeclarationV {
    pub name: Seq<char>,
    pub fields: Seq<FieldV>,
    pub markers: Seq<MarkerV>,
}

impl View for Declaration {
    type V = DeclarationV;

    open spec fn view(&self) -> DeclarationV {
        DeclarationV {
            name: self.name@,
            fields: self.fields@.map_values(|f: Field| f@),
            markers: self.markers@.map_values(|m: Marker| m@),
        }
    }
}

/// One item of a scope: a record declaration with named fields, or any other
/// kind of item, which matching ignores entirely.
#[derive(Debug, Clone, PartialEq, Eq)]
pub enum ScopeItem {
    Record(Declaration),
    Other,
}

/// Spec view of [`ScopeItem`].
pub enum ScopeItemV {
    Record(DeclarationV),
    Other,
}

impl View for ScopeItem {
    type V = ScopeItemV;

    open spec fn view(&self) -> ScopeItemV {
        match self {
            ScopeItem::Record(d) => ScopeItemV::Record(d@),
            ScopeItem::Other => ScopeItemV::Other,
        }
    }
}

/// Whether some field in `fields` bears `name`.
pub open spec fn has_field_named(fields: Seq<FieldV>, name: Seq<char>) -> bool {
    exists|i: int| 0 <= i < fields.len() && fields[i].name == name
}

/// Whether the fields of a declaration all bear distinct names.
pub open spec fn fields_unique(fields: Seq<FieldV>) -> bool {
    forall|i: int, j: int|
        0 <= i < j < fields.len() ==> fields[i].name != fields[j].name
}

} // verus!
