//! Correspondence synthesis: for every ordered pair of distinct record
//! declarations in a scope, the routine that moves each same-named,
//! same-shaped field from a source value into a target value, and, for
//! declarations that support default construction, a secondary routine that
//! builds a default target and delegates to the first.

use vstd::prelude::*;

use crate::classify::{classify, spec_classify};
use crate::model::{Declaration, DeclarationV, Field, FieldV, MarkerV, ScopeItem, ScopeItemV};

verus! {

/// The copy policy of a matched field pair, chosen by the pair
/// (target is optional, source is optional) of shape flags.
#[derive(Debug, Clone, Copy, PartialEq, Eq, Structural)]
pub enum Policy {
    /// Neither side optional: the target field is overwritten outright.
    Direct,
    /// Target optional, source plain: the target field always becomes
    /// present, holding the source value.
    Wrap,
    /// Target plain, source optional: the target field is overwritten with
    /// the inner value only when the source field is present.
    UnwrapIfPresent,
    /// Both optional: the whole source field, presence included, is copied
    /// across only when the source field is present.
    CopyIfPresent,
}

/// One emitted action of a generated routine: the matched field's name and
/// the copy policy chosen for the pair.
#[derive(Debug, Clone, PartialEq, Eq)]
pub struct FieldAction {
    pub field: String,
    pub policy: Policy,
}

/// Spec view of [`FieldAction`].
pub struct FieldActionV {
    pub field: Seq<char>,
    pub policy: Policy,
}

impl View for FieldAction {
    type V = FieldActionV;

    open spec fn view(&self) -> FieldActionV {
        FieldActionV { field: self.field@, policy: self.policy }
    }
}

/// A generated routine for an ordered pair of declarations: either the
/// correspondence routine itself, with its ordered field actions, or the
/// secondary construct-from routine that builds a default target and
/// delegates to the correspondence routine of the same pair.
#[derive(Debug, Clone, PartialEq, Eq)]
pub enum Routine {
    Correspondence { target: String, source: String, actions: Vec<FieldAction> },
    ConstructFrom { target: String, source: String },
}

/// Spec view of [`Routine`].
pub enum RoutineV {
    Correspondence { target: Seq<char>, source: Seq<char>, actions: Seq<FieldActionV> },
    ConstructFrom { target: Seq<char>, source: Seq<char> },
}

impl View for Routine {
    type V = RoutineV;

    open spec fn view(&self) -> RoutineV {
        match self {
            Routine::Correspondence { target, source, actions } => RoutineV::Correspondence {
                target: target@,
                source: source@,
                actions: actions@.map_values(|a: FieldAction| a@),
            },
            Routine::ConstructFrom { target, source } => RoutineV::ConstructFrom {
                target: target@,
                source: source@,
            },
        }
    }
}

/// The policy for a matched pair of shape flags, read as
/// (target is optional, source is optional).
pub open spec fn spec_policy(target_optional: bool, source_optional: bool) -> Policy {
    if !target_optional && !source_optional {
        Policy::Direct
    } else if target_optional && !source_optional {
        Policy::Wrap
    } else if !target_optional && source_optional {
        Policy::UnwrapIfPresent
    } else {
        Policy::CopyIfPresent
    }
}

/// The action for a target field held against one source field: an action
/// exactly when the names are equal, both types classify, and the base names
/// of the two shapes are equal.
pub open spec fn spec_field_match(lf: FieldV, rf: FieldV) -> Option<FieldActionV> {
    if lf.name == rf.name {
        match (spec_classify(lf.ty), spec_classify(rf.ty)) {
            (Some(ls), Some(rs)) => {
                if ls.base_name == rs.base_name {
                    Some(
                        FieldActionV {
                            field: lf.name,
                            policy: spec_policy(ls.is_optional, rs.is_optional),
                        },
                    )
                } else {
                    None
                }
            },
            _ => None,
        }
    } else {
        None
    }
}

/// The action for a target field against the source fields from index `j`
/// on: the first structural match wins and scanning stops there.
pub open spec fn spec_first_action_from(lf: FieldV, rfields: Seq<FieldV>, j: int) -> Option<
    FieldActionV,
>
    decreases rfields.len() - j,
{
    if 0 <= j < rfields.len() {
        match spec_field_match(lf, rfields[j]) {
            Some(a) => Some(a),
            None => spec_first_action_from(lf, rfields, j + 1),
        }
    } else {
        None
    }
}

/// The action for a target field against a source declaration's fields.
pub open spec fn spec_first_action(lf: FieldV, rfields: Seq<FieldV>) -> Option<FieldActionV> {
    spec_first_action_from(lf, rfields, 0)
}

/// The ordered actions of the correspondence routine for a pair of field
/// lists, for the target fields from index `k` on: one action per target
/// field that matches, in the target's field declaration order.
pub open spec fn spec_actions_from(lfields: Seq<FieldV>, rfields: Seq<FieldV>, k: int) -> Seq<
    FieldActionV,
>
    decreases lfields.len() - k,
{
    if 0 <= k < lfields.len() {
        let rest = spec_actions_from(lfields, rfields, k + 1);
        match spec_first_action(lfields[k], rfields) {
            Some(a) => seq![a] + rest,
            None => rest,
        }
    } else {
        Seq::empty()
    }
}

/// The ordered actions of the correspondence routine for a pair of field
/// lists.
pub open spec fn spec_actions(lfields: Seq<FieldV>, rfields: Seq<FieldV>) -> Seq<FieldActionV> {
    spec_actions_from(lfields, rfields, 0)
}

/// The name of the marker group that carries capability requests.
pub open spec fn marker_group_name() -> Seq<char> {
    "derive"@
}

/// The identifier that requests default construction.
pub open spec fn default_request_name() -> Seq<char> {
    "Default"@
}

/// Whether one marker requests default construction: the marker bears the
/// recognized group name and lists the recognized identifier, by literal
/// spelling.
pub open spec fn spec_marker_requests_default(m: MarkerV) -> bool {
    m.name == marker_group_name() && exists|i: int|
        0 <= i < m.idents.len() && m.idents[i] == default_request_name()
}

/// Whether a declaration supports default construction: some attached marker
/// requests it.
pub open spec fn spec_supports_default(d: DeclarationV) -> bool {
    exists|i: int| 0 <= i < d.markers.len() && spec_marker_requests_default(d.markers[i])
}

/// The correspondence routine for the ordered pair `(l, r)`, with `l` the
/// target and `r` the source.
pub open spec fn spec_correspondence(l: DeclarationV, r: DeclarationV) -> RoutineV {
    RoutineV::Correspondence {
        target: l.name,
        source: r.name,
        actions: spec_actions(l.fields, r.fields),
    }
}

/// The routines emitted for the ordered pair `(l, r)`: the correspondence
/// routine, followed by the construct-from routine exactly when the target
/// declaration supports default construction.
pub open spec fn spec_pair_routines(l: DeclarationV, r: DeclarationV) -> Seq<RoutineV> {
    if spec_supports_default(l) {
        seq![
            spec_correspondence(l, r),
            RoutineV::ConstructFrom { target: l.name, source: r.name },
        ]
    } else {
        seq![spec_correspondence(l, r)]
    }
}

/// The record declarations of a scope from index `k` on, in scope order;
/// every other kind of item is ignored.
pub open spec fn spec_records_from(items: Seq<ScopeItemV>, k: int) -> Seq<DeclarationV>
    decreases items.len() - k,
{
    if 0 <= k < items.len() {
        let rest = spec_records_from(items, k + 1);
        match items[k] {
            ScopeItemV::Record(d) => seq![d] + rest,
            ScopeItemV::Other => rest,
        }
    } else {
        Seq::empty()
    }
}

/// The record declarations of a scope, in scope order.
pub open spec fn spec_records(items: Seq<ScopeItemV>) -> Seq<DeclarationV> {
    spec_records_from(items, 0)
}

/// The routines for target `decls[i]` against the sources from index `j` on,
/// the self pair excluded.
pub open spec fn spec_routines_inner(decls: Seq<DeclarationV>, i: int, j: int) -> Seq<RoutineV>
    decreases decls.len() - j,
{
    if 0 <= j < decls.len() && 0 <= i < decls.len() {
        let rest = spec_routines_inner(decls, i, j + 1);
        if i == j {
            rest
        } else {
            spec_pair_routines(decls[i], decls[j]) + rest
        }
    } else {
        Seq::empty()
    }
}

/// The routines for the targets from index `i` on, each against every other
/// declaration.
pub open spec fn spec_routines_outer(decls: Seq<DeclarationV>, i: int) -> Seq<RoutineV>
    decreases decls.len() - i,
{
    if 0 <= i < decls.len() {
        spec_routines_inner(decls, i, 0) + spec_routines_outer(decls, i + 1)
    } else {
        Seq::empty()
    }
}

/// The whole output of one generation pass over a scope: for every ordered
/// pair of distinct record declarations, the correspondence routine, and the
/// construct-from routine where the target supports default construction, in
/// target-major order.
pub open spec fn spec_synthesize(items: Seq<ScopeItemV>) -> Seq<RoutineV> {
    spec_routines_outer(spec_records(items), 0)
}

/// The view of an optional field action, for stating what exec matching
/// returns.
pub open spec fn action_opt_view(r: Option<FieldAction>) -> Option<FieldActionV> {
    match r {
        Some(a) => Some(a@),
        None => None,
    }
}

/// The views of a vector of actions.
pub open spec fn actions_view(actions: Seq<FieldAction>) -> Seq<FieldActionV> {
    actions.map_values(|a: FieldAction| a@)
}

/// The views of a vector of routines.
pub open spec fn routines_view(routines: Seq<Routine>) -> Seq<RoutineV> {
    routines.map_values(|r: Routine| r@)
}

/// The views of a vector of scope items.
pub open spec fn items_view(items: Seq<ScopeItem>) -> Seq<ScopeItemV> {
    items.map_values(|it: ScopeItem| it@)
}

/// Match one target field against one source field.
pub fn field_match(lf: &Field, rf: &Field) -> (r: Option<FieldAction>)
    ensures
        action_opt_view(r) == spec_field_match(lf@, rf@),
{
    if lf.name == rf.name {
        match (classify(&lf.ty), classify(&rf.ty)) {
            (Some(ls), Some(rs)) => {
                if ls.base_name == rs.base_name {
                    let target_optional = ls.is_optional;
                    let source_optional = rs.is_optional;
                    let policy: Policy = if !target_optional && !source_optional {
                        Policy::Direct
                    } else if target_optional && !source_optional {
                        Policy::Wrap
                    } else if !target_optional && source_optional {
                        Policy::UnwrapIfPresent
                    } else {
                        Policy::CopyIfPresent
                    };
                    Some(FieldAction { field: lf.name.clone(), policy })
                } else {
                    None
                }
            },
            _ => None,
        }
    } else {
        None
    }
}

/// The action for a target field against a source declaration's fields: the
/// first structural match wins.
pub fn first_action(lf: &Field, rfields: &Vec<Field>) -> (r: Option<FieldAction>)
    ensures
        action_opt_view(r) == spec_first_action(lf@, rfields@.map_values(|f: Field| f@)),
{
    let ghost rfields_v = rfields@.map_values(|f: Field| f@);
    let mut j: usize = 0;
    while j < rfields.len()
        invariant
            0 <= j <= rfields.len(),
            rfields_v == rfields@.map_values(|f: Field| f@),
            spec_first_action(lf@, rfields_v) == spec_first_action_from(lf@, rfields_v, j as int),
        decreases rfields.len() - j,
    {
        let m = field_match(lf, &rfields[j]);
        if m.is_some() {
            return m;
        }
        j = j + 1;
    }
    None
}

/// The ordered actions of the correspondence routine for a pair of
/// declarations' field lists.
pub fn actions_for(lfields: &Vec<Field>, rfields: &Vec<Field>) -> (actions: Vec<FieldAction>)
    ensures
        actions_view(actions@) == spec_actions(
            lfields@.map_values(|f: Field| f@),
            rfields@.map_values(|f: Field| f@),
        ),
{
    let ghost lfields_v = lfields@.map_values(|f: Field| f@);
    let ghost rfields_v = rfields@.map_values(|f: Field| f@);
    let mut actions: Vec<FieldAction> = Vec::new();
    let mut k: usize = 0;
    while k < lfields.len()
        invariant
            0 <= k <= lfields.len(),
            lfields_v == lfields@.map_values(|f: Field| f@),
            rfields_v == rfields@.map_values(|f: Field| f@),
            spec_actions(lfields_v, rfields_v) == actions_view(actions@) + spec_actions_from(
                lfields_v,
                rfields_v,
                k as int,
            ),
        decreases lfields.len() - k,
    {
        match first_action(&lfields[k], rfields) {
            Some(a) => {
                let ghost prior = actions_view(actions@);
                let ghost av = a@;
                actions.push(a);
                proof {
                    assert(actions_view(actions@) =~= prior + seq![av]);
                    assert(prior + (seq![av] + spec_actions_from(lfields_v, rfields_v, k + 1))
                        =~= (prior + seq![av]) + spec_actions_from(lfields_v, rfields_v, k + 1));
                }
            },
            None => {},
        }
        k = k + 1;
    }
    proof {
        assert(actions_view(actions@) + spec_actions_from(lfields_v, rfields_v, k as int)
            =~= actions_view(actions@));
    }
    actions
}

/// Whether a declaration supports default construction, detected by literal
/// inspection of its markers.
pub fn supports_default(d: &Declaration) -> (b: bool)
    ensures
        b == spec_supports_default(d@),
{
    let group: String = "derive".to_owned();
    let request: String = "Default".to_owned();
    let mut i: usize = 0;
    while i < d.markers.len()
        invariant
            0 <= i <= d.markers.len(),
            group@ == marker_group_name(),
            request@ == default_request_name(),
            forall|k: int| 0 <= k < i ==> !spec_marker_requests_default(d@.markers[k]),
        decreases d.markers.len() - i,
    {
        let marker = &d.markers[i];
        if marker.name == group {
            let mut j: usize = 0;
            while j < marker.idents.len()
                invariant
                    0 <= i < d.markers.len(),
                    0 <= j <= marker.idents.len(),
                    request@ == default_request_name(),
                    marker@ == d@.markers[i as int],
                    marker@.name == marker_group_name(),
                    forall|k: int| 0 <= k < j ==> marker@.idents[k] != default_request_name(),
                decreases marker.idents.len() - j,
            {
                if marker.idents[j] == request {
                    proof {
                        assert(marker@.idents[j as int] == default_request_name());
                        assert(spec_marker_requests_default(d@.markers[i as int]));
                        assert(spec_supports_default(d@));
                    }
                    return true;
                }
                j = j + 1;
            }
            assert(!spec_marker_requests_default(d@.markers[i as int]));
        } else {
            assert(!spec_marker_requests_default(d@.markers[i as int]));
        }
        i = i + 1;
    }
    false
}

/// The correspondence routine for the ordered pair `(l, r)`: `l` is the
/// target, `r` the source.
pub fn correspondence_routine(l: &Declaration, r: &Declaration) -> (rt: Routine)
    ensures
        rt@ == spec_correspondence(l@, r@),
{
    let actions = actions_for(&l.fields, &r.fields);
    Routine::Correspondence { target: l.name.clone(), source: r.name.clone(), actions }
}

/// The construct-from routine for the ordered pair `(l, r)`.
pub fn construct_from_routine(l: &Declaration, r: &Declaration) -> (rt: Routine)
    ensures
        rt@ == (RoutineV::ConstructFrom { target: l@.name, source: r@.name }),
{
    Routine::ConstructFrom { target: l.name.clone(), source: r.name.clone() }
}

/// One generation pass over a scope: every ordered pair of distinct record
/// declarations yields its correspondence routine, followed by the
/// construct-from routine where the target supports default construction.
pub fn synthesize(scope: &Vec<ScopeItem>) -> (routines: Vec<Routine>)
    ensures
        routines_view(routines@) == spec_synthesize(items_view(scope@)),
{
    let ghost items_v = items_view(scope@);

    let mut record_indices: Vec<usize> = Vec::new();
    let mut k: usize = 0;
    while k < scope.len()
        invariant
            0 <= k <= scope.len(),
            items_v == items_view(scope@),
            forall|p: int|
                0 <= p < record_indices.len() ==> 0 <= #[trigger] record_indices@[p] < scope.len()
                    && items_v[record_indices@[p] as int] is Record,
            spec_records(items_v) == record_indices@.map_values(
                |q: usize| items_v[q as int]->Record_0,
            ) + spec_records_from(items_v, k as int),
        decreases scope.len() - k,
    {
        let ghost prior = record_indices@.map_values(|q: usize| items_v[q as int]->Record_0);
        match &scope[k] {
            ScopeItem::Record(_) => {
                record_indices.push(k);
                proof {
                    assert(record_indices@.map_values(|q: usize| items_v[q as int]->Record_0)
                        =~= prior + seq![items_v[k as int]->Record_0]);
                    assert(prior + (seq![items_v[k as int]->Record_0] + spec_records_from(
                        items_v,
                        k + 1,
                    )) =~= (prior + seq![items_v[k as int]->Record_0]) + spec_records_from(
                        items_v,
                        k + 1,
                    ));
                }
            },
            ScopeItem::Other => {},
        }
        k = k + 1;
    }
    let ghost decls = spec_records(items_v);
    proof {
        assert(decls =~= record_indices@.map_values(|q: usize| items_v[q as int]->Record_0));
    }

    let n: usize = record_indices.len();
    let mut routines: Vec<Routine> = Vec::new();
    let mut i: usize = 0;
    while i < n
        invariant
            0 <= i <= n,
            n == record_indices.len(),
            items_v == items_view(scope@),
            forall|p: int|
                0 <= p < n ==> 0 <= #[trigger] record_indices@[p] < scope.len()
                    && items_v[record_indices@[p] as int] is Record,
            decls == record_indices@.map_values(|q: usize| items_v[q as int]->Record_0),
            spec_routines_outer(decls, 0) == routines_view(routines@) + spec_routines_outer(
                decls,
                i as int,
            ),
        decreases n - i,
    {
        proof {
            assert(routines_view(routines@) + (spec_routines_inner(decls, i as int, 0)
                + spec_routines_outer(decls, i as int + 1)) =~= (routines_view(routines@)
                + spec_routines_inner(decls, i as int, 0)) + spec_routines_outer(
                decls,
                i as int + 1,
            ));
        }
        let mut j: usize = 0;
        while j < n
            invariant
                0 <= i < n,
                0 <= j <= n,
                n == record_indices.len(),
                items_v == items_view(scope@),
                forall|p: int|
                    0 <= p < n ==> 0 <= #[trigger] record_indices@[p] < scope.len()
                        && items_v[record_indices@[p] as int] is Record,
                decls == record_indices@.map_values(|q: usize| items_v[q as int]->Record_0),
                spec_routines_outer(decls, 0) == routines_view(routines@) + spec_routines_inner(
                    decls,
                    i as int,
                    j as int,
                ) + spec_routines_outer(decls, i as int + 1),
            decreases n - j,
        {
            if i != j {
                let ghost prior = routines_view(routines@);
                let li = record_indices[i];
                let rj = record_indices[j];
                let (l, r) = match (&scope[li], &scope[rj]) {
                    (ScopeItem::Record(l), ScopeItem::Record(r)) => (l, r),
                    _ => {
                        proof {
                            assert(false);
                        }
                        unreached()
                    },
                };
                let corr = correspondence_routine(l, r);
                routines.push(corr);
                if supports_default(l) {
                    let cf = construct_from_routine(l, r);
                    routines.push(cf);
                    proof {
                        assert(routines_view(routines@) =~= prior + spec_pair_routines(
                            decls[i as int],
                            decls[j as int],
                        ));
                    }
                } else {
                    proof {
                        assert(routines_view(routines@) =~= prior + spec_pair_routines(
                            decls[i as int],
                            decls[j as int],
                        ));
                    }
                }
                proof {
                    assert(prior + (spec_pair_routines(decls[i as int], decls[j as int])
                        + spec_routines_inner(decls, i as int, j as int + 1)) =~= (prior
                        + spec_pair_routines(decls[i as int], decls[j as int]))
                        + spec_routines_inner(decls, i as int, j as int + 1));
                    assert((prior + spec_pair_routines(decls[i as int], decls[j as int])
                        + spec_routines_inner(decls, i as int, j as int + 1))
                        + spec_routines_outer(decls, i as int + 1) =~= (prior
                        + spec_pair_routines(decls[i as int], decls[j as int])) + (
                    spec_routines_inner(decls, i as int, j as int + 1) + spec_routines_outer(
                        decls,
                        i as int + 1,
                    )));
                }
            }
            j = j + 1;
        }
        proof {
            assert(routines_view(routines@) + spec_routines_inner(decls, i as int, n as int)
                =~= routines_view(routines@));
        }
        i = i + 1;
    }
    proof {
        assert(routines_view(routines@) + spec_routines_outer(decls, i as int) =~= routines_view(
            routines@,
        ));
    }
    routines
}

} // verus!
