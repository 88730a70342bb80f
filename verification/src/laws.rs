//! The laws of the generator, stated over the spec-level model and proved
//! once for all scopes: one routine per ordered pair, the four copy
//! policies' runtime effect, the silence on unshared fields, and the
//! outer-wrapper reading of a doubly wrapped optional.

use vstd::prelude::*;

use crate::classify::{optional_name, spec_classify};
use crate::model::{
    DeclarationV, FieldV, ScopeItemV, TypeArgV, TypeExprV, fields_unique, has_field_named,
};
use crate::record::{
    FieldValueV, RecordV, ValueV, record_conforms, record_wf, spec_apply_action,
    spec_apply_actions_from, spec_index_of, spec_index_of_from, spec_move_corresponding,
    spec_policy_effect,
};
use crate::synthesize::{
    FieldActionV, Policy, RoutineV, spec_actions, spec_actions_from, spec_field_match,
    spec_first_action, spec_first_action_from, spec_pair_routines, spec_records,
    spec_routines_inner, spec_routines_outer, spec_supports_default, spec_synthesize,
};

verus! {

/// Whether the record declarations of a scope bear distinct names.
pub open spec fn decl_names_unique(decls: Seq<DeclarationV>) -> bool {
    forall|i: int, j: int| 0 <= i < j < decls.len() ==> decls[i].name != decls[j].name
}

/// Whether a routine is the correspondence routine (or, with `construct`
/// set, the construct-from routine) for the ordered pair of names.
pub open spec fn routine_is_for(
    r: RoutineV,
    target: Seq<char>,
    source: Seq<char>,
    construct: bool,
) -> bool {
    match r {
        RoutineV::Correspondence { target: t, source: s, actions: _ } => !construct && t == target
            && s == source,
        RoutineV::ConstructFrom { target: t, source: s } => construct && t == target && s
            == source,
    }
}

/// How many routines of the given kind for the ordered pair of names stand
/// in a routine sequence.
pub open spec fn count_routines_for(
    rs: Seq<RoutineV>,
    target: Seq<char>,
    source: Seq<char>,
    construct: bool,
) -> int
    decreases rs.len(),
{
    if rs.len() == 0 {
        0
    } else {
        (if routine_is_for(rs[0], target, source, construct) {
            1int
        } else {
            0int
        }) + count_routines_for(rs.drop_first(), target, source, construct)
    }
}

/// How many routines of one kind a single pair emits for itself: one
/// correspondence routine, and one construct-from routine exactly when the
/// target supports default construction.
pub open spec fn pair_emit_count(l: DeclarationV, construct: bool) -> int {
    if construct {
        if spec_supports_default(l) {
            1int
        } else {
            0int
        }
    } else {
        1int
    }
}

proof fn lemma_count_concat(
    a: Seq<RoutineV>,
    b: Seq<RoutineV>,
    target: Seq<char>,
    source: Seq<char>,
    construct: bool,
)
    ensures
        count_routines_for(a + b, target, source, construct) == count_routines_for(
            a,
            target,
            source,
            construct,
        ) + count_routines_for(b, target, source, construct),
    decreases a.len(),
{
    if a.len() == 0 {
        assert(a + b =~= b);
    } else {
        assert((a + b).drop_first() =~= a.drop_first() + b);
        lemma_count_concat(a.drop_first(), b, target, source, construct);
    }
}

proof fn lemma_count_pair(
    l: DeclarationV,
    r: DeclarationV,
    target: Seq<char>,
    source: Seq<char>,
    construct: bool,
)
    ensures
        count_routines_for(spec_pair_routines(l, r), target, source, construct) == (
        if l.name == target && r.name == source {
            pair_emit_count(l, construct)
        } else {
            0int
        }),
{
    let pr = spec_pair_routines(l, r);
    let none = Seq::<RoutineV>::empty();
    assert(count_routines_for(none, target, source, construct) == 0);
    if spec_supports_default(l) {
        let cf = RoutineV::ConstructFrom { target: l.name, source: r.name };
        let tail = pr.drop_first();
        assert(tail =~= seq![cf]);
        assert(tail.drop_first() =~= none);
        assert(count_routines_for(tail, target, source, construct) == (if routine_is_for(
            cf,
            target,
            source,
            construct,
        ) {
            1int
        } else {
            0int
        }));
    } else {
        assert(pr.drop_first() =~= none);
    }
}

proof fn lemma_names_distinct(decls: Seq<DeclarationV>, a: int, b: int)
    requires
        decl_names_unique(decls),
        0 <= a < decls.len(),
        0 <= b < decls.len(),
        a != b,
    ensures
        decls[a].name != decls[b].name,
{
}

proof fn lemma_count_inner(decls: Seq<DeclarationV>, i: int, j: int, a: int, j0: int, construct: bool)
    requires
        decl_names_unique(decls),
        0 <= i < decls.len(),
        0 <= j < decls.len(),
        i != j,
        0 <= a < decls.len(),
        0 <= j0,
    ensures
        count_routines_for(
            spec_routines_inner(decls, a, j0),
            decls[i].name,
            decls[j].name,
            construct,
        ) == (if a == i && j0 <= j {
            pair_emit_count(decls[i], construct)
        } else {
            0int
        }),
    decreases decls.len() - j0,
{
    if j0 < decls.len() {
        lemma_count_inner(decls, i, j, a, j0 + 1, construct);
        if a != j0 {
            lemma_count_concat(
                spec_pair_routines(decls[a], decls[j0]),
                spec_routines_inner(decls, a, j0 + 1),
                decls[i].name,
                decls[j].name,
                construct,
            );
            lemma_count_pair(decls[a], decls[j0], decls[i].name, decls[j].name, construct);
            if a != i {
                lemma_names_distinct(decls, a, i);
            }
            if j0 != j {
                lemma_names_distinct(decls, j0, j);
            }
        }
    }
}

proof fn lemma_count_outer(decls: Seq<DeclarationV>, i: int, j: int, a0: int, construct: bool)
    requires
        decl_names_unique(decls),
        0 <= i < decls.len(),
        0 <= j < decls.len(),
        i != j,
        0 <= a0,
    ensures
        count_routines_for(
            spec_routines_outer(decls, a0),
            decls[i].name,
            decls[j].name,
            construct,
        ) == (if a0 <= i {
            pair_emit_count(decls[i], construct)
        } else {
            0int
        }),
    decreases decls.len() - a0,
{
    if a0 < decls.len() {
        lemma_count_outer(decls, i, j, a0 + 1, construct);
        lemma_count_inner(decls, i, j, a0, 0, construct);
        lemma_count_concat(
            spec_routines_inner(decls, a0, 0),
            spec_routines_outer(decls, a0 + 1),
            decls[i].name,
            decls[j].name,
            construct,
        );
    }
}

/// For every ordered pair of distinct record declarations of a scope with
/// distinct record names, exactly one correspondence routine for that pair
/// stands in the generated output.
pub proof fn lemma_one_correspondence_per_pair(items: Seq<ScopeItemV>, i: int, j: int)
    requires
        decl_names_unique(spec_records(items)),
        0 <= i < spec_records(items).len(),
        0 <= j < spec_records(items).len(),
        i != j,
    ensures
        count_routines_for(
            spec_synthesize(items),
            spec_records(items)[i].name,
            spec_records(items)[j].name,
            false,
        ) == 1,
{
    lemma_count_outer(spec_records(items), i, j, 0, false);
}

/// For every ordered pair of distinct record declarations of a scope with
/// distinct record names, a construct-from routine for that pair stands in
/// the generated output exactly when the target declaration supports
/// default construction; the source's capability is irrelevant.
pub proof fn lemma_construct_from_iff_default(items: Seq<ScopeItemV>, i: int, j: int)
    requires
        decl_names_unique(spec_records(items)),
        0 <= i < spec_records(items).len(),
        0 <= j < spec_records(items).len(),
        i != j,
    ensures
        count_routines_for(
            spec_synthesize(items),
            spec_records(items)[i].name,
            spec_records(items)[j].name,
            true,
        ) == (if spec_supports_default(spec_records(items)[i]) {
            1int
        } else {
            0int
        }),
{
    lemma_count_outer(spec_records(items), i, j, 0, true);
}

proof fn lemma_index_of_from_spec(fields: Seq<FieldV>, name: Seq<char>, k: int)
    requires
        0 <= k,
    ensures
        match spec_index_of_from(fields, name, k) {
            Some(i) => k <= i < fields.len() && fields[i].name == name && (forall|m: int|
                k <= m < i ==> fields[m].name != name),
            None => forall|m: int| k <= m < fields.len() ==> fields[m].name != name,
        },
    decreases fields.len() - k,
{
    if k < fields.len() && fields[k].name != name {
        lemma_index_of_from_spec(fields, name, k + 1);
    }
}

proof fn lemma_index_of_unique(fields: Seq<FieldV>, name: Seq<char>, i: int)
    requires
        fields_unique(fields),
        0 <= i < fields.len(),
        fields[i].name == name,
    ensures
        spec_index_of(fields, name) == Some(i),
{
    lemma_index_of_from_spec(fields, name, 0);
}

proof fn lemma_first_action_field(lf: FieldV, rfields: Seq<FieldV>, k: int)
    requires
        0 <= k,
    ensures
        spec_first_action_from(lf, rfields, k) matches Some(a) ==> a.field == lf.name
            && has_field_named(rfields, lf.name),
    decreases rfields.len() - k,
{
    if k < rfields.len() {
        if spec_field_match(lf, rfields[k]) is Some {
            assert(rfields[k].name == lf.name);
        } else {
            lemma_first_action_field(lf, rfields, k + 1);
        }
    }
}

proof fn lemma_first_action_via_index(lf: FieldV, rfields: Seq<FieldV>, k: int)
    requires
        fields_unique(rfields),
        0 <= k,
    ensures
        match spec_index_of_from(rfields, lf.name, k) {
            Some(si) => spec_first_action_from(lf, rfields, k) == spec_field_match(
                lf,
                rfields[si],
            ),
            None => spec_first_action_from(lf, rfields, k) is None,
        },
    decreases rfields.len() - k,
{
    if k < rfields.len() {
        if rfields[k].name == lf.name {
            if spec_field_match(lf, rfields[k]) is None {
                // no later field bears the name again, so scanning on finds
                // nothing
                lemma_index_of_from_spec(rfields, lf.name, k + 1);
                if spec_index_of_from(rfields, lf.name, k + 1) is Some {
                    let w = spec_index_of_from(rfields, lf.name, k + 1)->0;
                    assert(rfields[k].name == rfields[w].name);
                    assert(false);
                }
                lemma_first_action_via_index(lf, rfields, k + 1);
            }
        } else {
            lemma_first_action_via_index(lf, rfields, k + 1);
        }
    }
}

/// The value the correspondence routine for the two records' declarations
/// leaves in target field `k`: the matched source field read through the
/// matched policy, or the old value where nothing matches.
pub open spec fn spec_moved_value(t: RecordV, s: RecordV, k: int) -> FieldValueV {
    match spec_first_action(t.decl.fields[k], s.decl.fields) {
        Some(a) => match spec_index_of(s.decl.fields, a.field) {
            Some(si) => if 0 <= si < s.values.len() {
                spec_policy_effect(t.values[k], s.values[si], a.policy)
            } else {
                t.values[k]
            },
            None => t.values[k],
        },
        None => t.values[k],
    }
}

proof fn lemma_apply_action_effect(t: RecordV, s: RecordV, a: FieldActionV, k: int)
    requires
        record_wf(t),
        record_wf(s),
        0 <= k < t.decl.fields.len(),
    ensures
        spec_apply_action(t, s, a).decl == t.decl,
        spec_apply_action(t, s, a).values.len() == t.values.len(),
        t.decl.fields[k].name != a.field ==> spec_apply_action(t, s, a).values[k] == t.values[k],
        t.decl.fields[k].name == a.field ==> (match spec_index_of(s.decl.fields, a.field) {
            Some(si) => spec_apply_action(t, s, a).values[k] == spec_policy_effect(
                t.values[k],
                s.values[si],
                a.policy,
            ),
            None => spec_apply_action(t, s, a).values[k] == t.values[k],
        }),
{
    lemma_index_of_from_spec(t.decl.fields, a.field, 0);
    lemma_index_of_from_spec(s.decl.fields, a.field, 0);
    if t.decl.fields[k].name == a.field {
        lemma_index_of_unique(t.decl.fields, a.field, k);
    }
}

proof fn lemma_apply_shift(
    t: RecordV,
    s: RecordV,
    a: FieldActionV,
    rest: Seq<FieldActionV>,
    k: int,
)
    requires
        0 <= k <= rest.len(),
    ensures
        spec_apply_actions_from(t, s, seq![a] + rest, k + 1) == spec_apply_actions_from(
            t,
            s,
            rest,
            k,
        ),
    decreases rest.len() - k,
{
    if k < rest.len() {
        assert((seq![a] + rest)[k + 1] == rest[k]);
        lemma_apply_shift(spec_apply_action(t, s, rest[k]), s, a, rest, k + 1);
    }
}

proof fn lemma_apply_actions_from_effect(t: RecordV, s: RecordV, m: int, k: int)
    requires
        record_wf(t),
        record_wf(s),
        0 <= m <= t.decl.fields.len(),
        0 <= k < t.decl.fields.len(),
    ensures
        ({
            let res = spec_apply_actions_from(
                t,
                s,
                spec_actions_from(t.decl.fields, s.decl.fields, m),
                0,
            );
            &&& res.decl == t.decl
            &&& res.values.len() == t.values.len()
            &&& (k < m ==> res.values[k] == t.values[k])
            &&& (k >= m ==> res.values[k] == spec_moved_value(t, s, k))
        }),
    decreases t.decl.fields.len() - m,
{
    let lfields = t.decl.fields;
    let sfields = s.decl.fields;
    if m < lfields.len() {
        match spec_first_action(lfields[m], sfields) {
            None => {
                lemma_apply_actions_from_effect(t, s, m + 1, k);
                if k == m {
                    assert(spec_moved_value(t, s, k) == t.values[k]);
                }
            },
            Some(a) => {
                lemma_first_action_field(lfields[m], sfields, 0);
                lemma_index_of_from_spec(sfields, a.field, 0);
                let t1 = spec_apply_action(t, s, a);
                lemma_apply_action_effect(t, s, a, k);
                lemma_apply_action_effect(t, s, a, m);
                assert(record_wf(t1));
                let acts = spec_actions_from(lfields, sfields, m);
                let rest = spec_actions_from(lfields, sfields, m + 1);
                assert(acts == seq![a] + rest);
                assert(acts[0] == (seq![a] + rest)[0]);
                lemma_apply_shift(t1, s, a, rest, 0);
                assert(spec_apply_actions_from(t, s, acts, 0) == spec_apply_actions_from(
                    t1,
                    s,
                    rest,
                    0,
                ));
                lemma_apply_actions_from_effect(t1, s, m + 1, k);
                if k < m {
                    // untouched: field names are distinct, so the action at
                    // `m` writes elsewhere
                    assert(lfields[k].name != lfields[m].name);
                } else if k == m {
                    assert(t1.values[m] == spec_moved_value(t, s, m));
                } else {
                    assert(lfields[k].name != lfields[m].name);
                    assert(t1.values[k] == t.values[k]);
                    assert(spec_moved_value(t1, s, k) == spec_moved_value(t, s, k));
                }
            },
        }
    }
}

/// What one run of a correspondence routine does, field by field: the
/// declaration is untouched, the field count is kept, and every target
/// field holds the matched source field read through the matched policy, or
/// its old value where nothing matches.
pub proof fn theorem_routine_effect(t: RecordV, s: RecordV, k: int)
    requires
        record_wf(t),
        record_wf(s),
        0 <= k < t.decl.fields.len(),
    ensures
        spec_move_corresponding(t, s).decl == t.decl,
        spec_move_corresponding(t, s).values.len() == t.values.len(),
        spec_move_corresponding(t, s).values[k] == spec_moved_value(t, s, k),
{
    lemma_apply_actions_from_effect(t, s, 0, k);
}

/// A matched pair of plain fields: the target field is overwritten outright
/// with the source field's value.
pub proof fn lemma_plain_to_plain(t: RecordV, s: RecordV, k: int, si: int)
    requires
        record_conforms(t),
        record_conforms(s),
        0 <= k < t.decl.fields.len(),
        0 <= si < s.decl.fields.len(),
        t.decl.fields[k].name == s.decl.fields[si].name,
        (spec_classify(t.decl.fields[k].ty) matches Some(ts) && (
        spec_classify(s.decl.fields[si].ty) matches Some(ss) && !ts.is_optional && !ss.is_optional
            && ts.base_name == ss.base_name)),
    ensures
        spec_move_corresponding(t, s).values[k] == s.values[si],
{
    lemma_index_of_unique(s.decl.fields, t.decl.fields[k].name, si);
    lemma_first_action_via_index(t.decl.fields[k], s.decl.fields, 0);
    theorem_routine_effect(t, s, k);
}

/// A matched pair moving a plain source field into an optional target
/// field: the target field always becomes present, holding the source
/// field's value.
pub proof fn lemma_plain_to_optional(t: RecordV, s: RecordV, k: int, si: int)
    requires
        record_conforms(t),
        record_conforms(s),
        0 <= k < t.decl.fields.len(),
        0 <= si < s.decl.fields.len(),
        t.decl.fields[k].name == s.decl.fields[si].name,
        (spec_classify(t.decl.fields[k].ty) matches Some(ts) && (
        spec_classify(s.decl.fields[si].ty) matches Some(ss) && ts.is_optional && !ss.is_optional
            && ts.base_name == ss.base_name)),
    ensures
        s.values[si] matches FieldValueV::Plain(v) ==> spec_move_corresponding(t, s).values[k]
            == FieldValueV::Optional(Some(v)),
        s.values[si] is Plain,
{
    lemma_index_of_unique(s.decl.fields, t.decl.fields[k].name, si);
    lemma_first_action_via_index(t.decl.fields[k], s.decl.fields, 0);
    theorem_routine_effect(t, s, k);
}

/// A matched pair moving an optional source field into a plain target
/// field: an absent source leaves the target untouched; a present source
/// overwrites the target with the unwrapped value.
pub proof fn lemma_optional_to_plain(t: RecordV, s: RecordV, k: int, si: int)
    requires
        record_conforms(t),
        record_conforms(s),
        0 <= k < t.decl.fields.len(),
        0 <= si < s.decl.fields.len(),
        t.decl.fields[k].name == s.decl.fields[si].name,
        (spec_classify(t.decl.fields[k].ty) matches Some(ts) && (
        spec_classify(s.decl.fields[si].ty) matches Some(ss) && !ts.is_optional && ss.is_optional
            && ts.base_name == ss.base_name)),
    ensures
        s.values[si] == FieldValueV::Optional(None::<ValueV>) ==> spec_move_corresponding(
            t,
            s,
        ).values[k] == t.values[k],
        s.values[si] matches FieldValueV::Optional(Some(v)) ==> spec_move_corresponding(
            t,
            s,
        ).values[k] == FieldValueV::Plain(v),
        s.values[si] is Optional,
{
    lemma_index_of_unique(s.decl.fields, t.decl.fields[k].name, si);
    lemma_first_action_via_index(t.decl.fields[k], s.decl.fields, 0);
    theorem_routine_effect(t, s, k);
}

/// A matched pair of optional fields: an absent source leaves the target
/// untouched; a present source copies the whole source field across,
/// presence included.
pub proof fn lemma_optional_to_optional(t: RecordV, s: RecordV, k: int, si: int)
    requires
        record_conforms(t),
        record_conforms(s),
        0 <= k < t.decl.fields.len(),
        0 <= si < s.decl.fields.len(),
        t.decl.fields[k].name == s.decl.fields[si].name,
        (spec_classify(t.decl.fields[k].ty) matches Some(ts) && (
        spec_classify(s.decl.fields[si].ty) matches Some(ss) && ts.is_optional && ss.is_optional
            && ts.base_name == ss.base_name)),
    ensures
        s.values[si] == FieldValueV::Optional(None::<ValueV>) ==> spec_move_corresponding(
            t,
            s,
        ).values[k] == t.values[k],
        s.values[si] matches FieldValueV::Optional(Some(v)) ==> spec_move_corresponding(
            t,
            s,
        ).values[k] == s.values[si],
        s.values[si] is Optional,
{
    lemma_index_of_unique(s.decl.fields, t.decl.fields[k].name, si);
    lemma_first_action_via_index(t.decl.fields[k], s.decl.fields, 0);
    theorem_routine_effect(t, s, k);
}

proof fn lemma_actions_fields_shared_from(lfields: Seq<FieldV>, rfields: Seq<FieldV>, m: int)
    requires
        0 <= m,
    ensures
        forall|idx: int|
            0 <= idx < spec_actions_from(lfields, rfields, m).len() ==> has_field_named(
                lfields,
                #[trigger] spec_actions_from(lfields, rfields, m)[idx].field,
            ) && has_field_named(rfields, spec_actions_from(lfields, rfields, m)[idx].field),
    decreases lfields.len() - m,
{
    if m < lfields.len() {
        lemma_actions_fields_shared_from(lfields, rfields, m + 1);
        let rest = spec_actions_from(lfields, rfields, m + 1);
        match spec_first_action(lfields[m], rfields) {
            Some(a) => {
                lemma_first_action_field(lfields[m], rfields, 0);
                assert(lfields[m].name == a.field && 0 <= m < lfields.len());
                assert(has_field_named(lfields, a.field));
                assert(forall|idx: int|
                    0 <= idx < (seq![a] + rest).len() ==> (seq![a] + rest)[idx] == (if idx == 0 {
                        a
                    } else {
                        rest[idx - 1]
                    }));
            },
            None => {},
        }
    }
}

/// A field name borne by only one of the two declarations never appears in
/// any action of the pair's correspondence routine.
pub proof fn lemma_actions_only_shared_fields(lfields: Seq<FieldV>, rfields: Seq<FieldV>)
    ensures
        forall|idx: int|
            0 <= idx < spec_actions(lfields, rfields).len() ==> has_field_named(
                lfields,
                #[trigger] spec_actions(lfields, rfields)[idx].field,
            ) && has_field_named(rfields, spec_actions(lfields, rfields)[idx].field),
{
    lemma_actions_fields_shared_from(lfields, rfields, 0);
}

/// A target field whose name the source declaration does not bear is left
/// untouched by the correspondence routine.
pub proof fn lemma_unshared_field_untouched(t: RecordV, s: RecordV, k: int)
    requires
        record_wf(t),
        record_wf(s),
        0 <= k < t.decl.fields.len(),
        !has_field_named(s.decl.fields, t.decl.fields[k].name),
    ensures
        spec_move_corresponding(t, s).values[k] == t.values[k],
{
    theorem_routine_effect(t, s, k);
    lemma_first_action_field(t.decl.fields[k], s.decl.fields, 0);
}

/// Two same-named fields of doubly wrapped optional type match as an
/// optional-to-optional pair: both classify by the outer wrapper alone, and
/// the chosen policy is the conditional whole-value copy.
pub proof fn lemma_double_optional_pair(lf: FieldV, rf: FieldV)
    requires
        lf.name == rf.name,
        (lf.ty matches TypeExprV::Named { name, args } && name == optional_name() && args.len()
            == 1 && args[0] == TypeArgV::Named(optional_name())),
        (rf.ty matches TypeExprV::Named { name, args } && name == optional_name() && args.len()
            == 1 && args[0] == TypeArgV::Named(optional_name())),
    ensures
        spec_field_match(lf, rf) == Some(
            FieldActionV { field: lf.name, policy: Policy::CopyIfPresent },
        ),
{
    crate::classify::lemma_double_optional_outer_wrapper(lf.ty);
    crate::classify::lemma_double_optional_outer_wrapper(rf.ty);
}

} // verus!
