//! The runtime contract the generated routines target: record values shaped
//! by a declaration, and the effect of running a correspondence routine on
//! them.

use vstd::prelude::*;

use crate::classify::spec_classify;
use crate::model::{Declaration, DeclarationV, Field, FieldV, fields_unique};
use crate::synthesize::{
    FieldAction, FieldActionV, Policy, actions_for, actions_view, spec_actions,
};

verus! {

/// A field's payload: the model keeps what a payload is opaque to matching,
/// holding either a machine integer or a text.
#[derive(Debug, Clone, PartialEq, Eq)]
pub enum Value {
    Int(u64),
    Text(String),
}

/// Spec view of [`Value`].
pub enum ValueV {
    Int(u64),
    Text(Seq<char>),
}

impl View for Value {
    type V = ValueV;

    open spec fn view(&self) -> ValueV {
        match self {
            Value::Int(n) => ValueV::Int(*n),
            Value::Text(s) => ValueV::Text(s@),
        }
    }
}

impl Value {
    /// An equal copy of the payload.
    pub fn duplicate(&self) -> (r: Value)
        ensures
            r@ == self@,
    {
        match self {
            Value::Int(n) => Value::Int(*n),
            Value::Text(s) => Value::Text(s.clone()),
        }
    }
}

/// The runtime state of one field: a plain payload, or an optional slot that
/// is either present or absent.
#[derive(Debug, Clone, PartialEq, Eq)]
pub enum FieldValue {
    Plain(Value),
    Optional(Option<Value>),
}

/// Spec view of [`FieldValue`].
pub enum FieldValueV {
    Plain(ValueV),
    Optional(Option<ValueV>),
}

impl View for FieldValue {
    type V = FieldValueV;

    open spec fn view(&self) -> FieldValueV {
        match self {
            FieldValue::Plain(v) => FieldValueV::Plain(v@),
            FieldValue::Optional(o) => match o {
                Some(v) => FieldValueV::Optional(Some(v@)),
                None => FieldValueV::Optional(None),
            },
        }
    }
}

impl FieldValue {
    /// An equal copy of the field state.
    pub fn duplicate(&self) -> (r: FieldValue)
        ensures
            r@ == self@,
    {
        match self {
            FieldValue::Plain(v) => FieldValue::Plain(v.duplicate()),
            FieldValue::Optional(o) => match o {
                Some(v) => FieldValue::Optional(Some(v.duplicate())),
                None => FieldValue::Optional(None),
            },
        }
    }
}

/// An instance of a record declaration: the declaration itself, and one
/// field state per declared field, in declaration order.
#[derive(Debug, Clone, PartialEq, Eq)]
pub struct Record {
    pub decl: Declaration,
    pub values: Vec<FieldValue>,
}

/// Spec view of [`Record`].
pub struct RecordV {
    pub decl: DeclarationV,
    pub values: Seq<FieldValueV>,
}

impl View for Record {
    type V = RecordV;

    open spec fn view(&self) -> RecordV {
        RecordV { decl: self.decl@, values: self.values@.map_values(|v: FieldValue| v@) }
    }
}

/// The first index bearing `name` among the fields from index `k` on.
pub open spec fn spec_index_of_from(fields: Seq<FieldV>, name: Seq<char>, k: int) -> Option<int>
    decreases fields.len() - k,
{
    if 0 <= k < fields.len() {
        if fields[k].name == name {
            Some(k)
        } else {
            spec_index_of_from(fields, name, k + 1)
        }
    } else {
        None
    }
}

/// The first index bearing `name` among `fields`.
pub open spec fn spec_index_of(fields: Seq<FieldV>, name: Seq<char>) -> Option<int> {
    spec_index_of_from(fields, name, 0)
}

/// What one policy makes of a target field state, given the matched source
/// field state.  The two conditional policies leave the target untouched on
/// an absent source; no policy ever writes an absent state.
pub open spec fn spec_policy_effect(tv: FieldValueV, sv: FieldValueV, p: Policy) -> FieldValueV {
    match p {
        Policy::Direct => sv,
        Policy::Wrap => match sv {
            FieldValueV::Plain(v) => FieldValueV::Optional(Some(v)),
            FieldValueV::Optional(_) => tv,
        },
        Policy::UnwrapIfPresent => match sv {
            FieldValueV::Optional(Some(v)) => FieldValueV::Plain(v),
            _ => tv,
        },
        Policy::CopyIfPresent => match sv {
            FieldValueV::Optional(Some(v)) => FieldValueV::Optional(Some(v)),
            _ => tv,
        },
    }
}

/// The effect of one field action on a target record, reading from a source
/// record: the first field of each side bearing the action's name takes
/// part; a record without such a field is left untouched.
pub open spec fn spec_apply_action(t: RecordV, s: RecordV, a: FieldActionV) -> RecordV {
    match (spec_index_of(t.decl.fields, a.field), spec_index_of(s.decl.fields, a.field)) {
        (Some(ti), Some(si)) => {
            if ti < t.values.len() && si < s.values.len() {
                RecordV {
                    decl: t.decl,
                    values: t.values.update(
                        ti,
                        spec_policy_effect(t.values[ti], s.values[si], a.policy),
                    ),
                }
            } else {
                t
            }
        },
        _ => t,
    }
}

/// The effect of the actions from index `k` on, applied in order.
pub open spec fn spec_apply_actions_from(
    t: RecordV,
    s: RecordV,
    actions: Seq<FieldActionV>,
    k: int,
) -> RecordV
    decreases actions.len() - k,
{
    if 0 <= k < actions.len() {
        spec_apply_actions_from(spec_apply_action(t, s, actions[k]), s, actions, k + 1)
    } else {
        t
    }
}

/// The effect of running the correspondence routine for the ordered pair of
/// the two records' declarations, target first: every matched field moves
/// per its policy, in the target's field declaration order.
pub open spec fn spec_move_corresponding(t: RecordV, s: RecordV) -> RecordV {
    spec_apply_actions_from(t, s, spec_actions(t.decl.fields, s.decl.fields), 0)
}

/// A record is well formed when it carries one field state per declared
/// field and its declaration's field names are distinct.
pub open spec fn record_wf(r: RecordV) -> bool {
    &&& r.values.len() == r.decl.fields.len()
    &&& fields_unique(r.decl.fields)
}

/// A field state fits a declared type when, for a classifiable type, the
/// state is an optional slot exactly when the shape is optional.
pub open spec fn value_fits(v: FieldValueV, f: FieldV) -> bool {
    match spec_classify(f.ty) {
        Some(sh) => (v is Optional) <==> sh.is_optional,
        None => true,
    }
}

/// A record conforms to its declaration when it is well formed and every
/// field state fits its declared type.
pub open spec fn record_conforms(r: RecordV) -> bool {
    &&& record_wf(r)
    &&& forall|i: int| 0 <= i < r.decl.fields.len() ==> value_fits(r.values[i], r.decl.fields[i])
}

/// The first field of a declaration's field list bearing `name`.
pub fn index_of(fields: &Vec<Field>, name: &String) -> (r: Option<usize>)
    ensures
        (match r {
            Some(i) => spec_index_of(fields@.map_values(|f: Field| f@), name@) == Some(i as int)
                && i < fields.len(),
            None => spec_index_of(fields@.map_values(|f: Field| f@), name@) is None,
        }),
{
    let ghost fields_v = fields@.map_values(|f: Field| f@);
    let mut k: usize = 0;
    while k < fields.len()
        invariant
            0 <= k <= fields.len(),
            fields_v == fields@.map_values(|f: Field| f@),
            spec_index_of(fields_v, name@) == spec_index_of_from(fields_v, name@, k as int),
        decreases fields.len() - k,
    {
        if fields[k].name == *name {
            return Some(k);
        }
        k = k + 1;
    }
    None
}

/// What one policy makes of a target field state, as a value.
fn policy_effect(tv: &FieldValue, sv: &FieldValue, p: Policy) -> (r: FieldValue)
    ensures
        r@ == spec_policy_effect(tv@, sv@, p),
{
    match p {
        Policy::Direct => sv.duplicate(),
        Policy::Wrap => match sv {
            FieldValue::Plain(v) => FieldValue::Optional(Some(v.duplicate())),
            FieldValue::Optional(_) => tv.duplicate(),
        },
        Policy::UnwrapIfPresent => match sv {
            FieldValue::Optional(Some(v)) => FieldValue::Plain(v.duplicate()),
            _ => tv.duplicate(),
        },
        Policy::CopyIfPresent => match sv {
            FieldValue::Optional(Some(v)) => FieldValue::Optional(Some(v.duplicate())),
            _ => tv.duplicate(),
        },
    }
}

/// Run one field action against a target record, reading from a source
/// record.
pub fn apply_action(target: &mut Record, source: &Record, action: &FieldAction)
    ensures
        final(target)@ == spec_apply_action(old(target)@, source@, action@),
{
    let o_ti = index_of(&target.decl.fields, &action.field);
    let o_si = index_of(&source.decl.fields, &action.field);
    match (o_ti, o_si) {
        (Some(ti), Some(si)) => {
            if ti < target.values.len() && si < source.values.len() {
                let effect = policy_effect(&target.values[ti], &source.values[si], action.policy);
                target.values[ti] = effect;
                proof {
                    assert(target@.values =~= old(target)@.values.update(
                        ti as int,
                        spec_policy_effect(
                            old(target)@.values[ti as int],
                            source@.values[si as int],
                            action@.policy,
                        ),
                    ));
                }
            }
        },
        _ => {},
    }
}

/// The operation the generated routines implement: move every matched field
/// of `rhs` into `self`, per the matched pair's policy, consuming `rhs`.
pub trait MoveCorresponding<R> {
    /// Move the corresponding fields of `rhs` into `self`.
    fn move_corresponding(&mut self, rhs: R);
}

impl MoveCorresponding<Record> for Record {
    fn move_corresponding(&mut self, rhs: Record)
        ensures
            final(self)@ == spec_move_corresponding(old(self)@, rhs@),
    {
        let ghost t0 = self@;
        let actions = actions_for(&self.decl.fields, &rhs.decl.fields);
        let ghost acts = spec_actions(t0.decl.fields, rhs@.decl.fields);
        let mut k: usize = 0;
        while k < actions.len()
            invariant
                0 <= k <= actions.len(),
                actions_view(actions@) == acts,
                spec_apply_actions_from(self@, rhs@, acts, k as int) == spec_apply_actions_from(
                    t0,
                    rhs@,
                    acts,
                    0,
                ),
            decreases actions.len() - k,
        {
            apply_action(self, &rhs, &actions[k]);
            k = k + 1;
        }
    }
}

/// The default-construction conversion: run the correspondence routine for
/// the pair of declarations against a freshly built default instance of the
/// target, and hand the mutated instance back.  The default instance itself
/// comes from the caller, which holds the target's default-construction
/// capability.
pub fn construct_from(target_default: Record, source: Record) -> (r: Record)
    ensures
        r@ == spec_move_corresponding(target_default@, source@),
{
    let mut target = target_default;
    target.move_corresponding(source);
    target
}

} // verus!
