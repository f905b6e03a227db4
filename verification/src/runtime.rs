//! The runtime semantics of the generated surface: a builder value holding
//! one provisional, possibly-absent slot per field, a dispatcher for the
//! generated setter-like methods, and the finalize step that validates
//! required-field presence and produces the field values of the constructed
//! record.
//!
//! A plain setter unconditionally overwrites its slot with the present
//! state wrapping the argument; an accumulating setter turns an absent slot
//! into a one-element container and appends to a present one. Finalize
//! reports the first field, in declaration order, that is required but
//! absent; on success it duplicates the slot values, so the builder remains
//! usable afterwards.

use vstd::prelude::*;

use crate::classify::ClassifiedField;
use crate::classify::ClassifiedFieldV;
use crate::text::push_str;
use vstd::pervasive::VecAdditionalExecFns;

verus! {

broadcast use vstd::std_specs::vec::group_vec_axioms;

/// A dynamic field value: a string, an unsigned number, or a container of
/// further values (the state of an accumulating field).
#[derive(Debug, PartialEq, Eq)]
pub enum Value {
    Str(String),
    Nat(u64),
    List(Vec<Value>),
}

/// The mathematical model of a `Value`.
#[verifier::ext_equal]
pub enum ValueV {
    Str(Seq<char>),
    Nat(u64),
    List(Seq<ValueV>),
}

/// The model of a `Value`.
pub open spec fn value_v(v: Value) -> ValueV
    decreases v,
{
    match v {
        Value::Str(s) => ValueV::Str(s@),
        Value::Nat(n) => ValueV::Nat(n),
        Value::List(vs) => ValueV::List(
            Seq::new(
                vs@.len(),
                |i: int|
                    if 0 <= i < vs@.len() {
                        value_v(vs@[i])
                    } else {
                        ValueV::Nat(0)
                    },
            ),
        ),
    }
}

impl DeepView for Value {
    type V = ValueV;

    open spec fn deep_view(&self) -> ValueV {
        value_v(*self)
    }
}

/// The model of a container value is the container of the element models.
pub proof fn lemma_list_value_view(vs: Vec<Value>)
    ensures
        value_v(Value::List(vs)) == ValueV::List(vs.deep_view()),
{
    assert(value_v(Value::List(vs))->List_0 =~= vs.deep_view());
    assert(value_v(Value::List(vs)) =~= ValueV::List(vs.deep_view()));
}

/// A value models to a container exactly when it is one.
pub proof fn lemma_value_v_variant(v: Value)
    ensures
        (value_v(v) is List) == (v is List),
{
    match v {
        Value::Str(_) => {},
        Value::Nat(_) => {},
        Value::List(_) => {},
    }
}

impl Clone for Value {
    fn clone(&self) -> (res: Self)
        ensures
            res.deep_view() == self.deep_view(),
        decreases *self,
    {
        match self {
            Value::Str(s) => Value::Str(s.clone()),
            Value::Nat(n) => Value::Nat(*n),
            Value::List(vs) => {
                let mut out: Vec<Value> = Vec::new();
                let mut j: usize = 0;
                while j < vs.len()
                    invariant
                        *self == Value::List(*vs),
                        j <= vs.len(),
                        out@.len() == j as int,
                        forall|k: int|
                            0 <= k < j as int ==> out@[k].deep_view() == vs@[k].deep_view(),
                    decreases vs.len() - j,
                {
                    proof {
                        assert(decreases_to!(*self => self->List_0));
                        assert(*vs == self->List_0);
                        assert(decreases_to!(*vs => vs[j as int]));
                    }
                    out.push(vs[j].clone());
                    j += 1;
                }
                let res = Value::List(out);
                assert(res.deep_view()->List_0 =~= self.deep_view()->List_0);
                assert(res.deep_view() =~= self.deep_view());
                res
            },
        }
    }
}

/// One field of a finalized record: the field's name and its value, absent
/// for an optional field that was never set. A required field's value is
/// always present in a finalized record.
#[derive(Debug, PartialEq, Eq)]
pub struct FieldValue {
    pub name: String,
    pub value: Option<Value>,
}

/// The mathematical model of a `FieldValue`.
#[verifier::ext_equal]
pub struct FieldValueV {
    pub name: Seq<char>,
    pub value: Option<ValueV>,
}

impl DeepView for FieldValue {
    type V = FieldValueV;

    open spec fn deep_view(&self) -> FieldValueV {
        FieldValueV { name: self.name@, value: self.value.deep_view() }
    }
}

/// The failure of a finalize call: a required field was never set. It
/// carries the field's identity.
#[derive(Debug, PartialEq, Eq)]
pub struct BuildError {
    pub field: String,
}

impl BuildError {
    /// The descriptive text of the failure, naming the unset field.
    pub fn message(&self) -> (r: String)
        ensures
            r@ == self.field@ + " is not set"@,
    {
        let mut m = self.field.clone();
        push_str(&mut m, " is not set");
        m
    }
}

/// The name under which a field's single setter-like method is attached:
/// the accumulator's setter name when the field has one, the field's own
/// name otherwise.
pub open spec fn spec_method_name(c: ClassifiedFieldV) -> Seq<char> {
    match c.accumulator {
        Some(a) => a.setter,
        None => c.name,
    }
}

/// Whether the fields' method names are pairwise distinct, so that method
/// dispatch is unambiguous (on a record type, one method name is attached
/// at most once).
pub open spec fn distinct_method_names(cs: Seq<ClassifiedFieldV>) -> bool {
    forall|i: int, j: int|
        0 <= i < cs.len() && 0 <= j < cs.len() && i != j ==> spec_method_name(cs[i])
            != spec_method_name(cs[j])
}

/// The index of the first field whose method name is `m`, if any.
pub open spec fn spec_method_index(cs: Seq<ClassifiedFieldV>, m: Seq<char>) -> Option<int>
    decreases cs.len(),
{
    if cs.len() == 0 {
        None
    } else if spec_method_name(cs[0]) == m {
        Some(0int)
    } else {
        match spec_method_index(cs.drop_first(), m) {
            Some(i) => Some(i + 1),
            None => None,
        }
    }
}

/// What `spec_method_index` finds: the first match, or the absence of any.
pub proof fn lemma_method_index_facts(cs: Seq<ClassifiedFieldV>, m: Seq<char>)
    ensures
        match spec_method_index(cs, m) {
            Some(i) => 0 <= i < cs.len() && spec_method_name(cs[i]) == m && (forall|k: int|
                0 <= k < i ==> spec_method_name(cs[k]) != m),
            None => forall|k: int| 0 <= k < cs.len() ==> spec_method_name(cs[k]) != m,
        },
    decreases cs.len(),
{
    if cs.len() > 0 && spec_method_name(cs[0]) != m {
        lemma_method_index_facts(cs.drop_first(), m);
        assert(forall|k: int| 1 <= k < cs.len() ==> cs.drop_first()[k - 1] == cs[k]);
    }
}

/// The slot an applied method leaves behind: a plain setter overwrites with
/// the present state wrapping the argument; an accumulating setter starts a
/// one-element container on an absent slot and appends to a present one.
pub open spec fn spec_updated_slot(c: ClassifiedFieldV, slot: Option<ValueV>, v: ValueV) -> Option<
    ValueV,
> {
    match c.accumulator {
        None => Some(v),
        Some(_) => match slot {
            None => Some(ValueV::List(seq![v])),
            Some(ValueV::List(l)) => Some(ValueV::List(l.push(v))),
            Some(other) => Some(other),
        },
    }
}

/// The slots after one method call: unchanged when no method carries the
/// name, the addressed slot rewritten otherwise.
pub open spec fn spec_call(
    cs: Seq<ClassifiedFieldV>,
    slots: Seq<Option<ValueV>>,
    m: Seq<char>,
    v: ValueV,
) -> Seq<Option<ValueV>> {
    match spec_method_index(cs, m) {
        None => slots,
        Some(i) => slots.update(i, spec_updated_slot(cs[i], slots[i], v)),
    }
}

/// The index of the first field, in declaration order, that is required
/// (not optional) but whose slot is absent, if any.
pub open spec fn spec_first_missing(
    cs: Seq<ClassifiedFieldV>,
    slots: Seq<Option<ValueV>>,
) -> Option<int>
    decreases cs.len(),
{
    if cs.len() == 0 {
        None
    } else if !cs[0].is_optional && slots[0] is None {
        Some(0int)
    } else {
        match spec_first_missing(cs.drop_first(), slots.drop_first()) {
            Some(i) => Some(i + 1),
            None => None,
        }
    }
}

/// What `spec_first_missing` finds: the first required-but-absent field,
/// or the absence of any.
pub proof fn lemma_first_missing_facts(cs: Seq<ClassifiedFieldV>, slots: Seq<Option<ValueV>>)
    requires
        slots.len() == cs.len(),
    ensures
        match spec_first_missing(cs, slots) {
            Some(i) => 0 <= i < cs.len() && !cs[i].is_optional && slots[i] is None && (forall|
                k: int,
            |
                0 <= k < i ==> cs[k].is_optional || slots[k] is Some),
            None => forall|k: int| 0 <= k < cs.len() ==> cs[k].is_optional || slots[k] is Some,
        },
    decreases cs.len(),
{
    if cs.len() > 0 && !(!cs[0].is_optional && slots[0] is None) {
        lemma_first_missing_facts(cs.drop_first(), slots.drop_first());
        assert(forall|k: int| 1 <= k < cs.len() ==> cs.drop_first()[k - 1] == cs[k]);
        assert(forall|k: int| 1 <= k < slots.len() ==> slots.drop_first()[k - 1] == slots[k]);
    }
}

/// The field values a successful finalize produces: each field's name with
/// its slot as it stands, the absent state for an untouched optional field.
pub open spec fn spec_outputs(
    cs: Seq<ClassifiedFieldV>,
    slots: Seq<Option<ValueV>>,
) -> Seq<FieldValueV> {
    Seq::new(cs.len(), |i: int| FieldValueV { name: cs[i].name, value: slots[i] })
}

/// The runtime builder: the classified fields it was generated from, and
/// one provisional slot per field, absent until a setter touches it.
#[derive(Debug, PartialEq, Eq)]
pub struct BuilderState {
    pub schema: Vec<ClassifiedField>,
    pub slots: Vec<Option<Value>>,
}

impl BuilderState {
    /// Well-formedness: one slot per field, unambiguous method names, and
    /// an accumulating field's slot, when present, holds a container.
    pub open spec fn wf(&self) -> bool {
        &&& self.slots@.len() == self.schema@.len()
        &&& distinct_method_names(self.schema.deep_view())
        &&& forall|i: int|
            0 <= i < self.schema@.len() && self.schema.deep_view()[i].accumulator is Some
                ==> (self.slots.deep_view()[i] is None || self.slots.deep_view()[i]->0 is List)
    }

    /// The empty builder over a field list: every slot absent. This is
    /// what the generated entry point on the record type returns.
    pub fn new(schema: Vec<ClassifiedField>) -> (b: BuilderState)
        requires
            distinct_method_names(schema.deep_view()),
        ensures
            b.wf(),
            b.schema == schema,
            b.slots.deep_view() =~= Seq::new(schema@.len() as nat, |i: int| None::<ValueV>),
    {
        let n = schema.len();
        let mut slots: Vec<Option<Value>> = Vec::new();
        let mut i: usize = 0;
        while i < n
            invariant
                i <= n,
                slots@.len() == i as int,
                forall|k: int| 0 <= k < i as int ==> slots@[k] is None,
            decreases n - i,
        {
            slots.push(None);
            i += 1;
        }
        let b = BuilderState { schema, slots };
        assert(b.slots.deep_view() =~= Seq::new(
            b.schema@.len() as nat,
            |i: int| None::<ValueV>,
        ));
        b
    }

    /// Applies the setter-like method named `method` to the argument `v`:
    /// the single generated method of the field whose method name matches.
    /// Returns whether any method carries that name; an unknown name (a
    /// call the generated surface would not compile) leaves the builder
    /// unchanged.
    pub fn call(&mut self, method: &str, v: Value) -> (found: bool)
        requires
            old(self).wf(),
        ensures
            final(self).wf(),
            final(self).schema == old(self).schema,
            found == (spec_method_index(old(self).schema.deep_view(), method@) is Some),
            final(self).slots.deep_view() == spec_call(
                old(self).schema.deep_view(),
                old(self).slots.deep_view(),
                method@,
                v.deep_view(),
            ),
    {
        let ghost csv = self.schema.deep_view();
        let ghost slotsv = self.slots.deep_view();
        let ghost vv = v.deep_view();
        let m: String = method.to_owned();
        let n = self.schema.len();
        let mut j: usize = 0;
        while j < n
            invariant
                old(self) == self,
                self.wf(),
                n == self.schema@.len(),
                self.slots@.len() == n,
                j <= n,
                csv == self.schema.deep_view(),
                slotsv == self.slots.deep_view(),
                vv == v.deep_view(),
                forall|k: int| 0 <= k < j as int ==> spec_method_name(csv[k]) != m@,
                m@ == method@,
            decreases n - j,
        {
            let name_matches = match &self.schema[j].accumulator {
                Some(a) => a.setter == m,
                None => self.schema[j].name == m,
            };
            if name_matches {
                proof {
                    assert(spec_method_name(csv[j as int]) == m@);
                    lemma_method_index_facts(csv, method@);
                    assert(spec_method_index(csv, method@) == Some(j as int));
                }
                let ghost target = spec_updated_slot(csv[j as int], slotsv[j as int], vv);
                let accumulating = self.schema[j].accumulator.is_some();
                if !accumulating {
                    self.slots.set(j, Some(v));
                } else {
                    let next: Option<Value> = match &self.slots[j] {
                        None => {
                            let mut started: Vec<Value> = Vec::new();
                            started.push(v);
                            assert(started.deep_view() =~= seq![vv]);
                            proof {
                                lemma_list_value_view(started);
                            }
                            Some(Value::List(started))
                        },
                        Some(Value::List(l)) => {
                            let mut grown = l.clone();
                            assert(grown.deep_view() == l.deep_view());
                            grown.push(v);
                            assert(grown.deep_view() =~= l.deep_view().push(vv));
                            proof {
                                lemma_list_value_view(grown);
                                lemma_list_value_view(*l);
                                assert(slotsv[j as int] == Some(ValueV::List(l.deep_view())));
                            }
                            Some(Value::List(grown))
                        },
                        Some(other) => {
                            proof {
                                lemma_value_v_variant(*other);
                                assert(slotsv[j as int] == Some(value_v(*other)));
                                assert(false);
                            }
                            Some(other.clone())
                        },
                    };
                    proof {
                        assert(next.deep_view() == target);
                    }
                    self.slots.set(j, next);
                }
                proof {
                    assert(self.slots.deep_view() =~= slotsv.update(j as int, target));
                    assert forall|k: int|
                        0 <= k < self.schema@.len() && self.schema.deep_view()[k].accumulator
                            is Some implies (self.slots.deep_view()[k] is None
                        || self.slots.deep_view()[k]->0 is List) by {
                        if k != j as int {
                            assert(self.slots.deep_view()[k] == slotsv[k]);
                        }
                    }
                }
                return true;
            }
            j += 1;
        }
        proof {
            lemma_method_index_facts(csv, method@);
            assert(spec_method_index(csv, method@) is None);
        }
        false
    }

    /// Validates required-field presence and produces the constructed
    /// record's field values, or the first missing required field, in
    /// declaration order. Slot values are duplicated, not moved: the
    /// builder remains valid and reusable after either outcome.
    pub fn finalize(&self) -> (r: Result<Vec<FieldValue>, BuildError>)
        requires
            self.wf(),
        ensures
            match spec_first_missing(self.schema.deep_view(), self.slots.deep_view()) {
                Some(i) => r is Err && r->Err_0.field@ == self.schema.deep_view()[i].name,
                None => r is Ok && r->Ok_0.deep_view() == spec_outputs(
                    self.schema.deep_view(),
                    self.slots.deep_view(),
                ),
            },
    {
        let ghost csv = self.schema.deep_view();
        let ghost slotsv = self.slots.deep_view();
        let n = self.schema.len();
        let mut i: usize = 0;
        while i < n
            invariant
                self.wf(),
                n == self.schema@.len(),
                i <= n,
                csv == self.schema.deep_view(),
                slotsv == self.slots.deep_view(),
                forall|k: int| 0 <= k < i as int ==> csv[k].is_optional || slotsv[k] is Some,
            decreases n - i,
        {
            if !self.schema[i].is_optional && self.slots[i].is_none() {
                proof {
                    assert(!csv[i as int].is_optional);
                    assert(slotsv[i as int] is None);
                    lemma_first_missing_facts(csv, slotsv);
                    assert(spec_first_missing(csv, slotsv) == Some(i as int));
                }
                return Err(BuildError { field: self.schema[i].name.clone() });
            }
            i += 1;
        }
        proof {
            lemma_first_missing_facts(csv, slotsv);
            assert(spec_first_missing(csv, slotsv) is None);
        }
        let mut out: Vec<FieldValue> = Vec::new();
        let mut i2: usize = 0;
        while i2 < n
            invariant
                self.wf(),
                n == self.schema@.len(),
                i2 <= n,
                csv == self.schema.deep_view(),
                slotsv == self.slots.deep_view(),
                out@.len() == i2 as int,
                forall|k: int|
                    0 <= k < i2 as int ==> out@[k].deep_view() == (FieldValueV {
                        name: csv[k].name,
                        value: slotsv[k],
                    }),
            decreases n - i2,
        {
            let value = self.slots[i2].clone();
            out.push(FieldValue { name: self.schema[i2].name.clone(), value });
            i2 += 1;
        }
        assert(out.deep_view() =~= spec_outputs(csv, slotsv));
        Ok(out)
    }
}

/// Whether a field list's method names are pairwise distinct: the
/// well-formedness a caller must establish before building a runtime
/// builder over the list.
pub fn has_distinct_method_names(schema: &Vec<ClassifiedField>) -> (r: bool)
    ensures
        r == distinct_method_names(schema.deep_view()),
{
    let ghost csv = schema.deep_view();
    let n = schema.len();
    let mut i: usize = 0;
    while i < n
        invariant
            n == schema@.len(),
            i <= n,
            csv == schema.deep_view(),
            forall|a: int, b: int|
                0 <= a < i as int && 0 <= b < a ==> spec_method_name(csv[a]) != spec_method_name(
                    csv[b],
                ),
        decreases n - i,
    {
        let mine = match &schema[i].accumulator {
            Some(a) => &a.setter,
            None => &schema[i].name,
        };
        assert(mine@ == spec_method_name(csv[i as int]));
        let mut j: usize = 0;
        while j < i
            invariant
                n == schema@.len(),
                i < n,
                j <= i,
                csv == schema.deep_view(),
                mine@ == spec_method_name(csv[i as int]),
                forall|b: int| 0 <= b < j as int ==> spec_method_name(csv[i as int])
                    != spec_method_name(csv[b]),
            decreases i - j,
        {
            let theirs = match &schema[j].accumulator {
                Some(a) => &a.setter,
                None => &schema[j].name,
            };
            assert(theirs@ == spec_method_name(csv[j as int]));
            if *mine == *theirs {
                proof {
                    assert(spec_method_name(csv[i as int]) == spec_method_name(csv[j as int]));
                    assert(!distinct_method_names(csv));
                }
                return false;
            }
            j += 1;
        }
        i += 1;
    }
    proof {
        assert forall|a: int, b: int|
            0 <= a < csv.len() && 0 <= b < csv.len() && a != b implies spec_method_name(csv[a])
            != spec_method_name(csv[b]) by {
            if a < b {
                assert(spec_method_name(csv[b]) != spec_method_name(csv[a]));
            }
        }
    }
    true
}

} // verus!
