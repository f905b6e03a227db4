//! The laws of the generated surface, stated over the runtime models and
//! proved once for every record: how setter order affects the finalized
//! result, how accumulating setters aggregate, and when finalize is owed
//! success or failure.

use vstd::prelude::*;

use crate::classify::ClassifiedFieldV;
use crate::generate::spec_method;
use crate::runtime::ValueV;
use crate::runtime::lemma_first_missing_facts;
use crate::runtime::lemma_method_index_facts;
use crate::runtime::spec_call;
use crate::runtime::spec_first_missing;
use crate::runtime::spec_method_index;
use crate::runtime::spec_method_name;
use crate::runtime::spec_outputs;

verus! {

/// The method pass and the runtime dispatcher agree: a field's single
/// generated method carries exactly the name the dispatcher resolves for
/// that field, and it is accumulating exactly when the field carries an
/// accumulator request.
pub proof fn lemma_methods_match_dispatch(c: ClassifiedFieldV)
    ensures
        spec_method(c).name == spec_method_name(c),
        spec_method(c).accumulating == (c.accumulator is Some),
{
}

/// Plain setters are last-write-wins: setting a field and setting it again
/// leaves exactly the state a single call with the second value leaves, so
/// order matters only among repeated calls to the same field.
pub proof fn lemma_plain_setter_last_write_wins(
    cs: Seq<ClassifiedFieldV>,
    slots: Seq<Option<ValueV>>,
    m: Seq<char>,
    a: ValueV,
    b: ValueV,
)
    requires
        slots.len() == cs.len(),
        spec_method_index(cs, m) is Some,
        cs[spec_method_index(cs, m)->0].accumulator is None,
    ensures
        spec_call(cs, spec_call(cs, slots, m, a), m, b) == spec_call(cs, slots, m, b),
{
    lemma_method_index_facts(cs, m);
    assert(spec_call(cs, spec_call(cs, slots, m, a), m, b) =~= spec_call(cs, slots, m, b));
}

/// Setter calls addressed to different method names commute: for any two
/// distinct methods, applying them in either order leaves the same slots,
/// and hence the same finalized result.
pub proof fn lemma_setter_order_irrelevant(
    cs: Seq<ClassifiedFieldV>,
    slots: Seq<Option<ValueV>>,
    m1: Seq<char>,
    a: ValueV,
    m2: Seq<char>,
    b: ValueV,
)
    requires
        slots.len() == cs.len(),
        m1 != m2,
    ensures
        spec_call(cs, spec_call(cs, slots, m1, a), m2, b) == spec_call(
            cs,
            spec_call(cs, slots, m2, b),
            m1,
            a,
        ),
{
    lemma_method_index_facts(cs, m1);
    lemma_method_index_facts(cs, m2);
    if spec_method_index(cs, m1) is Some && spec_method_index(cs, m2) is Some {
        let i = spec_method_index(cs, m1)->0;
        let j = spec_method_index(cs, m2)->0;
        assert(spec_method_name(cs[i]) == m1);
        assert(spec_method_name(cs[j]) == m2);
        assert(i != j);
        assert(spec_call(cs, spec_call(cs, slots, m1, a), m2, b) =~= spec_call(
            cs,
            spec_call(cs, slots, m2, b),
            m1,
            a,
        ));
    } else {
        assert(spec_call(cs, spec_call(cs, slots, m1, a), m2, b) =~= spec_call(
            cs,
            spec_call(cs, slots, m2, b),
            m1,
            a,
        ));
    }
}

/// The slots after applying the method named `m` to each value of `vs`, in
/// order.
pub open spec fn spec_call_all(
    cs: Seq<ClassifiedFieldV>,
    slots: Seq<Option<ValueV>>,
    m: Seq<char>,
    vs: Seq<ValueV>,
) -> Seq<Option<ValueV>>
    decreases vs.len(),
{
    if vs.len() == 0 {
        slots
    } else {
        spec_call(cs, spec_call_all(cs, slots, m, vs.drop_last()), m, vs.last())
    }
}

/// The container a slot holds, empty for an absent slot.
pub open spec fn spec_slot_list(slot: Option<ValueV>) -> Seq<ValueV> {
    match slot {
        Some(ValueV::List(l)) => l,
        _ => Seq::empty(),
    }
}

/// An accumulating setter appends: applying it to each value of `vs` in
/// order extends the slot's container by exactly `vs`, touching no other
/// slot.
proof fn lemma_accumulate_appends(
    cs: Seq<ClassifiedFieldV>,
    slots: Seq<Option<ValueV>>,
    m: Seq<char>,
    vs: Seq<ValueV>,
)
    requires
        slots.len() == cs.len(),
        spec_method_index(cs, m) is Some,
        cs[spec_method_index(cs, m)->0].accumulator is Some,
        slots[spec_method_index(cs, m)->0] is None || slots[spec_method_index(cs, m)->0]->0
            is List,
    ensures
        vs.len() > 0 ==> spec_call_all(cs, slots, m, vs) == slots.update(
            spec_method_index(cs, m)->0,
            Some(ValueV::List(spec_slot_list(slots[spec_method_index(cs, m)->0]) + vs)),
        ),
    decreases vs.len(),
{
    lemma_method_index_facts(cs, m);
    let i = spec_method_index(cs, m)->0;
    if vs.len() == 1 {
        assert(vs.drop_last().len() == 0);
        assert(spec_call_all(cs, slots, m, vs.drop_last()) == slots);
        assert(vs.last() == vs[0]);
        assert(spec_call_all(cs, slots, m, vs) == spec_call(cs, slots, m, vs[0]));
        assert(spec_slot_list(slots[i]).push(vs[0]) =~= spec_slot_list(slots[i]) + vs);
        assert(seq![vs[0]] =~= Seq::<ValueV>::empty() + vs);
        assert(spec_call_all(cs, slots, m, vs) =~= slots.update(
            i,
            Some(ValueV::List(spec_slot_list(slots[i]) + vs)),
        ));
    } else if vs.len() > 1 {
        lemma_accumulate_appends(cs, slots, m, vs.drop_last());
        let prev = spec_call_all(cs, slots, m, vs.drop_last());
        assert(prev[i] == Some(ValueV::List(spec_slot_list(slots[i]) + vs.drop_last())));
        assert((spec_slot_list(slots[i]) + vs.drop_last()).push(vs.last()) =~= spec_slot_list(
            slots[i],
        ) + vs);
        assert(spec_call(cs, prev, m, vs.last()) =~= slots.update(
            i,
            Some(ValueV::List(spec_slot_list(slots[i]) + vs)),
        ));
    }
}

/// Accumulation law: for an accumulating field whose slot is untouched,
/// applying the values `vs` in order leaves exactly the ordered container
/// `vs` in that slot — never reordered, never deduplicated — and leaves
/// every other slot unchanged; when finalize then succeeds, the finalized
/// field holds exactly that container.
pub proof fn lemma_accumulation(
    cs: Seq<ClassifiedFieldV>,
    slots: Seq<Option<ValueV>>,
    m: Seq<char>,
    vs: Seq<ValueV>,
)
    requires
        slots.len() == cs.len(),
        spec_method_index(cs, m) is Some,
        cs[spec_method_index(cs, m)->0].accumulator is Some,
        slots[spec_method_index(cs, m)->0] is None,
        vs.len() > 0,
    ensures
        spec_call_all(cs, slots, m, vs)[spec_method_index(cs, m)->0] == Some(ValueV::List(vs)),
        forall|k: int|
            0 <= k < cs.len() && k != spec_method_index(cs, m)->0 ==> spec_call_all(
                cs,
                slots,
                m,
                vs,
            )[k] == slots[k],
        spec_outputs(cs, spec_call_all(cs, slots, m, vs))[spec_method_index(cs, m)->0].value
            == Some(ValueV::List(vs)),
{
    lemma_method_index_facts(cs, m);
    lemma_accumulate_appends(cs, slots, m, vs);
    let i = spec_method_index(cs, m)->0;
    assert(spec_slot_list(slots[i]) + vs =~= vs);
}

/// Required-field invariant: finalize fails exactly when some required
/// field's slot is absent; the failure cites the first such field in
/// declaration order, and with every required field set, finalize is owed
/// success.
pub proof fn lemma_required_field_invariant(cs: Seq<ClassifiedFieldV>, slots: Seq<Option<ValueV>>)
    requires
        slots.len() == cs.len(),
    ensures
        (spec_first_missing(cs, slots) is Some) == exists|i: int|
            0 <= i < cs.len() && !cs[i].is_optional && slots[i] is None,
        spec_first_missing(cs, slots) is Some ==> {
            let i = spec_first_missing(cs, slots)->0;
            &&& 0 <= i < cs.len()
            &&& !cs[i].is_optional
            &&& slots[i] is None
            &&& forall|k: int| 0 <= k < i ==> cs[k].is_optional || slots[k] is Some
        },
{
    lemma_first_missing_facts(cs, slots);
    if spec_first_missing(cs, slots) is Some {
        let i = spec_first_missing(cs, slots)->0;
        assert(0 <= i < cs.len() && !cs[i].is_optional && slots[i] is None);
    }
}

/// Optional-field invariant: whether finalize succeeds, and which field it
/// cites on failure, never depends on an optional field's slot; and in a
/// successful result an optional field materializes exactly as its slot
/// stands, the absent state when it was never set.
pub proof fn lemma_optional_field_invariant(
    cs: Seq<ClassifiedFieldV>,
    slots: Seq<Option<ValueV>>,
    i: int,
    s: Option<ValueV>,
)
    requires
        slots.len() == cs.len(),
        0 <= i < cs.len(),
        cs[i].is_optional,
    ensures
        spec_first_missing(cs, slots.update(i, s)) == spec_first_missing(cs, slots),
        spec_outputs(cs, slots)[i].value == slots[i],
    decreases cs.len(),
{
    let updated = slots.update(i, s);
    if i == 0 {
        assert(updated.drop_first() =~= slots.drop_first());
    } else {
        assert(updated[0] == slots[0]);
        assert(updated.drop_first() =~= slots.drop_first().update(i - 1, s));
        lemma_optional_field_invariant(cs.drop_first(), slots.drop_first(), i - 1, s);
    }
}

} // verus!

