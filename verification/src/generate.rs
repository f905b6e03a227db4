//! The three synthesis passes and their assembly: from the classified
//! fields of a record, produce the shape of the companion builder type, its
//! setter-like methods, and its finalize method, at a chosen capability
//! tier. Fields are processed independently and fragments are concatenated,
//! so the output lists follow declaration order.

use vstd::prelude::*;

use crate::classify::ClassifiedField;
use crate::classify::ClassifiedFieldV;
use crate::classify::GenError;
use crate::classify::GenErrorV;
use crate::classify::classify_fields;
use crate::classify::spec_classify_fields;
use crate::decl::RecordDecl;
use crate::decl::RecordDeclV;
use crate::decl::TypeRef;
use crate::decl::TypeRefV;
use crate::text::push_str;

verus! {

broadcast use vstd::std_specs::vec::group_vec_axioms;

/// The capability tiers of the generator. Each tier is a strict superset
/// of the previous one: the bare builder shape; usable setters and an
/// empty-builder entry point; required-field validation with a finalize
/// method; and recognition of accumulator annotations.
#[derive(Debug, Clone, Copy, PartialEq, Eq)]
pub enum Tier {
    Shape,
    Setters,
    Validation,
    Attributes,
}

/// Whether the tier emits setter methods and a usable empty-builder entry
/// point.
pub open spec fn tier_has_setters(tier: Tier) -> bool {
    !(tier is Shape)
}

/// Whether the tier emits the finalize method.
pub open spec fn tier_has_finalize(tier: Tier) -> bool {
    tier is Validation || tier is Attributes
}

/// Whether the tier recognizes accumulator annotations; below it they are
/// ignored rather than validated.
pub open spec fn tier_recognizes_attrs(tier: Tier) -> bool {
    tier is Attributes
}

/// One member of the synthesized builder structure. The member's declared
/// type is the optional wrapper applied to `inner`: required fields become
/// representably absent, and originally-optional fields are not wrapped a
/// second time.
#[derive(Debug, PartialEq, Eq)]
pub struct BuilderMember {
    pub name: String,
    pub inner: TypeRef,
}

/// The mathematical model of a `BuilderMember`.
#[verifier::ext_equal]
pub struct BuilderMemberV {
    pub name: Seq<char>,
    pub inner: TypeRefV,
}

impl DeepView for BuilderMember {
    type V = BuilderMemberV;

    open spec fn deep_view(&self) -> BuilderMemberV {
        BuilderMemberV { name: self.name@, inner: self.inner.deep_view() }
    }
}

/// The entry point synthesized on the record type: a stub at the lowest
/// tier, and a factory returning the empty builder (every member absent)
/// from the setters tier on.
#[derive(Debug, Clone, Copy, PartialEq, Eq, Structural)]
pub enum EntryPoint {
    Stub,
    EmptyBuilder,
}

/// One setter-like method on the builder: a plain setter that overwrites
/// its member with the present state wrapping the argument, or an
/// accumulating setter that appends the argument to the member's container.
#[derive(Debug, PartialEq, Eq)]
pub struct MethodDef {
    /// The method's name: the field's name for a plain setter, the
    /// annotation's setter name for an accumulating one.
    pub name: String,
    /// The builder member the method writes.
    pub field: String,
    /// The argument type: the field's inner type for a plain setter, the
    /// container's element type for an accumulating one.
    pub arg: TypeRef,
    pub accumulating: bool,
}

/// The mathematical model of a `MethodDef`.
#[verifier::ext_equal]
pub struct MethodDefV {
    pub name: Seq<char>,
    pub field: Seq<char>,
    pub arg: TypeRefV,
    pub accumulating: bool,
}

impl DeepView for MethodDef {
    type V = MethodDefV;

    open spec fn deep_view(&self) -> MethodDefV {
        MethodDefV {
            name: self.name@,
            field: self.field@,
            arg: self.arg.deep_view(),
            accumulating: self.accumulating,
        }
    }
}

/// One step of the finalize method's construction: the member is unwrapped
/// from its present state when the field is required, and copied through
/// as-is when it is optional.
#[derive(Debug, PartialEq, Eq)]
pub struct FieldInit {
    pub name: String,
    pub unwrap: bool,
}

/// The mathematical model of a `FieldInit`.
#[verifier::ext_equal]
pub struct FieldInitV {
    pub name: Seq<char>,
    pub unwrap: bool,
}

impl DeepView for FieldInit {
    type V = FieldInitV;

    open spec fn deep_view(&self) -> FieldInitV {
        FieldInitV { name: self.name@, unwrap: self.unwrap }
    }
}

/// The synthesized finalize method: presence checks for the required
/// members, in declaration order, then the construction plan for every
/// field.
#[derive(Debug, PartialEq, Eq)]
pub struct FinalizeDef {
    pub checks: Vec<String>,
    pub fields: Vec<FieldInit>,
}

/// The mathematical model of a `FinalizeDef`.
#[verifier::ext_equal]
pub struct FinalizeDefV {
    pub checks: Seq<Seq<char>>,
    pub fields: Seq<FieldInitV>,
}

impl DeepView for FinalizeDef {
    type V = FinalizeDefV;

    open spec fn deep_view(&self) -> FinalizeDefV {
        FinalizeDefV { checks: self.checks.deep_view(), fields: self.fields.deep_view() }
    }
}

/// The generator's output: the builder structure's name and members, the
/// entry point on the record type, the builder's methods, and its finalize
/// method where the tier has one.
#[derive(Debug, PartialEq, Eq)]
pub struct GeneratedUnit {
    pub record_name: String,
    pub builder_name: String,
    pub members: Vec<BuilderMember>,
    pub entry: EntryPoint,
    pub methods: Vec<MethodDef>,
    pub finalize: Option<FinalizeDef>,
}

/// The mathematical model of a `GeneratedUnit`.
#[verifier::ext_equal]
pub struct GeneratedUnitV {
    pub record_name: Seq<char>,
    pub builder_name: Seq<char>,
    pub members: Seq<BuilderMemberV>,
    pub entry: EntryPoint,
    pub methods: Seq<MethodDefV>,
    pub finalize: Option<FinalizeDefV>,
}

impl DeepView for GeneratedUnit {
    type V = GeneratedUnitV;

    open spec fn deep_view(&self) -> GeneratedUnitV {
        GeneratedUnitV {
            record_name: self.record_name@,
            builder_name: self.builder_name@,
            members: self.members.deep_view(),
            entry: self.entry,
            methods: self.methods.deep_view(),
            finalize: self.finalize.deep_view(),
        }
    }
}

/// The suffix appended to the record's name to name the builder type.
pub open spec fn builder_name_suffix() -> Seq<char> {
    "Builder"@
}

/// The name of the synthesized builder type.
pub open spec fn spec_builder_name(record_name: Seq<char>) -> Seq<char> {
    record_name + builder_name_suffix()
}

/// The builder member synthesized for one classified field.
pub open spec fn spec_member(c: ClassifiedFieldV) -> BuilderMemberV {
    BuilderMemberV { name: c.name, inner: c.inner }
}

/// The builder-shape pass: one member per field, in declaration order.
pub open spec fn spec_members(cs: Seq<ClassifiedFieldV>) -> Seq<BuilderMemberV> {
    cs.map_values(|c: ClassifiedFieldV| spec_member(c))
}

/// The method synthesized for one classified field: exactly one, the
/// accumulating form when the field carries an accumulator request, the
/// plain overwriting setter otherwise.
pub open spec fn spec_method(c: ClassifiedFieldV) -> MethodDefV {
    match c.accumulator {
        Some(a) => MethodDefV { name: a.setter, field: c.name, arg: a.element, accumulating: true },
        None => MethodDefV { name: c.name, field: c.name, arg: c.inner, accumulating: false },
    }
}

/// The method pass: one method per field, in declaration order.
pub open spec fn spec_methods(cs: Seq<ClassifiedFieldV>) -> Seq<MethodDefV> {
    cs.map_values(|c: ClassifiedFieldV| spec_method(c))
}

/// The presence checks of the finalize pass: the names of the fields not
/// classified as optional, in declaration order.
pub open spec fn spec_checks(cs: Seq<ClassifiedFieldV>) -> Seq<Seq<char>>
    decreases cs.len(),
{
    if cs.len() == 0 {
        Seq::empty()
    } else {
        spec_checks(cs.drop_last()) + if cs.last().is_optional {
            Seq::empty()
        } else {
            seq![cs.last().name]
        }
    }
}

/// The construction step synthesized for one classified field.
pub open spec fn spec_field_init(c: ClassifiedFieldV) -> FieldInitV {
    FieldInitV { name: c.name, unwrap: !c.is_optional }
}

/// The finalize pass: presence checks for required fields, then one
/// construction step per field.
pub open spec fn spec_finalize_def(cs: Seq<ClassifiedFieldV>) -> FinalizeDefV {
    FinalizeDefV {
        checks: spec_checks(cs),
        fields: cs.map_values(|c: ClassifiedFieldV| spec_field_init(c)),
    }
}

/// The whole generator: classification, the three synthesis passes, and
/// assembly, or the first classification failure.
pub open spec fn spec_generate(r: RecordDeclV, tier: Tier) -> Result<GeneratedUnitV, GenErrorV> {
    match spec_classify_fields(r.fields, tier_recognizes_attrs(tier)) {
        Ok(cs) => Ok(
            GeneratedUnitV {
                record_name: r.name,
                builder_name: spec_builder_name(r.name),
                members: spec_members(cs),
                entry: if tier_has_setters(tier) {
                    EntryPoint::EmptyBuilder
                } else {
                    EntryPoint::Stub
                },
                methods: if tier_has_setters(tier) {
                    spec_methods(cs)
                } else {
                    Seq::empty()
                },
                finalize: if tier_has_finalize(tier) {
                    Some(spec_finalize_def(cs))
                } else {
                    None
                },
            },
        ),
        Err(e) => Err(e),
    }
}

/// The model of a generation result.
pub open spec fn generate_result_v(r: Result<GeneratedUnit, GenError>) -> Result<
    GeneratedUnitV,
    GenErrorV,
> {
    match r {
        Ok(u) => Ok(u.deep_view()),
        Err(e) => Err(e.deep_view()),
    }
}

/// The builder-shape pass: the synthesized builder's members, one per
/// field, each holding the optional wrapper applied to the field's inner
/// type.
pub fn synth_members(cs: &Vec<ClassifiedField>) -> (r: Vec<BuilderMember>)
    ensures
        r.deep_view() == spec_members(cs.deep_view()),
{
    let mut out: Vec<BuilderMember> = Vec::new();
    let mut i: usize = 0;
    while i < cs.len()
        invariant
            i <= cs.len(),
            out@.len() == i as int,
            forall|k: int| 0 <= k < i as int ==> out@[k].deep_view() == spec_member(
                cs.deep_view()[k],
            ),
        decreases cs.len() - i,
    {
        out.push(BuilderMember { name: cs[i].name.clone(), inner: cs[i].inner.clone() });
        i += 1;
    }
    assert(out.deep_view() =~= spec_members(cs.deep_view()));
    out
}

/// The method pass: exactly one setter-like method per field, attached by
/// field name for plain setters and by the annotation's setter name for
/// accumulating ones.
pub fn synth_methods(cs: &Vec<ClassifiedField>) -> (r: Vec<MethodDef>)
    ensures
        r.deep_view() == spec_methods(cs.deep_view()),
{
    let mut out: Vec<MethodDef> = Vec::new();
    let mut i: usize = 0;
    while i < cs.len()
        invariant
            i <= cs.len(),
            out@.len() == i as int,
            forall|k: int| 0 <= k < i as int ==> out@[k].deep_view() == spec_method(
                cs.deep_view()[k],
            ),
        decreases cs.len() - i,
    {
        let m = match &cs[i].accumulator {
            Some(a) => MethodDef {
                name: a.setter.clone(),
                field: cs[i].name.clone(),
                arg: a.element.clone(),
                accumulating: true,
            },
            None => MethodDef {
                name: cs[i].name.clone(),
                field: cs[i].name.clone(),
                arg: cs[i].inner.clone(),
                accumulating: false,
            },
        };
        assert(m.deep_view() == spec_method(cs.deep_view()[i as int]));
        out.push(m);
        i += 1;
    }
    assert(out.deep_view() =~= spec_methods(cs.deep_view()));
    out
}

/// The finalize pass: a presence check for every field not classified as
/// optional, in declaration order, then the construction plan that
/// unwraps required members and copies optional ones through.
pub fn synth_finalize(cs: &Vec<ClassifiedField>) -> (r: FinalizeDef)
    ensures
        r.deep_view() == spec_finalize_def(cs.deep_view()),
{
    let mut checks: Vec<String> = Vec::new();
    let mut fields: Vec<FieldInit> = Vec::new();
    let mut i: usize = 0;
    while i < cs.len()
        invariant
            i <= cs.len(),
            checks.deep_view() =~= spec_checks(cs.deep_view().take(i as int)),
            fields@.len() == i as int,
            forall|k: int| 0 <= k < i as int ==> fields@[k].deep_view() == spec_field_init(
                cs.deep_view()[k],
            ),
        decreases cs.len() - i,
    {
        if !cs[i].is_optional {
            checks.push(cs[i].name.clone());
        }
        fields.push(FieldInit { name: cs[i].name.clone(), unwrap: !cs[i].is_optional });
        assert(cs.deep_view().take(i + 1).drop_last() =~= cs.deep_view().take(i as int));
        assert(cs.deep_view().take(i + 1).last() == cs.deep_view()[i as int]);
        assert(checks.deep_view() =~= spec_checks(cs.deep_view().take(i + 1)));
        i += 1;
    }
    assert(cs.deep_view().take(cs.len() as int) =~= cs.deep_view());
    assert(fields.deep_view() =~= cs.deep_view().map_values(
        |c: ClassifiedFieldV| spec_field_init(c),
    ));
    FinalizeDef { checks, fields }
}

/// The assembled generator: classifies the record's fields at the given
/// tier, runs the three synthesis passes, and concatenates their output
/// into one unit, or fails with the first unsupported field. No partial
/// output is produced on failure.
pub fn generate(record: &RecordDecl, tier: Tier) -> (r: Result<GeneratedUnit, GenError>)
    ensures
        generate_result_v(r) == spec_generate(record.deep_view(), tier),
{
    let recognize_attrs = match tier {
        Tier::Attributes => true,
        _ => false,
    };
    match classify_fields(&record.fields, recognize_attrs) {
        Err(e) => Err(e),
        Ok(cs) => {
            let has_setters = match tier {
                Tier::Shape => false,
                _ => true,
            };
            let has_finalize = match tier {
                Tier::Validation => true,
                Tier::Attributes => true,
                _ => false,
            };
            let members = synth_members(&cs);
            let methods = if has_setters {
                synth_methods(&cs)
            } else {
                Vec::new()
            };
            let entry = if has_setters {
                EntryPoint::EmptyBuilder
            } else {
                EntryPoint::Stub
            };
            let finalize = if has_finalize {
                Some(synth_finalize(&cs))
            } else {
                None
            };
            let mut builder_name = record.name.clone();
            push_str(&mut builder_name, "Builder");
            let unit = GeneratedUnit {
                record_name: record.name.clone(),
                builder_name,
                members,
                entry,
                methods,
                finalize,
            };
            assert(unit.deep_view().methods =~= spec_generate(record.deep_view(), tier)->Ok_0.methods);
            assert(unit.deep_view() =~= spec_generate(record.deep_view(), tier)->Ok_0);
            Ok(unit)
        },
    }
}

/// Generating twice from the identical input declaration yields
/// structurally identical output: the generator's result is a function of
/// the declaration and the capability tier alone.
pub proof fn lemma_generation_deterministic(
    r: RecordDeclV,
    tier: Tier,
    u1: Result<GeneratedUnitV, GenErrorV>,
    u2: Result<GeneratedUnitV, GenErrorV>,
)
    requires
        u1 == spec_generate(r, tier),
        u2 == spec_generate(r, tier),
    ensures
        u1 == u2,
{
}

} // verus!
