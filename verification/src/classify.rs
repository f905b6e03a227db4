//! The field classifier: resolves each field declaration into the facts the
//! synthesis passes read, or fails on a shape the generator does not support.
//!
//! A field is optional exactly when its declared type is a single-segment
//! reference to the optional wrapper with exactly one type argument; the
//! optional wrapper's name with any other number of arguments is an
//! unsupported shape. A well-formed accumulator annotation (a name-value
//! pair whose value is a string literal) redirects the field's setter into
//! an accumulating method; it requires the field's inner type to be a
//! single-argument container. A present but malformed annotation is an
//! unsupported shape as well. Classification fails on the first offending
//! field, in declaration order.

use vstd::prelude::*;

use crate::decl::FieldDecl;
use crate::decl::FieldDeclV;
use crate::decl::AttrShape;
use crate::decl::AttrShapeV;
use crate::decl::TypeRef;
use crate::decl::TypeRefV;
use crate::text::push_str;

verus! {

broadcast use vstd::std_specs::vec::group_vec_axioms;

/// The name of the optional wrapper recognized by the classifier.
pub open spec fn option_wrapper_name() -> Seq<char> {
    "Option"@
}

/// A field together with the facts resolved about it: whether its declared
/// type is optional-wrapped, the unwrapped (inner) type, and the
/// accumulator request carried by its annotation, if any.
#[derive(Debug, PartialEq, Eq)]
pub struct ClassifiedField {
    pub name: String,
    pub is_optional: bool,
    pub inner: TypeRef,
    pub accumulator: Option<Accumulator>,
}

/// An accumulator request: the name of the accumulating setter and the
/// element type it appends.
#[derive(Debug, PartialEq, Eq)]
pub struct Accumulator {
    pub setter: String,
    pub element: TypeRef,
}

/// The mathematical model of an `Accumulator`.
#[verifier::ext_equal]
pub struct AccumulatorV {
    pub setter: Seq<char>,
    pub element: TypeRefV,
}

impl DeepView for Accumulator {
    type V = AccumulatorV;

    open spec fn deep_view(&self) -> AccumulatorV {
        AccumulatorV { setter: self.setter@, element: self.element.deep_view() }
    }
}

/// The mathematical model of a `ClassifiedField`.
#[verifier::ext_equal]
pub struct ClassifiedFieldV {
    pub name: Seq<char>,
    pub is_optional: bool,
    pub inner: TypeRefV,
    pub accumulator: Option<AccumulatorV>,
}

impl DeepView for ClassifiedField {
    type V = ClassifiedFieldV;

    open spec fn deep_view(&self) -> ClassifiedFieldV {
        ClassifiedFieldV {
            name: self.name@,
            is_optional: self.is_optional,
            inner: self.inner.deep_view(),
            accumulator: self.accumulator.deep_view(),
        }
    }
}

/// A generation-time failure: the input declaration has a shape the
/// generator does not support. Each variant names the offending field.
#[derive(Debug, PartialEq, Eq)]
pub enum GenError {
    /// The optional wrapper's name was used with a number of type
    /// arguments other than one.
    UnsupportedOptionalShape { field: String },
    /// An accumulator was requested but the field's inner type is not a
    /// single-argument container.
    UnsupportedContainerShape { field: String },
    /// The field carries an annotation that is not a name-value pair with
    /// a string-literal value.
    MalformedAttribute { field: String },
}

/// The mathematical model of a `GenError`.
#[verifier::ext_equal]
pub enum GenErrorV {
    UnsupportedOptionalShape { field: Seq<char> },
    UnsupportedContainerShape { field: Seq<char> },
    MalformedAttribute { field: Seq<char> },
}

impl DeepView for GenError {
    type V = GenErrorV;

    open spec fn deep_view(&self) -> GenErrorV {
        match self {
            GenError::UnsupportedOptionalShape { field } => GenErrorV::UnsupportedOptionalShape {
                field: field@,
            },
            GenError::UnsupportedContainerShape { field } => GenErrorV::UnsupportedContainerShape {
                field: field@,
            },
            GenError::MalformedAttribute { field } => GenErrorV::MalformedAttribute {
                field: field@,
            },
        }
    }
}

impl GenError {
    /// The name of the field the failure is about.
    pub open spec fn spec_field(&self) -> Seq<char> {
        match self {
            GenError::UnsupportedOptionalShape { field } => field@,
            GenError::UnsupportedContainerShape { field } => field@,
            GenError::MalformedAttribute { field } => field@,
        }
    }

    /// The name of the field the failure is about.
    pub fn field(&self) -> (r: &String)
        ensures
            r@ == self.spec_field(),
    {
        match self {
            GenError::UnsupportedOptionalShape { field } => field,
            GenError::UnsupportedContainerShape { field } => field,
            GenError::MalformedAttribute { field } => field,
        }
    }

    /// A diagnostic line identifying the offending field and the shape the
    /// generator refused.
    pub fn describe(&self) -> (r: String)
        ensures
            match self {
                GenError::UnsupportedOptionalShape { field } => r@ == field@
                    + ": unsupported optional-wrapper shape"@,
                GenError::UnsupportedContainerShape { field } => r@ == field@
                    + ": accumulator requires a single-argument container type"@,
                GenError::MalformedAttribute { field } => r@ == field@
                    + ": malformed accumulator annotation"@,
            },
    {
        let mut m = self.field().clone();
        match self {
            GenError::UnsupportedOptionalShape { field: _ } => {
                push_str(&mut m, ": unsupported optional-wrapper shape");
            },
            GenError::UnsupportedContainerShape { field: _ } => {
                push_str(&mut m, ": accumulator requires a single-argument container type");
            },
            GenError::MalformedAttribute { field: _ } => {
                push_str(&mut m, ": malformed accumulator annotation");
            },
        }
        m
    }
}

/// The model of one field's classification. `recognize_attrs` says whether
/// the capability tier recognizes accumulator annotations at all; below
/// that tier annotations are ignored rather than validated.
pub open spec fn spec_classify_field(f: FieldDeclV, recognize_attrs: bool) -> Result<
    ClassifiedFieldV,
    GenErrorV,
> {
    if f.ty.name == option_wrapper_name() && f.ty.args.len() != 1 {
        Err(GenErrorV::UnsupportedOptionalShape { field: f.name })
    } else {
        let is_optional = f.ty.name == option_wrapper_name();
        let inner = if is_optional {
            f.ty.args[0]
        } else {
            f.ty
        };
        if recognize_attrs && f.attrs.len() > 0 {
            match f.attrs[0] {
                AttrShapeV::NameValueStr { key: _, setter } => {
                    if inner.args.len() == 1 {
                        Ok(
                            ClassifiedFieldV {
                                name: f.name,
                                is_optional,
                                inner,
                                accumulator: Some(
                                    AccumulatorV { setter, element: inner.args[0] },
                                ),
                            },
                        )
                    } else {
                        Err(GenErrorV::UnsupportedContainerShape { field: f.name })
                    }
                },
                _ => Err(GenErrorV::MalformedAttribute { field: f.name }),
            }
        } else {
            Ok(ClassifiedFieldV { name: f.name, is_optional, inner, accumulator: None })
        }
    }
}

/// The model of a classification result.
pub open spec fn classify_result_v(r: Result<ClassifiedField, GenError>) -> Result<
    ClassifiedFieldV,
    GenErrorV,
> {
    match r {
        Ok(c) => Ok(c.deep_view()),
        Err(e) => Err(e.deep_view()),
    }
}

/// Classifies one field, or fails on an unsupported shape.
pub fn classify_field(f: &FieldDecl, recognize_attrs: bool) -> (r: Result<
    ClassifiedField,
    GenError,
>)
    ensures
        classify_result_v(r) == spec_classify_field(f.deep_view(), recognize_attrs),
{
    let option_name: String = "Option".to_owned();
    let named_optional = f.ty.name == option_name;
    if named_optional && f.ty.args.len() != 1 {
        return Err(GenError::UnsupportedOptionalShape { field: f.name.clone() });
    }
    let inner: TypeRef = if named_optional {
        f.ty.args[0].clone()
    } else {
        f.ty.clone()
    };
    assert(inner.deep_view() == if f.deep_view().ty.name == option_wrapper_name() {
        f.deep_view().ty.args[0]
    } else {
        f.deep_view().ty
    });
    if recognize_attrs && f.attrs.len() > 0 {
        match &f.attrs[0] {
            AttrShape::NameValueStr { key: _, setter } => {
                if inner.args.len() == 1 {
                    let element = inner.args[0].clone();
                    assert(element.deep_view() == inner.deep_view().args[0]);
                    Ok(
                        ClassifiedField {
                            name: f.name.clone(),
                            is_optional: named_optional,
                            inner,
                            accumulator: Some(
                                Accumulator { setter: setter.clone(), element },
                            ),
                        },
                    )
                } else {
                    Err(GenError::UnsupportedContainerShape { field: f.name.clone() })
                }
            },
            AttrShape::NameValueOther { key: _ } => {
                Err(GenError::MalformedAttribute { field: f.name.clone() })
            },
            AttrShape::OtherShape => {
                Err(GenError::MalformedAttribute { field: f.name.clone() })
            },
        }
    } else {
        Ok(
            ClassifiedField {
                name: f.name.clone(),
                is_optional: named_optional,
                inner,
                accumulator: None,
            },
        )
    }
}

/// The model of classifying a whole field list: the classified fields in
/// declaration order, or the failure of the first offending field.
pub open spec fn spec_classify_fields(fs: Seq<FieldDeclV>, recognize_attrs: bool) -> Result<
    Seq<ClassifiedFieldV>,
    GenErrorV,
>
    decreases fs.len(),
{
    if fs.len() == 0 {
        Ok(Seq::empty())
    } else {
        match spec_classify_fields(fs.drop_last(), recognize_attrs) {
            Ok(cs) => match spec_classify_field(fs.last(), recognize_attrs) {
                Ok(c) => Ok(cs.push(c)),
                Err(e) => Err(e),
            },
            Err(e) => Err(e),
        }
    }
}

/// If every field before `i` classifies and field `i` fails, the whole
/// list fails with field `i`'s error: the first offending field wins.
proof fn lemma_classify_fields_error(fs: Seq<FieldDeclV>, recognize_attrs: bool, i: int)
    requires
        0 <= i < fs.len(),
        spec_classify_fields(fs.take(i), recognize_attrs) is Ok,
        spec_classify_field(fs[i], recognize_attrs) is Err,
    ensures
        spec_classify_fields(fs, recognize_attrs) == Err::<Seq<ClassifiedFieldV>, GenErrorV>(
            spec_classify_field(fs[i], recognize_attrs)->Err_0,
        ),
    decreases fs.len(),
{
    if i == fs.len() - 1 {
        assert(fs.drop_last() =~= fs.take(i));
        assert(fs.last() == fs[i]);
    } else {
        assert(fs.drop_last().take(i) =~= fs.take(i));
        assert(fs.drop_last()[i] == fs[i]);
        lemma_classify_fields_error(fs.drop_last(), recognize_attrs, i);
    }
}

/// The model of a whole-list classification result.
pub open spec fn classify_fields_result_v(r: Result<Vec<ClassifiedField>, GenError>) -> Result<
    Seq<ClassifiedFieldV>,
    GenErrorV,
> {
    match r {
        Ok(cs) => Ok(cs.deep_view()),
        Err(e) => Err(e.deep_view()),
    }
}

/// Classifies every field, in declaration order, failing on the first
/// field with an unsupported shape.
pub fn classify_fields(fields: &Vec<FieldDecl>, recognize_attrs: bool) -> (r: Result<
    Vec<ClassifiedField>,
    GenError,
>)
    ensures
        classify_fields_result_v(r) == spec_classify_fields(fields.deep_view(), recognize_attrs),
{
    let ghost fsv = fields.deep_view();
    let mut out: Vec<ClassifiedField> = Vec::new();
    let mut i: usize = 0;
    assert(fsv.take(0) =~= Seq::<FieldDeclV>::empty());
    assert(out.deep_view() =~= Seq::<ClassifiedFieldV>::empty());
    while i < fields.len()
        invariant
            i <= fields.len(),
            fsv == fields.deep_view(),
            spec_classify_fields(fsv.take(i as int), recognize_attrs) == Ok::<_, GenErrorV>(
                out.deep_view(),
            ),
        decreases fields.len() - i,
    {
        match classify_field(&fields[i], recognize_attrs) {
            Ok(c) => {
                out.push(c);
                assert(fsv.take(i + 1).drop_last() =~= fsv.take(i as int));
                assert(fsv.take(i + 1).last() == fsv[i as int]);
                assert(out.deep_view() =~= spec_classify_fields(
                    fsv.take(i as int),
                    recognize_attrs,
                )->Ok_0.push(spec_classify_field(fsv[i as int], recognize_attrs)->Ok_0));
            },
            Err(e) => {
                proof {
                    lemma_classify_fields_error(fsv, recognize_attrs, i as int);
                }
                return Err(e);
            },
        }
        i += 1;
    }
    assert(fsv.take(fields.len() as int) =~= fsv);
    Ok(out)
}

} // verus!
