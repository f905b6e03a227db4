//! The input model: a record declaration as the generator receives it.
//!
//! A record is a name together with an ordered list of field declarations;
//! each field carries a name, a structural type reference (the outer name of
//! the type's leading path segment and its immediate type arguments), and
//! the payloads of its annotations, if any.

use vstd::prelude::*;

verus! {

broadcast use vstd::std_specs::vec::group_vec_axioms;

/// A reference to a type in a field declaration: the outer name of the
/// type's leading path segment and its immediate type arguments, if any.
#[derive(Debug, PartialEq, Eq)]
pub struct TypeRef {
    pub name: String,
    pub args: Vec<TypeRef>,
}

/// The mathematical model of a `TypeRef`.
#[verifier::ext_equal]
pub struct TypeRefV {
    pub name: Seq<char>,
    pub args: Seq<TypeRefV>,
}

/// The model of a `TypeRef`: the view of its name together with the
/// models of its arguments, in order.
pub open spec fn type_ref_v(t: TypeRef) -> TypeRefV
    decreases t,
{
    TypeRefV {
        name: t.name@,
        args: Seq::new(
            t.args@.len(),
            |i: int|
                if 0 <= i < t.args@.len() {
                    type_ref_v(t.args@[i])
                } else {
                    TypeRefV { name: Seq::empty(), args: Seq::empty() }
                },
        ),
    }
}

impl DeepView for TypeRef {
    type V = TypeRefV;

    open spec fn deep_view(&self) -> TypeRefV {
        type_ref_v(*self)
    }
}

impl Clone for TypeRef {
    fn clone(&self) -> (res: Self)
        ensures
            res.deep_view() == self.deep_view(),
        decreases *self,
    {
        let mut args: Vec<TypeRef> = Vec::new();
        let mut j: usize = 0;
        while j < self.args.len()
            invariant
                j <= self.args.len(),
                args@.len() == j as int,
                forall|i: int| 0 <= i < j as int ==> args@[i].deep_view() == self.args@[i].deep_view(),
            decreases self.args.len() - j,
        {
            let c = self.args[j].clone();
            args.push(c);
            j += 1;
        }
        let res = TypeRef { name: self.name.clone(), args };
        assert(res.deep_view().args =~= self.deep_view().args);
        assert(res.deep_view() =~= self.deep_view());
        res
    }
}

/// The payload of one annotation on a field, reduced to the shapes the
/// generator distinguishes: a name-value pair whose value is a string
/// literal (the well-formed accumulator request), a name-value pair whose
/// value is some other literal, or any other shape.
#[derive(Debug, PartialEq, Eq)]
pub enum AttrShape {
    NameValueStr { key: String, setter: String },
    NameValueOther { key: String },
    OtherShape,
}

/// The mathematical model of an `AttrShape`.
#[verifier::ext_equal]
pub enum AttrShapeV {
    NameValueStr { key: Seq<char>, setter: Seq<char> },
    NameValueOther { key: Seq<char> },
    OtherShape,
}

impl DeepView for AttrShape {
    type V = AttrShapeV;

    open spec fn deep_view(&self) -> AttrShapeV {
        match self {
            AttrShape::NameValueStr { key, setter } => AttrShapeV::NameValueStr {
                key: key@,
                setter: setter@,
            },
            AttrShape::NameValueOther { key } => AttrShapeV::NameValueOther { key: key@ },
            AttrShape::OtherShape => AttrShapeV::OtherShape,
        }
    }
}

/// One declared member of a record: its name, its declared type, and the
/// payloads of its annotations in source order.
#[derive(Debug, PartialEq, Eq)]
pub struct FieldDecl {
    pub name: String,
    pub ty: TypeRef,
    pub attrs: Vec<AttrShape>,
}

/// The mathematical model of a `FieldDecl`.
#[verifier::ext_equal]
pub struct FieldDeclV {
    pub name: Seq<char>,
    pub ty: TypeRefV,
    pub attrs: Seq<AttrShapeV>,
}

impl DeepView for FieldDecl {
    type V = FieldDeclV;

    open spec fn deep_view(&self) -> FieldDeclV {
        FieldDeclV { name: self.name@, ty: self.ty.deep_view(), attrs: self.attrs.deep_view() }
    }
}

/// The record type under derivation: its name and its fields in
/// declaration order.
#[derive(Debug, PartialEq, Eq)]
pub struct RecordDecl {
    pub name: String,
    pub fields: Vec<FieldDecl>,
}

/// The mathematical model of a `RecordDecl`.
#[verifier::ext_equal]
pub struct RecordDeclV {
    pub name: Seq<char>,
    pub fields: Seq<FieldDeclV>,
}

impl DeepView for RecordDecl {
    type V = RecordDeclV;

    open spec fn deep_view(&self) -> RecordDeclV {
        RecordDeclV { name: self.name@, fields: self.fields.deep_view() }
    }
}

} // verus!
