//! A builder-pattern generator: given a description of a record type with
//! named, typed fields, it classifies each field (optional-wrapped or plain,
//! accumulating or not), synthesizes the shape of a companion builder type,
//! its setter methods and its finalize method, and gives the runtime
//! semantics of that generated surface as a verified builder engine.

mod classify;
mod decl;
mod generate;
mod laws;
mod runtime;
mod text;

pub use laws::lemma_accumulation;
pub use laws::lemma_methods_match_dispatch;
pub use laws::lemma_optional_field_invariant;
pub use laws::lemma_plain_setter_last_write_wins;
pub use laws::lemma_required_field_invariant;
pub use laws::lemma_setter_order_irrelevant;
pub use laws::spec_call_all;
pub use laws::spec_slot_list;

pub use runtime::BuildError;
pub use runtime::BuilderState;
pub use runtime::FieldValue;
pub use runtime::FieldValueV;
pub use runtime::Value;
pub use runtime::ValueV;
pub use runtime::distinct_method_names;
pub use runtime::has_distinct_method_names;
pub use runtime::lemma_first_missing_facts;
pub use runtime::lemma_method_index_facts;
pub use runtime::spec_call;
pub use runtime::spec_first_missing;
pub use runtime::spec_method_index;
pub use runtime::spec_method_name;
pub use runtime::spec_outputs;
pub use runtime::spec_updated_slot;
pub use runtime::value_v;

pub use generate::BuilderMember;
pub use generate::BuilderMemberV;
pub use generate::EntryPoint;
pub use generate::FieldInit;
pub use generate::FieldInitV;
pub use generate::FinalizeDef;
pub use generate::FinalizeDefV;
pub use generate::GeneratedUnit;
pub use generate::GeneratedUnitV;
pub use generate::MethodDef;
pub use generate::MethodDefV;
pub use generate::Tier;
pub use generate::builder_name_suffix;
pub use generate::generate;
pub use generate::generate_result_v;
pub use generate::lemma_generation_deterministic;
pub use generate::spec_builder_name;
pub use generate::spec_checks;
pub use generate::spec_field_init;
pub use generate::spec_finalize_def;
pub use generate::spec_generate;
pub use generate::spec_member;
pub use generate::spec_members;
pub use generate::spec_method;
pub use generate::spec_methods;
pub use generate::synth_finalize;
pub use generate::synth_members;
pub use generate::synth_methods;
pub use generate::tier_has_finalize;
pub use generate::tier_has_setters;
pub use generate::tier_recognizes_attrs;

pub use classify::Accumulator;
pub use classify::AccumulatorV;
pub use classify::ClassifiedField;
pub use classify::ClassifiedFieldV;
pub use classify::GenError;
pub use classify::GenErrorV;
pub use classify::classify_field;
pub use classify::classify_fields;
pub use classify::classify_fields_result_v;
pub use classify::classify_result_v;
pub use classify::option_wrapper_name;
pub use classify::spec_classify_field;
pub use classify::spec_classify_fields;
pub use decl::AttrShape;
pub use decl::AttrShapeV;
pub use decl::FieldDecl;
pub use decl::FieldDeclV;
pub use decl::RecordDecl;
pub use decl::RecordDeclV;
pub use decl::TypeRef;
pub use decl::TypeRefV;
pub use decl::type_ref_v;
