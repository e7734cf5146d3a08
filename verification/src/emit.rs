//! Code emission: from a descriptor to the source text of the
//! formatting routine.
//!
//! The emitted routine uses the keyed (`debug_struct`) or sequential
//! (`debug_tuple`) builder of the formatting interface, opens it under
//! the variant's display name, issues one field call per field in
//! declaration order — unconditional for plain fields, guarded by
//! presence for optional-wrapped ones, guarded by non-emptiness for
//! sequence-wrapped ones — and finishes the builder.

use vstd::prelude::*;
use vstd::string::StringExecFns;

use crate::classify::BuilderForm;
use crate::classify::EmissionRule;
use crate::classify::builder_form;
use crate::classify::emission_rule;
use crate::classify::spec_builder_form;
use crate::classify::spec_classify;
use crate::classify::spec_rule;
use crate::descriptor::FieldDescriptor;
use crate::descriptor::FieldStyle;
use crate::descriptor::FieldView;
use crate::descriptor::TypeDescriptor;
use crate::descriptor::TypeKind;
use crate::descriptor::TypeView;
use crate::descriptor::VariantDescriptor;
use crate::descriptor::VariantView;
use crate::text::join_texts;
use crate::text::spec_join;

verus! {

/// The builder method the emitted routine calls for a form.
pub open spec fn spec_form_name(form: BuilderForm) -> Seq<char> {
    match form {
        BuilderForm::StructStyle => "debug_struct"@,
        BuilderForm::TupleStyle => "debug_tuple"@,
    }
}

/// The field call emitted for one field: keyed by the display name
/// when the field has one, bare otherwise, and guarded according to
/// the field's emission rule.
pub open spec fn spec_field_call(f: FieldView) -> Seq<char> {
    match f.name {
        Option::Some(n) => match spec_rule(spec_classify(f.shape)) {
            EmissionRule::Unconditional => "debug_builder.field(\""@ + n + "\", "@ + f.binding
                + ");"@,
            EmissionRule::IfPresent => "if let Some(v) = "@ + f.binding
                + " { debug_builder.field(\""@ + n + "\", v); }"@,
            EmissionRule::IfNonEmpty => "if !"@ + f.binding + ".is_empty() { debug_builder.field(\""@
                + n + "\", "@ + f.binding + "); }"@,
        },
        Option::None => match spec_rule(spec_classify(f.shape)) {
            EmissionRule::Unconditional => "debug_builder.field("@ + f.binding + ");"@,
            EmissionRule::IfPresent => "if let Some(v) = "@ + f.binding
                + " { debug_builder.field(v); }"@,
            EmissionRule::IfNonEmpty => "if !"@ + f.binding + ".is_empty() { debug_builder.field("@
                + f.binding + "); }"@,
        },
    }
}

/// Source text of one `.field(...)` call (or guarded call) of the
/// emitted routine.
pub fn generate_debug_builder_call(field: &FieldDescriptor) -> (r: String)
    ensures
        r@ == spec_field_call(field@),
{
    let rule = emission_rule(field);
    let mut out: String;
    match &field.name {
        Option::Some(n) => {
            match rule {
                EmissionRule::Unconditional => {
                    out = String::from_str("debug_builder.field(\"");
                    out.append(n.as_str());
                    out.append("\", ");
                    out.append(field.binding.as_str());
                    out.append(");");
                },
                EmissionRule::IfPresent => {
                    out = String::from_str("if let Some(v) = ");
                    out.append(field.binding.as_str());
                    out.append(" { debug_builder.field(\"");
                    out.append(n.as_str());
                    out.append("\", v); }");
                },
                EmissionRule::IfNonEmpty => {
                    out = String::from_str("if !");
                    out.append(field.binding.as_str());
                    out.append(".is_empty() { debug_builder.field(\"");
                    out.append(n.as_str());
                    out.append("\", ");
                    out.append(field.binding.as_str());
                    out.append("); }");
                },
            }
        },
        Option::None => {
            match rule {
                EmissionRule::Unconditional => {
                    out = String::from_str("debug_builder.field(");
                    out.append(field.binding.as_str());
                    out.append(");");
                },
                EmissionRule::IfPresent => {
                    out = String::from_str("if let Some(v) = ");
                    out.append(field.binding.as_str());
                    out.append(" { debug_builder.field(v); }");
                },
                EmissionRule::IfNonEmpty => {
                    out = String::from_str("if !");
                    out.append(field.binding.as_str());
                    out.append(".is_empty() { debug_builder.field(");
                    out.append(field.binding.as_str());
                    out.append("); }");
                },
            }
        },
    }
    proof {
        assert(out@ =~= spec_field_call(field@));
    }
    out
}

/// The field calls of a variant, in declaration order, one line each.
pub open spec fn spec_calls_text(fields: Seq<FieldView>) -> Seq<char>
    decreases fields.len(),
{
    if fields.len() == 0 {
        Seq::empty()
    } else {
        spec_calls_text(fields.drop_last()) + spec_field_call(fields.last()) + "\n"@
    }
}

/// The body of one rendering branch: open the builder under the
/// variant's display name, apply every field call in declaration
/// order, finish the builder.
pub open spec fn spec_arm_body(v: VariantView) -> Seq<char> {
    "let mut debug_builder = fmt."@ + spec_form_name(spec_builder_form(v.style)) + "(\""@ + v.name
        + "\");\n"@ + spec_calls_text(v.fields) + "debug_builder.finish()"@
}

/// Source text of the rendering branch for one variant.
pub fn generate_match_arm_body(variant: &VariantDescriptor) -> (r: String)
    ensures
        r@ == spec_arm_body(variant@),
{
    let mut out = String::from_str("let mut debug_builder = fmt.");
    match builder_form(variant.style) {
        BuilderForm::StructStyle => out.append("debug_struct"),
        BuilderForm::TupleStyle => out.append("debug_tuple"),
    }
    out.append("(\"");
    out.append(variant.name.as_str());
    out.append("\");\n");
    let ghost prefix = out@;
    proof {
        assert(prefix =~= "let mut debug_builder = fmt."@ + spec_form_name(
            spec_builder_form(variant.style),
        ) + "(\""@ + variant@.name + "\");\n"@);
        assert(out@ =~= prefix + spec_calls_text(variant@.fields.take(0)));
    }
    let mut i: usize = 0;
    while i < variant.fields.len()
        invariant
            0 <= i <= variant.fields.len(),
            variant@.fields.len() == variant.fields.len(),
            variant@.fields == variant.fields@.map_values(|f: FieldDescriptor| f@),
            out@ == prefix + spec_calls_text(variant@.fields.take(i as int)),
        decreases variant.fields.len() - i,
    {
        let call = generate_debug_builder_call(&variant.fields[i]);
        out.append(call.as_str());
        out.append("\n");
        proof {
            assert(variant@.fields.take(i + 1).drop_last() =~= variant@.fields.take(i as int));
            assert(variant@.fields.take(i + 1).last() == variant@.fields[i as int]);
            assert(out@ =~= prefix + spec_calls_text(variant@.fields.take(i + 1)));
        }
        i = i + 1;
    }
    proof {
        assert(variant@.fields.take(variant.fields@.len() as int) =~= variant@.fields);
    }
    out.append("debug_builder.finish()");
    proof {
        assert(out@ =~= spec_arm_body(variant@));
    }
    out
}

/// The binder one field contributes to its variant's match pattern.
pub open spec fn spec_binder(f: FieldView) -> Seq<char> {
    match f.name {
        Option::Some(n) => n + ": ref "@ + f.binding,
        Option::None => "ref "@ + f.binding,
    }
}

/// The path of a variant's match pattern: the type itself for a plain
/// record, the tagged case for a union.
pub open spec fn spec_pattern_path(kind: TypeKind, name: Seq<char>) -> Seq<char> {
    match kind {
        TypeKind::Record => "Self"@,
        TypeKind::TaggedUnion => "Self::"@ + name,
    }
}

/// The field binders of a variant's match pattern, in the style's
/// concrete syntax.
pub open spec fn spec_pattern_fields(v: VariantView) -> Seq<char> {
    match v.style {
        FieldStyle::NoFields => Seq::empty(),
        FieldStyle::Named => " { "@ + spec_join(
            v.fields.map_values(|f: FieldView| spec_binder(f)),
            ", "@,
        ) + " }"@,
        FieldStyle::Positional => "("@ + spec_join(
            v.fields.map_values(|f: FieldView| spec_binder(f)),
            ", "@,
        ) + ")"@,
    }
}

/// The whole match pattern of one variant.
pub open spec fn spec_pattern(kind: TypeKind, v: VariantView) -> Seq<char> {
    spec_pattern_path(kind, v.name) + spec_pattern_fields(v)
}

/// Source text of the match pattern that selects one variant and
/// binds its fields.
pub fn generate_pattern(kind: TypeKind, variant: &VariantDescriptor) -> (r: String)
    ensures
        r@ == spec_pattern(kind, variant@),
{
    let mut out: String;
    match kind {
        TypeKind::Record => {
            out = String::from_str("Self");
        },
        TypeKind::TaggedUnion => {
            out = String::from_str("Self::");
            out.append(variant.name.as_str());
        },
    }
    proof {
        assert(out@ =~= spec_pattern_path(kind, variant@.name));
    }
    let ghost binder_views = variant@.fields.map_values(|f: FieldView| spec_binder(f));
    match variant.style {
        FieldStyle::NoFields => {
            proof {
                assert(out@ =~= spec_pattern(kind, variant@));
            }
        },
        _ => {
            let mut binders: Vec<String> = Vec::new();
            proof {
                assert(binders@.map_values(|s: String| s@) =~= binder_views.take(0));
            }
            let mut i: usize = 0;
            while i < variant.fields.len()
                invariant
                    0 <= i <= variant.fields.len(),
                    variant@.fields.len() == variant.fields.len(),
                    variant@.fields == variant.fields@.map_values(|f: FieldDescriptor| f@),
                    binder_views == variant@.fields.map_values(|f: FieldView| spec_binder(f)),
                    binders@.map_values(|s: String| s@) == binder_views.take(i as int),
                decreases variant.fields.len() - i,
            {
                let mut b: String;
                match &variant.fields[i].name {
                    Option::Some(n) => {
                        b = String::from_str(n.as_str());
                        b.append(": ref ");
                        b.append(variant.fields[i].binding.as_str());
                    },
                    Option::None => {
                        b = String::from_str("ref ");
                        b.append(variant.fields[i].binding.as_str());
                    },
                }
                proof {
                    assert(b@ =~= spec_binder(variant@.fields[i as int]));
                }
                let ghost binders_old = binders@;
                binders.push(b);
                proof {
                    assert(binders@.map_values(|s: String| s@) =~= binders_old.map_values(
                        |s: String| s@,
                    ).push(b@));
                    assert(binders@.map_values(|s: String| s@) =~= binder_views.take(i + 1));
                }
                i = i + 1;
            }
            proof {
                assert(binder_views.take(variant.fields@.len() as int) =~= binder_views);
            }
            let joined = join_texts(&binders, ", ");
            match variant.style {
                FieldStyle::Positional => {
                    out.append("(");
                    out.append(joined.as_str());
                    out.append(")");
                },
                _ => {
                    out.append(" { ");
                    out.append(joined.as_str());
                    out.append(" }");
                },
            }
            proof {
                assert(out@ =~= spec_pattern(kind, variant@));
            }
        },
    }
    out
}

/// One full match arm: pattern, arrow, braced arm body.
pub open spec fn spec_arm(kind: TypeKind, v: VariantView) -> Seq<char> {
    spec_pattern(kind, v) + " => {\n"@ + spec_arm_body(v) + "\n}\n"@
}

/// All match arms of a descriptor, in variant order.
pub open spec fn spec_arms_text(kind: TypeKind, variants: Seq<VariantView>) -> Seq<char>
    decreases variants.len(),
{
    if variants.len() == 0 {
        Seq::empty()
    } else {
        spec_arms_text(kind, variants.drop_last()) + spec_arm(kind, variants.last())
    }
}

/// The complete formatting routine for a descriptor: an
/// implementation of the formatting interface whose body dispatches
/// on the active variant and renders it.
pub open spec fn spec_debug_impl(t: TypeView) -> Seq<char> {
    "impl ::core::fmt::Debug for "@ + t.name + " {\n"@
        + "fn fmt(&self, fmt: &mut ::core::fmt::Formatter) -> ::core::fmt::Result {\n"@
        + "match *self {\n"@ + spec_arms_text(t.kind, t.variants) + "}\n}\n}\n"@
}

/// The top-level emitter: the source of the complete formatting
/// routine for one well-formed descriptor.
pub fn generate_debug_impl(descriptor: &TypeDescriptor) -> (r: String)
    requires
        descriptor@.wf(),
    ensures
        r@ == spec_debug_impl(descriptor@),
{
    let mut out = String::from_str("impl ::core::fmt::Debug for ");
    out.append(descriptor.name.as_str());
    out.append(" {\n");
    out.append("fn fmt(&self, fmt: &mut ::core::fmt::Formatter) -> ::core::fmt::Result {\n");
    out.append("match *self {\n");
    let ghost prefix = out@;
    proof {
        assert(prefix =~= "impl ::core::fmt::Debug for "@ + descriptor@.name + " {\n"@
            + "fn fmt(&self, fmt: &mut ::core::fmt::Formatter) -> ::core::fmt::Result {\n"@
            + "match *self {\n"@);
        assert(out@ =~= prefix + spec_arms_text(descriptor.kind, descriptor@.variants.take(0)));
    }
    let mut i: usize = 0;
    while i < descriptor.variants.len()
        invariant
            0 <= i <= descriptor.variants.len(),
            descriptor@.variants.len() == descriptor.variants.len(),
            descriptor@.variants == descriptor.variants@.map_values(|v: VariantDescriptor| v@),
            descriptor@.kind == descriptor.kind,
            out@ == prefix + spec_arms_text(descriptor.kind, descriptor@.variants.take(i as int)),
        decreases descriptor.variants.len() - i,
    {
        let pattern = generate_pattern(descriptor.kind, &descriptor.variants[i]);
        let body = generate_match_arm_body(&descriptor.variants[i]);
        out.append(pattern.as_str());
        out.append(" => {\n");
        out.append(body.as_str());
        out.append("\n}\n");
        proof {
            assert(descriptor@.variants.take(i + 1).drop_last() =~= descriptor@.variants.take(
                i as int,
            ));
            assert(descriptor@.variants.take(i + 1).last() == descriptor@.variants[i as int]);
            assert(out@ =~= prefix + spec_arms_text(
                descriptor.kind,
                descriptor@.variants.take(i + 1),
            ));
        }
        i = i + 1;
    }
    proof {
        assert(descriptor@.variants.take(descriptor.variants@.len() as int)
            =~= descriptor@.variants);
    }
    out.append("}\n}\n}\n");
    proof {
        assert(out@ =~= spec_debug_impl(descriptor@));
    }
    out
}

} // verus!
