//! The meaning of the emitted routine: what one variant prints for
//! given field values.
//!
//! The emitted source delegates the actual printing to the keyed and
//! sequential builders of the formatting interface. This module
//! states that behaviour directly — each field contributes an entry
//! or is omitted, entries appear in declaration order, and a variant
//! whose entries all vanish prints as its bare name — so the
//! suppression rules can be proved and exercised on concrete values.

use vstd::prelude::*;
use vstd::string::StringExecFns;

use crate::classify::BuilderForm;
use crate::classify::EmissionRule;
use crate::classify::builder_form;
use crate::classify::emission_rule;
use crate::classify::spec_builder_form;
use crate::classify::spec_classify;
use crate::classify::spec_rule;
use crate::descriptor::FieldDescriptor;
use crate::descriptor::FieldView;
use crate::descriptor::VariantDescriptor;
use crate::descriptor::VariantView;
use crate::text::join_texts;
use crate::text::spec_join;

verus! {

/// The value one field holds at one rendering, reduced to rendered
/// text: an optional field is absent or present with its inner
/// value's text, a sequence field holds the texts of its items, a
/// plain field holds its value's text.
#[derive(Clone, Debug)]
pub enum FieldValue {
    Absent,
    Present(String),
    Items(Vec<String>),
    Plain(String),
}

/// Ghost image of a `FieldValue`.
pub enum ValueView {
    Absent,
    Present(Seq<char>),
    Items(Seq<Seq<char>>),
    Plain(Seq<char>),
}

impl View for FieldValue {
    type V = ValueView;

    open spec fn view(&self) -> ValueView {
        match self {
            FieldValue::Absent => ValueView::Absent,
            FieldValue::Present(t) => ValueView::Present(t@),
            FieldValue::Items(ts) => ValueView::Items(ts@.map_values(|s: String| s@)),
            FieldValue::Plain(t) => ValueView::Plain(t@),
        }
    }
}

/// What a keyed entry is prefixed with: the display name and a colon
/// for a named field, nothing for a positional one.
pub open spec fn spec_name_prefix(f: FieldView) -> Seq<char> {
    match f.name {
        Option::Some(n) => n + ": "@,
        Option::None => Seq::empty(),
    }
}

/// How a non-empty sequence value prints: its items in order,
/// bracketed.
pub open spec fn spec_sequence_text(items: Seq<Seq<char>>) -> Seq<char> {
    "["@ + spec_join(items, ", "@) + "]"@
}

/// The entry one field contributes, or `None` when the field is
/// omitted: an absent optional and an empty sequence are omitted, a
/// present optional prints only its inner value, a plain field always
/// prints. A value of the wrong shape for the field's class
/// contributes nothing.
pub open spec fn spec_render_entry(f: FieldView, v: ValueView) -> Option<Seq<char>> {
    match spec_rule(spec_classify(f.shape)) {
        EmissionRule::Unconditional => match v {
            ValueView::Plain(t) => Option::Some(spec_name_prefix(f) + t),
            _ => Option::None,
        },
        EmissionRule::IfPresent => match v {
            ValueView::Present(t) => Option::Some(spec_name_prefix(f) + t),
            _ => Option::None,
        },
        EmissionRule::IfNonEmpty => match v {
            ValueView::Items(ts) => if ts.len() == 0 {
                Option::None
            } else {
                Option::Some(spec_name_prefix(f) + spec_sequence_text(ts))
            },
            _ => Option::None,
        },
    }
}

/// The entries of a whole variant, in field declaration order, with
/// omitted fields contributing nothing.
pub open spec fn spec_entries(fields: Seq<FieldView>, values: Seq<ValueView>) -> Seq<Seq<char>>
    decreases fields.len(),
{
    if fields.len() == 0 {
        Seq::empty()
    } else {
        spec_entries(fields.drop_last(), values.drop_last()) + match spec_render_entry(
            fields.last(),
            values.last(),
        ) {
            Option::Some(e) => seq![e],
            Option::None => Seq::empty(),
        }
    }
}

/// What one variant prints: its bare display name when every entry is
/// omitted, otherwise the name followed by the surviving entries in
/// declaration order, in the keyed or sequential surface syntax.
pub open spec fn spec_render_variant(v: VariantView, values: Seq<ValueView>) -> Seq<char> {
    let es = spec_entries(v.fields, values);
    if es.len() == 0 {
        v.name
    } else {
        match spec_builder_form(v.style) {
            BuilderForm::StructStyle => v.name + " { "@ + spec_join(es, ", "@) + " }"@,
            BuilderForm::TupleStyle => v.name + "("@ + spec_join(es, ", "@) + ")"@,
        }
    }
}

/// The keyed-entry prefix of one field.
fn name_prefix(field: &FieldDescriptor) -> (r: String)
    ensures
        r@ == spec_name_prefix(field@),
{
    match &field.name {
        Option::Some(n) => {
            let mut out = String::from_str(n.as_str());
            out.append(": ");
            out
        },
        Option::None => String::new(),
    }
}

/// The entry one field contributes for one value, or `None` when the
/// field is omitted.
pub fn render_entry(field: &FieldDescriptor, value: &FieldValue) -> (r: Option<String>)
    ensures
        r is Some <==> spec_render_entry(field@, value@) is Some,
        r is Some ==> r->0@ == spec_render_entry(field@, value@)->0,
{
    let rule = emission_rule(field);
    match (rule, value) {
        (EmissionRule::Unconditional, FieldValue::Plain(t)) => {
            let mut out = name_prefix(field);
            out.append(t.as_str());
            Option::Some(out)
        },
        (EmissionRule::IfPresent, FieldValue::Present(t)) => {
            let mut out = name_prefix(field);
            out.append(t.as_str());
            Option::Some(out)
        },
        (EmissionRule::IfNonEmpty, FieldValue::Items(ts)) => {
            if ts.len() == 0 {
                Option::None
            } else {
                let mut out = name_prefix(field);
                out.append("[");
                let joined = join_texts(ts, ", ");
                out.append(joined.as_str());
                out.append("]");
                proof {
                    assert(out@ =~= spec_name_prefix(field@) + spec_sequence_text(
                        ts@.map_values(|s: String| s@),
                    ));
                }
                Option::Some(out)
            }
        },
        _ => Option::None,
    }
}

/// What one variant prints for one value per field.
pub fn render_variant(variant: &VariantDescriptor, values: &Vec<FieldValue>) -> (r: String)
    requires
        values@.len() == variant@.fields.len(),
    ensures
        r@ == spec_render_variant(variant@, values@.map_values(|v: FieldValue| v@)),
{
    let ghost vals = values@.map_values(|v: FieldValue| v@);
    let mut entries: Vec<String> = Vec::new();
    proof {
        assert(entries@.map_values(|s: String| s@) =~= spec_entries(
            variant@.fields.take(0),
            vals.take(0),
        ));
    }
    let mut i: usize = 0;
    while i < variant.fields.len()
        invariant
            0 <= i <= variant.fields.len(),
            variant@.fields.len() == variant.fields.len(),
            variant@.fields == variant.fields@.map_values(|f: FieldDescriptor| f@),
            vals == values@.map_values(|v: FieldValue| v@),
            vals.len() == variant.fields.len(),
            entries@.map_values(|s: String| s@) == spec_entries(
                variant@.fields.take(i as int),
                vals.take(i as int),
            ),
        decreases variant.fields.len() - i,
    {
        let entry = render_entry(&variant.fields[i], &values[i]);
        let ghost entries_old = entries@;
        match entry {
            Option::Some(e) => {
                entries.push(e);
            },
            Option::None => {},
        }
        proof {
            assert(variant@.fields.take(i + 1).drop_last() =~= variant@.fields.take(i as int));
            assert(vals.take(i + 1).drop_last() =~= vals.take(i as int));
            assert(variant@.fields.take(i + 1).last() == variant@.fields[i as int]);
            assert(vals.take(i + 1).last() == vals[i as int]);
            assert(entries@.map_values(|s: String| s@) =~= spec_entries(
                variant@.fields.take(i + 1),
                vals.take(i + 1),
            ));
        }
        i = i + 1;
    }
    proof {
        assert(variant@.fields.take(variant.fields@.len() as int) =~= variant@.fields);
        assert(vals.take(variant.fields@.len() as int) =~= vals);
    }
    if entries.len() == 0 {
        let out = String::from_str(variant.name.as_str());
        return out;
    }
    let joined = join_texts(&entries, ", ");
    let mut out = String::from_str(variant.name.as_str());
    match builder_form(variant.style) {
        BuilderForm::StructStyle => {
            out.append(" { ");
            out.append(joined.as_str());
            out.append(" }");
        },
        BuilderForm::TupleStyle => {
            out.append("(");
            out.append(joined.as_str());
            out.append(")");
        },
    }
    proof {
        assert(out@ =~= spec_render_variant(variant@, vals));
    }
    out
}

} // verus!
