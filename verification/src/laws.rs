//! The guarantees of the generator, stated and proved over the spec
//! functions that the executable functions are pinned to.

use vstd::prelude::*;

use crate::classify::spec_builder_form;
use crate::classify::spec_classify;
use crate::descriptor::FieldView;
use crate::descriptor::TypeDescriptor;
use crate::descriptor::VariantView;
use crate::emit::spec_arm_body;
use crate::emit::spec_calls_text;
use crate::emit::spec_debug_impl;
use crate::emit::spec_form_name;
use crate::render::ValueView;
use crate::render::spec_entries;
use crate::render::spec_name_prefix;
use crate::render::spec_render_entry;
use crate::render::spec_render_variant;
use crate::render::spec_sequence_text;

verus! {

/// A variant with no fields renders as its bare display name, with an
/// empty entry list, whatever its field style is.
pub proof fn lemma_empty_variant_renders_name(v: VariantView)
    requires
        v.fields.len() == 0,
    ensures
        spec_entries(v.fields, Seq::empty()).len() == 0,
        spec_render_variant(v, Seq::empty()) == v.name,
{
}

/// On the emitted-code side, a variant with no fields compiles to a
/// branch that only opens the builder under the variant name and
/// finishes it: no field call is emitted, in either builder form.
pub proof fn lemma_empty_variant_arm_has_no_field_calls(v: VariantView)
    requires
        v.fields.len() == 0,
    ensures
        spec_calls_text(v.fields).len() == 0,
        spec_arm_body(v) == "let mut debug_builder = fmt."@ + spec_form_name(
            spec_builder_form(v.style),
        ) + "(\""@ + v.name + "\");\n"@ + "debug_builder.finish()"@,
{
    assert(spec_arm_body(v) =~= "let mut debug_builder = fmt."@ + spec_form_name(
        spec_builder_form(v.style),
    ) + "(\""@ + v.name + "\");\n"@ + "debug_builder.finish()"@);
}

/// An optional-wrapped field is omitted entirely when absent, and
/// prints only its inner value — never any wrapper notation — when
/// present.
pub proof fn lemma_optional_field_rendering(f: FieldView)
    requires
        spec_classify(f.shape) is OptionalWrapped,
    ensures
        spec_render_entry(f, ValueView::Absent) is None,
        forall|t: Seq<char>| #[trigger] spec_render_entry(f, ValueView::Present(t))
            == Option::Some(spec_name_prefix(f) + t),
{
}

/// A sequence-wrapped field is omitted entirely when the sequence is
/// empty, and prints the full sequence value when it is not.
pub proof fn lemma_sequence_field_rendering(f: FieldView)
    requires
        spec_classify(f.shape) is SequenceWrapped,
    ensures
        forall|ts: Seq<Seq<char>>|
            ts.len() == 0 ==> #[trigger] spec_render_entry(f, ValueView::Items(ts)) is None,
        forall|ts: Seq<Seq<char>>|
            ts.len() > 0 ==> #[trigger] spec_render_entry(f, ValueView::Items(ts))
                == Option::Some(spec_name_prefix(f) + spec_sequence_text(ts)),
{
}

/// A plain field is always rendered, whatever its value is.
pub proof fn lemma_plain_field_rendering(f: FieldView)
    requires
        spec_classify(f.shape) is Plain,
    ensures
        forall|t: Seq<char>| #[trigger] spec_render_entry(f, ValueView::Plain(t))
            == Option::Some(spec_name_prefix(f) + t),
{
}

/// Rendered entries keep declaration order: for every split point,
/// the entries of a variant are the entries of the fields before the
/// point followed by the entries of the fields after it.
pub proof fn lemma_entries_keep_declaration_order(
    fields: Seq<FieldView>,
    values: Seq<ValueView>,
    k: int,
)
    requires
        values.len() == fields.len(),
        0 <= k <= fields.len(),
    ensures
        spec_entries(fields, values) == spec_entries(fields.take(k), values.take(k))
            + spec_entries(fields.skip(k), values.skip(k)),
    decreases fields.len(),
{
    if k == fields.len() {
        assert(fields.take(k) =~= fields);
        assert(values.take(k) =~= values);
        assert(fields.skip(k).len() == 0);
        assert(spec_entries(fields, values) + spec_entries(fields.skip(k), values.skip(k))
            =~= spec_entries(fields, values));
    } else {
        let f1 = fields.drop_last();
        let v1 = values.drop_last();
        lemma_entries_keep_declaration_order(f1, v1, k);
        assert(f1.take(k) =~= fields.take(k));
        assert(v1.take(k) =~= values.take(k));
        assert(fields.skip(k).len() > 0);
        assert(fields.skip(k).drop_last() =~= f1.skip(k));
        assert(values.skip(k).drop_last() =~= v1.skip(k));
        assert(fields.skip(k).last() == fields.last());
        assert(values.skip(k).last() == values.last());
        assert(spec_entries(fields, values) =~= spec_entries(fields.take(k), values.take(k))
            + spec_entries(fields.skip(k), values.skip(k)));
    }
}

/// Index at which a rendered field's entry appears in the entry
/// list: the number of entries the fields declared before it
/// contribute.
pub open spec fn spec_entry_position(
    fields: Seq<FieldView>,
    values: Seq<ValueView>,
    i: int,
) -> int {
    spec_entries(fields.take(i), values.take(i)).len() as int
}

/// A rendered field's entry stands exactly at its position.
pub proof fn lemma_rendered_entry_at_position(
    fields: Seq<FieldView>,
    values: Seq<ValueView>,
    i: int,
)
    requires
        values.len() == fields.len(),
        0 <= i < fields.len(),
        spec_render_entry(fields[i], values[i]) is Some,
    ensures
        0 <= spec_entry_position(fields, values, i) < spec_entries(fields, values).len(),
        spec_entries(fields, values)[spec_entry_position(fields, values, i)]
            == spec_render_entry(fields[i], values[i])->0,
{
    lemma_entries_keep_declaration_order(fields, values, i + 1);
    assert(fields.take(i + 1).drop_last() =~= fields.take(i));
    assert(values.take(i + 1).drop_last() =~= values.take(i));
    assert(fields.take(i + 1).last() == fields[i]);
    assert(values.take(i + 1).last() == values[i]);
    let e = spec_render_entry(fields[i], values[i])->0;
    assert(spec_entries(fields.take(i + 1), values.take(i + 1)) =~= spec_entries(
        fields.take(i),
        values.take(i),
    ) + seq![e]);
    assert(spec_entries(fields, values)[spec_entry_position(fields, values, i)] == e);
}

/// Of two rendered fields, the one declared first appears first in
/// the output: positions grow strictly with declaration order.
pub proof fn lemma_rendered_order_strict(
    fields: Seq<FieldView>,
    values: Seq<ValueView>,
    i: int,
    j: int,
)
    requires
        values.len() == fields.len(),
        0 <= i < j < fields.len(),
        spec_render_entry(fields[i], values[i]) is Some,
        spec_render_entry(fields[j], values[j]) is Some,
    ensures
        spec_entry_position(fields, values, i) < spec_entry_position(fields, values, j),
{
    lemma_entries_keep_declaration_order(fields.take(j), values.take(j), i + 1);
    assert(fields.take(j).take(i + 1) =~= fields.take(i + 1));
    assert(values.take(j).take(i + 1) =~= values.take(i + 1));
    assert(fields.take(i + 1).drop_last() =~= fields.take(i));
    assert(values.take(i + 1).drop_last() =~= values.take(i));
    assert(fields.take(i + 1).last() == fields[i]);
    assert(values.take(i + 1).last() == values[i]);
    assert(spec_entries(fields.take(i + 1), values.take(i + 1)).len() == spec_entries(
        fields.take(i),
        values.take(i),
    ).len() + 1);
}

/// Emitted field calls keep declaration order as well: for every
/// split point, the emitted call lines of a variant are the lines of
/// the fields before the point followed by the lines of the fields
/// after it.
pub proof fn lemma_calls_keep_declaration_order(fields: Seq<FieldView>, k: int)
    requires
        0 <= k <= fields.len(),
    ensures
        spec_calls_text(fields) == spec_calls_text(fields.take(k)) + spec_calls_text(
            fields.skip(k),
        ),
    decreases fields.len(),
{
    if k == fields.len() {
        assert(fields.take(k) =~= fields);
        assert(fields.skip(k).len() == 0);
        assert(spec_calls_text(fields) + spec_calls_text(fields.skip(k)) =~= spec_calls_text(
            fields,
        ));
    } else {
        let f1 = fields.drop_last();
        lemma_calls_keep_declaration_order(f1, k);
        assert(f1.take(k) =~= fields.take(k));
        assert(fields.skip(k).len() > 0);
        assert(fields.skip(k).drop_last() =~= f1.skip(k));
        assert(fields.skip(k).last() == fields.last());
        assert(spec_calls_text(fields) =~= spec_calls_text(fields.take(k)) + spec_calls_text(
            fields.skip(k),
        ));
    }
}

/// The generator is a pure function of the descriptor: two
/// descriptors that carry the same structure are emitted as textually
/// identical routines, so running the generator twice on an identical
/// input yields identical output.
pub proof fn lemma_generator_deterministic(a: TypeDescriptor, b: TypeDescriptor)
    requires
        a@ == b@,
    ensures
        spec_debug_impl(a@) == spec_debug_impl(b@),
{
}

} // verus!
