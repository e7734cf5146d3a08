//! Field classification and per-variant builder-form selection.
//!
//! Classification is purely lexical: a path-like type whose outermost
//! identifier reads `Option` is optional-wrapped, one that reads `Vec`
//! is sequence-wrapped, anything else is plain. No alias expansion or
//! semantic resolution takes place; a same-named wrapper from another
//! module classifies the same way, and a renamed one does not.

use vstd::prelude::*;
use vstd::string::StringExecFns;

use crate::descriptor::FieldDescriptor;
use crate::descriptor::FieldStyle;
use crate::descriptor::ShapeView;
use crate::descriptor::TypeShape;

verus! {

/// The three recognized field-type categories.
#[derive(Clone, Copy, PartialEq, Eq, Structural, Debug)]
pub enum FieldClass {
    OptionalWrapped,
    SequenceWrapped,
    Plain,
}

/// The rendering convention of one variant: keyed fields or
/// positional fields.
#[derive(Clone, Copy, PartialEq, Eq, Structural, Debug)]
pub enum BuilderForm {
    StructStyle,
    TupleStyle,
}

/// The emission instruction derived for one field.
#[derive(Clone, Copy, PartialEq, Eq, Structural, Debug)]
pub enum EmissionRule {
    /// Render the field whatever its value is.
    Unconditional,
    /// Render only when the optional value is present, and then only
    /// its inner value.
    IfPresent,
    /// Render only when the sequence is non-empty.
    IfNonEmpty,
}

/// Lexical classification of a declared-type shape.
pub open spec fn spec_classify(shape: ShapeView) -> FieldClass {
    match shape {
        ShapeView::Path { outer } => {
            if outer == "Option"@ {
                FieldClass::OptionalWrapped
            } else if outer == "Vec"@ {
                FieldClass::SequenceWrapped
            } else {
                FieldClass::Plain
            }
        },
        ShapeView::Opaque => FieldClass::Plain,
    }
}

/// The field classifier: a total function with no failure mode; every
/// unrecognized shape degrades to `Plain`.
pub fn classify(shape: &TypeShape) -> (c: FieldClass)
    ensures
        c == spec_classify(shape@),
{
    match shape {
        TypeShape::Opaque => FieldClass::Plain,
        TypeShape::Path { outer } => {
            if *outer == String::from_str("Option") {
                FieldClass::OptionalWrapped
            } else if *outer == String::from_str("Vec") {
                FieldClass::SequenceWrapped
            } else {
                FieldClass::Plain
            }
        },
    }
}

/// Builder form chosen for a field style: named fields and field-less
/// variants use the keyed builder, positional fields the sequential
/// one.
pub open spec fn spec_builder_form(style: FieldStyle) -> BuilderForm {
    match style {
        FieldStyle::Positional => BuilderForm::TupleStyle,
        _ => BuilderForm::StructStyle,
    }
}

/// The builder-form selector: total over the three field styles.
pub fn builder_form(style: FieldStyle) -> (f: BuilderForm)
    ensures
        f == spec_builder_form(style),
{
    match style {
        FieldStyle::Positional => BuilderForm::TupleStyle,
        FieldStyle::Named => BuilderForm::StructStyle,
        FieldStyle::NoFields => BuilderForm::StructStyle,
    }
}

/// Emission rule derived from a classification: optional-wrapped
/// fields render on presence, sequence-wrapped ones on non-emptiness,
/// plain ones always.
pub open spec fn spec_rule(class: FieldClass) -> EmissionRule {
    match class {
        FieldClass::OptionalWrapped => EmissionRule::IfPresent,
        FieldClass::SequenceWrapped => EmissionRule::IfNonEmpty,
        FieldClass::Plain => EmissionRule::Unconditional,
    }
}

/// The emission-rule generator for one field.
pub fn emission_rule(field: &FieldDescriptor) -> (r: EmissionRule)
    ensures
        r == spec_rule(spec_classify(field@.shape)),
{
    match classify(&field.shape) {
        FieldClass::OptionalWrapped => EmissionRule::IfPresent,
        FieldClass::SequenceWrapped => EmissionRule::IfNonEmpty,
        FieldClass::Plain => EmissionRule::Unconditional,
    }
}

} // verus!
