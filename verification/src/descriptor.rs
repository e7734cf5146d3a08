//! The descriptor model: the structural description of one type
//! definition (its variants and their fields) that the generator
//! consumes. A front end builds these from an already-parsed type
//! definition; the generator never parses source text itself.

use vstd::prelude::*;

verus! {

/// How the fields of one variant are written down.
#[derive(Clone, Copy, PartialEq, Eq, Structural, Debug)]
pub enum FieldStyle {
    /// Every field carries a display name.
    Named,
    /// Fields are identified by position only.
    Positional,
    /// The variant has no fields at all.
    NoFields,
}

/// The outer shape of a field's declared type, as far as the
/// classifier looks at it: a path-like shape is reduced to the text of
/// its outermost identifier; tuples, references, arrays and the like
/// are opaque.
#[derive(Clone, Debug)]
pub enum TypeShape {
    /// A path-like type; `outer` is the outermost path identifier.
    Path { outer: String },
    /// Any deeper shape, treated as unclassifiable.
    Opaque,
}

/// Ghost image of a `TypeShape`.
pub enum ShapeView {
    Path { outer: Seq<char> },
    Opaque,
}

impl View for TypeShape {
    type V = ShapeView;

    open spec fn view(&self) -> ShapeView {
        match self {
            TypeShape::Path { outer } => ShapeView::Path { outer: outer@ },
            TypeShape::Opaque => ShapeView::Opaque,
        }
    }
}

/// One field of a variant: its display name (present exactly when the
/// variant's style is `Named`), the reference expression by which the
/// generated routine reads its value, and its declared-type shape.
#[derive(Clone, Debug)]
pub struct FieldDescriptor {
    pub name: Option<String>,
    pub binding: String,
    pub shape: TypeShape,
}

/// Ghost image of a `FieldDescriptor`.
pub struct FieldView {
    pub name: Option<Seq<char>>,
    pub binding: Seq<char>,
    pub shape: ShapeView,
}

impl View for FieldDescriptor {
    type V = FieldView;

    open spec fn view(&self) -> FieldView {
        FieldView {
            name: match self.name {
                Option::Some(n) => Option::Some(n@),
                Option::None => Option::None,
            },
            binding: self.binding@,
            shape: self.shape@,
        }
    }
}

/// One record shape: the sole shape of a plain record, or one case of
/// a tagged union.
#[derive(Clone, Debug)]
pub struct VariantDescriptor {
    pub name: String,
    pub style: FieldStyle,
    pub fields: Vec<FieldDescriptor>,
}

/// Ghost image of a `VariantDescriptor`.
pub struct VariantView {
    pub name: Seq<char>,
    pub style: FieldStyle,
    pub fields: Seq<FieldView>,
}

impl View for VariantDescriptor {
    type V = VariantView;

    open spec fn view(&self) -> VariantView {
        VariantView {
            name: self.name@,
            style: self.style,
            fields: self.fields@.map_values(|f: FieldDescriptor| f@),
        }
    }
}

impl FieldView {
    /// Name presence agrees with the variant's field style.
    pub open spec fn fits_style(self, style: FieldStyle) -> bool {
        match style {
            FieldStyle::Named => self.name is Some,
            FieldStyle::Positional => self.name is None,
            FieldStyle::NoFields => false,
        }
    }
}

impl VariantView {
    /// Well-formedness: the field style is consistent across the whole
    /// field sequence, and a `NoFields` variant has none.
    pub open spec fn wf(self) -> bool {
        match self.style {
            FieldStyle::NoFields => self.fields.len() == 0,
            _ => forall|i: int|
                0 <= i < self.fields.len() ==> (#[trigger] self.fields[i]).fits_style(self.style),
        }
    }
}

impl VariantDescriptor {
    /// Runtime check of `VariantView::wf`, for callers that receive a
    /// descriptor from an unverified front end.
    pub fn check_wf(&self) -> (b: bool)
        ensures
            b == self@.wf(),
    {
        match self.style {
            FieldStyle::NoFields => self.fields.len() == 0,
            _ => {
                let mut i: usize = 0;
                while i < self.fields.len()
                    invariant
                        0 <= i <= self.fields.len(),
                        self.style is Named || self.style is Positional,
                        forall|j: int|
                            0 <= j < i ==> (#[trigger] self@.fields[j]).fits_style(self.style),
                    decreases self.fields.len() - i,
                {
                    let fits = match self.style {
                        FieldStyle::Named => self.fields[i].name.is_some(),
                        FieldStyle::Positional => self.fields[i].name.is_none(),
                        FieldStyle::NoFields => false,
                    };
                    proof {
                        assert(self@.fields[i as int] == self.fields@[i as int]@);
                        assert(fits == self@.fields[i as int].fits_style(self.style));
                    }
                    if !fits {
                        return false;
                    }
                    i = i + 1;
                }
                true
            },
        }
    }
}

/// Whether the described type is a plain record (exactly one variant)
/// or a tagged union (one variant per case).
#[derive(Clone, Copy, PartialEq, Eq, Structural, Debug)]
pub enum TypeKind {
    Record,
    TaggedUnion,
}

/// The whole input of the generator: one type definition.
#[derive(Clone, Debug)]
pub struct TypeDescriptor {
    pub name: String,
    pub kind: TypeKind,
    pub variants: Vec<VariantDescriptor>,
}

/// Ghost image of a `TypeDescriptor`.
pub struct TypeView {
    pub name: Seq<char>,
    pub kind: TypeKind,
    pub variants: Seq<VariantView>,
}

impl View for TypeDescriptor {
    type V = TypeView;

    open spec fn view(&self) -> TypeView {
        TypeView {
            name: self.name@,
            kind: self.kind,
            variants: self.variants@.map_values(|v: VariantDescriptor| v@),
        }
    }
}

impl TypeView {
    /// Well-formedness: at least one variant, exactly one for a plain
    /// record, and every variant well-formed.
    pub open spec fn wf(self) -> bool {
        &&& self.variants.len() > 0
        &&& (self.kind is Record ==> self.variants.len() == 1)
        &&& forall|i: int| 0 <= i < self.variants.len() ==> (#[trigger] self.variants[i]).wf()
    }
}

impl TypeDescriptor {
    /// Runtime check of `TypeView::wf`.
    pub fn check_wf(&self) -> (b: bool)
        ensures
            b == self@.wf(),
    {
        if self.variants.len() == 0 {
            return false;
        }
        if matches!(self.kind, TypeKind::Record) && self.variants.len() != 1 {
            return false;
        }
        let mut i: usize = 0;
        while i < self.variants.len()
            invariant
                0 <= i <= self.variants.len(),
                forall|j: int| 0 <= j < i ==> (#[trigger] self@.variants[j]).wf(),
            decreases self.variants.len() - i,
        {
            let ok = self.variants[i].check_wf();
            proof {
                assert(self@.variants[i as int] == self.variants@[i as int]@);
            }
            if !ok {
                return false;
            }
            i = i + 1;
        }
        true
    }
}

} // verus!
