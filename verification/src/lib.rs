//! Generator for compact debug-formatting routines.
//!
//! Given the structural description of a record or tagged union, the
//! library synthesizes the source of a `Debug`-style formatting routine
//! that omits absent optional fields and empty sequence fields, and
//! prints present optional values without their wrapper.

pub mod classify;
pub mod descriptor;
pub mod emit;
pub mod laws;
pub mod render;
pub mod text;

pub use classify::BuilderForm;
pub use classify::EmissionRule;
pub use classify::FieldClass;
pub use classify::builder_form;
pub use classify::classify;
pub use classify::emission_rule;
pub use descriptor::FieldDescriptor;
pub use descriptor::FieldStyle;
pub use descriptor::TypeDescriptor;
pub use descriptor::TypeKind;
pub use descriptor::TypeShape;
pub use descriptor::VariantDescriptor;
pub use emit::generate_debug_builder_call;
pub use emit::generate_debug_impl;
pub use emit::generate_match_arm_body;
pub use emit::generate_pattern;
pub use render::FieldValue;
pub use render::render_entry;
pub use render::render_variant;
