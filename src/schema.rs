use vstd::prelude::*;
use crate::config::Meta;

verus! {

/// The declared type of a field, as written in the record's source.
pub enum TypeSyntax {
    /// A path `a::b::Name<T, ...>`: the identifier of each segment, and the
    /// arguments of the last one.
    Path { segments: Vec<String>, args: TypeArgs },
    /// Any other shape: a tuple, a reference, an array, ...
    Other,
}

/// The arguments of a path's last segment.
pub enum TypeArgs {
    /// `<T, U>`: the type arguments in order (empty when none are written).
    Angle(Vec<TypeSyntax>),
    /// `(A, B) -> C`.
    Paren,
}

/// The value of one attribute entry of a field.
pub enum AnnotationValue {
    /// `Key = "text"`.
    Str(String),
    /// `Key = 3` or any other literal that is not a string.
    Literal,
    /// A bare `Key` or a list `Key(...)`: no value.
    Absent,
}

/// One attribute entry of a field.
pub struct Annotation {
    pub key: String,
    pub value: AnnotationValue,
}

/// A named field of a record.
pub struct FieldSchema {
    pub name: String,
    pub ty: TypeSyntax,
    pub attrs: Vec<Annotation>,
}

/// The shape of a record's definition.
pub enum RecordBody {
    /// A struct with named fields, in declaration order.
    Named(Vec<FieldSchema>),
    /// A struct with positional fields.
    Tuple,
    /// A struct without fields.
    Unit,
    /// A tagged union.
    Enum,
}

/// A record definition, as an upstream reader extracts it.
pub struct RecordSchema {
    pub name: String,
    /// The record's lifetime parameters, each with its apostrophe (`'a`).
    pub lifetimes: Vec<String>,
    /// How many type parameters the record declares.
    pub type_params: usize,
    /// The record-level settings.
    pub metas: Vec<Meta>,
    pub body: RecordBody,
}

} // verus!
