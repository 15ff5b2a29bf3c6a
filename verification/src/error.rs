//! The errors of a compilation.

use vstd::prelude::*;

verus! {

/// The parse error of the `toml` crate, carried through unread.
#[verifier::external_type_specification]
#[verifier::external_body]
pub struct ExTomlError(toml::de::Error);

/// A violation of the schema's structure or meaning.
#[derive(Debug, Clone, Copy, PartialEq, Eq, Structural)]
pub enum TypeError {
    /// A message is not a table of fields.
    MessageNotTable,
    /// A field's tag does not denote an unsigned 32-bit number.
    TagNotNumber,
    /// The value of a field or of a method is not an array.
    ValueNotArray,
    /// The array of a field or of a method does not hold two elements.
    ValueNotPair,
    /// A field's name is not a string.
    FieldNameNotString,
    /// A field's type is not a string.
    FieldTypeNotString,
    /// An enumeration is not a table of variants.
    EnumNotTable,
    /// A variant's value is not an integer.
    VariantNotInteger,
    /// A variant's value does not fit in 32 unsigned bits.
    VariantNotU32,
    /// A service is not a table of methods.
    RpcNotTable,
    /// A method's input is not a string.
    MethodInputNotString,
    /// A method's output is not a string.
    MethodOutputNotString,
    /// A method's input holds no dot between kind and name.
    MethodInputForm,
    /// A method's output holds no dot between kind and name.
    MethodOutputForm,
    /// The kind of a method's input is neither `message` nor `enum`.
    UnknownInputType,
    /// The kind of a method's output is neither `message` nor `enum`.
    UnknownOutputType,
    /// A method refers to a message that the schema does not declare.
    MessageNotFound,
    /// A method refers to an enumeration that the schema does not declare.
    EnumNotFound,
    /// A name of the schema is no plain identifier once it is normalized.
    NameNotIdentifier,
    /// The declarations do not read as source text, as when a name is a
    /// reserved word.
    InvalidDeclaration,
}

impl TypeError {
    /// The sentence that describes the violation.
    pub open spec fn text(self) -> Seq<char> {
        match self {
            TypeError::MessageNotTable => "message is not a table"@,
            TypeError::TagNotNumber => "tag is not a number"@,
            TypeError::ValueNotArray => "field value is not an array"@,
            TypeError::ValueNotPair => "field value must be a two element array (name, type)"@,
            TypeError::FieldNameNotString => "field name is not a string"@,
            TypeError::FieldTypeNotString => "field type is not a string"@,
            TypeError::EnumNotTable => "enum is not a table"@,
            TypeError::VariantNotInteger => "enum variant value is not an integer"@,
            TypeError::VariantNotU32 => "enum variant value must be a u32"@,
            TypeError::RpcNotTable => "rpc is not a table"@,
            TypeError::MethodInputNotString => "method input is not a string"@,
            TypeError::MethodOutputNotString => "method output is not a string"@,
            TypeError::MethodInputForm => "method input must be in the form <message/enum>.name"@,
            TypeError::MethodOutputForm => "method output must be in the form <message/enum>.name"@,
            TypeError::UnknownInputType => "unknown input type"@,
            TypeError::UnknownOutputType => "unknown output type"@,
            TypeError::MessageNotFound => "message not found"@,
            TypeError::EnumNotFound => "enum not found"@,
            TypeError::NameNotIdentifier => "name is not an identifier"@,
            TypeError::InvalidDeclaration => "declaration is not valid source"@,
        }
    }

    /// The sentence that describes the violation.
    pub fn message(&self) -> (sentence: &'static str)
        ensures
            sentence@ == self.text(),
    {
        match self {
            TypeError::MessageNotTable => "message is not a table",
            TypeError::TagNotNumber => "tag is not a number",
            TypeError::ValueNotArray => "field value is not an array",
            TypeError::ValueNotPair => "field value must be a two element array (name, type)",
            TypeError::FieldNameNotString => "field name is not a string",
            TypeError::FieldTypeNotString => "field type is not a string",
            TypeError::EnumNotTable => "enum is not a table",
            TypeError::VariantNotInteger => "enum variant value is not an integer",
            TypeError::VariantNotU32 => "enum variant value must be a u32",
            TypeError::RpcNotTable => "rpc is not a table",
            TypeError::MethodInputNotString => "method input is not a string",
            TypeError::MethodOutputNotString => "method output is not a string",
            TypeError::MethodInputForm => "method input must be in the form <message/enum>.name",
            TypeError::MethodOutputForm => "method output must be in the form <message/enum>.name",
            TypeError::UnknownInputType => "unknown input type",
            TypeError::UnknownOutputType => "unknown output type",
            TypeError::MessageNotFound => "message not found",
            TypeError::EnumNotFound => "enum not found",
            TypeError::NameNotIdentifier => "name is not an identifier",
            TypeError::InvalidDeclaration => "declaration is not valid source",
        }
    }
}

/// The kind of a failure, without what the schema's reader reports.
#[derive(Debug, Clone, Copy, PartialEq, Eq, Structural)]
pub enum Failure {
    /// The schema text is not well-formed structured data.
    Syntax,
    /// The schema breaks a rule of structure or meaning.
    Types(TypeError),
}

/// Why a compilation failed.
#[derive(Debug)]
pub enum CompileError {
    /// The schema text is not well-formed structured data.
    Toml(toml::de::Error),
    /// The schema breaks a rule of structure or meaning.
    Types(TypeError),
}

impl CompileError {
    /// The kind of the failure.
    pub open spec fn failure(self) -> Failure {
        match self {
            CompileError::Toml(_) => Failure::Syntax,
            CompileError::Types(kind) => Failure::Types(kind),
        }
    }

    /// The kind of the failure.
    pub fn kind(&self) -> (kind: Failure)
        ensures
            kind == self.failure(),
    {
        match self {
            CompileError::Toml(_) => Failure::Syntax,
            CompileError::Types(kind) => Failure::Types(*kind),
        }
    }
}

} // verus!
