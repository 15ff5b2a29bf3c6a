//! Messages: records with ordered, tagged fields.

use vstd::prelude::*;
use crate::error::{CompileError, TypeError};
use crate::names::{pascal_case, snake_case, to_pascal_case, to_snake_case};
use crate::schema::SchemaValue;
use crate::sequence::{
    concat_map, lemma_concat_map_step, lemma_try_map_prefix_fails, lemma_try_map_step, try_map,
};
use crate::text::{is_identifier, parse_u32, parsed_u32, same_text};
use crate::tokens::{
    append_stream, push_group, push_ident, push_punct, stream_tokens, Delimiter, Spacing, Token,
};

verus! {

/// What a field is: its tag, its name in member casing, and the name of its
/// type as the schema wrote it.
pub struct FieldView {
    pub tag: u32,
    pub name: Seq<char>,
    pub field_type: Seq<char>,
}

/// What a message is: its name in type casing and its fields in order.
pub struct MessageView {
    pub name: Seq<char>,
    pub fields: Seq<FieldView>,
}

/// The type that a field's type name stands for in the emitted record: the
/// two known names stand for themselves, every other name for `Unknown`.
pub open spec fn mapped_type(field_type: Seq<char>) -> Seq<char> {
    if field_type == "u32"@ {
        "u32"@
    } else if field_type == "String"@ {
        "String"@
    } else {
        "Unknown"@
    }
}

/// The field that an entry of a message's table declares, or the rule that
/// the entry breaks. The tag is checked first, then the shape of the value,
/// then its two elements in order.
pub open spec fn field_from_entry(tag: Seq<char>, data: SchemaValue) -> Result<
    FieldView,
    TypeError,
> {
    match parsed_u32(tag) {
        None => Err(TypeError::TagNotNumber),
        Some(number) => match data.elements() {
            None => Err(TypeError::ValueNotArray),
            Some(items) => if items.len() != 2 {
                Err(TypeError::ValueNotPair)
            } else {
                match items[0].text() {
                    None => Err(TypeError::FieldNameNotString),
                    Some(name) => match items[1].text() {
                        None => Err(TypeError::FieldTypeNotString),
                        Some(field_type) => Ok(
                            FieldView { tag: number, name: snake_case(name), field_type },
                        ),
                    },
                }
            },
        },
    }
}

/// The rule that turns one entry of a message's table into a field.
pub open spec fn field_rule() -> spec_fn((String, SchemaValue)) -> Result<FieldView, TypeError> {
    |entry: (String, SchemaValue)| field_from_entry(entry.0@, entry.1)
}

/// The message that a table declares under a name: the fields of its entries
/// in the table's order, or the error of the first entry that breaks a rule.
pub open spec fn message_from_table(name: Seq<char>, entries: Seq<(String, SchemaValue)>) -> Result<
    MessageView,
    TypeError,
> {
    match try_map(entries, field_rule()) {
        Err(e) => Err(e),
        Ok(fields) => Ok(MessageView { name: pascal_case(name), fields }),
    }
}

impl FieldView {
    /// The field's name is a plain identifier, so that it can be emitted.
    pub open spec fn is_renderable(self) -> bool {
        is_identifier(self.name)
    }

    /// The tokens of the field's declaration: a public member of the mapped
    /// type, closed by a comma.
    pub open spec fn tokens(self) -> Seq<Token> {
        seq![
            Token::Ident("pub"@),
            Token::Ident(self.name),
            Token::Punct(':', Spacing::Alone),
            Token::Ident(mapped_type(self.field_type)),
            Token::Punct(',', Spacing::Alone),
        ]
    }
}

/// The tokens of one field, as a function.
pub open spec fn field_tokens() -> spec_fn(FieldView) -> Seq<Token> {
    |field: FieldView| field.tokens()
}

impl MessageView {
    /// The message's name and the names of its fields are plain identifiers.
    pub open spec fn is_renderable(self) -> bool {
        &&& is_identifier(self.name)
        &&& forall|i: int| 0 <= i < self.fields.len() ==> (#[trigger] self.fields[i]).is_renderable()
    }

    /// The tokens of the record declaration: a public struct of the message's
    /// name whose braces hold the fields in order.
    pub open spec fn tokens(self) -> Seq<Token> {
        seq![
            Token::Ident("pub"@),
            Token::Ident("struct"@),
            Token::Ident(self.name),
            Token::Group(Delimiter::Brace, concat_map(self.fields, field_tokens())),
        ]
    }
}

/// A field of a message.
#[derive(Debug, Clone, PartialEq, Eq)]
pub struct TomlRpcMessageField {
    tag: u32,
    name: String,
    field_type: String,
}

impl View for TomlRpcMessageField {
    type V = FieldView;

    closed spec fn view(&self) -> FieldView {
        FieldView { tag: self.tag, name: self.name@, field_type: self.field_type@ }
    }
}

/// The views of some fields, in order.
pub open spec fn field_views(fields: Seq<TomlRpcMessageField>) -> Seq<FieldView> {
    fields.map_values(|field: TomlRpcMessageField| field@)
}

impl TomlRpcMessageField {
    /// A field with the given tag, name and type name, taken as they are.
    pub fn new(tag: u32, name: String, field_type: String) -> (field: TomlRpcMessageField)
        ensures
            field@ == (FieldView { tag, name: name@, field_type: field_type@ }),
    {
        TomlRpcMessageField { tag, name, field_type }
    }

    /// Builds a field from one entry of a message's table: the key is the
    /// tag, the value an array of the field's name and type name.
    pub fn from_toml(tag: String, data: &SchemaValue) -> (built: Result<
        TomlRpcMessageField,
        CompileError,
    >)
        ensures
            match field_from_entry(tag@, *data) {
                Ok(view) => built matches Ok(field) && field@ == view,
                Err(e) => built matches Err(CompileError::Types(kind)) && kind == e,
            },
    {
        let number: u32 = match parse_u32(tag.as_str()) {
            Some(number) => number,
            None => return Err(CompileError::Types(TypeError::TagNotNumber)),
        };
        let items = match data.as_array() {
            Some(items) => items,
            None => return Err(CompileError::Types(TypeError::ValueNotArray)),
        };
        if items.len() != 2 {
            return Err(CompileError::Types(TypeError::ValueNotPair));
        }
        let name = match items[0].as_str() {
            Some(name) => to_snake_case(name),
            None => return Err(CompileError::Types(TypeError::FieldNameNotString)),
        };
        let field_type = match items[1].as_str() {
            Some(field_type) => field_type.to_owned(),
            None => return Err(CompileError::Types(TypeError::FieldTypeNotString)),
        };
        Ok(TomlRpcMessageField::new(number, name, field_type))
    }

    /// Whether the field's name is a plain identifier.
    pub fn is_renderable(&self) -> (renderable: bool)
        ensures
            renderable == self@.is_renderable(),
    {
        crate::text::check_identifier(self.name.as_str())
    }

    /// The tokens of the field's declaration.
    pub fn into_token_stream(self) -> (stream: proc_macro2::TokenStream)
        requires
            self@.is_renderable(),
        ensures
            stream_tokens(stream) == self@.tokens(),
    {
        self.to_token_stream()
    }

    /// The tokens of the field's declaration, from a borrowed field.
    pub fn to_token_stream(&self) -> (stream: proc_macro2::TokenStream)
        requires
            self@.is_renderable(),
        ensures
            stream_tokens(stream) == self@.tokens(),
    {
        let mut stream = proc_macro2::TokenStream::new();
        proof {
            reveal_strlit("pub");
            reveal_strlit("u32");
            reveal_strlit("String");
            reveal_strlit("Unknown");
        }
        push_ident(&mut stream, "pub");
        push_ident(&mut stream, self.name.as_str());
        push_punct(&mut stream, ':', Spacing::Alone);
        if same_text(self.field_type.as_str(), "u32") {
            push_ident(&mut stream, "u32");
        } else if same_text(self.field_type.as_str(), "String") {
            push_ident(&mut stream, "String");
        } else {
            push_ident(&mut stream, "Unknown");
        }
        push_punct(&mut stream, ',', Spacing::Alone);
        assert(stream_tokens(stream) =~= self@.tokens());
        stream
    }
}

/// A message: a record with ordered, tagged fields.
#[derive(Debug, Clone, PartialEq, Eq)]
pub struct TomlRpcMessage {
    pub name: String,
    fields: Vec<TomlRpcMessageField>,
}

impl View for TomlRpcMessage {
    type V = MessageView;

    closed spec fn view(&self) -> MessageView {
        MessageView { name: self.name@, fields: field_views(self.fields@) }
    }
}

/// The views of some messages, in order.
pub open spec fn message_views(messages: Seq<TomlRpcMessage>) -> Seq<MessageView> {
    messages.map_values(|message: TomlRpcMessage| message@)
}

impl TomlRpcMessage {
    /// A message with the given name and fields, taken as they are.
    pub fn new(name: String, fields: Vec<TomlRpcMessageField>) -> (message: TomlRpcMessage)
        ensures
            message@ == (MessageView { name: name@, fields: field_views(fields@) }),
    {
        TomlRpcMessage { name, fields }
    }

    /// The message's name.
    pub fn name(&self) -> (name: &str)
        ensures
            name@ == self@.name,
    {
        self.name.as_str()
    }

    /// Builds a message from its name and its table of fields. The fields
    /// keep the order of the table; the first entry that breaks a rule ends
    /// the build with its error.
    pub fn from_toml(name: String, fields: &Vec<(String, SchemaValue)>) -> (built: Result<
        TomlRpcMessage,
        CompileError,
    >)
        ensures
            match message_from_table(name@, fields@) {
                Ok(view) => built matches Ok(message) && message@ == view,
                Err(e) => built matches Err(CompileError::Types(kind)) && kind == e,
            },
    {
        let mut built: Vec<TomlRpcMessageField> = Vec::new();
        let mut i: usize = 0;
        assert(field_views(built@) =~= Seq::<FieldView>::empty());
        while i < fields.len()
            invariant
                i <= fields.len(),
                try_map(fields@.take(i as int), field_rule()) == Ok::<Seq<FieldView>, TypeError>(
                    field_views(built@),
                ),
            decreases fields.len() - i,
        {
            proof {
                lemma_try_map_step(fields@, field_rule(), i as int);
            }
            let ghost before = built@;
            match TomlRpcMessageField::from_toml(fields[i].0.clone(), &fields[i].1) {
                Err(e) => {
                    proof {
                        lemma_try_map_prefix_fails(fields@, field_rule(), i + 1);
                    }
                    return Err(e);
                },
                Ok(field) => {
                    built.push(field);
                    assert(field_views(built@) =~= field_views(before).push(field@));
                },
            }
            i = i + 1;
        }
        assert(fields@.take(i as int) =~= fields@);
        Ok(TomlRpcMessage::new(to_pascal_case(name.as_str()), built))
    }

    /// Whether the message's name and the names of its fields are plain
    /// identifiers.
    pub fn is_renderable(&self) -> (renderable: bool)
        ensures
            renderable == self@.is_renderable(),
    {
        if !crate::text::check_identifier(self.name.as_str()) {
            return false;
        }
        let mut i: usize = 0;
        while i < self.fields.len()
            invariant
                i <= self.fields.len(),
                forall|j: int| 0 <= j < i ==> (#[trigger] self@.fields[j]).is_renderable(),
            decreases self.fields.len() - i,
        {
            if !self.fields[i].is_renderable() {
                assert(!self@.fields[i as int].is_renderable());
                return false;
            }
            i = i + 1;
        }
        true
    }

    /// The tokens of the record declaration.
    pub fn into_token_stream(self) -> (stream: proc_macro2::TokenStream)
        requires
            self@.is_renderable(),
        ensures
            stream_tokens(stream) == self@.tokens(),
    {
        self.to_token_stream()
    }

    /// The tokens of the record declaration, from a borrowed message.
    pub fn to_token_stream(&self) -> (stream: proc_macro2::TokenStream)
        requires
            self@.is_renderable(),
        ensures
            stream_tokens(stream) == self@.tokens(),
    {
        let mut body = proc_macro2::TokenStream::new();
        let mut i: usize = 0;
        while i < self.fields.len()
            invariant
                i <= self.fields.len(),
                self@.is_renderable(),
                stream_tokens(body) == concat_map(self@.fields.take(i as int), field_tokens()),
            decreases self.fields.len() - i,
        {
            proof {
                lemma_concat_map_step(self@.fields, field_tokens(), i as int);
            }
            assert(self@.fields[i as int].is_renderable());
            append_stream(&mut body, self.fields[i].to_token_stream());
            i = i + 1;
        }
        assert(self@.fields.take(i as int) =~= self@.fields);
        let mut stream = proc_macro2::TokenStream::new();
        proof {
            reveal_strlit("pub");
            reveal_strlit("struct");
        }
        push_ident(&mut stream, "pub");
        push_ident(&mut stream, "struct");
        push_ident(&mut stream, self.name.as_str());
        push_group(&mut stream, Delimiter::Brace, body);
        assert(stream_tokens(stream) =~= self@.tokens());
        stream
    }
}

} // verus!
