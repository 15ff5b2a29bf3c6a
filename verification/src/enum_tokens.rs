//! Enumerations: named sets of variants with explicit 32-bit values.

use vstd::prelude::*;
use crate::error::{CompileError, TypeError};
use crate::names::{pascal_case, to_pascal_case};
use crate::schema::SchemaValue;
use crate::sequence::{
    concat_map, lemma_concat_map_step, lemma_try_map_prefix_fails, lemma_try_map_step, try_map,
};
use crate::text::{check_identifier, is_identifier};
use crate::tokens::{
    append_stream, push_group, push_ident, push_punct, push_u32, stream_tokens, Delimiter, Spacing,
    Token,
};

verus! {

/// What a variant is: its name in type casing and its value.
pub struct VariantView {
    pub name: Seq<char>,
    pub numerical_value: u32,
}

/// What an enumeration is: its name in type casing and its variants in order.
pub struct EnumView {
    pub name: Seq<char>,
    pub fields: Seq<VariantView>,
}

/// The variant that an entry of an enumeration's table declares, or the rule
/// that the entry breaks: the value must be an integer, and it must lie
/// between 0 and the largest unsigned 32-bit number.
pub open spec fn variant_from_entry(name: Seq<char>, value: SchemaValue) -> Result<
    VariantView,
    TypeError,
> {
    match value.integer() {
        None => Err(TypeError::VariantNotInteger),
        Some(number) => if 0 <= number <= u32::MAX {
            Ok(VariantView { name: pascal_case(name), numerical_value: number as u32 })
        } else {
            Err(TypeError::VariantNotU32)
        },
    }
}

/// The rule that turns one entry of an enumeration's table into a variant.
pub open spec fn variant_rule() -> spec_fn((String, SchemaValue)) -> Result<
    VariantView,
    TypeError,
> {
    |entry: (String, SchemaValue)| variant_from_entry(entry.0@, entry.1)
}

/// The enumeration that a table declares under a name: the variants of its
/// entries in the table's order, or the error of the first entry that breaks
/// a rule.
pub open spec fn enum_from_table(name: Seq<char>, entries: Seq<(String, SchemaValue)>) -> Result<
    EnumView,
    TypeError,
> {
    match try_map(entries, variant_rule()) {
        Err(e) => Err(e),
        Ok(fields) => Ok(EnumView { name: pascal_case(name), fields }),
    }
}

impl VariantView {
    /// The variant's name is a plain identifier, so that it can be emitted.
    pub open spec fn is_renderable(self) -> bool {
        is_identifier(self.name)
    }

    /// The tokens of the variant's declaration: the name, its value as an
    /// explicit discriminant, and a comma.
    pub open spec fn tokens(self) -> Seq<Token> {
        seq![
            Token::Ident(self.name),
            Token::Punct('=', Spacing::Alone),
            Token::U32(self.numerical_value),
            Token::Punct(',', Spacing::Alone),
        ]
    }
}

/// The tokens of one variant, as a function.
pub open spec fn variant_tokens() -> spec_fn(VariantView) -> Seq<Token> {
    |variant: VariantView| variant.tokens()
}

impl EnumView {
    /// The enumeration's name and the names of its variants are plain
    /// identifiers.
    pub open spec fn is_renderable(self) -> bool {
        &&& is_identifier(self.name)
        &&& forall|i: int| 0 <= i < self.fields.len() ==> (#[trigger] self.fields[i]).is_renderable()
    }

    /// The tokens of the enumeration's declaration: the attribute that fixes
    /// the representation at 32 unsigned bits, then a public enum of the
    /// enumeration's name whose braces hold the variants in order.
    pub open spec fn tokens(self) -> Seq<Token> {
        seq![
            Token::Punct('#', Spacing::Alone),
            Token::Group(
                Delimiter::Bracket,
                seq![
                    Token::Ident("repr"@),
                    Token::Group(Delimiter::Parenthesis, seq![Token::Ident("u32"@)]),
                ],
            ),
            Token::Ident("pub"@),
            Token::Ident("enum"@),
            Token::Ident(self.name),
            Token::Group(Delimiter::Brace, concat_map(self.fields, variant_tokens())),
        ]
    }
}

/// A variant of an enumeration.
#[derive(Debug, Clone, PartialEq, Eq)]
pub struct TomlRpcEnumField {
    name: String,
    numerical_value: u32,
}

impl View for TomlRpcEnumField {
    type V = VariantView;

    closed spec fn view(&self) -> VariantView {
        VariantView { name: self.name@, numerical_value: self.numerical_value }
    }
}

/// The views of some variants, in order.
pub open spec fn variant_views(fields: Seq<TomlRpcEnumField>) -> Seq<VariantView> {
    fields.map_values(|field: TomlRpcEnumField| field@)
}

impl TomlRpcEnumField {
    /// A variant with the given name and value, taken as they are.
    pub fn new(name: String, numerical_value: u32) -> (field: TomlRpcEnumField)
        ensures
            field@ == (VariantView { name: name@, numerical_value }),
    {
        TomlRpcEnumField { name, numerical_value }
    }

    /// Builds a variant from one entry of an enumeration's table: the key is
    /// the variant's name, the value its number.
    pub fn from_toml(name: String, numerical_value: &SchemaValue) -> (built: Result<
        TomlRpcEnumField,
        CompileError,
    >)
        ensures
            match variant_from_entry(name@, *numerical_value) {
                Ok(view) => built matches Ok(field) && field@ == view,
                Err(e) => built matches Err(CompileError::Types(kind)) && kind == e,
            },
    {
        let number: i64 = match numerical_value.as_integer() {
            Some(number) => number,
            None => return Err(CompileError::Types(TypeError::VariantNotInteger)),
        };
        if number < 0 || number > 0xffff_ffff {
            return Err(CompileError::Types(TypeError::VariantNotU32));
        }
        Ok(TomlRpcEnumField::new(to_pascal_case(name.as_str()), number as u32))
    }

    /// Whether the variant's name is a plain identifier.
    pub fn is_renderable(&self) -> (renderable: bool)
        ensures
            renderable == self@.is_renderable(),
    {
        check_identifier(self.name.as_str())
    }

    /// The tokens of the variant's declaration.
    pub fn into_token_stream(self) -> (stream: proc_macro2::TokenStream)
        requires
            self@.is_renderable(),
        ensures
            stream_tokens(stream) == self@.tokens(),
    {
        self.to_token_stream()
    }

    /// The tokens of the variant's declaration, from a borrowed variant.
    pub fn to_token_stream(&self) -> (stream: proc_macro2::TokenStream)
        requires
            self@.is_renderable(),
        ensures
            stream_tokens(stream) == self@.tokens(),
    {
        let mut stream = proc_macro2::TokenStream::new();
        push_ident(&mut stream, self.name.as_str());
        push_punct(&mut stream, '=', Spacing::Alone);
        push_u32(&mut stream, self.numerical_value);
        push_punct(&mut stream, ',', Spacing::Alone);
        assert(stream_tokens(stream) =~= self@.tokens());
        stream
    }
}

/// An enumeration: a named set of variants.
#[derive(Debug, Clone, PartialEq, Eq)]
pub struct TomlRpcEnum {
    pub name: String,
    fields: Vec<TomlRpcEnumField>,
}

impl View for TomlRpcEnum {
    type V = EnumView;

    closed spec fn view(&self) -> EnumView {
        EnumView { name: self.name@, fields: variant_views(self.fields@) }
    }
}

/// The views of some enumerations, in order.
pub open spec fn enum_views(enums: Seq<TomlRpcEnum>) -> Seq<EnumView> {
    enums.map_values(|declared: TomlRpcEnum| declared@)
}

impl TomlRpcEnum {
    /// An enumeration with the given name and variants, taken as they are.
    pub fn new(name: String, fields: Vec<TomlRpcEnumField>) -> (built: TomlRpcEnum)
        ensures
            built@ == (EnumView { name: name@, fields: variant_views(fields@) }),
    {
        TomlRpcEnum { name, fields }
    }

    /// The enumeration's name.
    pub fn name(&self) -> (name: &str)
        ensures
            name@ == self@.name,
    {
        self.name.as_str()
    }

    /// Builds an enumeration from its name and its table of variants. The
    /// variants keep the order of the table; the first entry that breaks a
    /// rule ends the build with its error.
    pub fn from_toml(name: String, variants: &Vec<(String, SchemaValue)>) -> (built: Result<
        TomlRpcEnum,
        CompileError,
    >)
        ensures
            match enum_from_table(name@, variants@) {
                Ok(view) => built matches Ok(declared) && declared@ == view,
                Err(e) => built matches Err(CompileError::Types(kind)) && kind == e,
            },
    {
        let mut built: Vec<TomlRpcEnumField> = Vec::new();
        let mut i: usize = 0;
        assert(variant_views(built@) =~= Seq::<VariantView>::empty());
        while i < variants.len()
            invariant
                i <= variants.len(),
                try_map(variants@.take(i as int), variant_rule()) == Ok::<
                    Seq<VariantView>,
                    TypeError,
                >(variant_views(built@)),
            decreases variants.len() - i,
        {
            proof {
                lemma_try_map_step(variants@, variant_rule(), i as int);
            }
            let ghost before = built@;
            match TomlRpcEnumField::from_toml(variants[i].0.clone(), &variants[i].1) {
                Err(e) => {
                    proof {
                        lemma_try_map_prefix_fails(variants@, variant_rule(), i + 1);
                    }
                    return Err(e);
                },
                Ok(field) => {
                    built.push(field);
                    assert(variant_views(built@) =~= variant_views(before).push(field@));
                },
            }
            i = i + 1;
        }
        assert(variants@.take(i as int) =~= variants@);
        Ok(TomlRpcEnum::new(to_pascal_case(name.as_str()), built))
    }

    /// Whether the enumeration's name and the names of its variants are
    /// plain identifiers.
    pub fn is_renderable(&self) -> (renderable: bool)
        ensures
            renderable == self@.is_renderable(),
    {
        if !check_identifier(self.name.as_str()) {
            return false;
        }
        let mut i: usize = 0;
        while i < self.fields.len()
            invariant
                i <= self.fields.len(),
                forall|j: int| 0 <= j < i ==> (#[trigger] self@.fields[j]).is_renderable(),
            decreases self.fields.len() - i,
        {
            if !self.fields[i].is_renderable() {
                assert(!self@.fields[i as int].is_renderable());
                return false;
            }
            i = i + 1;
        }
        true
    }

    /// The tokens of the enumeration's declaration.
    pub fn into_token_stream(self) -> (stream: proc_macro2::TokenStream)
        requires
            self@.is_renderable(),
        ensures
            stream_tokens(stream) == self@.tokens(),
    {
        self.to_token_stream()
    }

    /// The tokens of the enumeration's declaration, from a borrowed
    /// enumeration.
    pub fn to_token_stream(&self) -> (stream: proc_macro2::TokenStream)
        requires
            self@.is_renderable(),
        ensures
            stream_tokens(stream) == self@.tokens(),
    {
        let mut body = proc_macro2::TokenStream::new();
        let mut i: usize = 0;
        while i < self.fields.len()
            invariant
                i <= self.fields.len(),
                self@.is_renderable(),
                stream_tokens(body) == concat_map(self@.fields.take(i as int), variant_tokens()),
            decreases self.fields.len() - i,
        {
            proof {
                lemma_concat_map_step(self@.fields, variant_tokens(), i as int);
            }
            assert(self@.fields[i as int].is_renderable());
            append_stream(&mut body, self.fields[i].to_token_stream());
            i = i + 1;
        }
        assert(self@.fields.take(i as int) =~= self@.fields);
        proof {
            reveal_strlit("repr");
            reveal_strlit("u32");
            reveal_strlit("pub");
            reveal_strlit("enum");
        }
        let mut width = proc_macro2::TokenStream::new();
        push_ident(&mut width, "u32");
        let mut attribute = proc_macro2::TokenStream::new();
        push_ident(&mut attribute, "repr");
        push_group(&mut attribute, Delimiter::Parenthesis, width);
        let mut stream = proc_macro2::TokenStream::new();
        push_punct(&mut stream, '#', Spacing::Alone);
        push_group(&mut stream, Delimiter::Bracket, attribute);
        push_ident(&mut stream, "pub");
        push_ident(&mut stream, "enum");
        push_ident(&mut stream, self.name.as_str());
        push_group(&mut stream, Delimiter::Brace, body);
        assert(stream_tokens(width) =~= seq![Token::Ident("u32"@)]);
        assert(stream_tokens(attribute) =~= seq![
            Token::Ident("repr"@),
            Token::Group(Delimiter::Parenthesis, seq![Token::Ident("u32"@)]),
        ]);
        assert(stream_tokens(stream) =~= self@.tokens());
        stream
    }
}

} // verus!
