//! Services: named sets of methods, each from one declared entity to another.

use vstd::prelude::*;
use crate::enum_tokens::TomlRpcEnum;
use crate::error::{CompileError, TypeError};
use crate::message_tokens::TomlRpcMessage;
use crate::names::{pascal_case, snake_case, to_pascal_case, to_snake_case};
use crate::schema::SchemaValue;
use crate::sequence::{
    concat_map, lemma_concat_map_step, lemma_try_map_prefix_fails, lemma_try_map_step, try_map,
};
use crate::text::{check_identifier, is_identifier, same_text, split_at_dot, split_once_at_dot};
use crate::tokens::{
    append_stream, push_group, push_ident, push_punct, stream_tokens, Delimiter, Spacing, Token,
};

verus! {

/// What a method is: its name in member casing, and the names of the
/// entities that it takes and returns.
pub struct MethodView {
    pub name: Seq<char>,
    pub input: Seq<char>,
    pub output: Seq<char>,
}

/// What a service is: its name in type casing and its methods in order.
pub struct ServiceView {
    pub name: Seq<char>,
    pub methods: Seq<MethodView>,
}

/// Which of a method's two references is being resolved.
#[derive(Debug, Clone, Copy, PartialEq, Eq, Structural)]
pub enum Role {
    /// The entity that the method takes.
    Input,
    /// The entity that the method returns.
    Output,
}

impl Role {
    /// The error of a reference without a dot.
    pub open spec fn form_error(self) -> TypeError {
        match self {
            Role::Input => TypeError::MethodInputForm,
            Role::Output => TypeError::MethodOutputForm,
        }
    }

    /// The error of a reference whose kind is neither `message` nor `enum`.
    pub open spec fn kind_error(self) -> TypeError {
        match self {
            Role::Input => TypeError::UnknownInputType,
            Role::Output => TypeError::UnknownOutputType,
        }
    }
}

/// The names of some messages, in order.
pub open spec fn message_names(messages: Seq<TomlRpcMessage>) -> Seq<Seq<char>> {
    messages.map_values(|message: TomlRpcMessage| message@.name)
}

/// The names of some enumerations, in order.
pub open spec fn enum_names(enums: Seq<TomlRpcEnum>) -> Seq<Seq<char>> {
    enums.map_values(|declared: TomlRpcEnum| declared@.name)
}

/// The entity that a reference names. The reference is split at its first
/// dot into a kind and a name; the kind chooses between messages and
/// enumerations; the name, in type casing, must be that of a declared entity
/// of the kind, and is then the result.
pub open spec fn resolved(
    reference: Seq<char>,
    messages: Seq<Seq<char>>,
    enums: Seq<Seq<char>>,
    role: Role,
) -> Result<Seq<char>, TypeError> {
    match split_at_dot(reference) {
        None => Err(role.form_error()),
        Some((kind, name)) => if kind == "message"@ {
            if messages.contains(pascal_case(name)) {
                Ok(pascal_case(name))
            } else {
                Err(TypeError::MessageNotFound)
            }
        } else if kind == "enum"@ {
            if enums.contains(pascal_case(name)) {
                Ok(pascal_case(name))
            } else {
                Err(TypeError::EnumNotFound)
            }
        } else {
            Err(role.kind_error())
        },
    }
}

/// The method that an entry of a service's table declares, or the rule that
/// the entry breaks. The shape of the value is checked first, then that both
/// elements are strings, then the input reference, then the output
/// reference.
pub open spec fn method_from_entry(
    name: Seq<char>,
    values: SchemaValue,
    messages: Seq<Seq<char>>,
    enums: Seq<Seq<char>>,
) -> Result<MethodView, TypeError> {
    match values.elements() {
        None => Err(TypeError::ValueNotArray),
        Some(items) => if items.len() != 2 {
            Err(TypeError::ValueNotPair)
        } else {
            match items[0].text() {
                None => Err(TypeError::MethodInputNotString),
                Some(input) => match items[1].text() {
                    None => Err(TypeError::MethodOutputNotString),
                    Some(output) => match resolved(input, messages, enums, Role::Input) {
                        Err(e) => Err(e),
                        Ok(input_name) => match resolved(output, messages, enums, Role::Output) {
                            Err(e) => Err(e),
                            Ok(output_name) => Ok(
                                MethodView {
                                    name: snake_case(name),
                                    input: input_name,
                                    output: output_name,
                                },
                            ),
                        },
                    },
                },
            }
        },
    }
}

/// The rule that turns one entry of a service's table into a method, given
/// the names of the declared messages and enumerations.
pub open spec fn method_rule(messages: Seq<Seq<char>>, enums: Seq<Seq<char>>) -> spec_fn(
    (String, SchemaValue),
) -> Result<MethodView, TypeError> {
    |entry: (String, SchemaValue)| method_from_entry(entry.0@, entry.1, messages, enums)
}

/// The service that a table declares under a name: the methods of its
/// entries in the table's order, or the error of the first entry that breaks
/// a rule.
pub open spec fn service_from_table(
    name: Seq<char>,
    entries: Seq<(String, SchemaValue)>,
    messages: Seq<Seq<char>>,
    enums: Seq<Seq<char>>,
) -> Result<ServiceView, TypeError> {
    match try_map(entries, method_rule(messages, enums)) {
        Err(e) => Err(e),
        Ok(methods) => Ok(ServiceView { name: pascal_case(name), methods }),
    }
}

impl MethodView {
    /// The method's name and the names of its two entities are plain
    /// identifiers, so that the method can be emitted.
    pub open spec fn is_renderable(self) -> bool {
        is_identifier(self.name) && is_identifier(self.input) && is_identifier(self.output)
    }

    /// The tokens of the method's signature: an asynchronous function of the
    /// method's name that takes the receiver by reference and the input
    /// entity by value, and returns the output entity.
    pub open spec fn tokens(self) -> Seq<Token> {
        seq![
            Token::Ident("async"@),
            Token::Ident("fn"@),
            Token::Ident(self.name),
            Token::Group(
                Delimiter::Parenthesis,
                seq![
                    Token::Punct('&', Spacing::Alone),
                    Token::Ident("self"@),
                    Token::Punct(',', Spacing::Alone),
                    Token::Ident("input"@),
                    Token::Punct(':', Spacing::Alone),
                    Token::Ident(self.input),
                ],
            ),
            Token::Punct('-', Spacing::Joint),
            Token::Punct('>', Spacing::Alone),
            Token::Ident(self.output),
            Token::Punct(';', Spacing::Alone),
        ]
    }
}

/// The tokens of one method, as a function.
pub open spec fn method_tokens() -> spec_fn(MethodView) -> Seq<Token> {
    |method: MethodView| method.tokens()
}

impl ServiceView {
    /// The service's name and all names of its methods are plain
    /// identifiers.
    pub open spec fn is_renderable(self) -> bool {
        &&& is_identifier(self.name)
        &&& forall|i: int|
            0 <= i < self.methods.len() ==> (#[trigger] self.methods[i]).is_renderable()
    }

    /// The tokens of the interface declaration: a public trait of the
    /// service's name whose braces hold the methods in order.
    pub open spec fn tokens(self) -> Seq<Token> {
        seq![
            Token::Ident("pub"@),
            Token::Ident("trait"@),
            Token::Ident(self.name),
            Token::Group(Delimiter::Brace, concat_map(self.methods, method_tokens())),
        ]
    }
}

/// Whether some message has the given name.
pub fn declares_message(messages: &[TomlRpcMessage], name: &str) -> (found: bool)
    ensures
        found == message_names(messages@).contains(name@),
{
    let mut i: usize = 0;
    while i < messages.len()
        invariant
            i <= messages.len(),
            forall|j: int| 0 <= j < i ==> message_names(messages@)[j] != name@,
        decreases messages.len() - i,
    {
        if same_text(messages[i].name(), name) {
            assert(message_names(messages@)[i as int] == name@);
            return true;
        }
        i = i + 1;
    }
    false
}

/// Whether some enumeration has the given name.
pub fn declares_enum(enums: &[TomlRpcEnum], name: &str) -> (found: bool)
    ensures
        found == enum_names(enums@).contains(name@),
{
    let mut i: usize = 0;
    while i < enums.len()
        invariant
            i <= enums.len(),
            forall|j: int| 0 <= j < i ==> enum_names(enums@)[j] != name@,
        decreases enums.len() - i,
    {
        if same_text(enums[i].name(), name) {
            assert(enum_names(enums@)[i as int] == name@);
            return true;
        }
        i = i + 1;
    }
    false
}

/// Resolves one reference of a method against the declared messages and
/// enumerations, to the name of the entity that it names.
pub fn resolve(
    reference: &str,
    messages: &[TomlRpcMessage],
    enums: &[TomlRpcEnum],
    role: Role,
) -> (entity: Result<String, CompileError>)
    ensures
        match resolved(reference@, message_names(messages@), enum_names(enums@), role) {
            Ok(name) => entity matches Ok(found) && found@ == name,
            Err(e) => entity matches Err(CompileError::Types(kind)) && kind == e,
        },
{
    let (kind, name) = match split_once_at_dot(reference) {
        Some(parts) => parts,
        None => {
            return Err(
                CompileError::Types(
                    match role {
                        Role::Input => TypeError::MethodInputForm,
                        Role::Output => TypeError::MethodOutputForm,
                    },
                ),
            );
        },
    };
    if same_text(kind, "message") {
        let cased = to_pascal_case(name);
        if declares_message(messages, cased.as_str()) {
            Ok(cased)
        } else {
            Err(CompileError::Types(TypeError::MessageNotFound))
        }
    } else if same_text(kind, "enum") {
        let cased = to_pascal_case(name);
        if declares_enum(enums, cased.as_str()) {
            Ok(cased)
        } else {
            Err(CompileError::Types(TypeError::EnumNotFound))
        }
    } else {
        Err(
            CompileError::Types(
                match role {
                    Role::Input => TypeError::UnknownInputType,
                    Role::Output => TypeError::UnknownOutputType,
                },
            ),
        )
    }
}

/// A method of a service.
#[derive(Debug, Clone, PartialEq, Eq)]
pub struct TomlRpcServiceMethod {
    name: String,
    input: String,
    output: String,
}

impl View for TomlRpcServiceMethod {
    type V = MethodView;

    closed spec fn view(&self) -> MethodView {
        MethodView { name: self.name@, input: self.input@, output: self.output@ }
    }
}

/// The views of some methods, in order.
pub open spec fn method_views(methods: Seq<TomlRpcServiceMethod>) -> Seq<MethodView> {
    methods.map_values(|method: TomlRpcServiceMethod| method@)
}

impl TomlRpcServiceMethod {
    /// A method with the given name, input and output, taken as they are.
    pub fn new(name: String, input: String, output: String) -> (method: TomlRpcServiceMethod)
        ensures
            method@ == (MethodView { name: name@, input: input@, output: output@ }),
    {
        TomlRpcServiceMethod { name, input, output }
    }

    /// Builds a method from one entry of a service's table: the key is the
    /// method's name, the value an array of two references, to the entity
    /// that the method takes and to the one that it returns.
    pub fn from_toml(
        name: String,
        values: &SchemaValue,
        messages: &[TomlRpcMessage],
        enums: &[TomlRpcEnum],
    ) -> (built: Result<TomlRpcServiceMethod, CompileError>)
        ensures
            match method_from_entry(
                name@,
                *values,
                message_names(messages@),
                enum_names(enums@),
            ) {
                Ok(view) => built matches Ok(method) && method@ == view,
                Err(e) => built matches Err(CompileError::Types(kind)) && kind == e,
            },
    {
        let items = match values.as_array() {
            Some(items) => items,
            None => return Err(CompileError::Types(TypeError::ValueNotArray)),
        };
        if items.len() != 2 {
            return Err(CompileError::Types(TypeError::ValueNotPair));
        }
        let method_input = match items[0].as_str() {
            Some(text) => text,
            None => return Err(CompileError::Types(TypeError::MethodInputNotString)),
        };
        let method_output = match items[1].as_str() {
            Some(text) => text,
            None => return Err(CompileError::Types(TypeError::MethodOutputNotString)),
        };
        let input = match resolve(method_input, messages, enums, Role::Input) {
            Ok(input) => input,
            Err(e) => return Err(e),
        };
        let output = match resolve(method_output, messages, enums, Role::Output) {
            Ok(output) => output,
            Err(e) => return Err(e),
        };
        Ok(TomlRpcServiceMethod::new(to_snake_case(name.as_str()), input, output))
    }

    /// Whether the method's name and the names of its two entities are plain
    /// identifiers.
    pub fn is_renderable(&self) -> (renderable: bool)
        ensures
            renderable == self@.is_renderable(),
    {
        check_identifier(self.name.as_str()) && check_identifier(self.input.as_str())
            && check_identifier(self.output.as_str())
    }

    /// The tokens of the method's signature.
    pub fn into_token_stream(self) -> (stream: proc_macro2::TokenStream)
        requires
            self@.is_renderable(),
        ensures
            stream_tokens(stream) == self@.tokens(),
    {
        self.to_token_stream()
    }

    /// The tokens of the method's signature, from a borrowed method.
    pub fn to_token_stream(&self) -> (stream: proc_macro2::TokenStream)
        requires
            self@.is_renderable(),
        ensures
            stream_tokens(stream) == self@.tokens(),
    {
        proof {
            reveal_strlit("async");
            reveal_strlit("fn");
            reveal_strlit("self");
            reveal_strlit("input");
        }
        let mut parameters = proc_macro2::TokenStream::new();
        push_punct(&mut parameters, '&', Spacing::Alone);
        push_ident(&mut parameters, "self");
        push_punct(&mut parameters, ',', Spacing::Alone);
        push_ident(&mut parameters, "input");
        push_punct(&mut parameters, ':', Spacing::Alone);
        push_ident(&mut parameters, self.input.as_str());
        assert(stream_tokens(parameters) =~= seq![
            Token::Punct('&', Spacing::Alone),
            Token::Ident("self"@),
            Token::Punct(',', Spacing::Alone),
            Token::Ident("input"@),
            Token::Punct(':', Spacing::Alone),
            Token::Ident(self@.input),
        ]);
        let mut stream = proc_macro2::TokenStream::new();
        push_ident(&mut stream, "async");
        push_ident(&mut stream, "fn");
        push_ident(&mut stream, self.name.as_str());
        push_group(&mut stream, Delimiter::Parenthesis, parameters);
        push_punct(&mut stream, '-', Spacing::Joint);
        push_punct(&mut stream, '>', Spacing::Alone);
        push_ident(&mut stream, self.output.as_str());
        push_punct(&mut stream, ';', Spacing::Alone);
        assert(stream_tokens(stream) =~= self@.tokens());
        stream
    }
}

/// A service: a named set of methods.
#[derive(Debug, Clone, PartialEq, Eq)]
pub struct TomlRpcService {
    name: String,
    methods: Vec<TomlRpcServiceMethod>,
}

impl View for TomlRpcService {
    type V = ServiceView;

    closed spec fn view(&self) -> ServiceView {
        ServiceView { name: self.name@, methods: method_views(self.methods@) }
    }
}

/// The views of some services, in order.
pub open spec fn service_views(services: Seq<TomlRpcService>) -> Seq<ServiceView> {
    services.map_values(|service: TomlRpcService| service@)
}

impl TomlRpcService {
    /// A service with the given name and methods, taken as they are.
    pub fn new(name: String, methods: Vec<TomlRpcServiceMethod>) -> (service: TomlRpcService)
        ensures
            service@ == (ServiceView { name: name@, methods: method_views(methods@) }),
    {
        TomlRpcService { name, methods }
    }

    /// Builds a service from its name and its table of methods, resolving
    /// each reference against the declared messages and enumerations. The
    /// methods keep the order of the table; the first entry that breaks a
    /// rule ends the build with its error.
    pub fn from_toml(
        name: String,
        services: &Vec<(String, SchemaValue)>,
        messages: &[TomlRpcMessage],
        enums: &[TomlRpcEnum],
    ) -> (built: Result<TomlRpcService, CompileError>)
        ensures
            match service_from_table(
                name@,
                services@,
                message_names(messages@),
                enum_names(enums@),
            ) {
                Ok(view) => built matches Ok(service) && service@ == view,
                Err(e) => built matches Err(CompileError::Types(kind)) && kind == e,
            },
    {
        let ghost rule = method_rule(message_names(messages@), enum_names(enums@));
        let mut built: Vec<TomlRpcServiceMethod> = Vec::new();
        let mut i: usize = 0;
        assert(method_views(built@) =~= Seq::<MethodView>::empty());
        while i < services.len()
            invariant
                i <= services.len(),
                rule == method_rule(message_names(messages@), enum_names(enums@)),
                try_map(services@.take(i as int), rule) == Ok::<Seq<MethodView>, TypeError>(
                    method_views(built@),
                ),
            decreases services.len() - i,
        {
            proof {
                lemma_try_map_step(services@, rule, i as int);
            }
            let ghost before = built@;
            match TomlRpcServiceMethod::from_toml(
                services[i].0.clone(),
                &services[i].1,
                messages,
                enums,
            ) {
                Err(e) => {
                    proof {
                        lemma_try_map_prefix_fails(services@, rule, i + 1);
                    }
                    return Err(e);
                },
                Ok(method) => {
                    built.push(method);
                    assert(method_views(built@) =~= method_views(before).push(method@));
                },
            }
            i = i + 1;
        }
        assert(services@.take(i as int) =~= services@);
        Ok(TomlRpcService::new(to_pascal_case(name.as_str()), built))
    }

    /// Whether the service's name and all names of its methods are plain
    /// identifiers.
    pub fn is_renderable(&self) -> (renderable: bool)
        ensures
            renderable == self@.is_renderable(),
    {
        if !check_identifier(self.name.as_str()) {
            return false;
        }
        let mut i: usize = 0;
        while i < self.methods.len()
            invariant
                i <= self.methods.len(),
                forall|j: int| 0 <= j < i ==> (#[trigger] self@.methods[j]).is_renderable(),
            decreases self.methods.len() - i,
        {
            if !self.methods[i].is_renderable() {
                assert(!self@.methods[i as int].is_renderable());
                return false;
            }
            i = i + 1;
        }
        true
    }

    /// The tokens of the interface declaration.
    pub fn into_token_stream(self) -> (stream: proc_macro2::TokenStream)
        requires
            self@.is_renderable(),
        ensures
            stream_tokens(stream) == self@.tokens(),
    {
        self.to_token_stream()
    }

    /// The tokens of the interface declaration, from a borrowed service.
    pub fn to_token_stream(&self) -> (stream: proc_macro2::TokenStream)
        requires
            self@.is_renderable(),
        ensures
            stream_tokens(stream) == self@.tokens(),
    {
        let mut body = proc_macro2::TokenStream::new();
        let mut i: usize = 0;
        while i < self.methods.len()
            invariant
                i <= self.methods.len(),
                self@.is_renderable(),
                stream_tokens(body) == concat_map(self@.methods.take(i as int), method_tokens()),
            decreases self.methods.len() - i,
        {
            proof {
                lemma_concat_map_step(self@.methods, method_tokens(), i as int);
            }
            assert(self@.methods[i as int].is_renderable());
            append_stream(&mut body, self.methods[i].to_token_stream());
            i = i + 1;
        }
        assert(self@.methods.take(i as int) =~= self@.methods);
        proof {
            reveal_strlit("pub");
            reveal_strlit("trait");
        }
        let mut stream = proc_macro2::TokenStream::new();
        push_ident(&mut stream, "pub");
        push_ident(&mut stream, "trait");
        push_ident(&mut stream, self.name.as_str());
        push_group(&mut stream, Delimiter::Brace, body);
        assert(stream_tokens(stream) =~= self@.tokens());
        stream
    }
}

} // verus!
