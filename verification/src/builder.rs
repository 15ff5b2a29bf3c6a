//! The compiler: from a schema text to the formatted text of its
//! declarations.

use vstd::prelude::*;
use vstd::utf8::encode_utf8;
use crate::enum_tokens::{enum_views, TomlRpcEnum};
use crate::error::{CompileError, Failure, TypeError};
use crate::message_tokens::{message_views, TomlRpcMessage};
use crate::render::{file_text, parse_tokens, parsed_file, unparse};
use crate::schema::{document_of, read_schema, SchemaValue};
use crate::sequence::{
    concat_map, lemma_concat_map_step, lemma_try_map_prefix_fails, lemma_try_map_step, try_map,
};
use crate::service_tokens::{enum_names, message_names, service_views, TomlRpcService};
use crate::tokens::{append_stream, stream_tokens};
use crate::unit::{
    enum_rule, enum_tokens, message_rule, message_tokens, names_of_enums, names_of_messages,
    service_rule, service_tokens, unit_from_document, UnitView,
};

verus! {

/// The unit that a schema text declares, ready to be emitted: the text must
/// be well-formed, its document must declare a unit, and every name of the
/// unit must be a plain identifier.
pub open spec fn unit_of(schema: Seq<char>) -> Result<UnitView, Failure> {
    match document_of(schema) {
        None => Err(Failure::Syntax),
        Some(document) => match unit_from_document(document) {
            Err(e) => Err(Failure::Types(e)),
            Ok(unit) => if unit.is_renderable() {
                Ok(unit)
            } else {
                Err(Failure::Types(TypeError::NameNotIdentifier))
            },
        },
    }
}

/// The formatted text that a schema text compiles to, or the kind of the
/// failure: the tokens of the schema's unit must read as a source file,
/// whose formatted text is the result.
pub open spec fn compiled(schema: Seq<char>) -> Result<Seq<char>, Failure> {
    match unit_of(schema) {
        Err(failure) => Err(failure),
        Ok(unit) => match parsed_file(unit.tokens()) {
            None => Err(Failure::Types(TypeError::InvalidDeclaration)),
            Some(file) => Ok(file_text(file)),
        },
    }
}

/// Whether a result is the one that compiling a schema text gives: the
/// compiled text where there is one, else an error of the failure's kind.
pub open spec fn is_outcome(schema: Seq<char>, done: Result<String, CompileError>) -> bool {
    match compiled(schema) {
        Ok(text) => done matches Ok(s) && s@ == text,
        Err(failure) => done matches Err(e) && e.failure() == failure,
    }
}

/// Whether the names of all the messages are plain identifiers.
pub fn messages_renderable(messages: &Vec<TomlRpcMessage>) -> (renderable: bool)
    ensures
        renderable == (forall|i: int|
            0 <= i < messages.len() ==> (#[trigger] message_views(messages@)[i]).is_renderable()),
{
    let mut i: usize = 0;
    while i < messages.len()
        invariant
            i <= messages.len(),
            forall|j: int| 0 <= j < i ==> (#[trigger] message_views(messages@)[j]).is_renderable(),
        decreases messages.len() - i,
    {
        if !messages[i].is_renderable() {
            assert(!message_views(messages@)[i as int].is_renderable());
            return false;
        }
        i = i + 1;
    }
    true
}

/// Whether the names of all the enumerations are plain identifiers.
pub fn enums_renderable(enums: &Vec<TomlRpcEnum>) -> (renderable: bool)
    ensures
        renderable == (forall|i: int|
            0 <= i < enums.len() ==> (#[trigger] enum_views(enums@)[i]).is_renderable()),
{
    let mut i: usize = 0;
    while i < enums.len()
        invariant
            i <= enums.len(),
            forall|j: int| 0 <= j < i ==> (#[trigger] enum_views(enums@)[j]).is_renderable(),
        decreases enums.len() - i,
    {
        if !enums[i].is_renderable() {
            assert(!enum_views(enums@)[i as int].is_renderable());
            return false;
        }
        i = i + 1;
    }
    true
}

/// Whether the names of all the services are plain identifiers.
pub fn services_renderable(services: &Vec<TomlRpcService>) -> (renderable: bool)
    ensures
        renderable == (forall|i: int|
            0 <= i < services.len() ==> (#[trigger] service_views(services@)[i]).is_renderable()),
{
    let mut i: usize = 0;
    while i < services.len()
        invariant
            i <= services.len(),
            forall|j: int| 0 <= j < i ==> (#[trigger] service_views(services@)[j]).is_renderable(),
        decreases services.len() - i,
    {
        if !services[i].is_renderable() {
            assert(!service_views(services@)[i as int].is_renderable());
            return false;
        }
        i = i + 1;
    }
    true
}

/// Appends the record declarations of the messages, in order.
pub fn emit_messages(stream: &mut proc_macro2::TokenStream, messages: &Vec<TomlRpcMessage>)
    requires
        forall|i: int|
            0 <= i < messages.len() ==> (#[trigger] message_views(messages@)[i]).is_renderable(),
    ensures
        stream_tokens(*final(stream)) == stream_tokens(*old(stream)) + concat_map(
            message_views(messages@),
            message_tokens(),
        ),
{
    let ghost views = message_views(messages@);
    let mut i: usize = 0;
    while i < messages.len()
        invariant
            i <= messages.len(),
            views == message_views(messages@),
            forall|j: int| 0 <= j < messages.len() ==> (#[trigger] views[j]).is_renderable(),
            stream_tokens(*stream) == stream_tokens(*old(stream)) + concat_map(
                views.take(i as int),
                message_tokens(),
            ),
        decreases messages.len() - i,
    {
        proof {
            lemma_concat_map_step(views, message_tokens(), i as int);
        }
        assert(views[i as int].is_renderable());
        append_stream(stream, messages[i].to_token_stream());
        i = i + 1;
    }
    assert(views.take(i as int) =~= views);
}

/// Appends the enumeration declarations of the enumerations, in order.
pub fn emit_enums(stream: &mut proc_macro2::TokenStream, enums: &Vec<TomlRpcEnum>)
    requires
        forall|i: int| 0 <= i < enums.len() ==> (#[trigger] enum_views(enums@)[i]).is_renderable(),
    ensures
        stream_tokens(*final(stream)) == stream_tokens(*old(stream)) + concat_map(
            enum_views(enums@),
            enum_tokens(),
        ),
{
    let ghost views = enum_views(enums@);
    let mut i: usize = 0;
    while i < enums.len()
        invariant
            i <= enums.len(),
            views == enum_views(enums@),
            forall|j: int| 0 <= j < enums.len() ==> (#[trigger] views[j]).is_renderable(),
            stream_tokens(*stream) == stream_tokens(*old(stream)) + concat_map(
                views.take(i as int),
                enum_tokens(),
            ),
        decreases enums.len() - i,
    {
        proof {
            lemma_concat_map_step(views, enum_tokens(), i as int);
        }
        assert(views[i as int].is_renderable());
        append_stream(stream, enums[i].to_token_stream());
        i = i + 1;
    }
    assert(views.take(i as int) =~= views);
}

/// Appends the interface declarations of the services, in order.
pub fn emit_services(stream: &mut proc_macro2::TokenStream, services: &Vec<TomlRpcService>)
    requires
        forall|i: int|
            0 <= i < services.len() ==> (#[trigger] service_views(services@)[i]).is_renderable(),
    ensures
        stream_tokens(*final(stream)) == stream_tokens(*old(stream)) + concat_map(
            service_views(services@),
            service_tokens(),
        ),
{
    let ghost views = service_views(services@);
    let mut i: usize = 0;
    while i < services.len()
        invariant
            i <= services.len(),
            views == service_views(services@),
            forall|j: int| 0 <= j < services.len() ==> (#[trigger] views[j]).is_renderable(),
            stream_tokens(*stream) == stream_tokens(*old(stream)) + concat_map(
                views.take(i as int),
                service_tokens(),
            ),
        decreases services.len() - i,
    {
        proof {
            lemma_concat_map_step(views, service_tokens(), i as int);
        }
        assert(views[i as int].is_renderable());
        append_stream(stream, services[i].to_token_stream());
        i = i + 1;
    }
    assert(views.take(i as int) =~= views);
}

/// A compiler for one schema text.
pub struct Builder {
    schema: String,
}

impl View for Builder {
    type V = Seq<char>;

    closed spec fn view(&self) -> Seq<char> {
        self.schema@
    }
}

impl Builder {
    /// A compiler for the given schema text.
    pub fn new(schema: String) -> (builder: Builder)
        ensures
            builder@ == schema@,
    {
        Builder { schema }
    }

    /// Compiles the schema and appends the formatted text, as UTF-8, to the
    /// writer. On failure the writer is left as it was.
    pub fn compile_to_writer(self, writer: &mut Vec<u8>) -> (done: Result<(), CompileError>)
        ensures
            match compiled(self@) {
                Ok(text) => done is Ok && final(writer)@ == old(writer)@ + encode_utf8(text),
                Err(failure) => done matches Err(e) && e.failure() == failure && final(writer)@
                    == old(writer)@,
            },
    {
        match self.compile() {
            Err(e) => Err(e),
            Ok(text) => {
                writer.extend_from_slice(text.as_str().as_bytes());
                Ok(())
            },
        }
    }

    /// Compiles the schema to the formatted text of its declarations: all
    /// records, then all enumerations, then all interfaces.
    pub fn compile(&self) -> (done: Result<String, CompileError>)
        ensures
            is_outcome(self@, done),
    {
        match self.generate_code() {
            Err(e) => Err(e),
            Ok(tokens) => self.format_code(tokens),
        }
    }

    /// Reads the schema, builds its unit and emits the unit's tokens.
    pub fn generate_code(&self) -> (generated: Result<proc_macro2::TokenStream, CompileError>)
        ensures
            match unit_of(self@) {
                Ok(unit) => generated matches Ok(stream) && stream_tokens(stream) == unit.tokens(),
                Err(failure) => generated matches Err(e) && e.failure() == failure,
            },
    {
        let document = match read_schema(self.schema.as_str()) {
            Ok(document) => document,
            Err(e) => return Err(e),
        };
        let empty: Vec<(String, SchemaValue)> = Vec::new();
        let message_section = match document.section_entries("message") {
            Some(entries) => entries,
            None => &empty,
        };
        let messages = match self.generate_messages(message_section) {
            Ok(messages) => messages,
            Err(e) => return Err(e),
        };
        let enum_section = match document.section_entries("enum") {
            Some(entries) => entries,
            None => &empty,
        };
        let enums = match self.generate_enums(enum_section) {
            Ok(enums) => enums,
            Err(e) => return Err(e),
        };
        let rpc_section = match document.section_entries("rpc") {
            Some(entries) => entries,
            None => &empty,
        };
        assert(message_names(messages@) =~= names_of_messages(message_views(messages@)));
        assert(enum_names(enums@) =~= names_of_enums(enum_views(enums@)));
        let services = match self.generate_services(
            rpc_section,
            messages.as_slice(),
            enums.as_slice(),
        ) {
            Ok(services) => services,
            Err(e) => return Err(e),
        };
        let ghost unit = UnitView {
            messages: message_views(messages@),
            enums: enum_views(enums@),
            services: service_views(services@),
        };
        assert(unit_from_document(document) == Ok::<UnitView, TypeError>(unit));
        let messages_fit: bool = messages_renderable(&messages);
        let enums_fit: bool = enums_renderable(&enums);
        let services_fit: bool = services_renderable(&services);
        assert(unit.messages.len() == messages.len() && unit.enums.len() == enums.len()
            && unit.services.len() == services.len());
        assert(unit.is_renderable() == (messages_fit && enums_fit && services_fit));
        if !(messages_fit && enums_fit && services_fit) {
            return Err(CompileError::Types(TypeError::NameNotIdentifier));
        }
        let mut tokens = proc_macro2::TokenStream::new();
        emit_messages(&mut tokens, &messages);
        emit_enums(&mut tokens, &enums);
        emit_services(&mut tokens, &services);
        assert(stream_tokens(tokens) =~= unit.tokens());
        Ok(tokens)
    }

    /// Builds the messages of the message section, in the section's order.
    /// Each entry's value must be a table.
    pub fn generate_messages(&self, messages: &Vec<(String, SchemaValue)>) -> (built: Result<
        Vec<TomlRpcMessage>,
        CompileError,
    >)
        ensures
            match try_map(messages@, message_rule()) {
                Ok(views) => built matches Ok(all) && message_views(all@) == views,
                Err(e) => built matches Err(CompileError::Types(kind)) && kind == e,
            },
    {
        let mut built: Vec<TomlRpcMessage> = Vec::new();
        let mut i: usize = 0;
        assert(message_views(built@) =~= Seq::empty());
        while i < messages.len()
            invariant
                i <= messages.len(),
                try_map(messages@.take(i as int), message_rule()) == Ok::<_, TypeError>(
                    message_views(built@),
                ),
            decreases messages.len() - i,
        {
            proof {
                lemma_try_map_step(messages@, message_rule(), i as int);
            }
            let ghost before = built@;
            let fields = match messages[i].1.as_table() {
                Some(fields) => fields,
                None => {
                    proof {
                        lemma_try_map_prefix_fails(messages@, message_rule(), i + 1);
                    }
                    return Err(CompileError::Types(TypeError::MessageNotTable));
                },
            };
            match TomlRpcMessage::from_toml(messages[i].0.clone(), fields) {
                Err(e) => {
                    proof {
                        lemma_try_map_prefix_fails(messages@, message_rule(), i + 1);
                    }
                    return Err(e);
                },
                Ok(message) => {
                    built.push(message);
                    assert(message_views(built@) =~= message_views(before).push(message@));
                },
            }
            i = i + 1;
        }
        assert(messages@.take(i as int) =~= messages@);
        Ok(built)
    }

    /// Builds the enumerations of the enumeration section, in the section's
    /// order. Each entry's value must be a table.
    pub fn generate_enums(&self, enums: &Vec<(String, SchemaValue)>) -> (built: Result<
        Vec<TomlRpcEnum>,
        CompileError,
    >)
        ensures
            match try_map(enums@, enum_rule()) {
                Ok(views) => built matches Ok(all) && enum_views(all@) == views,
                Err(e) => built matches Err(CompileError::Types(kind)) && kind == e,
            },
    {
        let mut built: Vec<TomlRpcEnum> = Vec::new();
        let mut i: usize = 0;
        assert(enum_views(built@) =~= Seq::empty());
        while i < enums.len()
            invariant
                i <= enums.len(),
                try_map(enums@.take(i as int), enum_rule()) == Ok::<_, TypeError>(
                    enum_views(built@),
                ),
            decreases enums.len() - i,
        {
            proof {
                lemma_try_map_step(enums@, enum_rule(), i as int);
            }
            let ghost before = built@;
            let variants = match enums[i].1.as_table() {
                Some(variants) => variants,
                None => {
                    proof {
                        lemma_try_map_prefix_fails(enums@, enum_rule(), i + 1);
                    }
                    return Err(CompileError::Types(TypeError::EnumNotTable));
                },
            };
            match TomlRpcEnum::from_toml(enums[i].0.clone(), variants) {
                Err(e) => {
                    proof {
                        lemma_try_map_prefix_fails(enums@, enum_rule(), i + 1);
                    }
                    return Err(e);
                },
                Ok(declared) => {
                    built.push(declared);
                    assert(enum_views(built@) =~= enum_views(before).push(declared@));
                },
            }
            i = i + 1;
        }
        assert(enums@.take(i as int) =~= enums@);
        Ok(built)
    }

    /// Builds the services of the service section, in the section's order,
    /// resolving every reference against the given messages and
    /// enumerations. Each entry's value must be a table.
    pub fn generate_services(
        &self,
        services: &Vec<(String, SchemaValue)>,
        messages: &[TomlRpcMessage],
        enums: &[TomlRpcEnum],
    ) -> (built: Result<Vec<TomlRpcService>, CompileError>)
        ensures
            match try_map(
                services@,
                service_rule(message_names(messages@), enum_names(enums@)),
            ) {
                Ok(views) => built matches Ok(all) && service_views(all@) == views,
                Err(e) => built matches Err(CompileError::Types(kind)) && kind == e,
            },
    {
        let ghost rule = service_rule(message_names(messages@), enum_names(enums@));
        let mut built: Vec<TomlRpcService> = Vec::new();
        let mut i: usize = 0;
        assert(service_views(built@) =~= Seq::empty());
        while i < services.len()
            invariant
                i <= services.len(),
                rule == service_rule(message_names(messages@), enum_names(enums@)),
                try_map(services@.take(i as int), rule) == Ok::<_, TypeError>(
                    service_views(built@),
                ),
            decreases services.len() - i,
        {
            proof {
                lemma_try_map_step(services@, rule, i as int);
            }
            let ghost before = built@;
            let methods = match services[i].1.as_table() {
                Some(methods) => methods,
                None => {
                    proof {
                        lemma_try_map_prefix_fails(services@, rule, i + 1);
                    }
                    return Err(CompileError::Types(TypeError::RpcNotTable));
                },
            };
            match TomlRpcService::from_toml(services[i].0.clone(), methods, messages, enums) {
                Err(e) => {
                    proof {
                        lemma_try_map_prefix_fails(services@, rule, i + 1);
                    }
                    return Err(e);
                },
                Ok(service) => {
                    built.push(service);
                    assert(service_views(built@) =~= service_views(before).push(service@));
                },
            }
            i = i + 1;
        }
        assert(services@.take(i as int) =~= services@);
        Ok(built)
    }

    /// Reads the tokens of a unit as a source file and formats the file as
    /// text.
    pub fn format_code(&self, tokens: proc_macro2::TokenStream) -> (formatted: Result<
        String,
        CompileError,
    >)
        requires
            exists|unit: UnitView| unit.is_renderable() && stream_tokens(tokens) == unit.tokens(),
        ensures
            match parsed_file(stream_tokens(tokens)) {
                Some(file) => formatted matches Ok(text) && text@ == file_text(file),
                None => formatted matches Err(CompileError::Types(kind)) && kind
                    == TypeError::InvalidDeclaration,
            },
    {
        match parse_tokens(tokens) {
            Err(_) => Err(CompileError::Types(TypeError::InvalidDeclaration)),
            Ok(file) => {
                proof {
                    let unit = choose|unit: UnitView|
                        unit.is_renderable() && stream_tokens(tokens) == unit.tokens();
                    assert(unit.is_renderable() && parsed_file(unit.tokens()) == Some(file));
                }
                Ok(unparse(&file))
            },
        }
    }
}

} // verus!
