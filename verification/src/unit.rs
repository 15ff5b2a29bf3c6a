//! The compilation unit: every message, enumeration and service of one
//! schema, what a schema document declares, and the tokens that stand for it.

use vstd::prelude::*;
use crate::enum_tokens::{enum_from_table, EnumView};
use crate::error::TypeError;
use crate::message_tokens::{message_from_table, MessageView};
use crate::schema::{section, SchemaValue};
use crate::sequence::{concat_map, try_map};
use crate::service_tokens::{service_from_table, ServiceView};
use crate::tokens::Token;

verus! {

/// The entities of one schema: messages, enumerations and services, each
/// kind in the order in which it was built.
pub struct UnitView {
    pub messages: Seq<MessageView>,
    pub enums: Seq<EnumView>,
    pub services: Seq<ServiceView>,
}

/// The rule that turns one entry of the message section into a message: the
/// entry's value must be a table, which then declares the message.
pub open spec fn message_rule() -> spec_fn((String, SchemaValue)) -> Result<
    MessageView,
    TypeError,
> {
    |entry: (String, SchemaValue)|
        match entry.1.entries() {
            None => Err(TypeError::MessageNotTable),
            Some(fields) => message_from_table(entry.0@, fields),
        }
}

/// The rule that turns one entry of the enumeration section into an
/// enumeration: the entry's value must be a table, which then declares the
/// enumeration.
pub open spec fn enum_rule() -> spec_fn((String, SchemaValue)) -> Result<EnumView, TypeError> {
    |entry: (String, SchemaValue)|
        match entry.1.entries() {
            None => Err(TypeError::EnumNotTable),
            Some(variants) => enum_from_table(entry.0@, variants),
        }
}

/// The rule that turns one entry of the service section into a service,
/// given the names of the declared messages and enumerations: the entry's
/// value must be a table, which then declares the service.
pub open spec fn service_rule(messages: Seq<Seq<char>>, enums: Seq<Seq<char>>) -> spec_fn(
    (String, SchemaValue),
) -> Result<ServiceView, TypeError> {
    |entry: (String, SchemaValue)|
        match entry.1.entries() {
            None => Err(TypeError::RpcNotTable),
            Some(methods) => service_from_table(entry.0@, methods, messages, enums),
        }
}

/// The names of some messages, in order.
pub open spec fn names_of_messages(messages: Seq<MessageView>) -> Seq<Seq<char>> {
    messages.map_values(|message: MessageView| message.name)
}

/// The names of some enumerations, in order.
pub open spec fn names_of_enums(enums: Seq<EnumView>) -> Seq<Seq<char>> {
    enums.map_values(|declared: EnumView| declared.name)
}

/// The tokens of one message, as a function.
pub open spec fn message_tokens() -> spec_fn(MessageView) -> Seq<Token> {
    |message: MessageView| message.tokens()
}

/// The tokens of one enumeration, as a function.
pub open spec fn enum_tokens() -> spec_fn(EnumView) -> Seq<Token> {
    |declared: EnumView| declared.tokens()
}

/// The tokens of one service, as a function.
pub open spec fn service_tokens() -> spec_fn(ServiceView) -> Seq<Token> {
    |service: ServiceView| service.tokens()
}

/// The unit that a schema document declares. The messages of the section
/// `message` are built first, then the enumerations of the section `enum`,
/// then the services of the section `rpc`, whose references are resolved
/// against the messages and enumerations just built. The first entry that
/// breaks a rule ends the build with its error.
pub open spec fn unit_from_document(document: SchemaValue) -> Result<UnitView, TypeError> {
    match try_map(section(document, "message"@), message_rule()) {
        Err(e) => Err(e),
        Ok(messages) => match try_map(section(document, "enum"@), enum_rule()) {
            Err(e) => Err(e),
            Ok(enums) => match try_map(
                section(document, "rpc"@),
                service_rule(names_of_messages(messages), names_of_enums(enums)),
            ) {
                Err(e) => Err(e),
                Ok(services) => Ok(UnitView { messages, enums, services }),
            },
        },
    }
}

impl UnitView {
    /// Every name in the unit is a plain identifier.
    pub open spec fn is_renderable(self) -> bool {
        &&& forall|i: int|
            0 <= i < self.messages.len() ==> (#[trigger] self.messages[i]).is_renderable()
        &&& forall|i: int| 0 <= i < self.enums.len() ==> (#[trigger] self.enums[i]).is_renderable()
        &&& forall|i: int|
            0 <= i < self.services.len() ==> (#[trigger] self.services[i]).is_renderable()
    }

    /// The tokens of the unit: all record declarations, then all enumeration
    /// declarations, then all interface declarations, each kind in build
    /// order.
    pub open spec fn tokens(self) -> Seq<Token> {
        concat_map(self.messages, message_tokens()) + concat_map(self.enums, enum_tokens())
            + concat_map(self.services, service_tokens())
    }
}

} // verus!
