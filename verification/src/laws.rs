//! What holds of every schema: compilation is a function of the schema text,
//! each broken rule is reported as a type error, references resolve to
//! declared entities only, and names come out in their canonical casing.

use vstd::prelude::*;
use vstd::utf8::encode_utf8;
use crate::builder::{compiled, is_outcome};
use crate::enum_tokens::{enum_from_table, variant_from_entry, variant_rule, VariantView};
use crate::error::{CompileError, Failure, TypeError};
use crate::message_tokens::{
    field_from_entry, field_rule, mapped_type, message_from_table, FieldView,
};
use crate::names::{pascal_case, snake_case};
use crate::schema::{document_of, section, SchemaValue};
use crate::sequence::{lemma_try_map_fails, lemma_try_map_ok, try_map};
use crate::service_tokens::{
    method_from_entry, method_rule, resolved, service_from_table, MethodView, Role,
};
use crate::text::{lemma_dot_position, parsed_u32, split_at_dot};
use crate::unit::{enum_rule, message_rule, names_of_enums, names_of_messages, service_rule};

verus! {

/// Compiling one schema text twice gives the same outcome: both runs end
/// well or both fail, with the same kind of failure; where they end well
/// their texts agree character by character, and so do the bytes written.
pub proof fn lemma_compile_twice(
    schema: Seq<char>,
    first: Result<String, CompileError>,
    second: Result<String, CompileError>,
)
    requires
        is_outcome(schema, first),
        is_outcome(schema, second),
    ensures
        first is Ok == second is Ok,
        first matches Ok(a) ==> second matches Ok(b) && a@ == b@ && encode_utf8(a@)
            == encode_utf8(b@),
        first matches Err(e) ==> second matches Err(f) && e.failure() == f.failure(),
{
}

/// A tag that does not denote an unsigned 32-bit number is reported as such,
/// whatever the field's value is.
pub proof fn lemma_tag_must_be_number(tag: Seq<char>, data: SchemaValue)
    requires
        parsed_u32(tag) is None,
    ensures
        field_from_entry(tag, data) == Err::<FieldView, TypeError>(TypeError::TagNotNumber),
{
}

/// A field whose value is an array of any length but two is rejected: with a
/// type error in any case, and with the error of the array's length where
/// the tag is a number.
pub proof fn lemma_field_must_be_pair(tag: Seq<char>, items: Vec<SchemaValue>)
    requires
        items@.len() != 2,
    ensures
        field_from_entry(tag, SchemaValue::Array(items)) is Err,
        parsed_u32(tag) is Some ==> field_from_entry(tag, SchemaValue::Array(items)) == Err::<
            FieldView,
            TypeError,
        >(TypeError::ValueNotPair),
{
}

/// One entry that breaks a rule fails the whole message.
pub proof fn lemma_field_error_fails_message(
    name: Seq<char>,
    entries: Seq<(String, SchemaValue)>,
    k: int,
)
    requires
        0 <= k < entries.len(),
        field_from_entry(entries[k].0@, entries[k].1) is Err,
    ensures
        message_from_table(name, entries) is Err,
{
    lemma_try_map_fails(entries, field_rule(), k);
}

/// A value below zero or above the largest unsigned 32-bit number is
/// rejected as a variant's value; every integer in between is accepted and
/// kept.
pub proof fn lemma_variant_value_range(name: Seq<char>, number: i64)
    ensures
        !(0 <= number <= u32::MAX) ==> variant_from_entry(name, SchemaValue::Integer(number))
            == Err::<VariantView, TypeError>(TypeError::VariantNotU32),
        0 <= number <= u32::MAX ==> variant_from_entry(name, SchemaValue::Integer(number)) is Ok
            && variant_from_entry(name, SchemaValue::Integer(number))->Ok_0.numerical_value
            == number,
{
}

/// One entry that breaks a rule fails the whole enumeration.
pub proof fn lemma_variant_error_fails_enum(
    name: Seq<char>,
    entries: Seq<(String, SchemaValue)>,
    k: int,
)
    requires
        0 <= k < entries.len(),
        variant_from_entry(entries[k].0@, entries[k].1) is Err,
    ensures
        enum_from_table(name, entries) is Err,
{
    lemma_try_map_fails(entries, variant_rule(), k);
}

/// A reference that holds no dot is rejected for its form.
pub proof fn lemma_reference_needs_dot(
    reference: Seq<char>,
    messages: Seq<Seq<char>>,
    enums: Seq<Seq<char>>,
    role: Role,
)
    requires
        !reference.contains('.'),
    ensures
        resolved(reference, messages, enums, role) == Err::<Seq<char>, TypeError>(
            role.form_error(),
        ),
{
    assert forall|j: int| 0 <= j < reference.len() implies reference[j] != '.' by {
        assert(reference.contains(reference[j]));
    }
    lemma_dot_position(reference, reference.len() as int);
}

/// A reference whose kind, the part before its first dot, is neither
/// `message` nor `enum` is rejected for its kind.
pub proof fn lemma_reference_kind_must_be_known(
    reference: Seq<char>,
    messages: Seq<Seq<char>>,
    enums: Seq<Seq<char>>,
    role: Role,
)
    requires
        split_at_dot(reference) matches Some((kind, _)) && kind != "message"@ && kind != "enum"@,
    ensures
        resolved(reference, messages, enums, role) == Err::<Seq<char>, TypeError>(
            role.kind_error(),
        ),
{
}

/// A reference to an entity that is not declared is rejected: a message
/// reference where no message has the name in type casing, an enumeration
/// reference where no enumeration has it.
pub proof fn lemma_reference_must_be_declared(
    reference: Seq<char>,
    messages: Seq<Seq<char>>,
    enums: Seq<Seq<char>>,
    role: Role,
)
    requires
        split_at_dot(reference) is Some,
    ensures
        ({
            let (kind, name) = split_at_dot(reference)->Some_0;
            &&& kind == "message"@ && !messages.contains(pascal_case(name)) ==> resolved(
                reference,
                messages,
                enums,
                role,
            ) == Err::<Seq<char>, TypeError>(TypeError::MessageNotFound)
            &&& kind == "enum"@ && !enums.contains(pascal_case(name)) ==> resolved(
                reference,
                messages,
                enums,
                role,
            ) == Err::<Seq<char>, TypeError>(TypeError::EnumNotFound)
        }),
{
    reveal_strlit("message");
    reveal_strlit("enum");
    assert("message"@.len() == 7);
    assert("enum"@.len() == 4);
}

/// A reference that resolves names exactly one declared entity: the
/// reference has a kind and a name, the result is the name in type casing,
/// and a message of that name is declared where the kind is `message`, an
/// enumeration where it is `enum`.
pub proof fn lemma_resolved_is_declared(
    reference: Seq<char>,
    messages: Seq<Seq<char>>,
    enums: Seq<Seq<char>>,
    role: Role,
)
    requires
        resolved(reference, messages, enums, role) is Ok,
    ensures
        split_at_dot(reference) is Some,
        ({
            let (kind, name) = split_at_dot(reference)->Some_0;
            let entity = resolved(reference, messages, enums, role)->Ok_0;
            &&& entity == pascal_case(name)
            &&& kind == "message"@ || kind == "enum"@
            &&& kind == "message"@ ==> messages.contains(entity)
            &&& kind == "enum"@ ==> enums.contains(entity)
        }),
{
    reveal_strlit("message");
    reveal_strlit("enum");
    assert("message"@.len() == 7);
    assert("enum"@.len() == 4);
}

/// A method whose value is an array of two strings is rejected with the
/// error of the first of its references that does not resolve, input before
/// output; where both resolve the method is built, with its name in member
/// casing and the two entities that the references name.
pub proof fn lemma_method_references_must_resolve(
    name: Seq<char>,
    values: SchemaValue,
    messages: Seq<Seq<char>>,
    enums: Seq<Seq<char>>,
)
    requires
        values.elements() is Some,
        values.elements()->Some_0.len() == 2,
        values.elements()->Some_0[0].text() is Some,
        values.elements()->Some_0[1].text() is Some,
    ensures
        ({
            let input = values.elements()->Some_0[0].text()->Some_0;
            let output = values.elements()->Some_0[1].text()->Some_0;
            let first = resolved(input, messages, enums, Role::Input);
            let second = resolved(output, messages, enums, Role::Output);
            let method = method_from_entry(name, values, messages, enums);
            &&& first is Err ==> method == Err::<MethodView, TypeError>(first->Err_0)
            &&& first is Ok && second is Err ==> method == Err::<MethodView, TypeError>(
                second->Err_0,
            )
            &&& first is Ok && second is Ok ==> method is Ok && method->Ok_0.name == snake_case(
                name,
            ) && method->Ok_0.input == first->Ok_0 && method->Ok_0.output == second->Ok_0
        }),
{
}

/// One entry that breaks a rule fails the whole service.
pub proof fn lemma_method_error_fails_service(
    name: Seq<char>,
    entries: Seq<(String, SchemaValue)>,
    messages: Seq<Seq<char>>,
    enums: Seq<Seq<char>>,
    k: int,
)
    requires
        0 <= k < entries.len(),
        method_from_entry(entries[k].0@, entries[k].1, messages, enums) is Err,
    ensures
        service_from_table(name, entries, messages, enums) is Err,
{
    lemma_try_map_fails(entries, method_rule(messages, enums), k);
}

/// Names come out in their canonical casing, whatever the schema wrote: a
/// message has the type casing of its key, and each of its fields the member
/// casing of the name in the field's entry.
pub proof fn lemma_message_names_are_cased(name: Seq<char>, entries: Seq<(String, SchemaValue)>)
    requires
        message_from_table(name, entries) is Ok,
    ensures
        ({
            let message = message_from_table(name, entries)->Ok_0;
            &&& message.name == pascal_case(name)
            &&& message.fields.len() == entries.len()
            &&& forall|i: int|
                0 <= i < entries.len() ==> (#[trigger] entries[i]).1.elements() is Some
                    && entries[i].1.elements()->Some_0.len() == 2
                    && entries[i].1.elements()->Some_0[0].text() is Some && message.fields[i].name
                    == snake_case(entries[i].1.elements()->Some_0[0].text()->Some_0)
        }),
{
    lemma_try_map_ok(entries, field_rule());
    let message = message_from_table(name, entries)->Ok_0;
    assert forall|i: int| 0 <= i < entries.len() implies (#[trigger] entries[i]).1.elements() is Some
        && entries[i].1.elements()->Some_0.len() == 2
        && entries[i].1.elements()->Some_0[0].text() is Some && message.fields[i].name
        == snake_case(entries[i].1.elements()->Some_0[0].text()->Some_0) by {
        assert(field_rule()(entries[i]) == Ok::<_, TypeError>(message.fields[i]));
    }
}

/// An enumeration has the type casing of its key, and each of its variants
/// the type casing of the variant's key.
pub proof fn lemma_enum_names_are_cased(name: Seq<char>, entries: Seq<(String, SchemaValue)>)
    requires
        enum_from_table(name, entries) is Ok,
    ensures
        ({
            let declared = enum_from_table(name, entries)->Ok_0;
            &&& declared.name == pascal_case(name)
            &&& declared.fields.len() == entries.len()
            &&& forall|i: int|
                0 <= i < entries.len() ==> declared.fields[i].name == pascal_case(
                    (#[trigger] entries[i]).0@,
                )
        }),
{
    lemma_try_map_ok(entries, variant_rule());
    let declared = enum_from_table(name, entries)->Ok_0;
    assert forall|i: int| 0 <= i < entries.len() implies declared.fields[i].name == pascal_case(
        (#[trigger] entries[i]).0@,
    ) by {
        assert(variant_rule()(entries[i]) == Ok::<_, TypeError>(declared.fields[i]));
    }
}

/// A service has the type casing of its key, and each of its methods the
/// member casing of the method's key.
pub proof fn lemma_service_names_are_cased(
    name: Seq<char>,
    entries: Seq<(String, SchemaValue)>,
    messages: Seq<Seq<char>>,
    enums: Seq<Seq<char>>,
)
    requires
        service_from_table(name, entries, messages, enums) is Ok,
    ensures
        ({
            let service = service_from_table(name, entries, messages, enums)->Ok_0;
            &&& service.name == pascal_case(name)
            &&& service.methods.len() == entries.len()
            &&& forall|i: int|
                0 <= i < entries.len() ==> service.methods[i].name == snake_case(
                    (#[trigger] entries[i]).0@,
                )
        }),
{
    let rule = method_rule(messages, enums);
    lemma_try_map_ok(entries, rule);
    let service = service_from_table(name, entries, messages, enums)->Ok_0;
    assert forall|i: int| 0 <= i < entries.len() implies service.methods[i].name == snake_case(
        (#[trigger] entries[i]).0@,
    ) by {
        assert(rule(entries[i]) == Ok::<_, TypeError>(service.methods[i]));
    }
}

/// A field whose type name is neither of the two known names is emitted with
/// the placeholder type, and is no error; the two known names stand for
/// themselves.
pub proof fn lemma_unknown_type_is_placeholder(field_type: Seq<char>)
    ensures
        field_type != "u32"@ && field_type != "String"@ ==> mapped_type(field_type) == "Unknown"@,
        field_type == "u32"@ || field_type == "String"@ ==> mapped_type(field_type) == field_type,
{
}

/// Whether compiling a schema text fails with a type error.
pub open spec fn fails_with_type_error(schema: Seq<char>) -> bool {
    match compiled(schema) {
        Err(Failure::Types(_)) => true,
        _ => false,
    }
}

/// A rule broken anywhere in the schema fails the compilation with a type
/// error: by an entry of the message section, by one of the enumeration
/// section, or, where messages and enumerations are built, by one of the
/// service section.
pub proof fn lemma_broken_rule_fails_compilation(schema: Seq<char>, k: int)
    requires
        document_of(schema) is Some,
    ensures
        ({
            let document = document_of(schema)->Some_0;
            let messages = section(document, "message"@);
            let enums = section(document, "enum"@);
            let services = section(document, "rpc"@);
            let built_messages = try_map(messages, message_rule());
            let built_enums = try_map(enums, enum_rule());
            &&& 0 <= k < messages.len() && message_rule()(messages[k]) is Err
                ==> fails_with_type_error(schema)
            &&& 0 <= k < enums.len() && enum_rule()(enums[k]) is Err ==> fails_with_type_error(
                schema,
            )
            &&& built_messages is Ok && built_enums is Ok && 0 <= k < services.len()
                && service_rule(
                names_of_messages(built_messages->Ok_0),
                names_of_enums(built_enums->Ok_0),
            )(services[k]) is Err ==> fails_with_type_error(schema)
        }),
{
    let document = document_of(schema)->Some_0;
    let messages = section(document, "message"@);
    let enums = section(document, "enum"@);
    let services = section(document, "rpc"@);
    if 0 <= k < messages.len() && message_rule()(messages[k]) is Err {
        lemma_try_map_fails(messages, message_rule(), k);
    }
    if 0 <= k < enums.len() && enum_rule()(enums[k]) is Err {
        lemma_try_map_fails(enums, enum_rule(), k);
    }
    if let Ok(ms) = try_map(messages, message_rule()) {
        if let Ok(es) = try_map(enums, enum_rule()) {
            let rule = service_rule(names_of_messages(ms), names_of_enums(es));
            if 0 <= k < services.len() && rule(services[k]) is Err {
                lemma_try_map_fails(services, rule, k);
            }
        }
    }
}

} // verus!
