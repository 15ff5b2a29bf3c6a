use codegen_rust::enum_tokens::TomlRpcEnum;
use codegen_rust::message_tokens::TomlRpcMessage;
use codegen_rust::schema::SchemaValue;
use codegen_rust::service_tokens::{
    declares_enum, declares_message, resolve, Role, TomlRpcService, TomlRpcServiceMethod,
};
use codegen_rust::{CompileError, TypeError};

fn declared_messages() -> Vec<TomlRpcMessage> {
    vec![
        TomlRpcMessage::new("MyMessage".to_string(), vec![]),
        TomlRpcMessage::new("Other".to_string(), vec![]),
    ]
}

fn declared_enums() -> Vec<TomlRpcEnum> {
    vec![TomlRpcEnum::new("MyEnum".to_string(), vec![])]
}

fn refs(input: &str, output: &str) -> SchemaValue {
    SchemaValue::Array(vec![
        SchemaValue::String(input.to_string()),
        SchemaValue::String(output.to_string()),
    ])
}

fn method(name: &str, values: SchemaValue) -> Result<TomlRpcServiceMethod, CompileError> {
    TomlRpcServiceMethod::from_toml(
        name.to_string(),
        &values,
        &declared_messages(),
        &declared_enums(),
    )
}

fn service_error<T: std::fmt::Debug>(result: Result<T, CompileError>) -> TypeError {
    match result {
        Err(CompileError::Types(kind)) => kind,
        other => panic!("expected a type error, got {:?}", other),
    }
}

fn service_source(source: &str) -> String {
    source.parse::<proc_macro2::TokenStream>().unwrap().to_string()
}

#[test]
fn declared_names_are_matched_exactly() {
    let messages = declared_messages();
    let enums = declared_enums();
    assert!(declares_message(&messages, "MyMessage"));
    assert!(declares_message(&messages, "Other"));
    assert!(!declares_message(&messages, "my_message"));
    assert!(!declares_message(&messages, "MyEnum"));
    assert!(!declares_message(&[], "MyMessage"));
    assert!(declares_enum(&enums, "MyEnum"));
    assert!(!declares_enum(&enums, "MyMessage"));
    assert!(!declares_enum(&enums, "myenum"));
}

#[test]
fn reference_resolves_to_the_declared_entity() {
    let messages = declared_messages();
    let enums = declared_enums();
    assert_eq!(
        resolve("message.MyMessage", &messages, &enums, Role::Input).unwrap(),
        "MyMessage"
    );
    assert_eq!(resolve("message.Other", &messages, &enums, Role::Output).unwrap(), "Other");
    assert_eq!(resolve("enum.MyEnum", &messages, &enums, Role::Output).unwrap(), "MyEnum");
}

#[test]
fn reference_is_matched_after_type_casing() {
    let messages = declared_messages();
    let enums = declared_enums();
    for reference in ["message.my_message", "message.myMessage", "message.my-message"] {
        assert_eq!(resolve(reference, &messages, &enums, Role::Input).unwrap(), "MyMessage");
    }
    assert_eq!(resolve("enum.my_enum", &messages, &enums, Role::Input).unwrap(), "MyEnum");
}

#[test]
fn reference_needs_a_dot() {
    let messages = declared_messages();
    let enums = declared_enums();
    assert_eq!(
        service_error(resolve("MyMessage", &messages, &enums, Role::Input)),
        TypeError::MethodInputForm
    );
    assert_eq!(
        service_error(resolve("", &messages, &enums, Role::Output)),
        TypeError::MethodOutputForm
    );
    assert_eq!(
        service_error(resolve("message:MyMessage", &messages, &enums, Role::Output)),
        TypeError::MethodOutputForm
    );
}

#[test]
fn reference_kind_must_be_message_or_enum() {
    let messages = declared_messages();
    let enums = declared_enums();
    for reference in ["struct.MyMessage", "Message.MyMessage", ".MyMessage", "messages.MyMessage"] {
        assert_eq!(
            service_error(resolve(reference, &messages, &enums, Role::Input)),
            TypeError::UnknownInputType
        );
        assert_eq!(
            service_error(resolve(reference, &messages, &enums, Role::Output)),
            TypeError::UnknownOutputType
        );
    }
}

#[test]
fn reference_must_name_a_declared_entity_of_its_kind() {
    let messages = declared_messages();
    let enums = declared_enums();
    assert_eq!(
        service_error(resolve("message.Missing", &messages, &enums, Role::Input)),
        TypeError::MessageNotFound
    );
    assert_eq!(
        service_error(resolve("message.MyEnum", &messages, &enums, Role::Input)),
        TypeError::MessageNotFound
    );
    assert_eq!(
        service_error(resolve("enum.MyMessage", &messages, &enums, Role::Output)),
        TypeError::EnumNotFound
    );
    assert_eq!(
        service_error(resolve("enum.", &messages, &enums, Role::Output)),
        TypeError::EnumNotFound
    );
}

#[test]
fn reference_name_is_all_that_follows_the_first_dot() {
    let messages = declared_messages();
    let enums = declared_enums();
    assert_eq!(
        resolve("message.My.Message", &messages, &enums, Role::Input).unwrap(),
        "MyMessage"
    );
    assert_eq!(
        service_error(resolve("message.enum.MyEnum", &messages, &enums, Role::Input)),
        TypeError::MessageNotFound
    );
}

#[test]
fn method_is_built_from_two_references() {
    assert_eq!(
        method("my_call", refs("message.MyMessage", "enum.MyEnum")).unwrap(),
        TomlRpcServiceMethod::new(
            "my_call".to_string(),
            "MyMessage".to_string(),
            "MyEnum".to_string()
        )
    );
    assert_eq!(
        method("swap", refs("enum.MyEnum", "message.Other")).unwrap(),
        TomlRpcServiceMethod::new("swap".to_string(), "MyEnum".to_string(), "Other".to_string())
    );
}

#[test]
fn method_name_comes_out_in_member_casing() {
    let expected = TomlRpcServiceMethod::new(
        "my_call".to_string(),
        "MyMessage".to_string(),
        "MyMessage".to_string(),
    );
    for name in ["my_call", "myCall", "MyCall", "my-call"] {
        assert_eq!(method(name, refs("message.MyMessage", "message.MyMessage")).unwrap(), expected);
    }
}

#[test]
fn method_value_must_be_an_array_of_two_strings() {
    assert_eq!(
        service_error(method("m", SchemaValue::String("message.MyMessage".to_string()))),
        TypeError::ValueNotArray
    );
    assert_eq!(
        service_error(method("m", SchemaValue::Array(vec![]))),
        TypeError::ValueNotPair
    );
    assert_eq!(
        service_error(method(
            "m",
            SchemaValue::Array(vec![SchemaValue::String("message.MyMessage".to_string())])
        )),
        TypeError::ValueNotPair
    );
    assert_eq!(
        service_error(method(
            "m",
            SchemaValue::Array(vec![
                SchemaValue::Integer(1),
                SchemaValue::String("enum.MyEnum".to_string())
            ])
        )),
        TypeError::MethodInputNotString
    );
    assert_eq!(
        service_error(method(
            "m",
            SchemaValue::Array(vec![
                SchemaValue::String("message.MyMessage".to_string()),
                SchemaValue::Integer(1)
            ])
        )),
        TypeError::MethodOutputNotString
    );
}

#[test]
fn method_strings_are_checked_before_the_references() {
    assert_eq!(
        service_error(method(
            "m",
            SchemaValue::Array(vec![SchemaValue::String("nodot".to_string()), SchemaValue::Float])
        )),
        TypeError::MethodOutputNotString
    );
}

#[test]
fn method_input_is_resolved_before_its_output() {
    assert_eq!(
        service_error(method("m", refs("nodot", "alsonodot"))),
        TypeError::MethodInputForm
    );
    assert_eq!(
        service_error(method("m", refs("message.Missing", "bad.X"))),
        TypeError::MessageNotFound
    );
    assert_eq!(
        service_error(method("m", refs("message.MyMessage", "alsonodot"))),
        TypeError::MethodOutputForm
    );
    assert_eq!(
        service_error(method("m", refs("message.MyMessage", "bad.X"))),
        TypeError::UnknownOutputType
    );
    assert_eq!(
        service_error(method("m", refs("bad.X", "enum.MyEnum"))),
        TypeError::UnknownInputType
    );
    assert_eq!(
        service_error(method("m", refs("enum.MyEnum", "enum.Missing"))),
        TypeError::EnumNotFound
    );
}

#[test]
fn service_keeps_the_order_of_its_table() {
    let entries = vec![
        ("second".to_string(), refs("enum.MyEnum", "message.MyMessage")),
        ("first".to_string(), refs("message.MyMessage", "enum.MyEnum")),
    ];
    let built = TomlRpcService::from_toml(
        "my_service".to_string(),
        &entries,
        &declared_messages(),
        &declared_enums(),
    )
    .unwrap();
    let expected = TomlRpcService::new(
        "MyService".to_string(),
        vec![
            TomlRpcServiceMethod::new(
                "second".to_string(),
                "MyEnum".to_string(),
                "MyMessage".to_string(),
            ),
            TomlRpcServiceMethod::new(
                "first".to_string(),
                "MyMessage".to_string(),
                "MyEnum".to_string(),
            ),
        ],
    );
    assert_eq!(built, expected);
}

#[test]
fn service_fails_with_the_error_of_its_first_bad_method() {
    let entries = vec![
        ("a".to_string(), refs("message.MyMessage", "enum.MyEnum")),
        ("b".to_string(), refs("message.Missing", "enum.MyEnum")),
        ("c".to_string(), refs("nodot", "enum.MyEnum")),
    ];
    assert_eq!(
        service_error(TomlRpcService::from_toml(
            "S".to_string(),
            &entries,
            &declared_messages(),
            &declared_enums()
        )),
        TypeError::MessageNotFound
    );
}

#[test]
fn service_without_declared_entities_resolves_nothing() {
    let entries = vec![("a".to_string(), refs("message.MyMessage", "enum.MyEnum"))];
    assert_eq!(
        service_error(TomlRpcService::from_toml("S".to_string(), &entries, &[], &[])),
        TypeError::MessageNotFound
    );
}

#[test]
fn method_tokens_declare_an_async_signature() {
    let method = TomlRpcServiceMethod::new(
        "my_call".to_string(),
        "MyMessage".to_string(),
        "MyEnum".to_string(),
    );
    assert!(method.is_renderable());
    assert_eq!(
        method.into_token_stream().to_string(),
        service_source("async fn my_call(&self, input: MyMessage) -> MyEnum;")
    );
}

#[test]
fn service_tokens_declare_a_public_trait() {
    let service = TomlRpcService::new(
        "MyService".to_string(),
        vec![
            TomlRpcServiceMethod::new("a".to_string(), "X".to_string(), "Y".to_string()),
            TomlRpcServiceMethod::new("b".to_string(), "Y".to_string(), "X".to_string()),
        ],
    );
    assert!(service.is_renderable());
    assert_eq!(
        service.into_token_stream().to_string(),
        service_source(
            "pub trait MyService { async fn a(&self, input: X) -> Y; async fn b(&self, input: Y) -> X; }"
        )
    );
}

#[test]
fn service_is_renderable_only_with_plain_identifiers() {
    let good = TomlRpcServiceMethod::new("a".to_string(), "X".to_string(), "Y".to_string());
    assert!(good.is_renderable());
    for (name, input, output) in [("", "X", "Y"), ("a", "1X", "Y"), ("a", "X", "Y Z")] {
        let bad = TomlRpcServiceMethod::new(
            name.to_string(),
            input.to_string(),
            output.to_string(),
        );
        assert!(!bad.is_renderable());
        assert!(!TomlRpcService::new("S".to_string(), vec![good.clone(), bad]).is_renderable());
    }
    assert!(TomlRpcService::new("S".to_string(), vec![good.clone()]).is_renderable());
    assert!(!TomlRpcService::new("S T".to_string(), vec![good]).is_renderable());
}
