use codegen_rust::Builder;

fn sample() -> String {
    [
        "[message.MyMessage]",
        "\"1\" = [\"a\", \"String\"]",
        "\"2\" = [\"b\", \"u32\"]",
        "",
        "[enum.MyEnum]",
        "OptionA = 1",
        "OptionB = 2",
        "",
        "[rpc.MyService]",
        "my_call = [\"message.MyMessage\", \"enum.MyEnum\"]",
        "",
    ]
    .join("\n")
}

#[test]
fn parse() {
    let mut generated = Vec::new();
    assert!(Builder::new(sample())
        .compile_to_writer(&mut generated)
        .is_ok());

    let generated = String::from_utf8(generated).expect("generated non-utf8 data");
    let expected = "pub struct MyMessage {
    pub a: String,
    pub b: u32,
}
#[repr(u32)]
pub enum MyEnum {
    OptionA = 1u32,
    OptionB = 2u32,
}
pub trait MyService {
    async fn my_call(&self, input: MyMessage) -> MyEnum;
}
";
    assert_eq!(expected, generated);
}

#[test]
fn compile_returns_the_text_that_the_writer_receives() {
    let text = Builder::new(sample()).compile().unwrap();
    let mut written = Vec::new();
    Builder::new(sample()).compile_to_writer(&mut written).unwrap();
    assert_eq!(text.as_bytes(), written.as_slice());
}

#[test]
fn compiling_twice_gives_the_same_bytes() {
    let mut first = Vec::new();
    let mut second = Vec::new();
    Builder::new(sample()).compile_to_writer(&mut first).unwrap();
    Builder::new(sample()).compile_to_writer(&mut second).unwrap();
    assert!(!first.is_empty());
    assert_eq!(first, second);
}

#[test]
fn writer_keeps_what_it_held_and_gets_the_text_appended() {
    let mut written = b"// header\n".to_vec();
    Builder::new("[enum.E]\nA = 0\n".to_string())
        .compile_to_writer(&mut written)
        .unwrap();
    let text = String::from_utf8(written).unwrap();
    assert_eq!(text, "// header\n#[repr(u32)]\npub enum E {\n    A = 0u32,\n}\n");
}

#[test]
fn writer_is_untouched_when_the_schema_fails() {
    let mut written = b"kept".to_vec();
    let result = Builder::new("[enum.E]\nA = -1\n".to_string()).compile_to_writer(&mut written);
    assert!(result.is_err());
    assert_eq!(written, b"kept".to_vec());
}
