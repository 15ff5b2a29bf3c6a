use codegen_rust::schema::SchemaValue;

fn text(s: &str) -> SchemaValue {
    SchemaValue::String(s.to_string())
}

fn table(entries: Vec<(&str, SchemaValue)>) -> SchemaValue {
    SchemaValue::Table(entries.into_iter().map(|(k, v)| (k.to_string(), v)).collect())
}

#[test]
fn accessors_tell_the_variants_apart() {
    let values = vec![
        text("a"),
        SchemaValue::Integer(3),
        SchemaValue::Float,
        SchemaValue::Boolean(true),
        SchemaValue::Datetime,
        SchemaValue::Array(vec![SchemaValue::Integer(1)]),
        table(vec![("k", SchemaValue::Integer(1))]),
    ];
    let strings: Vec<bool> = values.iter().map(|v| v.as_str().is_some()).collect();
    let integers: Vec<bool> = values.iter().map(|v| v.as_integer().is_some()).collect();
    let arrays: Vec<bool> = values.iter().map(|v| v.as_array().is_some()).collect();
    let tables: Vec<bool> = values.iter().map(|v| v.as_table().is_some()).collect();
    assert_eq!(strings, vec![true, false, false, false, false, false, false]);
    assert_eq!(integers, vec![false, true, false, false, false, false, false]);
    assert_eq!(arrays, vec![false, false, false, false, false, true, false]);
    assert_eq!(tables, vec![false, false, false, false, false, false, true]);
}

#[test]
fn accessors_hand_out_the_payload() {
    assert_eq!(text("abc").as_str(), Some("abc"));
    assert_eq!(SchemaValue::Integer(-7).as_integer(), Some(-7));
    let array = SchemaValue::Array(vec![text("x"), SchemaValue::Integer(2)]);
    assert_eq!(array.as_array(), Some(&vec![text("x"), SchemaValue::Integer(2)]));
    let entries = table(vec![("a", SchemaValue::Integer(1))]);
    assert_eq!(entries.as_table(), Some(&vec![("a".to_string(), SchemaValue::Integer(1))]));
}

#[test]
fn get_finds_the_first_entry_of_a_key() {
    let doc = table(vec![
        ("a", SchemaValue::Integer(1)),
        ("b", SchemaValue::Integer(2)),
        ("a", SchemaValue::Integer(3)),
    ]);
    assert_eq!(doc.get("a"), Some(&SchemaValue::Integer(1)));
    assert_eq!(doc.get("b"), Some(&SchemaValue::Integer(2)));
    assert_eq!(doc.get("c"), None);
    assert_eq!(doc.get(""), None);
}

#[test]
fn get_on_what_is_no_table_finds_nothing() {
    assert_eq!(text("a").get("a"), None);
    assert_eq!(SchemaValue::Array(vec![text("a")]).get("a"), None);
    assert_eq!(SchemaValue::Integer(1).get("a"), None);
}

#[test]
fn section_entries_are_those_of_the_table_under_the_key() {
    let doc = table(vec![
        ("message", table(vec![("M", table(vec![]))])),
        ("enum", SchemaValue::Integer(1)),
    ]);
    assert_eq!(
        doc.section_entries("message"),
        Some(&vec![("M".to_string(), table(vec![]))])
    );
    assert_eq!(doc.section_entries("enum"), None);
    assert_eq!(doc.section_entries("rpc"), None);
    assert_eq!(text("x").section_entries("message"), None);
}

#[test]
fn read_schema_gives_a_table_of_the_top_level_keys() {
    let document = codegen_rust::schema::read_schema("b = 1\na = \"x\"\n").unwrap();
    assert_eq!(
        document,
        table(vec![("a", text("x")), ("b", SchemaValue::Integer(1))])
    );
    assert_eq!(codegen_rust::schema::read_schema("").unwrap(), table(vec![]));
}

#[test]
fn read_schema_keeps_every_kind_of_value() {
    let source = "s = \"text\"\ni = -3\nf = 1.5\nt = true\nd = 1979-05-27\nl = [1, \"two\", [3]]\n[n]\nk = 0\n";
    let document = codegen_rust::schema::read_schema(source).unwrap();
    assert_eq!(
        document,
        table(vec![
            ("d", SchemaValue::Datetime),
            ("f", SchemaValue::Float),
            ("i", SchemaValue::Integer(-3)),
            (
                "l",
                SchemaValue::Array(vec![
                    SchemaValue::Integer(1),
                    text("two"),
                    SchemaValue::Array(vec![SchemaValue::Integer(3)]),
                ])
            ),
            ("n", table(vec![("k", SchemaValue::Integer(0))])),
            ("s", text("text")),
            ("t", SchemaValue::Boolean(true)),
        ])
    );
}

#[test]
fn read_schema_orders_entries_by_key() {
    let source = "[message.M]\n\"2\" = 0\n\"10\" = 0\n\"1\" = 0\n";
    let document = codegen_rust::schema::read_schema(source).unwrap();
    let messages = document.section_entries("message").unwrap();
    let fields = messages[0].1.as_table().unwrap();
    let keys: Vec<&str> = fields.iter().map(|(k, _)| k.as_str()).collect();
    assert_eq!(keys, vec!["1", "10", "2"]);
}

#[test]
fn read_schema_rejects_text_that_is_not_well_formed() {
    for source in ["[a", "a = ", "a = 1\na = 2\n", "= 3", "a = [1, "] {
        assert!(matches!(
            codegen_rust::schema::read_schema(source),
            Err(codegen_rust::CompileError::Toml(_))
        ));
    }
}
