use nais_build::config::toml_merge::{
    copy, find, is_well_formed, merge, merge_all, merge_values, Value,
};

fn text(s: &str) -> Value {
    Value::String(s.to_string())
}

fn table(entries: Vec<(&str, Value)>) -> Value {
    Value::Table(entries.into_iter().map(|(k, v)| (k.to_string(), v)).collect())
}

/// A value as text, so that two values can be compared.
fn show(value: &Value) -> String {
    match value {
        Value::String(s) => format!("{:?}", s),
        Value::Integer(i) => format!("{}", i),
        Value::Float(bits) => format!("float:{}", bits),
        Value::Boolean(b) => format!("{}", b),
        Value::Datetime(d) => format!("@{}", d),
        Value::Array(items) => {
            let items: Vec<String> = items.iter().map(show).collect();
            format!("[{}]", items.join(", "))
        }
        Value::Table(entries) => {
            let entries: Vec<String> =
                entries.iter().map(|(k, v)| format!("{} = {}", k, show(v))).collect();
            format!("{{{}}}", entries.join(", "))
        }
    }
}

#[test]
fn a_scalar_takes_the_place_of_anything() {
    assert_eq!(show(&merge_values(text("a"), &text("b"))), "\"b\"");
    assert_eq!(show(&merge_values(Value::Integer(1), &Value::Boolean(true))), "true");
    assert_eq!(show(&merge_values(table(vec![("k", text("v"))]), &Value::Integer(2))), "2");
    assert_eq!(show(&merge_values(Value::Array(vec![text("a")]), &Value::Float(7))), "float:7");
    assert_eq!(
        show(&merge_values(text("a"), &Value::Datetime("1979-05-27".to_string()))),
        "@1979-05-27"
    );
}

#[test]
fn arrays_and_tables_take_the_place_of_other_kinds() {
    assert_eq!(show(&merge_values(text("a"), &Value::Array(vec![text("b")]))), "[\"b\"]");
    assert_eq!(show(&merge_values(text("a"), &table(vec![("k", text("v"))]))), "{k = \"v\"}");
    assert_eq!(
        show(&merge_values(Value::Array(vec![text("a")]), &table(vec![("k", text("v"))]))),
        "{k = \"v\"}"
    );
    assert_eq!(
        show(&merge_values(table(vec![("k", text("v"))]), &Value::Array(vec![text("a")]))),
        "[\"a\"]"
    );
}

#[test]
fn arrays_are_merged_place_by_place() {
    let into = Value::Array(vec![text("a"), text("b"), text("c")]);
    let value = Value::Array(vec![text("x")]);
    assert_eq!(show(&merge_values(into, &value)), "[\"x\", \"b\", \"c\"]");
    let into = Value::Array(vec![text("a")]);
    let value = Value::Array(vec![text("x"), text("y")]);
    assert_eq!(show(&merge_values(into, &value)), "[\"x\", \"y\"]");
    let into = Value::Array(vec![]);
    let value = Value::Array(vec![text("x"), text("y")]);
    assert_eq!(show(&merge_values(into, &value)), "[\"x\", \"y\"]");
    let into = Value::Array(vec![text("a")]);
    let value = Value::Array(vec![]);
    assert_eq!(show(&merge_values(into, &value)), "[\"a\"]");
    let into = Value::Array(vec![table(vec![("a", Value::Integer(1)), ("b", Value::Integer(2))])]);
    let value = Value::Array(vec![table(vec![("b", Value::Integer(3))]), Value::Integer(4)]);
    assert_eq!(show(&merge_values(into, &value)), "[{a = 1, b = 3}, 4]");
}

#[test]
fn tables_are_merged_key_by_key() {
    let into = table(vec![
        ("description", text("Default configuration file")),
        ("release", table(vec![("type", text("gar")), ("gar", table(vec![("registry", text("r"))]))])),
    ]);
    let value = table(vec![
        ("team", text("myteam")),
        ("release", table(vec![("type", text("ghcr"))])),
    ]);
    assert_eq!(
        show(&merge_values(into, &value)),
        "{description = \"Default configuration file\", release = {type = \"ghcr\", gar = {registry = \"r\"}}, team = \"myteam\"}"
    );
}

#[test]
fn merge_changes_the_value_in_place() {
    let mut merged = table(vec![("a", Value::Integer(1))]);
    merge(&mut merged, &table(vec![("b", Value::Integer(2))]));
    merge(&mut merged, &table(vec![("a", Value::Integer(3))]));
    assert_eq!(show(&merged), "{a = 3, b = 2}");
}

#[test]
fn later_documents_win() {
    let documents = vec![
        table(vec![("a", Value::Integer(1)), ("b", Value::Integer(1))]),
        table(vec![("b", Value::Integer(2)), ("c", Value::Integer(2))]),
        table(vec![("c", Value::Integer(3))]),
    ];
    assert_eq!(show(&merge_all(&documents)), "{a = 1, b = 2, c = 3}");
    assert_eq!(show(&merge_all(&Vec::new())), "{}");
    assert_eq!(show(&merge_all(&vec![text("x")])), "\"x\"");
}

#[test]
fn copies_are_deep() {
    let value = table(vec![
        ("a", Value::Array(vec![Value::Integer(1), table(vec![("b", text("c"))])])),
        ("d", Value::Datetime("1979-05-27T07:32:00Z".to_string())),
        ("e", Value::Float(4607182418800017408)),
        ("f", Value::Boolean(false)),
    ]);
    assert_eq!(show(&copy(&value)), show(&value));
}

#[test]
fn find_gives_the_first_entry_with_the_key() {
    let entries = vec![
        ("a".to_string(), Value::Integer(1)),
        ("b".to_string(), Value::Integer(2)),
        ("a".to_string(), Value::Integer(3)),
    ];
    assert_eq!(find(&entries, "a"), Some(0));
    assert_eq!(find(&entries, "b"), Some(1));
    assert_eq!(find(&entries, "c"), None);
    assert_eq!(find(&Vec::new(), "a"), None);
}

#[test]
fn tables_hold_each_key_once() {
    assert!(is_well_formed(&text("a")));
    assert!(is_well_formed(&Value::Array(vec![])));
    assert!(is_well_formed(&table(vec![])));
    assert!(is_well_formed(&table(vec![("a", Value::Integer(1)), ("b", Value::Integer(2))])));
    assert!(!is_well_formed(&table(vec![("a", Value::Integer(1)), ("a", Value::Integer(2))])));
    assert!(!is_well_formed(&table(vec![
        ("a", Value::Integer(1)),
        ("b", Value::Integer(2)),
        ("a", Value::Integer(3)),
    ])));
    let nested = table(vec![(
        "outer",
        Value::Array(vec![table(vec![("k", text("v")), ("k", text("w"))])]),
    )]);
    assert!(!is_well_formed(&nested));
    let nested = table(vec![(
        "outer",
        Value::Array(vec![table(vec![("k", text("v"))]), table(vec![("k", text("w"))])]),
    )]);
    assert!(is_well_formed(&nested));
}

#[test]
fn merging_keeps_each_key_once() {
    let into = table(vec![
        ("a", table(vec![("x", Value::Integer(1)), ("y", Value::Integer(2))])),
        ("b", Value::Array(vec![table(vec![("k", text("v"))])])),
    ]);
    let value = table(vec![
        ("b", Value::Array(vec![table(vec![("k", text("w")), ("l", text("u"))])])),
        ("a", table(vec![("y", Value::Integer(3)), ("z", Value::Integer(4))])),
        ("c", text("new")),
    ]);
    assert!(is_well_formed(&into));
    assert!(is_well_formed(&value));
    let merged = merge_values(into, &value);
    assert!(is_well_formed(&merged));
    assert_eq!(
        show(&merged),
        "{a = {x = 1, y = 3, z = 4}, b = [{k = \"w\", l = \"u\"}], c = \"new\"}"
    );
}
