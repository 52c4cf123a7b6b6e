use klirr::transcode::{record_literal, to_typst_let, to_typst_value};
use klirr::value::{keys_are_unique, Number, Value};

fn s(x: &str) -> Value {
    Value::Str(x.to_string())
}

fn uint(n: u64) -> Value {
    Value::Number(Number::PosInt(n))
}

fn float(text: &str) -> Value {
    Value::Number(Number::Float(text.to_string()))
}

fn obj(entries: Vec<(&str, Value)>) -> Value {
    Value::Object(entries.into_iter().map(|(k, v)| (k.to_string(), v)).collect())
}

fn expense(name: &str, price: &str, quantity: &str, currency: &str) -> Value {
    obj(vec![
        ("name", s(name)),
        ("unit_price", float(price)),
        ("quantity", float(quantity)),
        ("currency", s(currency)),
    ])
}

#[test]
fn sample_expenses_to_typst() {
    let input = obj(vec![
        ("invoice_date", s("2025-05-31")),
        (
            "line_items",
            obj(vec![(
                "Expenses",
                Value::Array(vec![
                    expense("Breakfast", "145.0", "1.0", "SEK"),
                    expense("Coffee", "4.0", "2.0", "GBP"),
                ]),
            )]),
        ),
        ("terms", s("Net 30")),
    ]);
    let expected = "#let provide() = {\n  (\n  invoice_date: \"2025-05-31\",\n  line_items: (\n    Expenses: (\n      (\n        name: \"Breakfast\",\n        unit_price: 145.0,\n        quantity: 1.0,\n        currency: \"SEK\",\n      ),\n      (\n        name: \"Coffee\",\n        unit_price: 4.0,\n        quantity: 2.0,\n        currency: \"GBP\",\n      ),\n    ),\n  ),\n  terms: \"Net 30\",\n)\n}\n";
    assert_eq!(to_typst_let(&input), expected);
}

#[test]
fn sample_services_to_typst() {
    let input = obj(vec![
        ("invoice_date", s("2025-05-31")),
        (
            "line_items",
            obj(vec![(
                "Service",
                obj(vec![("days_off", Value::Null), ("days", uint(22))]),
            )]),
        ),
        ("paid", Value::Bool(false)),
    ]);
    let expected = "#let provide() = {\n  (\n  invoice_date: \"2025-05-31\",\n  line_items: (service: (\n      days_off: none,\n      days: 22,\n    )),\n  paid: false,\n)\n}\n";
    assert_eq!(to_typst_let(&input), expected);
}

#[test]
fn transcoding_twice_gives_identical_text() {
    let input = obj(vec![("a", uint(1)), ("b", Value::Array(vec![s("x"), Value::Null]))]);
    assert_eq!(to_typst_value(&input, 0), to_typst_value(&input, 0));
    assert_eq!(to_typst_let(&input), to_typst_let(&input));
}

#[test]
fn fields_keep_insertion_order() {
    let input = obj(vec![("c", uint(1)), ("a", uint(2)), ("b", uint(3))]);
    assert_eq!(to_typst_value(&input, 0), "(\n  c: 1,\n  a: 2,\n  b: 3,\n)");
}

#[test]
fn single_key_number_is_flattened() {
    assert_eq!(to_typst_value(&obj(vec![("Net", uint(30))]), 0), "(net: 30)");
}

#[test]
fn single_key_string_and_object_are_flattened() {
    assert_eq!(to_typst_value(&obj(vec![("PAID", s("yes"))]), 0), "(paid: \"yes\")");
    let nested = obj(vec![("Outer", obj(vec![("Inner", uint(1))]))]);
    assert_eq!(to_typst_value(&nested, 0), "(outer: (inner: 1))");
}

#[test]
fn flattened_payload_is_one_level_deeper() {
    let input = obj(vec![("Net", obj(vec![("a", uint(1)), ("b", uint(2))]))]);
    assert_eq!(to_typst_value(&input, 0), "(net: (\n    a: 1,\n    b: 2,\n  ))");
    assert_eq!(to_typst_value(&input, 1), "(net: (\n      a: 1,\n      b: 2,\n    ))");
}

#[test]
fn single_key_bool_is_not_flattened() {
    assert_eq!(to_typst_value(&obj(vec![("Net", Value::Bool(true))]), 0), "(\n  Net: true,\n)");
}

#[test]
fn single_key_null_and_array_are_not_flattened() {
    assert_eq!(to_typst_value(&obj(vec![("Net", Value::Null)]), 0), "(\n  Net: none,\n)");
    let with_list = obj(vec![("Net", Value::Array(vec![uint(1)]))]);
    assert_eq!(to_typst_value(&with_list, 0), "(\n  Net: (\n    1,\n  ),\n)");
}

#[test]
fn one_element_array_is_a_block() {
    assert_eq!(to_typst_value(&Value::Array(vec![uint(5)]), 0), "(\n  5,\n)");
}

#[test]
fn scalar_literals() {
    assert_eq!(to_typst_value(&Value::Null, 0), "none");
    assert_eq!(to_typst_value(&Value::Bool(true), 0), "true");
    assert_eq!(to_typst_value(&Value::Bool(false), 0), "false");
    assert_eq!(to_typst_value(&uint(3), 0), "3");
    assert_eq!(to_typst_value(&float("3.5"), 0), "3.5");
    assert_eq!(to_typst_value(&uint(0), 0), "0");
    assert_eq!(to_typst_value(&uint(u64::MAX), 0), "18446744073709551615");
    assert_eq!(to_typst_value(&Value::Number(Number::NegInt(-42)), 0), "-42");
    assert_eq!(
        to_typst_value(&Value::Number(Number::NegInt(i64::MIN)), 0),
        "-9223372036854775808"
    );
}

#[test]
fn strings_are_quoted_and_escaped() {
    assert_eq!(to_typst_value(&s("Net 30"), 0), "\"Net 30\"");
    assert_eq!(to_typst_value(&s("a\"b\\c"), 0), "\"a\\\"b\\\\c\"");
    assert_eq!(to_typst_value(&s(""), 0), "\"\"");
}

#[test]
fn empty_collections() {
    assert_eq!(to_typst_value(&Value::Array(vec![]), 0), "()");
    assert_eq!(to_typst_value(&obj(vec![]), 0), "(:)");
}

#[test]
fn nesting_level_sets_the_indentation() {
    let input = Value::Array(vec![uint(1), uint(2)]);
    assert_eq!(to_typst_value(&input, 2), "(\n      1,\n      2,\n    )");
}

#[test]
fn record_literal_joins_label_and_payload() {
    assert_eq!(record_literal("net", "30"), "(net: 30)");
}

#[test]
fn object_keys_must_be_unique() {
    let entries = |keys: &[&str]| -> Vec<(String, Value)> {
        keys.iter().map(|k| (k.to_string(), Value::Null)).collect()
    };
    assert!(keys_are_unique(&entries(&[])));
    assert!(keys_are_unique(&entries(&["a", "b", "c"])));
    assert!(!keys_are_unique(&entries(&["a", "b", "a"])));
    assert!(!keys_are_unique(&entries(&["x", "x"])));
}

#[test]
fn interleaved_renders_stay_apart() {
    let first = obj(vec![("who", s("first"))]);
    let second = obj(vec![("who", s("second")), ("n", uint(2))]);
    let a1 = to_typst_let(&first);
    let b = to_typst_let(&second);
    let a2 = to_typst_let(&first);
    assert_eq!(a1, "#let provide() = {\n  (who: \"first\")\n}\n");
    assert_eq!(b, "#let provide() = {\n  (\n  who: \"second\",\n  n: 2,\n)\n}\n");
    assert_eq!(a1, a2);
}
