use tracing_etw::names::{compare_names, NameOrder};

#[test]
fn names_order_by_bytes() {
    assert_eq!(compare_names("a", "b"), NameOrder::Before);
    assert_eq!(compare_names("b", "a"), NameOrder::After);
    assert_eq!(compare_names("field1", "field1"), NameOrder::Same);
    assert_eq!(compare_names("", ""), NameOrder::Same);
    assert_eq!(compare_names("", "a"), NameOrder::Before);
    assert_eq!(compare_names("field", "field1"), NameOrder::Before);
    assert_eq!(compare_names("field1", "field"), NameOrder::After);
    assert_eq!(compare_names("Z", "a"), NameOrder::Before);
}

#[test]
fn names_order_as_strings_do() {
    let words = ["", "a", "ab", "b", "message", "Body", "é", "z", "日本", "field2", "field10"];
    for x in words {
        for y in words {
            let expected = if x < y {
                NameOrder::Before
            } else if x == y {
                NameOrder::Same
            } else {
                NameOrder::After
            };
            assert_eq!(compare_names(x, y), expected);
        }
    }
}
