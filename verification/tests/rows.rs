use clickhouse_readback::rows::{
    decode_rows, decode_single_row, keep_row, present_rows, split_lines, strict_row, ShapeMismatch,
};
use serde_json::Value;

fn text_of(row: &Value, field: &str) -> String {
    row.get(field).and_then(Value::as_str).unwrap().to_string()
}

#[test]
fn single_row_of_empty_reply_is_absent() {
    assert!(decode_single_row("").is_none());
}

#[test]
fn single_row_is_decoded() {
    let row = decode_single_row("{\"id\":\"u1\",\"n\":3,\"ok\":true,\"none\":null}").unwrap();
    assert_eq!(text_of(&row, "id"), "u1");
    assert_eq!(row.get("n").and_then(Value::as_u64), Some(3));
    assert_eq!(row.get("ok").and_then(Value::as_bool), Some(true));
    assert!(row.get("none").unwrap().is_null());
    assert_eq!(row.as_object().unwrap().len(), 4);
}

#[test]
fn single_row_may_end_with_its_line_feed() {
    let row = decode_single_row("{\"id\":\"u1\"}\n").unwrap();
    assert_eq!(text_of(&row, "id"), "u1");
}

#[test]
fn single_row_is_the_value_that_the_text_denotes() {
    let text = "{\"id\":\"u1\",\"tags\":{\"a\":[1,2,{\"b\":\"c\"}]}}";
    assert_eq!(decode_single_row(text), serde_json::from_str::<Value>(text).ok());
}

#[test]
fn single_row_that_cannot_be_read_is_absent() {
    for text in ["{", "{\"id\":}", "not json", "{\"id\":\"u1\"} trailing", " ", "\n"] {
        assert!(decode_single_row(text).is_none(), "{text:?}");
    }
}

#[test]
fn two_rows_are_no_single_row() {
    assert!(decode_single_row("{\"id\":\"u1\"}\n{\"id\":\"u1\"}\n").is_none());
}

#[test]
fn lines_are_split_at_line_feeds() {
    assert_eq!(split_lines("a\nb\nc"), vec!["a", "b", "c"]);
}

#[test]
fn last_line_feed_opens_no_line() {
    assert_eq!(split_lines("a\nb\n"), vec!["a", "b"]);
}

#[test]
fn empty_text_has_no_lines() {
    assert!(split_lines("").is_empty());
}

#[test]
fn empty_lines_are_lines() {
    assert_eq!(split_lines("\n\na\n\n"), vec!["", "", "a", ""]);
}

#[test]
fn carriage_return_before_a_line_feed_belongs_to_the_end() {
    assert_eq!(split_lines("a\r\nb\r\n"), vec!["a", "b"]);
}

#[test]
fn only_one_carriage_return_belongs_to_the_end() {
    assert_eq!(split_lines("a\r\r\nb"), vec!["a\r", "b"]);
}

#[test]
fn carriage_return_elsewhere_stays() {
    assert_eq!(split_lines("a\rb\nc\r"), vec!["a\rb", "c\r"]);
}

#[test]
fn lines_are_those_of_the_standard_library() {
    let texts = [
        "",
        "\n",
        "\r",
        "\r\n",
        "\n\r",
        "a",
        "a\n",
        "a\r\n",
        "a\r",
        "\r\r\n\r",
        "one\ntwo\r\nthree\rfour\n\nfive",
        "{\"a\":1}\n{\"b\":\"x\\ny\"}\n",
        "caf\u{e9}\n\u{1f600}\r\n",
    ];
    for text in texts {
        let expected: Vec<String> = text.lines().map(str::to_string).collect();
        assert_eq!(split_lines(text), expected, "{text:?}");
    }
}

#[test]
fn rows_are_decoded_line_by_line() {
    let rows = decode_rows("{\"n\":1}\n{\"n\":2}\n{\"n\":3}\n").unwrap();
    assert_eq!(rows.len(), 3);
    for (i, row) in rows.iter().enumerate() {
        assert_eq!(row.get("n").and_then(Value::as_u64), Some(i as u64 + 1));
    }
}

#[test]
fn rows_of_empty_reply_are_absent() {
    assert!(decode_rows("").is_none());
}

#[test]
fn line_that_cannot_be_read_is_passed_over() {
    let rows = decode_rows("{\"n\":1}\n{\"n\":\n{\"n\":3}\nstray\n").unwrap();
    assert_eq!(rows.len(), 2);
    assert_eq!(rows[0].get("n").and_then(Value::as_u64), Some(1));
    assert_eq!(rows[1].get("n").and_then(Value::as_u64), Some(3));
}

#[test]
fn rows_without_one_that_can_be_read_are_absent() {
    assert!(decode_rows("stray\n{\n\n").is_none());
    assert!(decode_rows("\n").is_none());
}

#[test]
fn rows_are_what_the_standard_chain_gives() {
    let texts = ["{\"n\":1}\r\n[1,2]\n\"s\"\n3\nnull\n", "x\n{}\ny", "{\"a\":{\"b\":[]}}"];
    for text in texts {
        let expected: Vec<Value> =
            text.lines().filter_map(|line| serde_json::from_str(line).ok()).collect();
        assert_eq!(decode_rows(text), Some(expected), "{text:?}");
    }
}

#[test]
fn one_row_on_one_line_is_a_list_of_one() {
    let rows = decode_rows("{\"n\":1}").unwrap();
    assert_eq!(rows.len(), 1);
}

#[test]
fn parsed_line_with_a_row_is_kept() {
    let mut rows = vec![1, 2];
    keep_row(&mut rows, Some(3));
    assert_eq!(rows, vec![1, 2, 3]);
}

#[test]
fn parsed_line_without_a_row_adds_nothing() {
    let mut rows = vec![1, 2];
    keep_row(&mut rows, None);
    assert_eq!(rows, vec![1, 2]);
}

#[test]
fn no_rows_are_absent_not_an_empty_list() {
    assert_eq!(present_rows(Vec::<u8>::new()), None);
    assert_eq!(present_rows(vec![7u8]), Some(vec![7u8]));
    assert_eq!(present_rows(vec![7u8, 8, 9]), Some(vec![7u8, 8, 9]));
}

#[test]
fn strict_row_of_empty_reply_is_absent() {
    assert_eq!(strict_row::<u8>("", None), Ok(None));
    assert_eq!(strict_row("", Some(1u8)), Ok(None));
}

#[test]
fn strict_row_with_the_shape_is_the_record() {
    assert_eq!(strict_row("{\"n\":1}", Some(1u8)), Ok(Some(1u8)));
}

#[test]
fn strict_row_without_the_shape_is_an_error() {
    assert_eq!(strict_row::<u8>("{\"n\":\"one\"}", None), Err(ShapeMismatch {}));
    assert_eq!(strict_row::<u8>(" ", None), Err(ShapeMismatch {}));
}
