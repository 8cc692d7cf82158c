use ruroonga_client::{JsonValue, ResultParser};

fn arr(items: Vec<JsonValue>) -> JsonValue {
    JsonValue::Array(items)
}

fn text(s: &str) -> JsonValue {
    JsonValue::String(s.to_string())
}

fn float(x: f64) -> JsonValue {
    JsonValue::Float(x.to_bits())
}

fn record(id: i64, key: &str, title: &str) -> JsonValue {
    arr(vec![JsonValue::Integer(id), text(key), text(title)])
}

fn columns() -> JsonValue {
    arr(vec![
        arr(vec![text("_id"), text("UInt32")]),
        arr(vec![text("_key"), text("ShortText")]),
        arr(vec![text("title"), text("ShortText")]),
    ])
}

// [[0,1452348610.39281,0.000101566314697266],
//  [[[9],[["_id","UInt32"],["_key","ShortText"],["title","ShortText"]],
//    [1,"http://example.org/","This is test record 1!"], ... 9 records]]]
fn select_response() -> JsonValue {
    let mut payload = vec![arr(vec![JsonValue::Integer(9)]), columns()];
    payload.push(record(1, "http://example.org/", "This is test record 1!"));
    payload.push(record(2, "http://example.net/", "test record 2."));
    payload.push(record(3, "http://example.com/", "test test record three."));
    payload.push(record(4, "http://example.net/afr", "test record four."));
    payload.push(record(5, "http://example.org/aba", "test test test record five."));
    payload.push(record(6, "http://example.com/rab", "test test test test record six."));
    payload.push(record(7, "http://example.net/atv", "test test test record seven."));
    payload.push(record(8, "http://example.org/gat", "test test record eight."));
    payload.push(record(9, "http://example.com/vdw", "test test record nine."));
    arr(vec![
        arr(vec![JsonValue::Integer(0), float(1452348610.39281), float(0.000101566314697266)]),
        arr(vec![arr(payload)]),
    ])
}

// [[0,1452348610.39281,0.0001015],
//  [[[9],[["_id","UInt32"],["_key","ShortText"],["title","ShortText"]],
//    [1,"http://example.org/","This is test record 1!"]]]]
fn short_select_response() -> JsonValue {
    arr(vec![
        arr(vec![JsonValue::Integer(0), float(1452348610.39281), float(0.0001015)]),
        arr(vec![arr(vec![
            arr(vec![JsonValue::Integer(9)]),
            columns(),
            record(1, "http://example.org/", "This is test record 1!"),
        ])]),
    ])
}

fn error_response(status: i64) -> JsonValue {
    arr(vec![
        arr(vec![JsonValue::Integer(status), float(1452348610.5), float(0.25), text("syntax error")]),
        arr(vec![]),
    ])
}

#[test]
fn parse_result() {
    let decode = ResultParser::new(select_response());
    assert_eq!(0, decode.status().unwrap());
    assert_eq!(1452348610.39281, f64::from_bits(decode.start_time().unwrap()));
    assert_eq!(0.000101566314697266, f64::from_bits(decode.elapsed_time().unwrap()));
    assert_eq!(9, decode.matched_columns().unwrap());
    let vec = decode.result().unwrap().pop().unwrap().as_array().unwrap();
    let expected = r#"Array([Integer(1), String("http://example.org/"), String("This is test record 1!")])"#.to_owned();
    assert_eq!(expected, format!("{:?}", vec[2]))
}

#[test]
fn literal_success_payload() {
    let decode = ResultParser::new(short_select_response());
    assert_eq!(Some(0), decode.status());
    assert_eq!(1452348610.39281, f64::from_bits(decode.start_time().unwrap()));
    assert_eq!(0.0001015, f64::from_bits(decode.elapsed_time().unwrap()));
    assert_eq!(Some(9), decode.matched_columns());
    let rows = decode.result().unwrap();
    assert_eq!(1, rows.len());
    let row = rows[0].get(2).unwrap();
    assert_eq!(&record(1, "http://example.org/", "This is test record 1!"), row);
}

#[test]
fn in_progress_status_raises_no_error() {
    let root = arr(vec![
        arr(vec![JsonValue::Integer(1), float(1.5), float(0.5)]),
        arr(vec![]),
    ]);
    let decode = ResultParser::new(root);
    assert_eq!(Some(1), decode.status());
    assert_eq!(None, decode.matched_columns());
    let rows = decode.result().unwrap();
    assert_eq!(vec![&JsonValue::Null], rows);
    assert!(decode.into_row().columns().is_none());
}

#[test]
fn in_progress_rows_are_a_one_element_sequence() {
    // [[1,1452348610.39281,0.0001015],[]]
    let root = arr(vec![
        arr(vec![JsonValue::Integer(1), float(1452348610.39281), float(0.0001015)]),
        arr(vec![]),
    ]);
    let decode = ResultParser::new(root);
    let rows = decode.result().unwrap();
    assert_eq!(1, rows.len());
    assert_eq!(&JsonValue::Null, rows[0]);
}

#[test]
fn error_status_without_message_still_yields_a_sequence() {
    let root = arr(vec![arr(vec![JsonValue::Integer(-22)])]);
    let decode = ResultParser::new(root);
    assert_eq!(Some(vec![&JsonValue::Null]), decode.result());
}

#[test]
fn success_without_payload_has_no_rows() {
    let root = arr(vec![arr(vec![JsonValue::Integer(0), float(1.0), float(2.0)]), arr(vec![])]);
    let decode = ResultParser::new(root);
    assert!(decode.result().is_none());
}

#[test]
fn error_status_rows_hold_the_error_payload() {
    let decode = ResultParser::new(error_response(-22));
    assert_eq!(Some(-22), decode.status());
    assert_eq!(None, decode.matched_columns());
    let rows = decode.result().unwrap();
    assert_eq!(1, rows.len());
    assert_eq!(&text("syntax error"), rows[0]);
}

#[test]
fn in_progress_status_with_message_yields_it() {
    let decode = ResultParser::new(error_response(1));
    let rows = decode.result().unwrap();
    assert_eq!(vec![&text("syntax error")], rows);
}

#[test]
fn decoding_twice_gives_the_same_answers() {
    let first = ResultParser::new(short_select_response());
    let second = ResultParser::new(short_select_response());
    assert_eq!(first.status(), second.status());
    assert_eq!(first.start_time(), second.start_time());
    assert_eq!(first.elapsed_time(), second.elapsed_time());
    assert_eq!(first.matched_columns(), second.matched_columns());
    assert_eq!(first.result(), second.result());
    assert_eq!(first.get_header(), second.get_header());
    assert_eq!(first.get_raw_object(), second.get_raw_object());
    assert_eq!(first.status(), first.status());
    assert_eq!(first.result(), first.result());
}

#[test]
fn columns_are_the_column_metadata() {
    let decode = ResultParser::new(short_select_response());
    let rows = decode.into_row();
    let cols = rows.columns().unwrap();
    let expected = match columns() {
        JsonValue::Array(items) => items,
        _ => unreachable!(),
    };
    assert_eq!(&expected, cols);
}

#[test]
fn error_rows_have_no_columns() {
    let decode = ResultParser::new(error_response(-63));
    assert!(decode.into_row().columns().is_none());
}

#[test]
fn malformed_root_gives_none_everywhere() {
    for root in [JsonValue::Null, arr(vec![]), arr(vec![text("x")]), JsonValue::Integer(3)] {
        let decode = ResultParser::new(root);
        assert_eq!(None, decode.status());
        assert_eq!(None, decode.start_time());
        assert_eq!(None, decode.matched_columns());
        assert!(decode.result().is_none());
    }
}

#[test]
fn integral_times_are_not_floats() {
    let root = arr(vec![arr(vec![JsonValue::Integer(0), JsonValue::Integer(5), float(0.5)])]);
    let decode = ResultParser::new(root);
    assert_eq!(None, decode.start_time());
    assert_eq!(Some(0.5f64.to_bits()), decode.elapsed_time());
    assert_eq!(None, decode.matched_columns());
}

#[test]
fn header_is_first_element() {
    let decode = ResultParser::new(error_response(-22));
    let header = decode.get_header().unwrap();
    assert_eq!(Some(&text("syntax error")), header.get(3));
}
