use ezcurl::fields::FieldStore;
use ezcurl::request::{build_args, build_payload, failure_message, interpret_output, join_fields, Method};

fn store_of(entries: &[(&str, &str)]) -> FieldStore {
    let mut store = FieldStore::new();
    for (i, (key, value)) in entries.iter().enumerate() {
        store.add(false);
        store.update(i, Some(key.to_string()), Some(value.to_string()));
    }
    store
}

#[test]
fn method_flags_are_exact() {
    assert_eq!(Method::Get.flag(), "GET");
    assert_eq!(Method::Post.flag(), "POST");
}

#[test]
fn method_defaults_to_get() {
    assert_eq!(Method::default(), Method::Get);
}

#[test]
fn join_of_empty_store_is_empty() {
    assert_eq!(join_fields(&FieldStore::new()), "");
}

#[test]
fn join_uses_colon_and_newline() {
    let store = store_of(&[("a", "b"), ("c", "d")]);
    assert_eq!(join_fields(&store), "a:b\nc:d");
}

#[test]
fn payload_of_empty_store_is_absent() {
    assert_eq!(build_payload(&FieldStore::new()), None);
}

#[test]
fn payload_is_a_json_string_not_an_object() {
    let store = store_of(&[("a", "b")]);
    assert_eq!(build_payload(&store), Some("\"a:b\"".to_string()));
}

#[test]
fn payload_escapes_the_joined_text() {
    let store = store_of(&[("a", "b"), ("c", "d")]);
    assert_eq!(build_payload(&store), Some("\"a:b\\nc:d\"".to_string()));
    let quoted = store_of(&[("a\"x", "b\\y")]);
    assert_eq!(build_payload(&quoted), Some("\"a\\\"x:b\\\\y\"".to_string()));
}

#[test]
fn args_with_no_fields_carry_no_header_or_data_flag() {
    let args = build_args(Method::Get, "http://localhost:8080", &FieldStore::new());
    assert_eq!(
        args,
        vec![
            "-X".to_string(),
            "GET".to_string(),
            "".to_string(),
            "".to_string(),
            "http://localhost:8080".to_string(),
        ]
    );
}

#[test]
fn args_with_fields_carry_header_and_data() {
    let store = store_of(&[("a", "b")]);
    let args = build_args(Method::Post, "http://example.test", &store);
    assert_eq!(
        args,
        vec![
            "-X".to_string(),
            "POST".to_string(),
            "-H Content-Type: application/json".to_string(),
            "-d \"a:b\"".to_string(),
            "http://example.test".to_string(),
        ]
    );
}

#[test]
fn args_select_the_method_flag_exactly() {
    let get_args = build_args(Method::Get, "u", &FieldStore::new());
    let post_args = build_args(Method::Post, "u", &FieldStore::new());
    assert_eq!(get_args[1], "GET");
    assert_eq!(post_args[1], "POST");
}

#[test]
fn captured_bytes_come_back_verbatim() {
    let out = interpret_output(Some(b"pong".to_vec()));
    assert_eq!(out, "pong");
}

#[test]
fn captured_bytes_keep_whitespace() {
    let out = interpret_output(Some(b" pong \n".to_vec()));
    assert_eq!(out, " pong \n");
}

#[test]
fn invalid_bytes_are_replaced_not_fatal() {
    let out = interpret_output(Some(vec![0xff, b'p']));
    assert_eq!(out, "\u{fffd}p");
}

#[test]
fn spawn_failure_yields_the_fixed_message() {
    let out = interpret_output(None);
    assert_eq!(out, "Something went wrong while executing curl");
    assert_eq!(failure_message(), "Something went wrong while executing curl");
}
