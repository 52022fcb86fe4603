use firebase_crud::{
    clear_console_code, read_json, response_from_json, stored_user_from_json, string_to_response,
    string_to_stored_user, string_to_user, string_to_users, user_from_json, users_from_json,
    DecodeError, Json, User, MAX_DEPTH, USERS_PATH,
};

fn assert_user(u: &User, name: &str, age: u32, email: &str) {
    assert_eq!(u.name, name);
    assert_eq!(u.age, age);
    assert_eq!(u.email, email);
}

fn stored(text: &str) -> Result<Option<User>, DecodeError> {
    string_to_stored_user(text)
}

fn users(text: &str) -> Result<Vec<(String, User)>, DecodeError> {
    string_to_users(text)
}

#[test]
fn create_read_update_delete_scenario() {
    let created = string_to_response(r#"{"name":"-NxKey01"}"#).unwrap();
    assert_eq!(created.name, "-NxKey01");

    let read = stored(r#"{"age":18,"email":"email@doUsuario.com","name":"nome do usuario"}"#)
        .unwrap()
        .unwrap();
    assert_user(&read, "nome do usuario", 18, "email@doUsuario.com");

    let updated = string_to_user(
        r#"{"age":18,"email":"updated.mail@gmail.com","name":"nome do usuario"}"#,
    )
    .unwrap();
    assert_user(&updated, "nome do usuario", 18, "updated.mail@gmail.com");

    assert!(stored("null").unwrap().is_none());
}

#[test]
fn created_user_is_listed_under_its_key() {
    let all = users(
        r#"{"-A":{"age":30,"email":"a@x.com","name":"Ana"},
            "-NxKey01":{"age":18,"email":"email@doUsuario.com","name":"nome do usuario"}}"#,
    )
    .unwrap();
    assert_eq!(all.len(), 2);
    let found = all.iter().find(|(k, _)| k == "-NxKey01").unwrap();
    assert_user(&found.1, "nome do usuario", 18, "email@doUsuario.com");
    let other = all.iter().find(|(k, _)| k == "-A").unwrap();
    assert_user(&other.1, "Ana", 30, "a@x.com");
}

#[test]
fn empty_collection_reads_as_no_users() {
    assert_eq!(users("null").unwrap().len(), 0);
    assert_eq!(users("{}").unwrap().len(), 0);
}

#[test]
fn collection_with_a_bad_entry_is_refused() {
    let r = users(r#"{"-A":{"age":30,"email":"a@x.com","name":"Ana"},"-B":{"name":"Bia"}}"#);
    assert_eq!(r.unwrap_err(), DecodeError::Shape);
    assert_eq!(users("[]").unwrap_err(), DecodeError::Shape);
    assert_eq!(users("7").unwrap_err(), DecodeError::Shape);
}

#[test]
fn deleted_record_reads_as_absent() {
    assert!(stored("null").unwrap().is_none());
    assert!(stored_user_from_json(&Json::Null).unwrap().is_none());
}

#[test]
fn malformed_text_is_a_syntax_error() {
    assert_eq!(string_to_user(r#"{"name":"#).unwrap_err(), DecodeError::Syntax);
    assert_eq!(string_to_user("").unwrap_err(), DecodeError::Syntax);
    assert_eq!(string_to_response("{name: 1}").unwrap_err(), DecodeError::Syntax);
    assert_eq!(read_json("[1,2").err(), Some(DecodeError::Syntax));
}

#[test]
fn wrong_shapes_are_refused() {
    let cases = [
        r#"{"name":"a","age":"18","email":"e"}"#,
        r#"{"name":"a","age":-1,"email":"e"}"#,
        r#"{"name":"a","age":18.5,"email":"e"}"#,
        r#"{"name":"a","age":4294967296,"email":"e"}"#,
        r#"{"name":"a","email":"e"}"#,
        r#"{"name":1,"age":18,"email":"e"}"#,
        r#"["a",18]"#,
        r#"["a",18,"e","f"]"#,
        r#""a""#,
        "null",
    ];
    for c in cases {
        assert_eq!(string_to_user(c).unwrap_err(), DecodeError::Shape, "{}", c);
    }
}

#[test]
fn user_edge_values() {
    let u = string_to_user(r#"{"name":"","age":4294967295,"email":"","extra":[1,{"x":null}]}"#)
        .unwrap();
    assert_user(&u, "", 4294967295, "");
    let u = string_to_user(r#"{"name":"b","age":0,"email":"c"}"#).unwrap();
    assert_user(&u, "b", 0, "c");
}

#[test]
fn user_from_array_form() {
    let u = string_to_user(r#"["Zé",7,"z@e.com"]"#).unwrap();
    assert_user(&u, "Zé", 7, "z@e.com");
}

#[test]
fn escaped_strings_are_unescaped() {
    let u = string_to_user(r#"{"name":"a\"bé","age":1,"email":"x\\y"}"#).unwrap();
    assert_user(&u, "a\"bé", 1, "x\\y");
}

#[test]
fn response_forms() {
    assert_eq!(string_to_response(r#"{"name":"-K"}"#).unwrap().name, "-K");
    assert_eq!(string_to_response(r#"["-K"]"#).unwrap().name, "-K");
    assert_eq!(string_to_response(r#"{"key":"-K"}"#).unwrap_err(), DecodeError::Shape);
    assert_eq!(string_to_response(r#"{"name":3}"#).unwrap_err(), DecodeError::Shape);
    assert_eq!(string_to_response("null").unwrap_err(), DecodeError::Shape);
}

#[test]
fn response_from_plain_document() {
    let j = Json::Object(vec![
        ("other".to_string(), Json::Bool(true)),
        ("name".to_string(), Json::Str("-P".to_string())),
    ]);
    assert_eq!(response_from_json(&j).unwrap().name, "-P");
}

#[test]
fn first_entry_under_a_key_counts() {
    let j = Json::Object(vec![
        ("name".to_string(), Json::Str("first".to_string())),
        ("age".to_string(), Json::Number(Some(5))),
        ("email".to_string(), Json::Str("e".to_string())),
        ("name".to_string(), Json::Str("second".to_string())),
    ]);
    assert_user(&user_from_json(&j).unwrap(), "first", 5, "e");
    let big = Json::Object(vec![
        ("name".to_string(), Json::Str("n".to_string())),
        ("age".to_string(), Json::Number(None)),
        ("email".to_string(), Json::Str("e".to_string())),
    ]);
    assert_eq!(user_from_json(&big).unwrap_err(), DecodeError::Shape);
}

#[test]
fn numbers_keep_their_integer_value() {
    match read_json("[18, 18.0, -3, 18446744073709551615, 1e20, 100e0, 18446744073709551616]")
        .unwrap()
    {
        Json::Array(items) => {
            assert_eq!(items.len(), 7);
            assert!(matches!(items[4], Json::Number(None)));
            assert!(matches!(items[5], Json::Number(None)));
            assert!(matches!(items[6], Json::Number(None)));
            assert!(matches!(items[0], Json::Number(Some(18))));
            assert!(matches!(items[1], Json::Number(None)));
            assert!(matches!(items[2], Json::Number(None)));
            assert!(matches!(items[3], Json::Number(Some(18446744073709551615))));
        }
        _ => panic!("not an array"),
    }
}

#[test]
fn deep_nesting() {
    let ok = format!("{}{}", "[".repeat(MAX_DEPTH), "]".repeat(MAX_DEPTH));
    assert!(read_json(&ok).is_ok());
    let one_more = format!("{}{}", "[".repeat(MAX_DEPTH + 1), "]".repeat(MAX_DEPTH + 1));
    assert_eq!(read_json(&one_more).err(), Some(DecodeError::Syntax));
    let too_deep = format!("{}{}", "[".repeat(200), "]".repeat(200));
    assert_eq!(read_json(&too_deep).err(), Some(DecodeError::Syntax));
}

#[test]
fn console_code_and_path() {
    assert_eq!(clear_console_code(), "\u{1b}c");
    assert_eq!(USERS_PATH, "users");
}

#[test]
fn read_json_gives_the_whole_document() {
    let j = read_json(r#"{"a":[1,{"b":"c"}],"d":null}"#).unwrap();
    match j {
        Json::Object(f) => {
            assert_eq!(f.len(), 2);
            assert_eq!(f[0].0, "a");
            match &f[0].1 {
                Json::Array(items) => {
                    assert_eq!(items.len(), 2);
                    assert!(matches!(items[0], Json::Number(Some(1))));
                    match &items[1] {
                        Json::Object(g) => {
                            assert_eq!(g[0].0, "b");
                            assert!(matches!(&g[0].1, Json::Str(s) if s == "c"));
                        }
                        _ => panic!("not an object"),
                    }
                }
                _ => panic!("not an array"),
            }
            assert_eq!(f[1].0, "d");
            assert!(matches!(f[1].1, Json::Null));
        }
        _ => panic!("not an object"),
    }
}

#[test]
fn text_level_reads_agree_with_document_reads() {
    let text = r#"{"-K":{"age":2,"email":"e","name":"n"}}"#;
    let j = read_json(text).unwrap();
    let a = users_from_json(&j).unwrap();
    let b = string_to_users(text).unwrap();
    assert_eq!(a.len(), 1);
    assert_eq!(b.len(), 1);
    assert_eq!(a[0].0, b[0].0);
    assert_user(&b[0].1, "n", 2, "e");
    assert_eq!(string_to_stored_user("{").unwrap_err(), DecodeError::Syntax);
    assert_eq!(string_to_stored_user("[]").unwrap_err(), DecodeError::Shape);
    assert_eq!(string_to_users("nul").unwrap_err(), DecodeError::Syntax);
    assert!(stored_user_from_json(&Json::Bool(true)).is_err());
}
