use appwrite::params::{serialize_params, ParamField, RenameRule};

fn field(name: &str, rename: Option<&str>, value: Option<String>) -> ParamField {
    ParamField {
        name: name.to_string(),
        rename: rename.map(|r| r.to_string()),
        value,
    }
}

#[test]
fn test_optional_test() {
    let code: Option<u16> = None;
    let fields = vec![
        field("code", None, code.map(|c| c.to_string())),
        field("message", None, Some("OK".to_string())),
        field("error_type", None, Some("".to_string())),
        field("version", None, Some("".to_string())),
    ];
    let expected = vec![
        ("message".to_string(), "OK".to_string()),
        ("error_type".to_string(), "".to_string()),
        ("version".to_string(), "".to_string()),
    ];
    assert_eq!(expected, serialize_params(&fields, None));
}

#[test]
fn test_rename_test() {
    let fields = vec![
        field("code", Some("Code"), Some(200u16.to_string())),
        field("message", Some("Message"), Some("OK".to_string())),
        field("error_type", None, Some("".to_string())),
        field("version", None, Some("".to_string())),
    ];
    let expected = vec![
        ("Code".to_string(), "200".to_string()),
        ("Message".to_string(), "OK".to_string()),
        ("error_type".to_string(), "".to_string()),
        ("version".to_string(), "".to_string()),
    ];
    assert_eq!(expected, serialize_params(&fields, None));
}

#[test]
fn test_rename_all_test() {
    let rule = RenameRule::from_name("camelCase");
    assert_eq!(rule, Some(RenameRule::Camel));
    let fields = vec![
        field("code", None, Some(200u16.to_string())),
        field("message", Some("Message"), Some("OK".to_string())),
        field("error_type", None, Some("".to_string())),
        field("version", Some("apiVersion"), Some("".to_string())),
    ];
    let expected = vec![
        ("code".to_string(), "200".to_string()),
        ("Message".to_string(), "OK".to_string()),
        ("errorType".to_string(), "".to_string()),
        ("apiVersion".to_string(), "".to_string()),
    ];
    assert_eq!(expected, serialize_params(&fields, rule));
}

#[test]
fn test_serialize_test() {
    let fields = vec![
        field("code", None, Some(200u16.to_string())),
        field("message", None, Some("OK".to_string())),
        field("error_type", None, Some("".to_string())),
        field("version", None, Some("".to_string())),
    ];
    let expected = vec![
        ("code".to_string(), "200".to_string()),
        ("message".to_string(), "OK".to_string()),
        ("error_type".to_string(), "".to_string()),
        ("version".to_string(), "".to_string()),
    ];
    assert_eq!(expected, serialize_params(&fields, None));
}

#[test]
fn rename_rules_by_name() {
    assert_eq!(RenameRule::from_name("snake_case"), Some(RenameRule::Snake));
    assert_eq!(RenameRule::from_name("kebab-case"), Some(RenameRule::Kebab));
    assert_eq!(RenameRule::from_name("PascalCase"), Some(RenameRule::Pascal));
    assert_eq!(RenameRule::from_name("SCREAMING_SNAKE_CASE"), Some(RenameRule::ScreamingSnake));
    assert_eq!(RenameRule::from_name("Train-Case"), Some(RenameRule::Train));
    assert_eq!(RenameRule::from_name("lowercase"), None);
}

#[test]
fn rename_all_conventions() {
    let fields = vec![field("error_type", None, Some("x".to_string()))];
    let key = |rule| serialize_params(&fields, Some(rule))[0].0.clone();
    assert_eq!(key(RenameRule::Kebab), "error-type");
    assert_eq!(key(RenameRule::Pascal), "ErrorType");
    assert_eq!(key(RenameRule::ScreamingSnake), "ERROR_TYPE");
    assert_eq!(key(RenameRule::Train), "Error-Type");
    assert_eq!(key(RenameRule::Snake), "error_type");
}

#[test]
fn params_of_empty_struct() {
    let fields: Vec<ParamField> = vec![];
    assert!(serialize_params(&fields, None).is_empty());
}
