use pcli2_mcp::command::{
    build_command, parse_name_list, parse_string_list, push_flag_if, push_opt_number,
    push_opt_string, push_opt_u64, require_folder_uuid_or_path, require_uuid_or_path,
    validate_number_range, validate_int_range, ArgRule,
};
use pcli2_mcp::json::{JsonNumber, JsonValue};
use pcli2_mcp::process::shell_escape_arg;

fn text(s: &str) -> JsonValue {
    JsonValue::Str(s.to_string())
}

fn obj(members: Vec<(&str, JsonValue)>) -> JsonValue {
    JsonValue::Object(members.into_iter().map(|(k, v)| (k.to_string(), v)).collect())
}

fn float(t: &str) -> JsonValue {
    JsonValue::Number(JsonNumber::Float(t.to_string()))
}

fn uint(n: u64) -> JsonValue {
    JsonValue::Number(JsonNumber::PosInt(n))
}

#[test]
fn test_shell_escape_arg() {
    assert_eq!(shell_escape_arg("simple"), "simple");
    assert_eq!(shell_escape_arg(""), "''");
    assert_eq!(shell_escape_arg("with space"), "'with space'");
    assert_eq!(shell_escape_arg("with'quote"), "'with'\"'\"'quote'");
}

#[test]
fn test_push_flag_if() {
    let mut cmd_args = vec![];
    let args = obj(vec![("flag", JsonValue::Bool(true))]);
    push_flag_if(&mut cmd_args, &args, "flag", "--flag");
    assert_eq!(cmd_args, vec!["--flag".to_string()]);
}

#[test]
fn test_push_flag_if_false() {
    let mut cmd_args: Vec<String> = vec![];
    let args = obj(vec![("flag", JsonValue::Bool(false))]);
    push_flag_if(&mut cmd_args, &args, "flag", "--flag");
    let expected: Vec<String> = vec![];
    assert_eq!(cmd_args, expected);
}

#[test]
fn test_push_flag_if_missing() {
    let mut cmd_args: Vec<String> = vec![];
    let args = obj(vec![]);
    push_flag_if(&mut cmd_args, &args, "flag", "--flag");
    let expected: Vec<String> = vec![];
    assert_eq!(cmd_args, expected);
}

#[test]
fn test_push_opt_string_some() {
    let mut cmd_args: Vec<String> = vec![];
    push_opt_string(&mut cmd_args, "--opt", Some("value"));
    assert_eq!(cmd_args, vec!["--opt".to_string(), "value".to_string()]);
}

#[test]
fn test_push_opt_string_none() {
    let mut cmd_args: Vec<String> = vec![];
    push_opt_string(&mut cmd_args, "--opt", None);
    let expected: Vec<String> = vec![];
    assert_eq!(cmd_args, expected);
}

#[test]
fn test_push_opt_f64() {
    let mut cmd_args = vec![];
    let args = obj(vec![("threshold", float("80.5"))]);
    push_opt_number(&mut cmd_args, &args, "threshold", "--threshold");
    assert_eq!(cmd_args, vec!["--threshold".to_string(), "80.5".to_string()]);
}

#[test]
fn test_push_opt_f64_missing() {
    let mut cmd_args: Vec<String> = vec![];
    let args = obj(vec![]);
    push_opt_number(&mut cmd_args, &args, "threshold", "--threshold");
    let expected: Vec<String> = vec![];
    assert_eq!(cmd_args, expected);
}

#[test]
fn test_push_opt_u64() {
    let mut cmd_args = vec![];
    let args = obj(vec![("count", uint(5))]);
    push_opt_u64(&mut cmd_args, &args, "count", "--count");
    assert_eq!(cmd_args, vec!["--count".to_string(), "5".to_string()]);
}

#[test]
fn test_push_opt_u64_missing() {
    let mut cmd_args: Vec<String> = vec![];
    let args = obj(vec![]);
    push_opt_u64(&mut cmd_args, &args, "count", "--count");
    let expected: Vec<String> = vec![];
    assert_eq!(cmd_args, expected);
}

#[test]
fn test_validate_range_f64_valid() {
    let args = obj(vec![("threshold", float("80.5"))]);
    let result = validate_number_range(&args, "threshold", 0, 100);
    assert!(result.is_ok());
}

#[test]
fn test_validate_range_f64_invalid_low() {
    let args = obj(vec![("threshold", float("-1"))]);
    let result = validate_number_range(&args, "threshold", 0, 100);
    assert!(result.is_err());
    assert!(result.unwrap_err().contains("must be between"));
}

#[test]
fn test_validate_range_f64_invalid_high() {
    let args = obj(vec![("threshold", float("101"))]);
    let result = validate_number_range(&args, "threshold", 0, 100);
    assert!(result.is_err());
    assert!(result.unwrap_err().contains("must be between"));
}

#[test]
fn validate_number_range_edges() {
    let at_max = obj(vec![("threshold", float("100"))]);
    assert!(validate_number_range(&at_max, "threshold", 0, 100).is_ok());
    let just_above = obj(vec![("threshold", float("100.01"))]);
    assert_eq!(
        validate_number_range(&just_above, "threshold", 0, 100).unwrap_err(),
        "Invalid argument 'threshold': value 100.01 must be between 0 and 100"
    );
    let negative_zero = obj(vec![("threshold", float("-0"))]);
    assert!(validate_number_range(&negative_zero, "threshold", 0, 100).is_ok());
    let small_negative = obj(vec![("threshold", float("-0.5"))]);
    assert!(validate_number_range(&small_negative, "threshold", 0, 100).is_err());
    let huge = obj(vec![("threshold", float("100000000000000000000000"))]);
    assert!(validate_number_range(&huge, "threshold", 0, 100).is_err());
    let integer = obj(vec![("threshold", uint(101))]);
    assert_eq!(
        validate_number_range(&integer, "threshold", 0, 100).unwrap_err(),
        "Invalid argument 'threshold': value 101 must be between 0 and 100"
    );
    let negative_int = obj(vec![("threshold", JsonValue::Number(JsonNumber::NegInt(-3)))]);
    assert_eq!(
        validate_number_range(&negative_int, "threshold", 0, 100).unwrap_err(),
        "Invalid argument 'threshold': value -3 must be between 0 and 100"
    );
    let not_a_number = obj(vec![("threshold", text("high"))]);
    assert!(validate_number_range(&not_a_number, "threshold", 0, 100).is_ok());
}

#[test]
fn test_validate_int_range_valid() {
    let args = obj(vec![("count", uint(5))]);
    let result = validate_int_range(&args, "count", 1, 10);
    assert!(result.is_ok());
}

#[test]
fn test_validate_int_range_invalid_low() {
    let args = obj(vec![("count", uint(0))]);
    let result = validate_int_range(&args, "count", 1, 10);
    assert!(result.is_err());
    assert!(result.unwrap_err().contains("must be between"));
}

#[test]
fn test_validate_int_range_invalid_high() {
    let args = obj(vec![("count", uint(11))]);
    let result = validate_int_range(&args, "count", 1, 10);
    assert!(result.is_err());
    assert!(result.unwrap_err().contains("must be between"));
}

#[test]
fn validate_int_range_message() {
    let args = obj(vec![("concurrent", uint(11))]);
    assert_eq!(
        validate_int_range(&args, "concurrent", 1, 10).unwrap_err(),
        "Invalid argument 'concurrent': value 11 must be between 1 and 10"
    );
}

#[test]
fn test_require_uuid_or_path_both_none() {
    let args = obj(vec![]);
    let result = require_uuid_or_path(&args);
    assert!(result.is_err());
    assert!(result.unwrap_err().contains("provide either 'uuid' or 'path'"));
}

#[test]
fn test_require_uuid_or_path_uuid_only() {
    let args = obj(vec![("uuid", text("some-uuid"))]);
    let result = require_uuid_or_path(&args);
    assert!(result.is_ok());
    let (uuid, path) = result.unwrap();
    assert_eq!(uuid, Some("some-uuid".to_string()));
    assert_eq!(path, None);
}

#[test]
fn test_require_uuid_or_path_path_only() {
    let args = obj(vec![("path", text("/some/path"))]);
    let result = require_uuid_or_path(&args);
    assert!(result.is_ok());
    let (uuid, path) = result.unwrap();
    assert_eq!(uuid, None);
    assert_eq!(path, Some("/some/path".to_string()));
}

#[test]
fn test_require_folder_uuid_or_path_both_none() {
    let args = obj(vec![]);
    let result = require_folder_uuid_or_path(&args);
    assert!(result.is_err());
    assert!(result.unwrap_err().contains("provide either 'folder_uuid' or 'folder_path'"));
}

#[test]
fn test_require_folder_uuid_or_path_uuid_only() {
    let args = obj(vec![("folder_uuid", text("some-uuid"))]);
    let result = require_folder_uuid_or_path(&args);
    assert!(result.is_ok());
    let (uuid, path) = result.unwrap();
    assert_eq!(uuid, Some("some-uuid".to_string()));
    assert_eq!(path, None);
}

#[test]
fn test_require_folder_uuid_or_path_path_only() {
    let args = obj(vec![("folder_path", text("/some/path"))]);
    let result = require_folder_uuid_or_path(&args);
    assert!(result.is_ok());
    let (uuid, path) = result.unwrap();
    assert_eq!(uuid, None);
    assert_eq!(path, Some("/some/path".to_string()));
}

#[test]
fn test_parse_string_list_array() {
    let args = obj(vec![(
        "names",
        JsonValue::Array(vec![text("item1"), text("item2"), text("item3")]),
    )]);
    let result = parse_string_list(&args, "names");
    assert_eq!(result, vec!["item1", "item2", "item3"]);
}

#[test]
fn test_parse_string_list_single_string() {
    let args = obj(vec![("names", text("single-item"))]);
    let result = parse_string_list(&args, "names");
    assert_eq!(result, vec!["single-item"]);
}

#[test]
fn test_parse_string_list_empty() {
    let args = obj(vec![]);
    let result = parse_string_list(&args, "names");
    let expected: Vec<String> = vec![];
    assert_eq!(result, expected);
}

#[test]
fn parse_string_list_skips_non_strings() {
    let args = obj(vec![("names", JsonValue::Array(vec![text("a"), uint(3), text("b")]))]);
    assert_eq!(parse_string_list(&args, "names"), vec!["a", "b"]);
}

#[test]
fn parse_name_list_splits_and_trims() {
    let args = obj(vec![("name", text(" Color , ,Weight,\u{3000}Size\t"))]);
    assert_eq!(parse_name_list(&args, "name"), vec!["Color", "Weight", "Size"]);
    let list = obj(vec![(
        "name",
        JsonValue::Array(vec![text("a,b"), JsonValue::Null, text(" c ")]),
    )]);
    assert_eq!(parse_name_list(&list, "name"), vec!["a", "b", "c"]);
    let blank = obj(vec![("name", text(" , "))]);
    assert!(parse_name_list(&blank, "name").is_empty());
}

#[test]
fn later_member_wins() {
    let args = obj(vec![("format", text("csv")), ("format", text("json"))]);
    let mut cmd_args = vec![];
    push_opt_string(&mut cmd_args, "-f", args.get("format").and_then(|v| v.as_str()));
    assert_eq!(cmd_args, vec!["-f", "json"]);
}

#[test]
fn build_command_in_rule_order() {
    let rules = vec![
        ArgRule::IntRange { key: "concurrent", min: 1, max: 10 },
        ArgRule::Word("folder"),
        ArgRule::OptString { key: "tenant", flag: "-t" },
        ArgRule::EachOf { key: "folder_path", flag: "--folder-path", missing: "no paths" },
        ArgRule::OptU64 { key: "concurrent", flag: "--concurrent" },
        ArgRule::Flag { key: "progress", flag: "--progress" },
    ];
    let args = obj(vec![
        ("tenant", text("acme")),
        ("folder_path", JsonValue::Array(vec![text("/A"), text("/B")])),
        ("concurrent", uint(4)),
        ("progress", JsonValue::Bool(true)),
    ]);
    assert_eq!(
        build_command(&rules, &args).unwrap(),
        vec!["folder", "-t", "acme", "--folder-path", "/A", "--folder-path", "/B", "--concurrent", "4", "--progress"]
    );
    let no_paths = obj(vec![("tenant", text("acme"))]);
    assert_eq!(build_command(&rules, &no_paths).unwrap_err(), "no paths");
    let both_bad = obj(vec![("concurrent", uint(0))]);
    assert_eq!(
        build_command(&rules, &both_bad).unwrap_err(),
        "Invalid argument 'concurrent': value 0 must be between 1 and 10"
    );
}

#[test]
fn required_with_fallback() {
    let rules = vec![ArgRule::Required {
        key: "tenant_name",
        fallback: Some("name"),
        flag: "--name",
        missing: "missing",
    }];
    let first = obj(vec![("name", text("b")), ("tenant_name", text("a"))]);
    assert_eq!(build_command(&rules, &first).unwrap(), vec!["--name", "a"]);
    let second = obj(vec![("name", text("b"))]);
    assert_eq!(build_command(&rules, &second).unwrap(), vec!["--name", "b"]);
    assert_eq!(build_command(&rules, &obj(vec![])).unwrap_err(), "missing");
}

#[test]
fn validate_int_range_rejects_negative() {
    let args = obj(vec![("concurrent", JsonValue::Number(JsonNumber::NegInt(-1)))]);
    assert_eq!(
        validate_int_range(&args, "concurrent", 1, 10).unwrap_err(),
        "Invalid argument 'concurrent': value -1 must be between 1 and 10"
    );
    let fractional = obj(vec![("concurrent", float("2.5"))]);
    assert!(validate_int_range(&fractional, "concurrent", 1, 10).is_ok());
}
