use weaver::curl::{parse_curl, split_string, ImportError};
use weaver::request::{FormParamType, Method, ParamType};

#[test]
fn test() {
    let str = r#"curl 'http://localhost/login' \
  -X POST
  -H 'Accept: application/json, text/plain, */*' \
  -H 'Accept-Language: zh-CN,zh;q=0.9,en;q=0.8' \
  -H 'Connection: keep-alive' \
  -H 'Content-Type: application/json;charset=UTF-8' \
  -H 'Cookie: username=admin; rememberMe=true; sidebarStatus=1;' \
  -H 'Origin: http://localhost' \
  -H 'Referer: http://localhost/login' \
  -H 'Token: ' \
  -H 'User-Agent: Mozilla/5.0 (Windows NT 10.0; Win64; x64) AppleWebKit/537.36 (KHTML, like Gecko) Chrome/100.0.4896.127 Safari/537.36' \
  --data-raw '{"username":"admin","password":"admin"}' \
  --compressed \
  --insecure"#;
    assert!(parse_curl(str).is_ok());
}

#[test]
fn test_split_string() {
    let regex = ":";
    let first_str = ":test";
    let last_str = "test:";
    let middle_str = "test:test";
    let multiple_regex = "test:test::";

    assert_eq!(
        split_string(regex, first_str),
        ("".to_string(), "test".to_string())
    );
    assert_eq!(
        split_string(regex, last_str),
        ("test".to_string(), "".to_string())
    );
    assert_eq!(
        split_string(regex, middle_str),
        ("test".to_string(), "test".to_string())
    );
    assert_eq!(
        split_string(regex, multiple_regex),
        ("test".to_string(), "test::".to_string())
    )
}

#[test]
fn split_string_without_separator() {
    assert_eq!(
        split_string(":", "no separator here"),
        ("no separator here".to_string(), "".to_string())
    );
}

#[test]
fn header_split_is_first_colon_only() {
    assert_eq!(
        split_string(":", "X-Custom: a:b:c"),
        ("X-Custom".to_string(), " a:b:c".to_string())
    );
}

#[test]
fn importer_happy_path() {
    let http = parse_curl(
        r#"curl 'http://h/login' -X POST -H 'Content-Type: application/json' -d '{"a":1}'"#,
    )
    .unwrap();
    assert_eq!(http.method, Method::Post);
    assert_eq!(http.url, "http://h/login");
    assert_eq!(http.param_type, ParamType::Json);
    assert_eq!(http.text_param, "{\"a\":1}");
    assert_eq!(
        http.header,
        vec![("Content-Type".to_string(), " application/json".to_string())]
    );
    assert_eq!(http.id.chars().count(), 7);
    assert_eq!(http.name, "New http request");
}

#[test]
fn importer_missing_url() {
    assert_eq!(
        parse_curl("-X POST -d 'x'").unwrap_err(),
        ImportError::MissingUrl
    );
}

#[test]
fn importer_empty_input() {
    assert_eq!(parse_curl("").unwrap_err(), ImportError::EmptyCommand);
}

#[test]
fn importer_mismatched_quotes() {
    assert_eq!(
        parse_curl("curl -H 'unterminated").unwrap_err(),
        ImportError::Malformed
    );
}

#[test]
fn importer_unknown_method() {
    assert_eq!(
        parse_curl("curl http://h -X TELEPORT").unwrap_err(),
        ImportError::UnknownMethod
    );
}

#[test]
fn importer_method_is_uppercased() {
    let http = parse_curl("curl http://h -X post").unwrap();
    assert_eq!(http.method, Method::Post);
}

#[test]
fn importer_form_file_detection() {
    let http =
        parse_curl("curl http://h -F 'file=@report.pdf;type=application/pdf'").unwrap();
    assert_eq!(
        http.form_param,
        vec![(
            "file".to_string(),
            "".to_string(),
            Some("report.pdf".to_string()),
            FormParamType::File
        )]
    );
}

#[test]
fn importer_form_text_entry() {
    let http = parse_curl("curl http://h -F name=value").unwrap();
    assert_eq!(
        http.form_param,
        vec![(
            "name".to_string(),
            "value".to_string(),
            None,
            FormParamType::Text
        )]
    );
}

#[test]
fn importer_last_url_and_data_win() {
    let http = parse_curl("curl http://a http://b -d one -d two").unwrap();
    assert_eq!(http.url, "http://b");
    assert_eq!(http.text_param, "two");
}

#[test]
fn importer_data_binary_is_ignored_without_argument() {
    // `--data-binary` is recognized and ignored, and does not consume the
    // next token: that token is then read as the URL.
    let http = parse_curl("curl --data-binary http://h").unwrap();
    assert_eq!(http.url, "http://h");
    assert_eq!(http.text_param, "");
}

#[test]
fn importer_trailing_flag_without_argument() {
    let http = parse_curl("curl http://h -H").unwrap();
    assert_eq!(http.header, Vec::<(String, String)>::new());
    assert_eq!(http.url, "http://h");
}

#[test]
fn importer_without_content_type_is_other() {
    let http = parse_curl("curl http://h -d body").unwrap();
    assert_eq!(http.param_type, ParamType::Other);
}

#[test]
fn import_error_messages() {
    assert_eq!(ImportError::EmptyCommand.message(), "Empty curl command");
    assert_eq!(ImportError::Malformed.message(), "Mismatched quotes");
    assert_eq!(ImportError::MissingUrl.message(), "No url found");
    assert_eq!(ImportError::UnknownMethod.message(), "No such method");
}
