use weaver::color::{get_bg_color, LIGHT_SKY_BLUE, WHITE};
use weaver::curl::Curl;
use weaver::request::{FormParamType, Http, Method, ParamType};
use weaver::setting::get_default_font;

#[test]
fn default_request() {
    let http = Http::default();
    assert_eq!(http.id.chars().count(), 7);
    assert_eq!(http.name, "New http request");
    assert_eq!(http.url, "");
    assert_eq!(http.method, Method::Get);
    assert!(http.header.is_empty());
    assert_eq!(http.text_param, "");
    assert!(http.form_param.is_empty());
    assert_eq!(http.param_type, ParamType::Json);
    assert!(http.show_header);
    assert!(matches!(http.lifecycle, weaver::request::Lifecycle::Idle));
}

#[test]
fn fresh_ids_have_fixed_length() {
    let a = Http::default();
    let b = Http::default();
    assert_eq!(a.id.chars().count(), 7);
    assert_eq!(b.id.chars().count(), 7);
    assert_eq!(a.get_id(), a.id);
}

#[test]
fn request_name_falls_back_when_empty() {
    let mut http = Http::default();
    http.name = String::new();
    assert_eq!(http.request_name(), "Http Request");
    http.name = "login".to_string();
    assert_eq!(http.request_name(), "login");
}

#[test]
fn defaults_of_the_enums() {
    assert_eq!(Method::default(), Method::Get);
    assert_eq!(ParamType::default(), ParamType::Json);
    assert_eq!(FormParamType::default(), FormParamType::Text);
}

#[test]
fn content_type_of_param_kinds() {
    assert_eq!(ParamType::FormData.get_content_type(), "multipart/form-data");
    assert_eq!(ParamType::Json.get_content_type(), "application/json");
    assert_eq!(ParamType::Query.get_content_type(), "");
    assert_eq!(ParamType::Other.get_content_type(), "");
    assert_eq!(ParamType::NoBody.get_content_type(), "");
}

#[test]
fn method_change_couples_param_type() {
    let mut http = Http::default();
    http.form_param.push((
        "k".to_string(),
        "v".to_string(),
        None,
        FormParamType::Text,
    ));
    http.set_method(Method::Post);
    assert_eq!(http.method, Method::Post);
    assert_eq!(http.param_type, ParamType::FormData);
    assert!(http.form_param.is_empty());

    http.form_param.push((
        "k".to_string(),
        "v".to_string(),
        None,
        FormParamType::Text,
    ));
    http.set_method(Method::Get);
    assert_eq!(http.method, Method::Get);
    assert_eq!(http.param_type, ParamType::Query);
    assert!(http.form_param.is_empty());

    http.set_method(Method::Put);
    assert_eq!(http.param_type, ParamType::FormData);
    http.set_method(Method::Delete);
    assert_eq!(http.method, Method::Delete);
    assert_eq!(http.param_type, ParamType::FormData);
    http.set_method(Method::Patch);
    assert_eq!(http.method, Method::Patch);
    assert_eq!(http.param_type, ParamType::FormData);
}

#[test]
fn selecting_the_same_method_changes_nothing() {
    let mut http = Http::default();
    http.param_type = ParamType::Other;
    http.form_param.push((
        "k".to_string(),
        "v".to_string(),
        None,
        FormParamType::Text,
    ));
    http.set_method(Method::Get);
    assert_eq!(http.param_type, ParamType::Other);
    assert_eq!(http.form_param.len(), 1);
}

#[test]
fn curl_window_submit_success_resets_the_window() {
    let mut curl = Curl::default();
    curl.temp_show = true;
    curl.show_curl_window = true;
    curl.text = "curl http://h -X POST".to_string();
    let imported = curl.submit().unwrap();
    assert_eq!(imported.url, "http://h");
    assert_eq!(imported.method, Method::Post);
    assert_eq!(curl.text, "");
    assert!(curl.error.is_none());
    assert!(!curl.temp_show);
}

#[test]
fn curl_window_submit_failure_keeps_text_and_shows_error() {
    let mut curl = Curl::default();
    curl.text = "curl -H 'oops".to_string();
    assert!(curl.submit().is_none());
    assert_eq!(curl.error.as_deref(), Some("Mismatched quotes"));
    assert_eq!(curl.text, "curl -H 'oops");
}

#[test]
fn curl_window_visibility_sync() {
    let mut curl = Curl::default();
    curl.show_curl_window = true;
    curl.temp_show = false;
    curl.sync_visibility();
    assert!(!curl.show_curl_window);
    curl.show_curl_window = true;
    curl.temp_show = true;
    curl.sync_visibility();
    assert!(curl.show_curl_window);
}

#[test]
fn background_color_of_list_entries() {
    assert_eq!(get_bg_color(true), LIGHT_SKY_BLUE);
    assert_eq!(get_bg_color(false), WHITE);
    assert_eq!(LIGHT_SKY_BLUE, 0x87CEFA);
    assert_eq!(WHITE, 0xFFFFFF);
}

#[test]
fn default_font_is_unset() {
    assert_eq!(get_default_font(), "");
}
